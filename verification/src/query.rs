//! Query strings: what `serde_qs` writes and reads, and the library's own
//! framing around it.

use crate::text::same_text;
use serde_json::Value;
use serde_qs::Error as QsError;
use std::collections::BTreeMap;
use vstd::prelude::*;
use vstd::string::StringExecFns;

verus! {

/// What `serde_qs::to_string` writes for a map with the one entry `key`,
/// `value`: the two in percent-encoded form with `=` between them, or `None`
/// where it reports an error.
pub uninterp spec fn qs_pair(key: Seq<char>, value: Seq<char>) -> Option<Seq<char>>;

/// What `serde_qs::from_str` reads from a query string into a map from each
/// top-level key to its value: the entries in the order of their keys, each
/// value a text, or `None` for a value with keys of its own; `None` as a
/// whole where it reports an error.
pub uninterp spec fn qs_fields(query: Seq<char>) -> Option<Seq<(Seq<char>, Option<Seq<char>>)>>;

/// `serde_qs::to_string` on a map that holds `key` and `value` and nothing
/// else. The result depends on the two texts alone; `qs_pair` names it.
#[verifier::external_body]
fn encode_pair(key: &str, value: &str) -> (r: Result<String, QsError>)
    ensures
        match r {
            Ok(text) => qs_pair(key@, value@) == Some(text@),
            Err(_) => qs_pair(key@, value@) is None,
        },
{
    let mut entry = BTreeMap::new();
    entry.insert(key, value);
    serde_qs::to_string(&entry)
}

/// `serde_qs::from_str` into a map from `String` to `serde_json::Value`,
/// handed out entry by entry: a value that is a text as `Some`, any other as
/// `None`. The result depends on the query alone; `qs_fields` names it.
#[verifier::external_body]
pub(crate) fn decode_query(query: &str) -> (r: Result<Vec<(String, Option<String>)>, QsError>)
    ensures
        match r {
            Ok(fields) => qs_fields(query@) == Some(fields.deep_view()),
            Err(_) => qs_fields(query@) is None,
        },
{
    let map = serde_qs::from_str::<BTreeMap<String, Value>>(query)?;
    Ok(
        map.into_iter().map(
            |(key, value)|
                match value {
                    Value::String(text) => (key, Some(text)),
                    Value::Null => (key, None),
                    Value::Bool(_) => (key, None),
                    Value::Number(_) => (key, None),
                    Value::Array(_) => (key, None),
                    Value::Object(_) => (key, None),
                },
        ).collect(),
    )
}

/// What `serde_qs` writes for one pair of key and value.
pub open spec fn pair_text(pair: (Seq<char>, Seq<char>)) -> Option<Seq<char>> {
    qs_pair(pair.0, pair.1)
}

/// Every pair of the list can be written.
pub open spec fn encodable(pairs: Seq<(Seq<char>, Seq<char>)>) -> bool {
    forall|i: int| 0 <= i < pairs.len() ==> (#[trigger] pair_text(pairs[i])) is Some
}

/// The parts in order, with `&` between each two.
pub open spec fn joined(parts: Seq<Seq<char>>) -> Seq<char>
    decreases parts.len(),
{
    if parts.len() == 0 {
        Seq::empty()
    } else if parts.len() == 1 {
        parts[0]
    } else {
        joined(parts.drop_last()) + seq!['&'] + parts.last()
    }
}

/// The pairs of a list, each as `serde_qs` writes it.
pub open spec fn written(pairs: Seq<(Seq<char>, Seq<char>)>) -> Seq<Seq<char>> {
    Seq::new(pairs.len(), |i: int| pair_text(pairs[i]).unwrap())
}

/// A list of pairs as a form body or query string: each pair as `serde_qs`
/// writes it, in the order of the list, with `&` between each two. `None`
/// where one of the pairs cannot be written.
pub open spec fn form_text(pairs: Seq<(Seq<char>, Seq<char>)>) -> Option<Seq<char>> {
    if encodable(pairs) {
        Some(joined(written(pairs)))
    } else {
        None
    }
}

/// Joins the parts of a form body or query string with `&`.
pub fn join_parts(parts: &Vec<String>) -> (text: String)
    ensures
        text@ == joined(parts.deep_view()),
{
    let ghost all = parts.deep_view();
    let mut text = String::new();
    let mut i: usize = 0;
    while i < parts.len()
        invariant
            all == parts.deep_view(),
            i <= parts.len(),
            text@ == joined(all.take(i as int)),
        decreases parts.len() - i,
    {
        if i > 0 {
            proof {
                reveal_strlit("&");
            }
            text.append("&");
        }
        text.append(parts[i].as_str());
        assert(all.take(i + 1).drop_last() =~= all.take(i as int));
        i = i + 1;
    }
    assert(all.take(parts.len() as int) =~= all);
    text
}

/// Writes a list of pairs as a form body or query string. It fails exactly
/// if `serde_qs` refuses one of the pairs, with the error of the first such
/// pair.
pub fn encode_form(pairs: &Vec<(String, String)>) -> (r: Result<String, QsError>)
    ensures
        match r {
            Ok(text) => form_text(pairs.deep_view()) == Some(text@),
            Err(_) => form_text(pairs.deep_view()) is None,
        },
{
    let ghost all = pairs.deep_view();
    let mut parts: Vec<String> = Vec::new();
    let mut i: usize = 0;
    while i < pairs.len()
        invariant
            all == pairs.deep_view(),
            i <= pairs.len(),
            parts.len() == i,
            forall|k: int| 0 <= k < i ==> (#[trigger] pair_text(all[k])) == Some(parts@[k]@),
        decreases pairs.len() - i,
    {
        let part = match encode_pair(pairs[i].0.as_str(), pairs[i].1.as_str()) {
            Ok(part) => part,
            Err(e) => {
                assert(pair_text(all[i as int]) is None);
                return Err(e);
            },
        };
        parts.push(part);
        i = i + 1;
    }
    assert(parts.deep_view() =~= written(all));
    Ok(join_parts(&parts))
}

/// What a list of entries holds under `name`: `None` if no entry has that
/// key, else the value of the first such entry.
pub open spec fn field<V>(fields: Seq<(Seq<char>, V)>, name: Seq<char>) -> Option<V>
    decreases fields.len(),
{
    if fields.len() == 0 {
        None
    } else if fields[0].0 == name {
        Some(fields[0].1)
    } else {
        field(fields.drop_first(), name)
    }
}

/// Looks a key up in a decoded query.
pub fn find_field(fields: &Vec<(String, Option<String>)>, name: &str) -> (found: Option<
    Option<String>,
>)
    ensures
        found.deep_view() == field(fields.deep_view(), name@),
{
    let ghost all = fields.deep_view();
    let mut i: usize = 0;
    assert(all.skip(0) =~= all);
    while i < fields.len()
        invariant
            all == fields.deep_view(),
            i <= fields.len(),
            field(all, name@) == field(all.skip(i as int), name@),
        decreases fields.len() - i,
    {
        assert(all.skip(i as int).drop_first() =~= all.skip(i + 1));
        if same_text(fields[i].0.as_str(), name) {
            let value = match &fields[i].1 {
                Some(text) => Some(text.clone()),
                None => None,
            };
            return Some(value);
        }
        i = i + 1;
    }
    None
}

/// A list holds under `name` the value of the entry at `at`, where that
/// entry has the key `name` and none before it has.
pub proof fn lemma_field_at<V>(fields: Seq<(Seq<char>, V)>, name: Seq<char>, at: int)
    requires
        0 <= at < fields.len(),
        fields[at].0 == name,
        forall|k: int| 0 <= k < at ==> fields[k].0 != name,
    ensures
        field(fields, name) == Some(fields[at].1),
    decreases at,
{
    if at > 0 {
        lemma_field_at(fields.drop_first(), name, at - 1);
    }
}

/// A list holds nothing under `name` exactly if none of its entries has
/// the key `name`.
pub proof fn lemma_field_absent<V>(fields: Seq<(Seq<char>, V)>, name: Seq<char>)
    ensures
        field(fields, name) is None <==> forall|k: int|
            0 <= k < fields.len() ==> (#[trigger] fields[k]).0 != name,
    decreases fields.len(),
{
    if fields.len() > 0 {
        let rest = fields.drop_first();
        lemma_field_absent(rest, name);
        if fields[0].0 != name && field(rest, name) is None {
            assert forall|k: int| 0 <= k < fields.len() implies (#[trigger] fields[k]).0
                != name by {
                if k > 0 {
                    assert(rest[k - 1] == fields[k]);
                }
            }
        }
    }
}

} // verus!
