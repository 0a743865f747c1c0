//! The provider's answer to a re-validation request: lines of `key:value`.

use crate::text::chars_of;
use vstd::prelude::*;

verus! {

/// `body[start..end]` is a line of `body`: it holds no line feed, and on
/// each side a line feed or an end of the text bounds it.
pub open spec fn is_line(body: Seq<char>, start: int, end: int) -> bool {
    &&& 0 <= start <= end <= body.len()
    &&& start == 0 || body[start - 1] == '\n'
    &&& end == body.len() || body[end] == '\n'
    &&& forall|k: int| start <= k < end ==> body[k] != '\n'
}

/// The first colon of `line` stands at `colon`.
pub open spec fn is_first_colon(line: Seq<char>, colon: int) -> bool {
    &&& 0 <= colon < line.len()
    &&& line[colon] == ':'
    &&& forall|k: int| 0 <= k < colon ==> line[k] != ':'
}

/// `line` has a colon, `key` is what stands before the first one and
/// `value` what stands after it.
pub open spec fn line_says(line: Seq<char>, key: Seq<char>, value: Seq<char>) -> bool {
    exists|colon: int|
        #[trigger] is_first_colon(line, colon) && line.take(colon) == key && line.skip(colon + 1)
            == value
}

/// Some line of `body` has the key `is_valid` and the value `true`.
pub open spec fn confirms(body: Seq<char>) -> bool {
    exists|start: int, end: int|
        #[trigger] is_line(body, start, end) && line_says(
            body.subrange(start, end),
            "is_valid"@,
            "true"@,
        )
}

/// Whether `body[from..to]` spells `word`.
fn spells(body: &Vec<char>, from: usize, to: usize, word: &Vec<char>) -> (same: bool)
    requires
        from <= to <= body.len(),
    ensures
        same == (body@.subrange(from as int, to as int) == word@),
{
    if to - from != word.len() {
        return false;
    }
    let mut i: usize = 0;
    while i < word.len()
        invariant
            from <= to <= body.len(),
            to - from == word.len(),
            i <= word.len(),
            forall|k: int| 0 <= k < i ==> body@[from + k] == word@[k],
        decreases word.len() - i,
    {
        if body[from + i] != word[i] {
            return false;
        }
        i = i + 1;
    }
    assert(body@.subrange(from as int, to as int) =~= word@);
    true
}

/// Whether the line `body[start..end]` says `key:value`.
fn says(body: &Vec<char>, start: usize, end: usize, key: &Vec<char>, value: &Vec<char>) -> (yes:
    bool)
    requires
        start <= end <= body.len(),
    ensures
        yes == line_says(body@.subrange(start as int, end as int), key@, value@),
{
    let ghost line = body@.subrange(start as int, end as int);
    let mut colon: usize = start;
    while colon < end && body[colon] != ':'
        invariant
            start <= colon <= end <= body.len(),
            line == body@.subrange(start as int, end as int),
            forall|k: int| 0 <= k < colon - start ==> line[k] != ':',
        decreases end - colon,
    {
        colon = colon + 1;
    }
    if colon == end {
        return false;
    }
    let ghost at = colon - start;
    assert(is_first_colon(line, at));
    assert(line.take(at) =~= body@.subrange(start as int, colon as int));
    assert(line.skip(at + 1) =~= body@.subrange(colon + 1, end as int));
    spells(body, start, colon, key) && spells(body, colon + 1, end, value)
}

/// Reads the provider's answer: `true` exactly if one of its lines, split at
/// its first colon, has the key `is_valid` and the value `true`. Lines end
/// at a line feed only, and both words are compared character by character.
pub fn is_valid(response: &str) -> (valid: bool)
    ensures
        valid == confirms(response@),
{
    let body = chars_of(response);
    let key = chars_of("is_valid");
    let value = chars_of("true");
    let n = body.len();
    let mut start: usize = 0;
    loop
        invariant
            body@ == response@,
            key@ == "is_valid"@,
            value@ == "true"@,
            n == body.len(),
            start <= n,
            start == 0 || body@[start - 1] == '\n',
            forall|s: int, e: int|
                #[trigger] is_line(body@, s, e) && s < start ==> !line_says(
                    body@.subrange(s, e),
                    key@,
                    value@,
                ),
        decreases n - start,
    {
        let mut end: usize = start;
        while end < n && body[end] != '\n'
            invariant
                n == body.len(),
                start <= end <= n,
                forall|k: int| start <= k < end ==> body@[k] != '\n',
            decreases n - end,
        {
            end = end + 1;
        }
        assert(is_line(body@, start as int, end as int));
        if says(&body, start, end, &key, &value) {
            return true;
        }
        assert forall|s: int, e: int| #[trigger] is_line(body@, s, e) && s <= end implies !line_says(
            body@.subrange(s, e),
            key@,
            value@,
        ) by {
            if s == start {
                assert(e == end);
            } else if s > start {
                assert(body@[s - 1] == '\n');
            }
        }
        if end == n {
            return false;
        }
        start = end + 1;
    }
}

/// `line` is one of the lines of `body`.
pub open spec fn has_line(body: Seq<char>, line: Seq<char>) -> bool {
    exists|start: int, end: int| #[trigger] is_line(body, start, end) && body.subrange(start, end) == line
}

/// For a key without a colon, a line says `key:value` exactly if it is the
/// key, one colon and the value, with nothing before, between or after.
pub proof fn lemma_line_says(line: Seq<char>, key: Seq<char>, value: Seq<char>)
    requires
        forall|k: int| 0 <= k < key.len() ==> key[k] != ':',
    ensures
        line_says(line, key, value) <==> line == key + seq![':'] + value,
{
    let whole = key + seq![':'] + value;
    if line_says(line, key, value) {
        let colon = choose|colon: int|
            #[trigger] is_first_colon(line, colon) && line.take(colon) == key && line.skip(colon + 1)
                == value;
        assert(line =~= line.take(colon) + seq![line[colon]] + line.skip(colon + 1));
    }
    if line == whole {
        let colon = key.len() as int;
        assert(is_first_colon(line, colon));
        assert(line.take(colon) =~= key);
        assert(line.skip(colon + 1) =~= value);
    }
}

/// The provider confirms exactly if its answer has the line `is_valid:true`:
/// a line `is_valid:false`, `is_valid:True` or `is_valid: true` confirms
/// nothing, and neither does the right text inside a longer line.
pub proof fn lemma_confirms_iff_line(body: Seq<char>)
    ensures
        confirms(body) <==> has_line(body, "is_valid:true"@),
{
    reveal_strlit("is_valid");
    reveal_strlit("true");
    reveal_strlit("is_valid:true");
    assert("is_valid:true"@ =~= "is_valid"@ + seq![':'] + "true"@);
    assert forall|start: int, end: int|
        line_says(body.subrange(start, end), "is_valid"@, "true"@) == (body.subrange(start, end)
            == "is_valid:true"@) by {
        lemma_line_says(body.subrange(start, end), "is_valid"@, "true"@);
    }
}

} // verus!
