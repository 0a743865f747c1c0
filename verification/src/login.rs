//! The login payload that the provider sends back on the callback.

use crate::error::Error;
use crate::error::QueryError;
use crate::error::QueryFault;
use crate::identity::claimed_id;
use crate::identity::claimed_identity;
use crate::query::decode_query;
use crate::query::encode_form;
use crate::query::field;
use crate::query::find_field;
use crate::query::form_text;
use crate::query::lemma_field_absent;
use crate::query::lemma_field_at;
use crate::query::qs_fields;
use serde_qs::Error as QsError;
use vstd::prelude::*;

verus! {

/// The fields of a callback. All but `invalidate_handle` are required.
#[derive(Debug)]
pub struct LoginData {
    pub ns: String,
    pub mode: String,
    pub op_endpoint: String,
    pub claimed_id: String,
    pub identity: String,
    pub return_to: String,
    pub response_nonce: String,
    pub invalidate_handle: Option<String>,
    pub assoc_handle: String,
    pub signed: String,
    pub sig: String,
}

/// A `LoginData` as texts.
pub struct LoginPayload {
    pub ns: Seq<char>,
    pub mode: Seq<char>,
    pub op_endpoint: Seq<char>,
    pub claimed_id: Seq<char>,
    pub identity: Seq<char>,
    pub return_to: Seq<char>,
    pub response_nonce: Seq<char>,
    pub invalidate_handle: Option<Seq<char>>,
    pub assoc_handle: Seq<char>,
    pub signed: Seq<char>,
    pub sig: Seq<char>,
}

impl View for LoginData {
    type V = LoginPayload;

    open spec fn view(&self) -> LoginPayload {
        LoginPayload {
            ns: self.ns@,
            mode: self.mode@,
            op_endpoint: self.op_endpoint@,
            claimed_id: self.claimed_id@,
            identity: self.identity@,
            return_to: self.return_to@,
            response_nonce: self.response_nonce@,
            invalidate_handle: match self.invalidate_handle {
                Some(handle) => Some(handle@),
                None => None,
            },
            assoc_handle: self.assoc_handle@,
            signed: self.signed@,
            sig: self.sig@,
        }
    }
}

/// The text of a required field: the field must be there and hold a text.
pub open spec fn text_field(fields: Seq<(Seq<char>, Option<Seq<char>>)>, name: Seq<char>) -> Result<
    Seq<char>,
    QueryFault,
> {
    match field(fields, name) {
        None => Err(QueryFault::MissingField(name)),
        Some(None) => Err(QueryFault::NotText(name)),
        Some(Some(text)) => Ok(text),
    }
}

/// The text of an optional field: absent, or present with an empty text, it
/// is `None`; present, it must hold a text.
pub open spec fn optional_field(fields: Seq<(Seq<char>, Option<Seq<char>>)>, name: Seq<char>) -> Result<
    Option<Seq<char>>,
    QueryFault,
> {
    match field(fields, name) {
        None => Ok(None),
        Some(None) => Err(QueryFault::NotText(name)),
        Some(Some(text)) => Ok(
            if text.len() == 0 {
                None
            } else {
                Some(text)
            },
        ),
    }
}

/// The first field, in the order of `LoginData`, that a decoded query lacks
/// or holds in the wrong shape.
pub open spec fn first_fault(fields: Seq<(Seq<char>, Option<Seq<char>>)>) -> Option<QueryFault> {
    if text_field(fields, "openid.ns"@) is Err {
        Some(text_field(fields, "openid.ns"@)->Err_0)
    } else if text_field(fields, "openid.mode"@) is Err {
        Some(text_field(fields, "openid.mode"@)->Err_0)
    } else if text_field(fields, "openid.op_endpoint"@) is Err {
        Some(text_field(fields, "openid.op_endpoint"@)->Err_0)
    } else if text_field(fields, "openid.claimed_id"@) is Err {
        Some(text_field(fields, "openid.claimed_id"@)->Err_0)
    } else if text_field(fields, "openid.identity"@) is Err {
        Some(text_field(fields, "openid.identity"@)->Err_0)
    } else if text_field(fields, "openid.return_to"@) is Err {
        Some(text_field(fields, "openid.return_to"@)->Err_0)
    } else if text_field(fields, "openid.response_nonce"@) is Err {
        Some(text_field(fields, "openid.response_nonce"@)->Err_0)
    } else if optional_field(fields, "openid.invalidate_handle"@) is Err {
        Some(optional_field(fields, "openid.invalidate_handle"@)->Err_0)
    } else if text_field(fields, "openid.assoc_handle"@) is Err {
        Some(text_field(fields, "openid.assoc_handle"@)->Err_0)
    } else if text_field(fields, "openid.signed"@) is Err {
        Some(text_field(fields, "openid.signed"@)->Err_0)
    } else if text_field(fields, "openid.sig"@) is Err {
        Some(text_field(fields, "openid.sig"@)->Err_0)
    } else {
        None
    }
}

/// The payload that a decoded query holds, where `first_fault` finds none.
pub open spec fn payload_of(fields: Seq<(Seq<char>, Option<Seq<char>>)>) -> LoginPayload {
    LoginPayload {
        ns: text_field(fields, "openid.ns"@)->Ok_0,
        mode: text_field(fields, "openid.mode"@)->Ok_0,
        op_endpoint: text_field(fields, "openid.op_endpoint"@)->Ok_0,
        claimed_id: text_field(fields, "openid.claimed_id"@)->Ok_0,
        identity: text_field(fields, "openid.identity"@)->Ok_0,
        return_to: text_field(fields, "openid.return_to"@)->Ok_0,
        response_nonce: text_field(fields, "openid.response_nonce"@)->Ok_0,
        invalidate_handle: optional_field(fields, "openid.invalidate_handle"@)->Ok_0,
        assoc_handle: text_field(fields, "openid.assoc_handle"@)->Ok_0,
        signed: text_field(fields, "openid.signed"@)->Ok_0,
        sig: text_field(fields, "openid.sig"@)->Ok_0,
    }
}

/// What a query string holds as a login payload: the query must decode, and
/// every required field must be there as a text. Keys that are no field of
/// the payload are passed over.
pub open spec fn login_payload(query: Seq<char>) -> Result<LoginPayload, QueryFault> {
    match qs_fields(query) {
        None => Err(QueryFault::Syntax),
        Some(fields) => match first_fault(fields) {
            Some(fault) => Err(fault),
            None => Ok(payload_of(fields)),
        },
    }
}

impl LoginPayload {
    /// The payload as pairs of key and value, in the order of `LoginData`;
    /// an absent `invalidate_handle` has no pair.
    pub open spec fn pairs(self) -> Seq<(Seq<char>, Seq<char>)> {
        seq![
            ("openid.ns"@, self.ns),
            ("openid.mode"@, self.mode),
            ("openid.op_endpoint"@, self.op_endpoint),
            ("openid.claimed_id"@, self.claimed_id),
            ("openid.identity"@, self.identity),
            ("openid.return_to"@, self.return_to),
            ("openid.response_nonce"@, self.response_nonce),
        ] + match self.invalidate_handle {
            Some(handle) => seq![("openid.invalidate_handle"@, handle)],
            None => seq![],
        } + seq![
            ("openid.assoc_handle"@, self.assoc_handle),
            ("openid.signed"@, self.signed),
            ("openid.sig"@, self.sig),
        ]
    }

    /// The payload with its mode replaced by `check_authentication`, as the
    /// provider expects it back. Every other field stays.
    pub open spec fn check_authentication(self) -> LoginPayload {
        LoginPayload { mode: "check_authentication"@, ..self }
    }

    /// The body of the re-validation request: the pairs of the payload in
    /// `check_authentication` mode, written as a form. `None` where
    /// `serde_qs` refuses one of them.
    pub open spec fn revalidation_form(self) -> Option<Seq<char>> {
        form_text(self.check_authentication().pairs())
    }
}

/// Reads a required field from a decoded query.
fn required(fields: &Vec<(String, Option<String>)>, name: &str) -> (r: Result<String, QueryError>)
    ensures
        match r {
            Ok(text) => text_field(fields.deep_view(), name@) == Ok::<Seq<char>, QueryFault>(text@),
            Err(e) => text_field(fields.deep_view(), name@) == Err::<Seq<char>, QueryFault>(e@),
        },
{
    match find_field(fields, name) {
        None => Err(QueryError::MissingField(name.to_owned())),
        Some(None) => Err(QueryError::NotText(name.to_owned())),
        Some(Some(text)) => Ok(text),
    }
}

/// Reads an optional field from a decoded query.
fn optional(fields: &Vec<(String, Option<String>)>, name: &str) -> (r: Result<
    Option<String>,
    QueryError,
>)
    ensures
        match r {
            Ok(text) => optional_field(fields.deep_view(), name@) == Ok::<
                Option<Seq<char>>,
                QueryFault,
            >(text.deep_view()),
            Err(e) => optional_field(fields.deep_view(), name@) == Err::<
                Option<Seq<char>>,
                QueryFault,
            >(e@),
        },
{
    match find_field(fields, name) {
        None => Ok(None),
        Some(None) => Err(QueryError::NotText(name.to_owned())),
        Some(Some(text)) => if text.as_str().is_empty() {
            Ok(None)
        } else {
            Ok(Some(text))
        },
    }
}

impl LoginData {
    /// Reads the payload from the query string of a callback. Fails with
    /// `Error::Deserialize` exactly if the query does not decode or a field
    /// is missing or has the wrong shape, and then names the first such
    /// field.
    pub fn from_query(query_string: &str) -> (r: Result<LoginData, Error>)
        ensures
            match r {
                Ok(data) => login_payload(query_string@) == Ok::<LoginPayload, QueryFault>(data@),
                Err(Error::Deserialize(e)) => login_payload(query_string@) == Err::<
                    LoginPayload,
                    QueryFault,
                >(e@),
                Err(_) => false,
            },
    {
        let fields = match decode_query(query_string) {
            Ok(fields) => fields,
            Err(e) => {
                return Err(Error::Deserialize(QueryError::Syntax(e)));
            },
        };
        match LoginData::from_fields(&fields) {
            Ok(data) => Ok(data),
            Err(e) => Err(Error::Deserialize(e)),
        }
    }

    /// Picks the payload out of a decoded query: a list of keys, each with
    /// its text, or with `None` where it holds nested values. Every field
    /// but `invalidate_handle` must be there, and every field that is there
    /// must hold a text; the first field, in the order of `LoginData`, that
    /// fails this is reported. An `invalidate_handle` with an empty text
    /// counts as absent. Other keys are passed over.
    pub fn from_fields(fields: &Vec<(String, Option<String>)>) -> (r: Result<LoginData, QueryError>)
        ensures
            match r {
                Ok(data) => first_fault(fields.deep_view()) is None && data@ == payload_of(
                    fields.deep_view(),
                ),
                Err(e) => first_fault(fields.deep_view()) == Some(e@),
            },
    {
        let ns = required(fields, "openid.ns")?;
        let mode = required(fields, "openid.mode")?;
        let op_endpoint = required(fields, "openid.op_endpoint")?;
        let claimed_id = required(fields, "openid.claimed_id")?;
        let identity = required(fields, "openid.identity")?;
        let return_to = required(fields, "openid.return_to")?;
        let response_nonce = required(fields, "openid.response_nonce")?;
        let invalidate_handle = optional(fields, "openid.invalidate_handle")?;
        let assoc_handle = required(fields, "openid.assoc_handle")?;
        let signed = required(fields, "openid.signed")?;
        let sig = required(fields, "openid.sig")?;
        Ok(
            LoginData {
                ns,
                mode,
                op_endpoint,
                claimed_id,
                identity,
                return_to,
                response_nonce,
                invalidate_handle,
                assoc_handle,
                signed,
                sig,
            },
        )
    }

    /// The SteamID64 that the payload claims. The claimed identity must be
    /// `http://steamcommunity.com/openid/id/` or its `https` form, followed
    /// by 17 decimal digits and nothing else; any other text is refused
    /// with `Error::ParseSteamID`.
    pub fn claim_id(&self) -> (r: Result<u64, Error>)
        ensures
            match r {
                Ok(id) => claimed_id(self.claimed_id@) == Some(id as nat),
                Err(Error::ParseSteamID(message)) => claimed_id(self.claimed_id@) is None
                    && message@ == "Invalid claimed url"@,
                Err(_) => false,
            },
    {
        match claimed_identity(self.claimed_id.as_str()) {
            Some(id) => Ok(id),
            None => Err(Error::ParseSteamID("Invalid claimed url".to_owned())),
        }
    }

    /// A copy of the payload in `check_authentication` mode.
    pub fn check_authentication(&self) -> (copy: LoginData)
        ensures
            copy@ == self@.check_authentication(),
    {
        LoginData {
            ns: self.ns.clone(),
            mode: "check_authentication".to_owned(),
            op_endpoint: self.op_endpoint.clone(),
            claimed_id: self.claimed_id.clone(),
            identity: self.identity.clone(),
            return_to: self.return_to.clone(),
            response_nonce: self.response_nonce.clone(),
            invalidate_handle: match &self.invalidate_handle {
                Some(handle) => Some(handle.clone()),
                None => None,
            },
            assoc_handle: self.assoc_handle.clone(),
            signed: self.signed.clone(),
            sig: self.sig.clone(),
        }
    }

    /// The payload as pairs of key and value.
    pub fn pairs(&self) -> (pairs: Vec<(String, String)>)
        ensures
            pairs.deep_view() == self@.pairs(),
    {
        let mut pairs: Vec<(String, String)> = Vec::new();
        pairs.push(("openid.ns".to_owned(), self.ns.clone()));
        pairs.push(("openid.mode".to_owned(), self.mode.clone()));
        pairs.push(("openid.op_endpoint".to_owned(), self.op_endpoint.clone()));
        pairs.push(("openid.claimed_id".to_owned(), self.claimed_id.clone()));
        pairs.push(("openid.identity".to_owned(), self.identity.clone()));
        pairs.push(("openid.return_to".to_owned(), self.return_to.clone()));
        pairs.push(("openid.response_nonce".to_owned(), self.response_nonce.clone()));
        match &self.invalidate_handle {
            Some(handle) => {
                pairs.push(("openid.invalidate_handle".to_owned(), handle.clone()));
            },
            None => {},
        }
        pairs.push(("openid.assoc_handle".to_owned(), self.assoc_handle.clone()));
        pairs.push(("openid.signed".to_owned(), self.signed.clone()));
        pairs.push(("openid.sig".to_owned(), self.sig.clone()));
        pairs
    }

    /// The body to post to the provider for re-validation: the payload in
    /// `check_authentication` mode, written as a form. A payload that
    /// claims no identity URL is refused first, so that nothing is posted
    /// for it; a payload that `serde_qs` cannot write is refused with the
    /// text of its error.
    pub fn revalidation_form(&self) -> (r: Result<String, Error>)
        ensures
            match r {
                Ok(body) => claimed_id(self.claimed_id@) is Some && self@.revalidation_form()
                    == Some(body@),
                Err(Error::ParseSteamID(message)) => if claimed_id(self.claimed_id@) is None {
                    message@ == "Invalid claimed url"@
                } else {
                    self@.revalidation_form() is None
                },
                Err(_) => false,
            },
    {
        match self.claim_id() {
            Ok(_) => {},
            Err(e) => {
                return Err(e);
            },
        }
        match self.check_authentication().to_form() {
            Ok(body) => Ok(body),
            Err(e) => Err(Error::ParseSteamID(e.to_string())),
        }
    }

    /// The payload written as a form body, field by field in the order of
    /// `LoginData`. It fails exactly if `serde_qs` refuses a field.
    pub fn to_form(&self) -> (r: Result<String, QsError>)
        ensures
            match r {
                Ok(text) => form_text(self@.pairs()) == Some(text@),
                Err(_) => form_text(self@.pairs()) is None,
            },
    {
        let pairs = self.pairs();
        encode_form(&pairs)
    }
}

/// Whatever mode the callback had, the re-validation request has the mode
/// `check_authentication`, and the body that is posted does not depend on
/// the callback's mode.
pub proof fn lemma_revalidation_mode(payload: LoginPayload, mode: Seq<char>)
    ensures
        field(payload.check_authentication().pairs(), "openid.mode"@) == Some(
            "check_authentication"@,
        ),
        (LoginPayload { mode, ..payload }).revalidation_form() == payload.revalidation_form(),
{
    reveal_strlit("openid.ns");
    reveal_strlit("openid.mode");
    let pairs = payload.check_authentication().pairs();
    assert(pairs[0].0.len() == 9);
    lemma_field_at(pairs, "openid.mode"@, 1);
    assert((LoginPayload { mode, ..payload }).check_authentication()
        == payload.check_authentication());
}

/// Re-validation changes the mode and nothing else: the pairs of the
/// request are those of the payload, but for the value of `openid.mode`.
pub proof fn lemma_revalidation_keeps_fields(payload: LoginPayload)
    ensures
        payload.check_authentication().pairs().len() == payload.pairs().len(),
        forall|i: int|
            0 <= i < payload.pairs().len() && i != 1 ==> payload.check_authentication().pairs()[i]
                == payload.pairs()[i],
        payload.check_authentication().pairs()[1] == ("openid.mode"@, "check_authentication"@),
        payload.pairs()[1] == ("openid.mode"@, payload.mode),
{
}

/// A list of pairs as a decoded query in which every key holds a text.
pub open spec fn as_fields(pairs: Seq<(Seq<char>, Seq<char>)>) -> Seq<
    (Seq<char>, Option<Seq<char>>),
> {
    Seq::new(pairs.len(), |i: int| (pairs[i].0, Some(pairs[i].1)))
}

/// The pairs of a payload read back as that payload: no field is lost or
/// mixed up between `pairs` and `from_fields`. An `invalidate_handle` that
/// is present and empty is the one value that does not read back, as it
/// counts as absent.
pub proof fn lemma_pairs_read_back(payload: LoginPayload)
    requires
        payload.invalidate_handle != Some(Seq::<char>::empty()),
    ensures
        first_fault(as_fields(payload.pairs())) is None,
        payload_of(as_fields(payload.pairs())) == payload,
{
    reveal_strlit("openid.ns");
    reveal_strlit("openid.mode");
    reveal_strlit("openid.op_endpoint");
    reveal_strlit("openid.claimed_id");
    reveal_strlit("openid.identity");
    reveal_strlit("openid.return_to");
    reveal_strlit("openid.response_nonce");
    reveal_strlit("openid.invalidate_handle");
    reveal_strlit("openid.assoc_handle");
    reveal_strlit("openid.signed");
    reveal_strlit("openid.sig");
    let pairs = payload.pairs();
    let fields = as_fields(pairs);
    let shift: int = if payload.invalidate_handle is Some {
        1
    } else {
        0
    };
    assert(fields[0].0.len() == 9);
    assert(fields[1].0.len() == 11);
    assert(fields[2].0.len() == 18);
    assert(fields[3].0.len() == 17);
    assert(fields[4].0.len() == 15);
    assert(fields[5].0.len() == 16);
    assert(fields[6].0.len() == 21);
    assert(fields[7 + shift].0.len() == 19);
    assert(fields[8 + shift].0.len() == 13);
    assert(fields[9 + shift].0.len() == 10);
    lemma_field_at(fields, "openid.ns"@, 0);
    lemma_field_at(fields, "openid.mode"@, 1);
    lemma_field_at(fields, "openid.op_endpoint"@, 2);
    lemma_field_at(fields, "openid.claimed_id"@, 3);
    lemma_field_at(fields, "openid.identity"@, 4);
    lemma_field_at(fields, "openid.return_to"@, 5);
    lemma_field_at(fields, "openid.response_nonce"@, 6);
    lemma_field_at(fields, "openid.assoc_handle"@, 7 + shift);
    lemma_field_at(fields, "openid.signed"@, 8 + shift);
    lemma_field_at(fields, "openid.sig"@, 9 + shift);
    match payload.invalidate_handle {
        Some(handle) => {
            lemma_field_at(fields, "openid.invalidate_handle"@, 7);
            assert(handle.len() != 0) by {
                if handle.len() == 0 {
                    assert(handle =~= Seq::<char>::empty());
                }
            }
        },
        None => {
            lemma_field_absent(fields, "openid.invalidate_handle"@);
        },
    }
}

} // verus!
