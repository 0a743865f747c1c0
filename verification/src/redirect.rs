//! The URL that sends a user to the provider's login page.

use crate::error::Error;
use crate::error::UrlError;
use crate::query::encode_form;
use crate::query::field;
use crate::query::form_text;
use crate::query::lemma_field_at;
use url::Origin;
use url::ParseError;
use url::Url;
use vstd::prelude::*;
use vstd::string::StringExecFns;

verus! {

/// `url::Url`: a parsed URL. Verus sees none of its fields.
#[verifier::external_type_specification]
#[verifier::external_body]
pub struct ExUrl(Url);

/// The text that a `Url` holds: what `Url::as_str` returns.
pub uninterp spec fn url_text(url: Url) -> Seq<char>;

/// What `Url::parse` makes of a text: the text of the URL that it returns,
/// or `None` where it refuses the input.
pub uninterp spec fn parsed_url(input: Seq<char>) -> Option<Seq<char>>;

/// The origin of the URL with the given text, as `scheme://host` or
/// `scheme://host:port`, or `None` where the URL has an opaque origin.
pub uninterp spec fn url_origin(text: Seq<char>) -> Option<Seq<char>>;

/// `Url::parse`: the result is a function of the input alone, and the URL
/// that comes back holds the text that `parsed_url` names.
pub assume_specification[ Url::parse ](input: &str) -> (r: Result<Url, ParseError>)
    ensures
        match r {
            Ok(url) => parsed_url(input@) == Some(url_text(url)),
            Err(_) => parsed_url(input@) is None,
        },
;

/// `Url::origin` and, on what it returns, `Origin::ascii_serialization`:
/// for a tuple origin the text `scheme://host`, with `:port` behind it
/// where the port is not the default of the scheme; for an opaque origin
/// `None`. Both are functions of the URL's text; `url_origin` names them.
#[verifier::external_body]
fn tuple_origin(url: &Url) -> (r: Option<String>)
    ensures
        match r {
            Some(origin) => url_origin(url_text(*url)) == Some(origin@),
            None => url_origin(url_text(*url)) is None,
        },
{
    let origin = url.origin();
    let text = origin.ascii_serialization();
    match origin {
        Origin::Tuple(_, _, _) => Some(text),
        Origin::Opaque(_) => None,
    }
}

/// The pairs of an authorization request, in the order in which they are
/// written: a `checkid_setup` request of OpenID 2.0 that lets the user pick
/// the identity, returns to `return_to` and names `realm` as the party that
/// asks.
pub open spec fn request_pairs(return_to: Seq<char>, realm: Seq<char>) -> Seq<
    (Seq<char>, Seq<char>),
> {
    seq![
        ("openid.mode"@, "checkid_setup"@),
        ("openid.ns"@, "http://specs.openid.net/auth/2.0"@),
        ("openid.identity"@, "http://specs.openid.net/auth/2.0/identifier_select"@),
        ("openid.claimed_id"@, "http://specs.openid.net/auth/2.0/identifier_select"@),
        ("openid.return_to"@, return_to),
        ("openid.realm"@, realm),
    ]
}

/// The provider's login endpoint: users are sent there to log in, and
/// re-validation requests are posted there.
pub const LOGIN_ENDPOINT: &'static str = "https://steamcommunity.com/openid/login";

/// The provider's login endpoint with a query behind it.
pub open spec fn login_url(query: Seq<char>) -> Seq<char> {
    LOGIN_ENDPOINT@ + seq!['?'] + query
}

/// Why no authorization URL is built.
pub enum Refusal {
    /// The callback, or the finished URL, is not an absolute URL.
    Syntax,
    /// The callback has no scheme, host and port to name as realm.
    NoOrigin,
    /// The request cannot be written as a query.
    Query,
}

/// The text of the authorization URL for a callback. The callback must
/// parse as an absolute URL with a tuple origin. The request then returns
/// to the callback as it was given and names that origin as realm; written
/// as a query behind the login endpoint, it is parsed as a URL once more.
pub open spec fn authorization(callback: Seq<char>) -> Result<Seq<char>, Refusal> {
    match parsed_url(callback) {
        None => Err(Refusal::Syntax),
        Some(text) => match url_origin(text) {
            None => Err(Refusal::NoOrigin),
            Some(origin) => match form_text(request_pairs(callback, origin)) {
                None => Err(Refusal::Query),
                Some(query) => match parsed_url(login_url(query)) {
                    None => Err(Refusal::Syntax),
                    Some(location) => Ok(location),
                },
            },
        },
    }
}

/// The error that stands for a refusal.
pub open spec fn refuses(error: Error, refusal: Refusal) -> bool {
    match refusal {
        Refusal::Syntax => error matches Error::ParseUrl(UrlError::Syntax(_)),
        Refusal::NoOrigin => error matches Error::ParseUrl(UrlError::NoOrigin),
        Refusal::Query => error matches Error::ParseQuery(_),
    }
}

/// The URL to which a user is sent to log in.
pub struct Redirect {
    url: Url,
}

impl Redirect {
    /// The text of the URL.
    pub closed spec fn location(&self) -> Seq<char> {
        url_text(self.url)
    }

    /// `result` is what `new` returns for `callback`.
    pub open spec fn built(callback: Seq<char>, result: Result<Redirect, Error>) -> bool {
        match (result, authorization(callback)) {
            (Ok(redirect), Ok(location)) => redirect.location() == location,
            (Err(error), Err(refusal)) => refuses(error, refusal),
            _ => false,
        }
    }

    /// Builds the authorization URL for a callback. Nothing is sent. It
    /// fails with `Error::ParseUrl` exactly if the callback is no absolute
    /// URL, has no tuple origin, or makes a login URL that does not parse;
    /// with `Error::ParseQuery` exactly if, these apart, `serde_qs` refuses
    /// the request.
    pub fn new(callback: &str) -> (r: Result<Redirect, Error>)
        ensures
            Redirect::built(callback@, r),
    {
        let parsed = match Url::parse(callback) {
            Ok(parsed) => parsed,
            Err(e) => {
                return Err(Error::ParseUrl(UrlError::Syntax(e)));
            },
        };
        let realm = match tuple_origin(&parsed) {
            Some(realm) => realm,
            None => {
                return Err(Error::ParseUrl(UrlError::NoOrigin));
            },
        };
        let pairs = Redirect::request(callback, realm.as_str());
        let query = match encode_form(&pairs) {
            Ok(query) => query,
            Err(e) => {
                return Err(Error::ParseQuery(e));
            },
        };
        let text = Redirect::login_location(query.as_str());
        match Url::parse(text.as_str()) {
            Ok(url) => Ok(Redirect { url }),
            Err(e) => Err(Error::ParseUrl(UrlError::Syntax(e))),
        }
    }

    /// The pairs of an authorization request that returns to `return_to`
    /// and names `realm`.
    pub fn request(return_to: &str, realm: &str) -> (pairs: Vec<(String, String)>)
        ensures
            pairs.deep_view() == request_pairs(return_to@, realm@),
    {
        let mut pairs: Vec<(String, String)> = Vec::new();
        pairs.push(("openid.mode".to_owned(), "checkid_setup".to_owned()));
        pairs.push(("openid.ns".to_owned(), "http://specs.openid.net/auth/2.0".to_owned()));
        pairs.push(
            (
                "openid.identity".to_owned(),
                "http://specs.openid.net/auth/2.0/identifier_select".to_owned(),
            ),
        );
        pairs.push(
            (
                "openid.claimed_id".to_owned(),
                "http://specs.openid.net/auth/2.0/identifier_select".to_owned(),
            ),
        );
        pairs.push(("openid.return_to".to_owned(), return_to.to_owned()));
        pairs.push(("openid.realm".to_owned(), realm.to_owned()));
        pairs
    }

    /// The provider's login endpoint with `query` behind it, as a text.
    pub fn login_location(query: &str) -> (text: String)
        ensures
            text@ == login_url(query@),
    {
        let mut text = LOGIN_ENDPOINT.to_owned();
        proof {
            reveal_strlit("?");
        }
        text.append("?");
        text.append(query);
        text
    }

    /// The URL.
    pub fn url(&self) -> (url: &Url)
        ensures
            url_text(*url) == self.location(),
    {
        &self.url
    }
}

/// The request that `new` writes returns to the callback exactly as it was
/// given and names the origin of the callback as realm; and the URL that
/// `new` returns is the login endpoint with that request as its query.
pub proof fn lemma_new_carries_callback(callback: Seq<char>, redirect: Redirect)
    requires
        Redirect::built(callback, Ok(redirect)),
    ensures
        parsed_url(callback) matches Some(text) && url_origin(text) matches Some(origin) && {
            let pairs = request_pairs(callback, origin);
            &&& field(pairs, "openid.return_to"@) == Some(callback)
            &&& field(pairs, "openid.realm"@) == Some(origin)
            &&& form_text(pairs) matches Some(query) && parsed_url(login_url(query)) == Some(
                redirect.location(),
            )
        },
{
    let origin = url_origin(parsed_url(callback)->0)->0;
    lemma_request_fields(callback, origin);
}

/// In a request each key stands once, `openid.return_to` with the first
/// argument and `openid.realm` with the second.
pub proof fn lemma_request_fields(return_to: Seq<char>, realm: Seq<char>)
    ensures
        field(request_pairs(return_to, realm), "openid.return_to"@) == Some(return_to),
        field(request_pairs(return_to, realm), "openid.realm"@) == Some(realm),
        field(request_pairs(return_to, realm), "openid.mode"@) == Some("checkid_setup"@),
        forall|i: int, j: int|
            0 <= i < j < 6 ==> request_pairs(return_to, realm)[i].0 != request_pairs(
                return_to,
                realm,
            )[j].0,
{
    reveal_strlit("openid.mode");
    reveal_strlit("openid.ns");
    reveal_strlit("openid.identity");
    reveal_strlit("openid.claimed_id");
    reveal_strlit("openid.return_to");
    reveal_strlit("openid.realm");
    let pairs = request_pairs(return_to, realm);
    assert(pairs[0].0.len() == 11);
    assert(pairs[1].0.len() == 9);
    assert(pairs[2].0.len() == 15);
    assert(pairs[3].0.len() == 17);
    assert(pairs[4].0.len() == 16);
    assert(pairs[5].0.len() == 12);
    lemma_field_at(pairs, "openid.mode"@, 0);
    lemma_field_at(pairs, "openid.return_to"@, 4);
    lemma_field_at(pairs, "openid.realm"@, 5);
}

/// Building twice from one callback gives one and the same outcome: the
/// same URL text, or a refusal of the same kind. Nothing but the callback
/// goes into the URL.
pub proof fn lemma_new_is_repeatable(
    callback: Seq<char>,
    first: Result<Redirect, Error>,
    second: Result<Redirect, Error>,
)
    requires
        Redirect::built(callback, first),
        Redirect::built(callback, second),
    ensures
        match (first, second) {
            (Ok(a), Ok(b)) => a.location() == b.location(),
            (Err(a), Err(b)) => authorization(callback) matches Err(refusal) && refuses(a, refusal)
                && refuses(b, refusal),
            _ => false,
        },
{
}

} // verus!
