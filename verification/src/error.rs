//! The failures that the library reports.

use serde_qs::Error as QsError;
use vstd::prelude::*;

verus! {

/// `url::ParseError`, carried through unread.
#[verifier::external_type_specification]
#[verifier::external_body]
pub struct ExUrlParseError(url::ParseError);

/// `serde_qs::Error`, carried through unread.
#[verifier::external_type_specification]
#[verifier::external_body]
pub struct ExQsError(QsError);

/// Why a callback URL cannot be used.
#[derive(Debug)]
pub enum UrlError {
    /// The text is not an absolute URL.
    Syntax(url::ParseError),
    /// The URL parses, but a scheme, host and port cannot be derived from it.
    NoOrigin,
}

/// Why a query string does not hold a login payload.
#[derive(Debug)]
pub enum QueryError {
    /// The text is not a query string.
    Syntax(QsError),
    /// A required field is absent.
    MissingField(String),
    /// A field holds nested values in place of a text.
    NotText(String),
}

/// A `QueryError` without the outside error that it may carry.
pub enum QueryFault {
    /// The text is not a query string.
    Syntax,
    /// The field of this name is absent.
    MissingField(Seq<char>),
    /// The field of this name holds nested values.
    NotText(Seq<char>),
}

impl View for QueryError {
    type V = QueryFault;

    open spec fn view(&self) -> QueryFault {
        match self {
            QueryError::Syntax(_) => QueryFault::Syntax,
            QueryError::MissingField(name) => QueryFault::MissingField(name@),
            QueryError::NotText(name) => QueryFault::NotText(name@),
        }
    }
}

/// Every failure is final for the call that reports it.
#[derive(Debug)]
pub enum Error {
    /// The callback URL was refused.
    ParseUrl(UrlError),
    /// A request could not be written as a query string.
    ParseQuery(QsError),
    /// The query string of a callback could not be read.
    Deserialize(QueryError),
    /// The claimed identity is not a SteamID64 URL, or the provider did not
    /// confirm the login.
    ParseSteamID(String),
    /// The profile lookup failed or found nobody.
    GetSummaries(String),
}

} // verus!
