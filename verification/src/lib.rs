//! Relying-party side of the Steam OpenID 2.0 login handshake.
//!
//! [`Redirect`] builds the URL that sends a user to the provider's login
//! page. [`Verify`] decides, from the query string of the callback and the
//! provider's answer to the re-validation request, whether the login is
//! genuine, and yields the SteamID64 that was claimed.
//!
//! Nothing here touches the network: the caller posts the form that
//! [`Verify::revalidation_form`] returns and hands the answer back.

pub mod error;
pub mod identity;
pub mod login;
pub mod query;
pub mod redirect;
pub mod response;
pub mod text;
pub mod verify;

pub use error::Error;
pub use error::QueryError;
pub use error::UrlError;
pub use login::LoginData;
pub use redirect::Redirect;
pub use redirect::LOGIN_ENDPOINT;
pub use verify::PlayerSummaries;
pub use verify::Verify;
pub use verify::SUMMARIES_ENDPOINT;
