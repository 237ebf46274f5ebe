//! The closed set of failures that a command can end with.
use vstd::prelude::*;

verus! {

#[verifier::external_type_specification]
#[verifier::external_body]
pub struct ExUrlParseError(url::ParseError);

#[verifier::external_type_specification]
#[verifier::external_body]
pub struct ExJsonError(serde_json::Error);

#[derive(Debug)]
pub enum SentryCliError {
    /// No usable credentials, or the server answered 401.
    Auth(String),
    /// A setting that the command needs is missing.
    Config(String),
    /// Any other unsuccessful status.
    Api { status: u16, message: String },
    /// The request did not complete (connection, timeout, malformed response).
    Network(String),
    /// The command's arguments do not make sense together.
    Validation(String),
    /// The server answered 404.
    NotFound(String),
    /// The server answered 403.
    Forbidden(String),
    /// The server answered 429.
    RateLimited { retry_after: u64 },
    /// A URL could not be parsed or resolved.
    UrlParse(url::ParseError),
    /// A JSON document could not be written or read.
    Json(serde_json::Error),
    /// Reading or writing a local file or stream failed.
    Io(String),
}

} // verus!
