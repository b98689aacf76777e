use vstd::prelude::*;

verus! {

/// `reqwest::Error`, the failure of an HTTP request; carried, never looked into.
#[verifier::external_type_specification]
#[verifier::external_body]
pub struct ExHttpError(reqwest::Error);

/// `serde_json::Error`, a failure to encode or decode JSON; carried, never looked into.
#[verifier::external_type_specification]
#[verifier::external_body]
pub struct ExJsonError(serde_json::Error);

/// `url::ParseError`, the reason a text is not a URL; carried, never looked into.
#[verifier::external_type_specification]
#[verifier::external_body]
pub struct ExUrlParseError(url::ParseError);

/// Everything that can go wrong while talking to a Mist server.
#[derive(Debug)]
pub enum MistError {
    /// The HTTP request failed.
    Http(reqwest::Error),
    /// A JSON text could not be encoded or decoded.
    Serialization(serde_json::Error),
    /// The server answered with an error message.
    Api { message: String },
    /// Authentication failed or was asked for without credentials.
    Auth(String),
    /// The client is configured wrongly.
    Config(String),
    /// The API address is not a URL.
    InvalidUrl(url::ParseError),
    /// A stream name holds a character other than an ASCII letter, an ASCII digit,
    /// `_` or `-`.
    InvalidStreamName(String),
    /// No answer came in time.
    Timeout,
    /// A stream name is longer than 100 bytes; the length is given.
    StreamNameTooLong(usize),
    /// A value was refused before any request was made: the kind of value, its
    /// name, and why it was refused.
    Validation { target: String, name: String, error: String },
    /// A stream source is not acceptable.
    InvalidSource(String),
    /// A push URL is not acceptable.
    InvalidPushUrl(String),
    /// A host is not acceptable.
    InvalidHost(String),
    /// A port is not acceptable.
    InvalidPort(u16),
    /// A configuration is not acceptable.
    InvalidConfiguration(String),
}

/// Adds a message of context to the error of a failed result.
pub trait ErrorContext<T> {
    /// The result, with `msg` attached to its error if it failed.
    fn context(self, msg: String) -> Result<T, MistError>;
}

} // verus!
