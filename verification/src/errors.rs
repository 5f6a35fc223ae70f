//! The ways a call can fail.

use vstd::prelude::*;

verus! {

/// The error that the API describes in the body of a rejected request.
#[derive(Debug)]
pub struct ClientError {
    pub code: u16,
    pub message: String,
}

/// What could not be encoded or decoded.
#[derive(Debug)]
pub enum CodecError {
    /// A body that is not the JSON that was expected, with the decoder's
    /// message.
    Json(String),
    /// A content type that is no media type.
    Mime(mime::FromStrError),
}

/// Why a call failed. A failed call gives exactly one of these.
#[derive(Debug)]
pub enum Error {
    /// The provider throttles the client: `reset` seconds until the window
    /// opens again.
    RateLimit { reset: u64 },
    /// The provider rejected the request with this status and description.
    Fault { code: u16, error: ClientError },
    /// A payload did not have the expected shape.
    Codec(CodecError),
    /// The connection or the I/O under it failed.
    Transport(String),
    /// The address of the request is no absolute URL, or too long to take
    /// the client's key.
    UrlParse(url::ParseError),
    /// The endpoint needs an access token and the client has none.
    TokenRequired,
}

impl From<mime::FromStrError> for Error {
    fn from(error: mime::FromStrError) -> (wrapped: Error) {
        Error::Codec(CodecError::Mime(error))
    }
}

impl vstd::std_specs::convert::FromSpecImpl<mime::FromStrError> for Error {
    open spec fn obeys_from_spec() -> bool {
        true
    }

    open spec fn from_spec(error: mime::FromStrError) -> Error {
        Error::Codec(CodecError::Mime(error))
    }
}

impl From<url::ParseError> for Error {
    fn from(error: url::ParseError) -> (wrapped: Error) {
        Error::UrlParse(error)
    }
}

impl vstd::std_specs::convert::FromSpecImpl<url::ParseError> for Error {
    open spec fn obeys_from_spec() -> bool {
        true
    }

    open spec fn from_spec(error: url::ParseError) -> Error {
        Error::UrlParse(error)
    }
}

} // verus!
