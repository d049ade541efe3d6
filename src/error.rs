//! The errors that the client reports.
use vstd::prelude::*;

verus! {

/// The broad class of a failure.
#[derive(Debug, Clone, Copy, PartialEq, Eq, Structural)]
pub enum ErrorKind {
    /// The client was set up with a missing or unusable token, base URL or cursor.
    Configuration,
    /// The request did not reach the server or no answer came back.
    Transport,
    /// The server answered, but not in the expected form.
    Protocol,
    /// An export of a resource other than releases was requested.
    UnsupportedResource,
}

/// A failure of the client, each cause told apart.
#[derive(Debug, Clone, PartialEq, Eq)]
pub enum HerokuruError {
    /// No bearer token was supplied.
    MissingToken,
    /// The bearer token cannot be written as a header value.
    InvalidToken,
    /// The base URL does not parse as a URL.
    MalformedBaseUrl,
    /// The cursor cannot be written as a `Range` header value.
    InvalidRange,
    /// The network round trip failed.
    Transport,
    /// The server answered with a status other than 2xx.
    HttpStatus(u16),
    /// The continuation header is not visible ASCII text.
    BadNextRange,
    /// The body is not a JSON array of release records.
    MalformedBody,
    /// An export of this resource is not supported.
    UnsupportedResource(String),
}

impl HerokuruError {
    pub open spec fn spec_kind(&self) -> ErrorKind {
        match self {
            HerokuruError::MissingToken => ErrorKind::Configuration,
            HerokuruError::InvalidToken => ErrorKind::Configuration,
            HerokuruError::MalformedBaseUrl => ErrorKind::Configuration,
            HerokuruError::InvalidRange => ErrorKind::Configuration,
            HerokuruError::Transport => ErrorKind::Transport,
            HerokuruError::HttpStatus(_) => ErrorKind::Protocol,
            HerokuruError::BadNextRange => ErrorKind::Protocol,
            HerokuruError::MalformedBody => ErrorKind::Protocol,
            HerokuruError::UnsupportedResource(_) => ErrorKind::UnsupportedResource,
        }
    }

    /// The class of this failure.
    pub fn kind(&self) -> (r: ErrorKind)
        ensures
            r == self.spec_kind(),
    {
        match self {
            HerokuruError::MissingToken => ErrorKind::Configuration,
            HerokuruError::InvalidToken => ErrorKind::Configuration,
            HerokuruError::MalformedBaseUrl => ErrorKind::Configuration,
            HerokuruError::InvalidRange => ErrorKind::Configuration,
            HerokuruError::Transport => ErrorKind::Transport,
            HerokuruError::HttpStatus(_) => ErrorKind::Protocol,
            HerokuruError::BadNextRange => ErrorKind::Protocol,
            HerokuruError::MalformedBody => ErrorKind::Protocol,
            HerokuruError::UnsupportedResource(_) => ErrorKind::UnsupportedResource,
        }
    }
}

} // verus!
