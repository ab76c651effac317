//! Classified errors of the outbound HTTP client.

use vstd::prelude::*;

verus! {

/// Structured error body that remote peers send: `{"code": .., "message": ..}`.
#[derive(Debug, Clone, PartialEq, Eq)]
pub struct ErrorMessage {
    pub code: u16,
    pub message: String,
}

/// Terminal failure of one logical request.
#[derive(Debug, Clone, PartialEq, Eq)]
pub enum Error {
    /// The remote peer answered with a non-2xx status; the structured body is
    /// kept when it could be decoded.
    Api(u16, Option<ErrorMessage>),
    /// The transport could not complete the exchange.
    Network(String),
    /// The response body did not match the expected shape.
    Parse(String),
    /// Internal plumbing failure (queue or correlator closed).
    Unknown(String),
}

/// Raw outcome of one dispatch attempt: the response body, or a classified error.
pub type ClientResult = Result<String, Error>;

impl Error {
    /// Numeric class of the error: 100 api, 200 network, 300 parse, 400 unknown.
    pub fn class_code(&self) -> (r: u16)
        ensures
            r == self.class_code_spec(),
    {
        match self {
            Error::Api(_, _) => 100,
            Error::Network(_) => 200,
            Error::Parse(_) => 300,
            Error::Unknown(_) => 400,
        }
    }

    pub open spec fn class_code_spec(&self) -> u16 {
        match self {
            Error::Api(_, _) => 100,
            Error::Network(_) => 200,
            Error::Parse(_) => 300,
            Error::Unknown(_) => 400,
        }
    }

    /// Whether the error is transient, that is eligible for a retry.
    pub fn is_transient(&self) -> (r: bool)
        ensures
            r == self is Network,
    {
        match self {
            Error::Network(_) => true,
            _ => false,
        }
    }
}

/// Whether an attempt outcome is a transient network failure.
pub open spec fn is_transient_outcome(r: ClientResult) -> bool {
    r matches Err(Error::Network(_))
}

} // verus!
