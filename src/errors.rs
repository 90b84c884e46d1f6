//! Errors of the service and of link creation.

use vstd::prelude::*;

verus! {

#[verifier::external_type_specification]
#[verifier::external_body]
pub struct ExRedisError(redis::RedisError);

/// The body of an error answer.
#[derive(Clone, Debug, PartialEq, Eq)]
pub struct ErrorResponse {
    pub message: String,
}

/// A failure of the key-value backed service.
#[derive(Debug)]
pub enum ServiceError {
    RedisError(redis::RedisError),
    UrlParseError(url::ParseError),
    /// Every candidate code drawn was already claimed.
    AllocationExhausted,
}

impl ServiceError {
    /// The HTTP status that reports this error: a bad URL is the caller's
    /// fault, a store failure or an exhausted key space the server's.
    pub fn status_code(&self) -> (r: u16)
        ensures
            r == match self {
                ServiceError::UrlParseError(_) => 400u16,
                _ => 500u16,
            },
    {
        match self {
            ServiceError::RedisError(_) => 500,
            ServiceError::UrlParseError(_) => 400,
            ServiceError::AllocationExhausted => 500,
        }
    }
}

/// Why a short link was not created.
#[derive(Clone, Copy, Debug, PartialEq, Eq, Structural)]
pub enum ShortenError {
    /// The target does not parse as an absolute URL.
    InvalidUrl,
    /// The expiry time is not after the creation time.
    InvalidExpiry,
    /// The click limit is negative.
    InvalidClickLimit,
    /// The custom alias is already claimed.
    AliasTaken,
    /// Every candidate code drawn was already claimed.
    AllocationExhausted,
    /// The store failed or timed out.
    StorageError,
}

impl ShortenError {
    /// Whether the caller's input caused the failure, rather than the
    /// system.
    pub open spec fn is_user_error(self) -> bool {
        match self {
            ShortenError::InvalidUrl | ShortenError::InvalidExpiry
            | ShortenError::InvalidClickLimit | ShortenError::AliasTaken => true,
            _ => false,
        }
    }

    /// The HTTP status that reports this error.
    pub fn status_code(&self) -> (r: u16)
        ensures
            r == if self.is_user_error() {
                400u16
            } else {
                500u16
            },
    {
        match self {
            ShortenError::InvalidUrl | ShortenError::InvalidExpiry
            | ShortenError::InvalidClickLimit | ShortenError::AliasTaken => 400,
            ShortenError::AllocationExhausted | ShortenError::StorageError => 500,
        }
    }
}

} // verus!
