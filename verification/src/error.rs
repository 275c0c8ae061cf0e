//! Error taxonomy and the uniform response envelope.
//!
//! Conditions that request handlers must tell apart are distinct variants:
//! `NotLogin` (token absent or expired — indistinguishable on purpose),
//! `AlreadyExists` (lock contention, an expected and recoverable outcome),
//! the store/transport failures (retryable, never to be conflated with "not
//! authenticated"), and `InvalidDuration` (a TTL that the store's time unit
//! cannot represent, rejected before any network call).

use vstd::prelude::*;

verus! {

/// Business error conditions. Failures coming from outside collaborators
/// (database, store connection pool, store commands) carry their rendered
/// message as plain text.
#[derive(Debug, Clone, PartialEq, Eq)]
pub enum Error {
    /// A request payload failed field validation.
    InvalidParameter(String),
    /// A database operation failed.
    DatabaseError(String),
    /// The store's connection pool failed.
    RedisPoolError(String),
    /// A store command failed.
    RedisError(String),
    /// No data matched the request.
    NotFound(String),
    /// Not logged in: the session token is absent, expired or never issued.
    NotLogin,
    /// The caller lacks the needed permission.
    Unauthorized(String),
    /// An outside service call failed.
    ExternalServiceError(String),
    /// A network request failed (timeout, disconnect).
    NetworkError(String),
    /// An I/O operation failed.
    IOError(String),
    /// The resource already exists; for locks: the key is already held.
    AlreadyExists(String),
    /// An operation was attempted in an illegal state.
    InvalidState(String),
    /// A caller-supplied duration cannot be represented in the store's
    /// native time unit.
    InvalidDuration(String),
    /// Any other failure.
    Unknown(String),
}

/// The stable numeric code of each condition.
pub open spec fn spec_code(e: Error) -> u32 {
    match e {
        Error::InvalidParameter(_) => 1001,
        Error::NotFound(_) => 1002,
        Error::NotLogin => 1003,
        Error::Unauthorized(_) => 1004,
        Error::DatabaseError(_) => 1005,
        Error::RedisPoolError(_) => 1006,
        Error::RedisError(_) => 1006,
        Error::ExternalServiceError(_) => 10010076,
        Error::NetworkError(_) => 10010087,
        Error::IOError(_) => 1009,
        Error::AlreadyExists(_) => 1010,
        Error::InvalidState(_) => 1011,
        Error::InvalidDuration(_) => 1012,
        Error::Unknown(_) => 1099,
    }
}

/// Conditions that point at infrastructure trouble and deserve a log line.
pub open spec fn spec_should_log(e: Error) -> bool {
    match e {
        Error::DatabaseError(_) => true,
        Error::RedisError(_) => true,
        Error::ExternalServiceError(_) => true,
        Error::NetworkError(_) => true,
        Error::IOError(_) => true,
        Error::Unknown(_) => true,
        _ => false,
    }
}

/// Conditions whose message may be shown to the user; the rest are masked
/// behind a generic message.
pub open spec fn spec_expose(e: Error) -> bool {
    match e {
        Error::InvalidParameter(_) => true,
        Error::Unauthorized(_) => true,
        Error::NotLogin => true,
        Error::AlreadyExists(_) => true,
        Error::InvalidState(_) => true,
        Error::InvalidDuration(_) => true,
        _ => false,
    }
}

impl Error {
    /// The numeric code reported in the response envelope.
    pub fn code(&self) -> (r: u32)
        ensures
            r == spec_code(*self),
    {
        match self {
            Error::InvalidParameter(_) => 1001,
            Error::NotFound(_) => 1002,
            Error::NotLogin => 1003,
            Error::Unauthorized(_) => 1004,
            Error::DatabaseError(_) => 1005,
            Error::RedisPoolError(_) => 1006,
            Error::RedisError(_) => 1006,
            Error::ExternalServiceError(_) => 10010076,
            Error::NetworkError(_) => 10010087,
            Error::IOError(_) => 1009,
            Error::AlreadyExists(_) => 1010,
            Error::InvalidState(_) => 1011,
            Error::InvalidDuration(_) => 1012,
            Error::Unknown(_) => 1099,
        }
    }

    /// Whether the condition should be logged as a warning.
    pub fn should_log(&self) -> (r: bool)
        ensures
            r == spec_should_log(*self),
    {
        match self {
            Error::DatabaseError(_) => true,
            Error::RedisError(_) => true,
            Error::ExternalServiceError(_) => true,
            Error::NetworkError(_) => true,
            Error::IOError(_) => true,
            Error::Unknown(_) => true,
            _ => false,
        }
    }

    /// Whether the condition's own message may be returned to the user.
    pub fn expose(&self) -> (r: bool)
        ensures
            r == spec_expose(*self),
    {
        match self {
            Error::InvalidParameter(_) => true,
            Error::Unauthorized(_) => true,
            Error::NotLogin => true,
            Error::AlreadyExists(_) => true,
            Error::InvalidState(_) => true,
            Error::InvalidDuration(_) => true,
            _ => false,
        }
    }
}

/// The uniform response envelope: `code` 0 on success, non-zero on failure;
/// `data` present exactly on success.
#[derive(Debug)]
pub struct Resp<T> {
    pub code: u32,
    pub msg: String,
    pub data: Option<T>,
}

impl<T> Resp<T> {
    /// A success envelope around `data`.
    pub fn success(data: T) -> (r: Self)
        ensures
            r.code == 0,
            r.msg@ == "success"@,
            r.data == Some(data),
    {
        Resp { code: 0, msg: "success".to_owned(), data: Some(data) }
    }

    /// A failure envelope with a non-zero code and a message.
    pub fn error(code: u32, msg: String) -> (r: Self)
        ensures
            r.code == code,
            r.msg == msg,
            r.data is None,
    {
        Resp { code, msg, data: None }
    }
}

} // verus!
