//! Shared constants.

use vstd::prelude::*;

verus! {

/// Prefix of every session token.
pub const SESSION_KEY: &'static str = "Session";

/// HTTP header that carries the session token.
pub const AUTH_HEADER: &'static str = "Authorization";

/// Session time-to-live, in seconds; reset on every refresh.
pub const EXPIRATION_SECS: u64 = 60 * 60;

/// Default page size of list queries.
pub const DEFAULT_PAGE_SIZE: usize = 20;

/// Largest accepted page size of list queries.
pub const MAX_PAGE_SIZE: usize = 100;

} // verus!
