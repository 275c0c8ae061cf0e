//! Shared sessions and distributed locks over a remote TTL key-value
//! store.
//!
//! The store's consumed contract — `GET`, `SET` with TTL, conditional
//! `SET`-if-absent, `DEL`, and the two atomic compare-then-act scripts —
//! is captured by [`store::StoreModel`], an executable model whose
//! operations carry exact specifications over a map view, with time as an
//! explicit instant. The session manager ([`session`]) and the distributed
//! lock manager ([`lock`]) are verified against that model: token
//! construction, TTL handling, the mutual-exclusion rule of acquisition,
//! and the ownership rule of release and renewal. Each module also states
//! and proves the laws of the subsystem: one winner among racing
//! acquisitions, no theft of a re-acquired lock by a stale release, leases
//! kept alive by half-TTL renewal and lapsing within one TTL of a crash,
//! sliding session expiry, idempotent revocation, and the
//! indistinguishability of expired and never-issued tokens.
//!
//! The surrounding program — the connection pool, the HTTP layer, the
//! background renewal task — performs each store call for real and takes
//! every decision from here.

pub mod config;
pub mod constant;
pub mod decimal;
pub mod error;
pub mod lock;
pub mod service;
pub mod session;
pub mod store;
pub mod vo;
