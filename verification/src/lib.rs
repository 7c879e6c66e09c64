//! Account and credential lifecycle management for a single local user:
//! an account registry with a current-account pointer, token expiry rules,
//! the OAuth login flow as a state machine, and the quota fetch engine with
//! bounded retry and per-account failure isolation.
//!
//! Everything here is synchronous in-memory logic. Network calls, timers and
//! persistence are performed by the caller, which feeds their outcomes back
//! as plain values.

pub mod error;
pub mod models;
pub mod token;
pub mod registry;
pub mod quota;
pub mod batch;
pub mod oauth;
pub mod login;
pub mod redirect;
