//! Verification-code service core: issuing short-lived one-time codes bound to
//! a key (a phone number), and verifying submitted codes under an expiry and
//! attempt-limit policy.
//!
//! The crate is organised bottom up: `errors` gives the failure taxonomy,
//! `record` the per-key code record, `policy` the pure decision rules,
//! `ports` the narrow interfaces to the storage and delivery collaborators,
//! `executor` the per-key coordinator, `pool` and `service` the key-indexed
//! registry and the facade, `doubles` in-memory collaborators, and `laws`
//! the proved properties of the whole lifecycle.

pub mod doubles;
pub mod errors;
pub mod executor;
pub mod laws;
pub mod policy;
pub mod pool;
pub mod ports;
pub mod record;
pub mod service;

pub use errors::ServiceError;
