//! The access-control and session-state core of an attendance service.
//!
//! Users check in and out, and bearer tokens with graded capabilities
//! control who may read or write records. The pieces here are the ones
//! with real invariants: the capability model, the self-bootstrapping
//! authentication gate, signed-token issuance and verification, the
//! identity-resolution chain, and the check-in/check-out session machine —
//! all verified against an in-memory model of the persistence service.

pub mod errors;
pub mod tables;
pub mod bootstrap;
pub mod ids;
pub mod store;
pub mod identity;
pub mod attendance;
pub mod jwt;
pub mod queries;
pub mod api;
