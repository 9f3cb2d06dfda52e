//! A minimal ledger-authorization core: account-scoped balance and counter
//! mutation guarded by signer and invariant checks.
//!
//! Two independent handler families operate on in-memory account views that
//! an external runtime hands in: a vault withdrawal that moves balance from a
//! vault to its authority, and a pair of reaction handlers that adjust the
//! like/dislike counters of a parent record while creating or destroying the
//! matching reaction record. A small registry supplies the single-insert /
//! single-remove semantics that the runtime's derived addressing would
//! otherwise enforce.

pub mod identity;
pub mod registry;
pub mod tweet;
pub mod vault;
