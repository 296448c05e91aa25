//! Economic core of an agent marketplace: per-agent vaults that pool
//! depositor capital and share job revenue, and a job-receipt registry that
//! resolves client disputes through a time-bounded challenge process.
//!
//! The engine is a deterministic state-transition library. Every operation
//! takes the caller's identity and the current time as plain values, checks
//! its preconditions, and either commits all of its effects or returns an
//! error with the state untouched. Moving the reference asset between
//! accounts is left to the external value-transfer rail; each operation
//! reports the amounts to move in its returned audit entry.
use vstd::prelude::*;

pub mod factory;
pub mod registry;
pub mod vault;
pub mod vault_laws;

verus! {

/// Identity of an account on the external ledger (an operator, depositor,
/// client, arbitrator, authority, or a keyed record such as a vault).
/// The engine only ever compares identities for equality.
#[derive(Clone, Copy, PartialEq, Eq, Structural, Debug, Hash)]
pub struct AccountId(pub u64);

} // verus!
