//! Revenue-attestation settlement core.
//!
//! Three cooperating registries settle money between parties based on
//! externally attested business revenue:
//!
//! - an attestation registry ([`attest::AttestationContract`]) records a
//!   tamper-evident summary of a business's revenue for a period and prices
//!   each submission through a tiered/volume fee-discount engine
//!   ([`fees::FeeSchedule`]);
//! - a bond registry ([`bonds::RevenueBondContract`]) issues revenue-linked
//!   debt instruments and converts attested revenue into per-period payments
//!   under one of three payout structures, enforcing double-payment and
//!   face-value-cap invariants;
//! - a dispute registry ([`disputes::DisputeRegistry`]) governs challenges
//!   against attestations through an Open -> Resolved -> Closed lifecycle.
//!
//! The surrounding ledger environment — durable storage, caller
//! authentication, the token-transfer primitive, and the clock — is an
//! external collaborator.  Operations take already-authenticated caller
//! addresses and ledger timestamps as arguments, and return the token
//! transfers they require as [`fees::TokenTransfer`] values for the
//! environment to perform; every state transition and every settlement
//! amount is computed and verified here.

use vstd::prelude::*;

pub mod attest;
pub mod bonds;
pub mod disputes;
pub mod errors;
pub mod fees;
pub mod period_map;

verus! {

/// A ledger account, identified by the environment's authentication
/// primitive.  Callers of gated operations are assumed to have proven
/// control of the address they pass; the registries check that the proven
/// address is the one the stored state designates.
pub type Address = u64;

} // verus!
