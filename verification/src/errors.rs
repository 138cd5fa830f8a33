//! Typed failure modes for every registry operation.
//!
//! Each operation reports its failure immediately and leaves state
//! unchanged; there is no partial write.  The variants fall into four
//! groups: malformed input, state conflicts, authorization failures, and
//! wrong-lifecycle-status conflicts.

use vstd::prelude::*;

verus! {

/// Why a registry operation was refused.  Every operation's contract says
/// exactly which variant comes back on which inputs.
#[derive(Clone, Copy, Debug, PartialEq, Eq, Structural)]
pub enum Error {
    /// The registry already has an admin; one-time initialization was
    /// attempted twice.
    AlreadyInitialized,
    /// An admin-gated operation ran before the registry was initialized.
    NotInitialized,
    /// The authenticated caller is not the stored admin.
    NotAdmin,
    /// The authenticated caller is not the bond's current owner.
    NotOwner,
    /// The authenticated caller is not in the authorized-analytics set, or
    /// the resolver failed the external authorization policy.
    NotAuthorized,
    /// A bond transfer named the current owner as the new owner.
    TransferToSelf,
    /// A bond was issued with the issuer as its initial owner.
    OwnerEqualsIssuer,
    /// A fee schedule was configured with a negative base fee.
    InvalidBaseFee,
    /// A discount outside 0..=10000 basis points.
    InvalidDiscount,
    /// Volume-bracket thresholds and discounts differ in length.
    BracketLengthMismatch,
    /// Volume-bracket thresholds are not strictly ascending.
    BracketsNotAscending,
    /// A fee toggle ran before any fee schedule was configured.
    FeesNotConfigured,
    /// An attestation already exists for this (business, period).
    DuplicateAttestation,
    /// No attestation exists for the referenced (business, period).
    AttestationNotFound,
    /// The referenced attestation is revoked.
    AttestationRevoked,
    /// An anomaly risk score above 100.
    ScoreOutOfRange,
    /// A bond face value that is not positive.
    InvalidFaceValue,
    /// A revenue share above 10000 basis points.
    InvalidRevenueShare,
    /// A negative minimum payment per period.
    InvalidMinPayment,
    /// A maximum payment per period that is not positive.
    InvalidMaxPayment,
    /// A maximum payment below the minimum payment.
    InvalidPaymentRange,
    /// A maturity of zero periods.
    InvalidMaturity,
    /// No bond exists under this id.
    BondNotFound,
    /// The bond is not in the Active status.
    BondNotActive,
    /// The bond has no remaining face value to redeem.
    BondFullyRedeemed,
    /// A redemption record already exists for this (bond, period).
    AlreadyRedeemed,
    /// A negative attested revenue figure.
    NegativeRevenue,
    /// No dispute exists under this id.
    DisputeNotFound,
    /// The dispute is not in the status this transition starts from.
    WrongDisputeStatus,
    /// The challenger already holds an open dispute on this attestation.
    DuplicateDispute,
}

} // verus!
