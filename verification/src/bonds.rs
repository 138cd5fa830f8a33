//! The revenue-bond registry and redemption engine.
//!
//! Bonds are issued against a business's attested revenue and repaid
//! period by period.  Each redemption converts an attested revenue figure
//! into a payment under the bond's payout structure, then caps it by the
//! bond's remaining face value.  Two invariants are enforced, not merely
//! expected: a (bond, period) pair is paid at most once, and the running
//! total of payments never exceeds the face value — on reaching it the
//! bond becomes `FullyRedeemed`, terminally.
//!
//! The registry computes payments and state transitions; the token
//! movement itself, the attestation lookup, caller authentication, and
//! the clock are the ledger environment's.  `redeem` takes the outcome of
//! the external attestation lookup as an [`AttestationStatus`] argument
//! and returns the [`TokenTransfer`] the environment must perform.

use vstd::arithmetic::div_mod::{lemma_div_is_ordered, lemma_multiply_divide_lt};
use vstd::prelude::*;

use crate::errors::Error;
use crate::fees::TokenTransfer;
use crate::period_map::PeriodMap;
use crate::Address;

verus! {

/// How a bond's per-period payment is sized.
#[derive(Clone, Copy, Debug, PartialEq, Eq, Structural)]
pub enum BondStructure {
    /// Fixed payment per period; the revenue figure is validated but does
    /// not size the payment.
    Fixed,
    /// A revenue share, clamped between the minimum and maximum payment.
    RevenueLinked,
    /// The minimum payment plus a revenue share, capped at the maximum.
    Hybrid,
}

/// A bond's lifecycle status.  `FullyRedeemed` and `Defaulted` are
/// terminal.
#[derive(Clone, Copy, Debug, PartialEq, Eq, Structural)]
pub enum BondStatus {
    Active,
    FullyRedeemed,
    Defaulted,
}

/// A bond's issuance terms and current status.
#[derive(Clone, Copy, Debug, PartialEq, Eq, Structural)]
pub struct Bond {
    /// The registry-assigned id.
    pub id: u64,
    /// The business that issued the bond and pays redemptions.
    pub issuer: Address,
    /// Total value to be repaid; positive.
    pub face_value: i128,
    /// How each period's payment is sized.
    pub structure: BondStructure,
    /// Revenue share in basis points, 0..=10000.
    pub revenue_share_bps: u32,
    /// Minimum payment per period; non-negative.
    pub min_payment_per_period: i128,
    /// Maximum payment per period; positive and at least the minimum.
    pub max_payment_per_period: i128,
    /// Periods until maturity; positive.
    pub maturity_periods: u32,
    /// The attestation registry redemptions are checked against.
    pub attestation_contract: Address,
    /// Token redemptions are paid in.
    pub token: Address,
    /// Lifecycle status.
    pub status: BondStatus,
    /// Ledger time at issuance.
    pub issued_at: u64,
}

/// One period's redemption: the revenue figure used, the amount actually
/// paid (after the face-value cap), and when.  Write-once per
/// (bond, period).
#[derive(Debug, PartialEq, Eq)]
pub struct RedemptionRecord {
    /// The redeemed bond.
    pub bond_id: u64,
    /// The redeemed period.
    pub period: String,
    /// The attested revenue the payment was computed from.
    pub attested_revenue: i128,
    /// The amount actually paid, after capping; possibly 0.
    pub redemption_amount: i128,
    /// Ledger time of the redemption.
    pub redeemed_at: u64,
}

impl Clone for RedemptionRecord {
    fn clone(&self) -> (res: Self)
        ensures
            res == *self,
    {
        RedemptionRecord {
            bond_id: self.bond_id,
            period: self.period.clone(),
            attested_revenue: self.attested_revenue,
            redemption_amount: self.redemption_amount,
            redeemed_at: self.redeemed_at,
        }
    }
}

/// What the external attestation lookup said about (issuer, period).
/// The lookup itself is the attestation registry's; the redemption engine
/// takes its outcome as a fact.
#[derive(Clone, Copy, Debug, PartialEq, Eq, Structural)]
pub enum AttestationStatus {
    /// No attestation exists for the pair.
    Missing,
    /// An attestation exists but is revoked.
    Revoked,
    /// An attestation exists and is not revoked.
    Valid,
}

/// The abstract state of a [`RevenueBondContract`].  Bond ids are dense:
/// bond `i` sits at index `i` of `bonds`, with its owner and running
/// total at the same index of `owners` and `totals`.
pub struct RevenueBondView {
    /// The admin, once initialized.
    pub admin: Option<Address>,
    /// All issued bonds, by id.
    pub bonds: Seq<Bond>,
    /// Each bond's current owner.
    pub owners: Seq<Address>,
    /// Each bond's running sum of payments.
    pub totals: Seq<i128>,
    /// Redemption records by (bond id, period).
    pub redemptions: Map<(u64, Seq<char>), RedemptionRecord>,
}

/// The term validity every issued bond satisfies.
pub open spec fn valid_terms(b: Bond) -> bool {
    &&& b.face_value > 0
    &&& b.revenue_share_bps <= 10000
    &&& b.min_payment_per_period >= 0
    &&& b.max_payment_per_period > 0
    &&& b.max_payment_per_period >= b.min_payment_per_period
    &&& b.maturity_periods > 0
}

/// The well-formedness every reachable registry state satisfies.  In
/// particular: every running total lies in `[0, face_value]`, and a bond
/// is `FullyRedeemed` exactly when its total has reached its face value —
/// the face-value-cap invariant.
pub open spec fn bonds_view_wf(v: RevenueBondView) -> bool {
    &&& v.owners.len() == v.bonds.len()
    &&& v.totals.len() == v.bonds.len()
    &&& forall|i: int| 0 <= i < v.bonds.len() ==> (#[trigger] v.bonds[i]).id == i
    &&& forall|i: int| 0 <= i < v.bonds.len() ==> valid_terms(#[trigger] v.bonds[i])
    &&& forall|i: int|
        0 <= i < v.bonds.len() ==> 0 <= #[trigger] v.totals[i] <= v.bonds[i].face_value
    &&& forall|i: int|
        0 <= i < v.bonds.len() ==> ((#[trigger] v.bonds[i]).status == BondStatus::FullyRedeemed
            <==> v.totals[i] == v.bonds[i].face_value)
    &&& forall|k: (u64, Seq<char>)| #[trigger]
        v.redemptions.contains_key(k) ==> {
            &&& k.0 < v.bonds.len()
            &&& v.redemptions[k].bond_id == k.0
            &&& v.redemptions[k].period@ == k.1
            &&& v.redemptions[k].redemption_amount >= 0
            &&& v.redemptions[k].attested_revenue >= 0
        }
}

/// The widened, saturating revenue share:
/// `min(revenue * bps, u128::MAX) / 10000`.
pub open spec fn revenue_share(revenue: int, bps: int) -> int {
    if revenue * bps > u128::MAX as int {
        (u128::MAX as int) / 10000
    } else {
        revenue * bps / 10000
    }
}

/// The payment a bond's structure nominates for an attested revenue
/// figure, before the face-value cap.
pub open spec fn nominal_redemption(b: Bond, revenue: int) -> int {
    match b.structure {
        BondStructure::Fixed => b.min_payment_per_period as int,
        BondStructure::RevenueLinked => {
            let share = revenue_share(revenue, b.revenue_share_bps as int);
            let floored = if share < b.min_payment_per_period {
                b.min_payment_per_period as int
            } else {
                share
            };
            if floored > b.max_payment_per_period {
                b.max_payment_per_period as int
            } else {
                floored
            }
        },
        BondStructure::Hybrid => {
            let total = b.min_payment_per_period + revenue_share(
                revenue,
                b.revenue_share_bps as int,
            );
            if total > b.max_payment_per_period {
                b.max_payment_per_period as int
            } else {
                total
            }
        },
    }
}

/// The amount a redemption actually pays: the nominal amount, capped by
/// the bond's remaining face value.
pub open spec fn capped_redemption(b: Bond, revenue: int, total_redeemed: int) -> int {
    let nominal = nominal_redemption(b, revenue);
    let headroom = b.face_value - total_redeemed;
    if nominal > headroom {
        headroom
    } else {
        nominal
    }
}

/// Whether a redemption for (bond, period) would be accepted in state
/// `v`: the bond exists and is Active, the revenue figure is
/// non-negative, the period is unredeemed, and the external attestation
/// lookup found a live attestation.
pub open spec fn redeem_allowed(
    v: RevenueBondView,
    bond_id: u64,
    period: Seq<char>,
    revenue: i128,
    attestation: AttestationStatus,
) -> bool {
    &&& bond_id < v.bonds.len()
    &&& v.bonds[bond_id as int].status == BondStatus::Active
    &&& revenue >= 0
    &&& !v.redemptions.contains_key((bond_id, period))
    &&& attestation == AttestationStatus::Valid
}

/// Law (no double redemption): once a redemption record exists for
/// (bond, period), no further redemption for that pair is allowed,
/// whatever revenue figure or attestation status accompanies it.
/// Together with the contract of [`RevenueBondContract::redeem`] — which
/// returns an error and leaves the whole state unchanged whenever
/// redemption is not allowed — a second `redeem` for the pair always
/// fails and changes neither the record nor the running total.
pub proof fn lemma_no_double_redemption(
    pre: RevenueBondView,
    post: RevenueBondView,
    bond_id: u64,
    period: Seq<char>,
    rec: RedemptionRecord,
)
    requires
        post.redemptions == pre.redemptions.insert((bond_id, period), rec),
    ensures
        forall|revenue: i128, attestation: AttestationStatus|
            !redeem_allowed(post, bond_id, period, revenue, attestation),
{
}

/// Law (face-value cap): in every well-formed state, a bond's running
/// total lies in `[0, face_value]`; when it reaches the face value the
/// bond is `FullyRedeemed`, and no redemption of it is allowed for any
/// period, revenue figure, or attestation status.
pub proof fn lemma_face_value_cap(v: RevenueBondView, bond_id: u64)
    requires
        bonds_view_wf(v),
        bond_id < v.bonds.len(),
    ensures
        0 <= v.totals[bond_id as int] <= v.bonds[bond_id as int].face_value,
        v.totals[bond_id as int] == v.bonds[bond_id as int].face_value ==> v.bonds[bond_id as int].status
            == BondStatus::FullyRedeemed,
        v.totals[bond_id as int] == v.bonds[bond_id as int].face_value ==> forall|
            period: Seq<char>,
            revenue: i128,
            attestation: AttestationStatus,
        |
            !redeem_allowed(v, bond_id, period, revenue, attestation),
{
}

/// Law (redemption pays the current owner): after ownership of a bond
/// moves to `new_owner`, a redemption transfer that pays the bond's
/// owner of record — as [`RevenueBondContract::redeem`]'s contract
/// requires — pays `new_owner`.
pub proof fn lemma_redemption_pays_current_owner(
    pre: RevenueBondView,
    post: RevenueBondView,
    bond_id: u64,
    new_owner: Address,
    transfer: TokenTransfer,
)
    requires
        bond_id < pre.owners.len(),
        post.owners == pre.owners.update(bond_id as int, new_owner),
        transfer.to == post.owners[bond_id as int],
    ensures
        transfer.to == new_owner,
{
}

/// The bond registry: issuance, ownership, redemption, and default
/// handling.
#[derive(Clone)]
pub struct RevenueBondContract {
    admin: Option<Address>,
    bonds: Vec<Bond>,
    owners: Vec<Address>,
    totals: Vec<i128>,
    redemptions: PeriodMap<RedemptionRecord>,
}

impl View for RevenueBondContract {
    type V = RevenueBondView;

    closed spec fn view(&self) -> RevenueBondView {
        RevenueBondView {
            admin: self.admin,
            bonds: self.bonds@,
            owners: self.owners@,
            totals: self.totals@,
            redemptions: self.redemptions@,
        }
    }
}

impl RevenueBondContract {
    /// Well-formedness; established by [`RevenueBondContract::new`] and
    /// preserved by every operation.  Implies [`bonds_view_wf`] of the
    /// view.
    pub closed spec fn wf(&self) -> bool {
        &&& bonds_view_wf(self@)
        &&& self.redemptions.wf()
    }

    /// A fresh registry: no admin, no bonds.
    pub fn new() -> (s: Self)
        ensures
            s.wf(),
            s@.admin is None,
            s@.bonds == Seq::<Bond>::empty(),
            s@.owners == Seq::<Address>::empty(),
            s@.totals == Seq::<i128>::empty(),
            s@.redemptions == Map::<(u64, Seq<char>), RedemptionRecord>::empty(),
    {
        RevenueBondContract {
            admin: None,
            bonds: Vec::new(),
            owners: Vec::new(),
            totals: Vec::new(),
            redemptions: PeriodMap::new(),
        }
    }

    /// One-time initialization: set the admin.  The caller must have
    /// authenticated as `admin`.
    pub fn initialize(&mut self, admin: Address) -> (r: Result<(), Error>)
        requires
            old(self).wf(),
        ensures
            final(self).wf(),
            r is Ok <==> old(self)@.admin is None,
            r is Err ==> r == Err::<(), Error>(Error::AlreadyInitialized)
                && final(self)@ == old(self)@,
            r is Ok ==> final(self)@ == (RevenueBondView { admin: Some(admin), ..old(self)@ }),
    {
        match self.admin {
            Some(_) => Err(Error::AlreadyInitialized),
            None => {
                self.admin = Some(admin);
                Ok(())
            },
        }
    }

    /// Issue a new bond.  The issuer must have authenticated as itself.
    /// Rejects invalid terms — non-positive face value, a revenue share
    /// above 10000 basis points, a negative minimum or non-positive
    /// maximum payment, a maximum below the minimum, zero maturity, or an
    /// issuer naming itself initial owner — and otherwise records the
    /// bond as Active under the next dense id, owned by `initial_owner`,
    /// with nothing redeemed yet.
    pub fn issue_bond(
        &mut self,
        issuer: Address,
        initial_owner: Address,
        face_value: i128,
        structure: BondStructure,
        revenue_share_bps: u32,
        min_payment_per_period: i128,
        max_payment_per_period: i128,
        maturity_periods: u32,
        attestation_contract: Address,
        token: Address,
        now: u64,
    ) -> (r: Result<u64, Error>)
        requires
            old(self).wf(),
        ensures
            final(self).wf(),
            r is Err ==> final(self)@ == old(self)@,
            r is Ok <==> {
                &&& face_value > 0
                &&& revenue_share_bps <= 10000
                &&& min_payment_per_period >= 0
                &&& max_payment_per_period > 0
                &&& max_payment_per_period >= min_payment_per_period
                &&& maturity_periods > 0
                &&& issuer != initial_owner
            },
            face_value <= 0 ==> r == Err::<u64, Error>(Error::InvalidFaceValue),
            face_value > 0 && revenue_share_bps > 10000 ==> r == Err::<u64, Error>(
                Error::InvalidRevenueShare,
            ),
            face_value > 0 && revenue_share_bps <= 10000 && min_payment_per_period < 0 ==> r
                == Err::<u64, Error>(Error::InvalidMinPayment),
            face_value > 0 && revenue_share_bps <= 10000 && min_payment_per_period >= 0
                && max_payment_per_period <= 0 ==> r == Err::<u64, Error>(Error::InvalidMaxPayment),
            face_value > 0 && revenue_share_bps <= 10000 && min_payment_per_period >= 0
                && max_payment_per_period > 0 && max_payment_per_period < min_payment_per_period
                ==> r == Err::<u64, Error>(Error::InvalidPaymentRange),
            face_value > 0 && revenue_share_bps <= 10000 && min_payment_per_period >= 0
                && max_payment_per_period > 0 && max_payment_per_period >= min_payment_per_period
                && maturity_periods == 0 ==> r == Err::<u64, Error>(Error::InvalidMaturity),
            face_value > 0 && revenue_share_bps <= 10000 && min_payment_per_period >= 0
                && max_payment_per_period > 0 && max_payment_per_period >= min_payment_per_period
                && maturity_periods > 0 && issuer == initial_owner ==> r == Err::<u64, Error>(
                Error::OwnerEqualsIssuer,
            ),
            r is Ok ==> {
                let id = old(self)@.bonds.len() as u64;
                &&& r == Ok::<u64, Error>(id)
                &&& final(self)@ == (RevenueBondView {
                    bonds: old(self)@.bonds.push(
                        Bond {
                            id,
                            issuer,
                            face_value,
                            structure,
                            revenue_share_bps,
                            min_payment_per_period,
                            max_payment_per_period,
                            maturity_periods,
                            attestation_contract,
                            token,
                            status: BondStatus::Active,
                            issued_at: now,
                        },
                    ),
                    owners: old(self)@.owners.push(initial_owner),
                    totals: old(self)@.totals.push(0),
                    ..old(self)@
                })
            },
    {
        if face_value <= 0 {
            return Err(Error::InvalidFaceValue);
        }
        if revenue_share_bps > 10000 {
            return Err(Error::InvalidRevenueShare);
        }
        if min_payment_per_period < 0 {
            return Err(Error::InvalidMinPayment);
        }
        if max_payment_per_period <= 0 {
            return Err(Error::InvalidMaxPayment);
        }
        if max_payment_per_period < min_payment_per_period {
            return Err(Error::InvalidPaymentRange);
        }
        if maturity_periods == 0 {
            return Err(Error::InvalidMaturity);
        }
        if issuer == initial_owner {
            return Err(Error::OwnerEqualsIssuer);
        }
        let id = self.bonds.len() as u64;
        let bond = Bond {
            id,
            issuer,
            face_value,
            structure,
            revenue_share_bps,
            min_payment_per_period,
            max_payment_per_period,
            maturity_periods,
            attestation_contract,
            token,
            status: BondStatus::Active,
            issued_at: now,
        };
        self.bonds.push(bond);
        self.owners.push(initial_owner);
        self.totals.push(0);
        Ok(id)
    }

    /// The widened, saturating share computation: `revenue * bps`,
    /// saturating at `u128::MAX`, divided by 10000.
    fn saturating_share(revenue: i128, bps: u32) -> (r: i128)
        requires
            revenue >= 0,
        ensures
            r as int == revenue_share(revenue as int, bps as int),
            0 <= r,
    {
        let rev = revenue as u128;
        let b = bps as u128;
        let prod: u128 = match rev.checked_mul(b) {
            Some(p) => p,
            None => u128::MAX,
        };
        let share = prod / 10000;
        proof {
            lemma_div_is_ordered(prod as int, u128::MAX as int, 10000);
            assert((u128::MAX as int) < 10000 * (i128::MAX as int));
            lemma_multiply_divide_lt(u128::MAX as int, 10000, i128::MAX as int);
        }
        share as i128
    }

    /// The payment a bond's structure nominates for one period, before
    /// the face-value cap: the fixed minimum, the clamped revenue share,
    /// or the minimum plus the share capped at the maximum.
    pub fn calculate_redemption(bond: &Bond, attested_revenue: i128) -> (r: i128)
        requires
            valid_terms(*bond),
            attested_revenue >= 0,
        ensures
            r as int == nominal_redemption(*bond, attested_revenue as int),
            0 <= r,
    {
        match bond.structure {
            BondStructure::Fixed => bond.min_payment_per_period,
            BondStructure::RevenueLinked => {
                let share = Self::saturating_share(attested_revenue, bond.revenue_share_bps);
                let floored = if share < bond.min_payment_per_period {
                    bond.min_payment_per_period
                } else {
                    share
                };
                if floored > bond.max_payment_per_period {
                    bond.max_payment_per_period
                } else {
                    floored
                }
            },
            BondStructure::Hybrid => {
                let share = Self::saturating_share(attested_revenue, bond.revenue_share_bps);
                match bond.min_payment_per_period.checked_add(share) {
                    Some(total) => {
                        if total > bond.max_payment_per_period {
                            bond.max_payment_per_period
                        } else {
                            total
                        }
                    },
                    None => bond.max_payment_per_period,
                }
            },
        }
    }

    /// Redeem one period of a bond against an attested revenue figure.
    /// `attestation` is the outcome of the external attestation lookup
    /// for (issuer, period); `now` is the ledger time.  On success the
    /// payment is recorded write-once, added to the running total —
    /// transitioning the bond to `FullyRedeemed` when the total reaches
    /// the face value — and returned as the transfer the environment
    /// must perform from the issuer to the bond's current owner (no
    /// transfer when the capped payment is 0).
    pub fn redeem(
        &mut self,
        bond_id: u64,
        period: &String,
        attested_revenue: i128,
        attestation: AttestationStatus,
        now: u64,
    ) -> (r: Result<Option<TokenTransfer>, Error>)
        requires
            old(self).wf(),
        ensures
            final(self).wf(),
            r is Err ==> final(self)@ == old(self)@,
            r is Ok <==> redeem_allowed(old(self)@, bond_id, period@, attested_revenue, attestation),
            !(bond_id < old(self)@.bonds.len()) ==> r == Err::<Option<TokenTransfer>, Error>(
                Error::BondNotFound,
            ),
            bond_id < old(self)@.bonds.len() && old(self)@.bonds[bond_id as int].status
                != BondStatus::Active ==> r == Err::<Option<TokenTransfer>, Error>(
                Error::BondNotActive,
            ),
            bond_id < old(self)@.bonds.len() && old(self)@.bonds[bond_id as int].status
                == BondStatus::Active && attested_revenue < 0 ==> r == Err::<
                Option<TokenTransfer>,
                Error,
            >(Error::NegativeRevenue),
            bond_id < old(self)@.bonds.len() && old(self)@.bonds[bond_id as int].status
                == BondStatus::Active && attested_revenue >= 0 && old(
                self,
            )@.redemptions.contains_key((bond_id, period@)) ==> r == Err::<
                Option<TokenTransfer>,
                Error,
            >(Error::AlreadyRedeemed),
            bond_id < old(self)@.bonds.len() && old(self)@.bonds[bond_id as int].status
                == BondStatus::Active && attested_revenue >= 0 && !old(
                self,
            )@.redemptions.contains_key((bond_id, period@)) && attestation
                == AttestationStatus::Missing ==> r == Err::<Option<TokenTransfer>, Error>(
                Error::AttestationNotFound,
            ),
            bond_id < old(self)@.bonds.len() && old(self)@.bonds[bond_id as int].status
                == BondStatus::Active && attested_revenue >= 0 && !old(
                self,
            )@.redemptions.contains_key((bond_id, period@)) && attestation
                == AttestationStatus::Revoked ==> r == Err::<Option<TokenTransfer>, Error>(
                Error::AttestationRevoked,
            ),
            r is Ok ==> {
                let b = old(self)@.bonds[bond_id as int];
                let prior = old(self)@.totals[bond_id as int];
                let paid = capped_redemption(b, attested_revenue as int, prior as int);
                &&& 0 <= paid
                &&& final(self)@.redemptions == old(self)@.redemptions.insert(
                    (bond_id, period@),
                    RedemptionRecord {
                        bond_id,
                        period: *period,
                        attested_revenue,
                        redemption_amount: paid as i128,
                        redeemed_at: now,
                    },
                )
                &&& final(self)@.totals == old(self)@.totals.update(bond_id as int, (prior + paid) as i128)
                &&& prior + paid <= b.face_value
                &&& (prior + paid == b.face_value ==> final(self)@.bonds == old(self)@.bonds.update(
                    bond_id as int,
                    Bond { status: BondStatus::FullyRedeemed, ..b },
                ))
                &&& (prior + paid < b.face_value ==> final(self)@.bonds == old(self)@.bonds)
                &&& final(self)@.owners == old(self)@.owners
                &&& final(self)@.admin == old(self)@.admin
                &&& (paid > 0 ==> r == Ok::<Option<TokenTransfer>, Error>(
                    Some(
                        TokenTransfer {
                            token: b.token,
                            from: b.issuer,
                            to: old(self)@.owners[bond_id as int],
                            amount: paid as i128,
                        },
                    ),
                ))
                &&& (paid == 0 ==> r == Ok::<Option<TokenTransfer>, Error>(None))
            },
    {
        let n = self.bonds.len();
        if bond_id >= n as u64 {
            return Err(Error::BondNotFound);
        }
        let idx = bond_id as usize;
        let bond = self.bonds[idx];
        if bond.status != BondStatus::Active {
            return Err(Error::BondNotActive);
        }
        if attested_revenue < 0 {
            return Err(Error::NegativeRevenue);
        }
        if self.redemptions.contains(bond_id, period) {
            return Err(Error::AlreadyRedeemed);
        }
        match attestation {
            AttestationStatus::Missing => {
                return Err(Error::AttestationNotFound);
            },
            AttestationStatus::Revoked => {
                return Err(Error::AttestationRevoked);
            },
            AttestationStatus::Valid => {},
        }
        let nominal = Self::calculate_redemption(&bond, attested_revenue);
        let total = self.totals[idx];
        let headroom = bond.face_value - total;
        if headroom <= 0 {
            // Defensive guard from the engine's design.  Under the
            // registry invariant an Active bond always has headroom: a
            // drained bond is FullyRedeemed and was refused above.
            return Err(Error::BondFullyRedeemed);
        }
        let actual = if nominal > headroom {
            headroom
        } else {
            nominal
        };
        let owner = self.owners[idx];
        let transfer = if actual > 0 {
            Some(TokenTransfer { token: bond.token, from: bond.issuer, to: owner, amount: actual })
        } else {
            None
        };
        let record = RedemptionRecord {
            bond_id,
            period: period.clone(),
            attested_revenue,
            redemption_amount: actual,
            redeemed_at: now,
        };
        self.redemptions.set(bond_id, period.clone(), record);
        let new_total = total + actual;
        self.totals[idx] = new_total;
        if new_total >= bond.face_value {
            self.bonds[idx] = Bond { status: BondStatus::FullyRedeemed, ..bond };
        }
        proof {
            let oldv = old(self)@;
            let newv = self@;
            let newkey = (bond_id, period@);
            assert forall|k: (u64, Seq<char>)| #[trigger]
                newv.redemptions.contains_key(k) implies {
                &&& k.0 < newv.bonds.len()
                &&& newv.redemptions[k].bond_id == k.0
                &&& newv.redemptions[k].period@ == k.1
                &&& newv.redemptions[k].redemption_amount >= 0
                &&& newv.redemptions[k].attested_revenue >= 0
            } by {
                if k != newkey {
                    assert(oldv.redemptions.contains_key(k));
                    assert(newv.redemptions[k] == oldv.redemptions[k]);
                }
            }
        }
        Ok(transfer)
    }

    /// Transfer a bond to a new owner.  The current owner must have
    /// authenticated, must be the owner of record, and must name a
    /// different address.
    pub fn transfer_ownership(&mut self, bond_id: u64, current_owner: Address, new_owner: Address) -> (r:
        Result<(), Error>)
        requires
            old(self).wf(),
        ensures
            final(self).wf(),
            r is Err ==> final(self)@ == old(self)@,
            r is Ok <==> {
                &&& bond_id < old(self)@.owners.len()
                &&& old(self)@.owners[bond_id as int] == current_owner
                &&& current_owner != new_owner
            },
            !(bond_id < old(self)@.owners.len()) ==> r == Err::<(), Error>(Error::BondNotFound),
            bond_id < old(self)@.owners.len() && old(self)@.owners[bond_id as int] != current_owner
                ==> r == Err::<(), Error>(Error::NotOwner),
            bond_id < old(self)@.owners.len() && old(self)@.owners[bond_id as int] == current_owner
                && current_owner == new_owner ==> r == Err::<(), Error>(Error::TransferToSelf),
            r is Ok ==> final(self)@ == (RevenueBondView {
                owners: old(self)@.owners.update(bond_id as int, new_owner),
                ..old(self)@
            }),
    {
        let n = self.owners.len();
        if bond_id >= n as u64 {
            return Err(Error::BondNotFound);
        }
        let idx = bond_id as usize;
        let stored_owner = self.owners[idx];
        if stored_owner != current_owner {
            return Err(Error::NotOwner);
        }
        if current_owner == new_owner {
            return Err(Error::TransferToSelf);
        }
        self.owners[idx] = new_owner;
        Ok(())
    }

    /// Mark an Active bond as Defaulted.  Admin-gated; terminal; past
    /// redemptions stand.
    pub fn mark_defaulted(&mut self, admin: Address, bond_id: u64) -> (r: Result<(), Error>)
        requires
            old(self).wf(),
        ensures
            final(self).wf(),
            r is Err ==> final(self)@ == old(self)@,
            r is Ok <==> {
                &&& old(self)@.admin == Some(admin)
                &&& bond_id < old(self)@.bonds.len()
                &&& old(self)@.bonds[bond_id as int].status == BondStatus::Active
            },
            old(self)@.admin is None ==> r == Err::<(), Error>(Error::NotInitialized),
            old(self)@.admin is Some && old(self)@.admin != Some(admin) ==> r == Err::<(), Error>(
                Error::NotAdmin,
            ),
            old(self)@.admin == Some(admin) && !(bond_id < old(self)@.bonds.len()) ==> r == Err::<
                (),
                Error,
            >(Error::BondNotFound),
            old(self)@.admin == Some(admin) && bond_id < old(self)@.bonds.len() && old(
                self,
            )@.bonds[bond_id as int].status != BondStatus::Active ==> r == Err::<(), Error>(
                Error::BondNotActive,
            ),
            r is Ok ==> final(self)@ == (RevenueBondView {
                bonds: old(self)@.bonds.update(
                    bond_id as int,
                    Bond {
                        status: BondStatus::Defaulted,
                        ..old(self)@.bonds[bond_id as int]
                    },
                ),
                ..old(self)@
            }),
    {
        match self.admin {
            None => {
                return Err(Error::NotInitialized);
            },
            Some(a) => {
                if a != admin {
                    return Err(Error::NotAdmin);
                }
            },
        }
        let n = self.bonds.len();
        if bond_id >= n as u64 {
            return Err(Error::BondNotFound);
        }
        let idx = bond_id as usize;
        let bond = self.bonds[idx];
        if bond.status != BondStatus::Active {
            return Err(Error::BondNotActive);
        }
        self.bonds[idx] = Bond { status: BondStatus::Defaulted, ..bond };
        Ok(())
    }

    /// The bond stored under an id, if any.
    pub fn get_bond(&self, bond_id: u64) -> (r: Option<Bond>)
        ensures
            r == if bond_id < self@.bonds.len() {
                Some(self@.bonds[bond_id as int])
            } else {
                None::<Bond>
            },
    {
        let n = self.bonds.len();
        if bond_id < n as u64 {
            Some(self.bonds[bond_id as usize])
        } else {
            None
        }
    }

    /// A bond's current owner, if the bond exists.
    pub fn get_owner(&self, bond_id: u64) -> (r: Option<Address>)
        requires
            self.wf(),
        ensures
            r == if bond_id < self@.owners.len() {
                Some(self@.owners[bond_id as int])
            } else {
                None::<Address>
            },
    {
        let n = self.owners.len();
        if bond_id < n as u64 {
            Some(self.owners[bond_id as usize])
        } else {
            None
        }
    }

    /// The redemption record for (bond, period), if any.
    pub fn get_redemption(&self, bond_id: u64, period: &String) -> (r: Option<RedemptionRecord>)
        requires
            self.wf(),
        ensures
            r == if self@.redemptions.contains_key((bond_id, period@)) {
                Some(self@.redemptions[(bond_id, period@)])
            } else {
                None::<RedemptionRecord>
            },
    {
        match self.redemptions.get(bond_id, period) {
            Some(rec) => Some(rec.clone()),
            None => None,
        }
    }

    /// A bond's running sum of payments; 0 for an unknown id.
    pub fn get_total_redeemed(&self, bond_id: u64) -> (r: i128)
        ensures
            r == if bond_id < self@.totals.len() {
                self@.totals[bond_id as int]
            } else {
                0
            },
    {
        let n = self.totals.len();
        if bond_id < n as u64 {
            self.totals[bond_id as usize]
        } else {
            0
        }
    }

    /// A bond's remaining face value, if the bond exists.
    pub fn get_remaining_value(&self, bond_id: u64) -> (r: Option<i128>)
        requires
            self.wf(),
        ensures
            r == if bond_id < self@.bonds.len() {
                Some((self@.bonds[bond_id as int].face_value - self@.totals[bond_id as int]) as i128)
            } else {
                None::<i128>
            },
    {
        let n = self.bonds.len();
        if bond_id < n as u64 {
            let idx = bond_id as usize;
            Some(self.bonds[idx].face_value - self.totals[idx])
        } else {
            None
        }
    }

    /// The admin, once initialized.
    pub fn get_admin(&self) -> (r: Option<Address>)
        ensures
            r == self@.admin,
    {
        self.admin
    }
}

} // verus!
