//! The attestation-fee discount engine.
//!
//! A [`FeeSchedule`] prices each attestation submission from a configured
//! base fee, a per-tier discount table, and a table of volume brackets.
//! The effective discount for a business is its tier discount plus the
//! discount of the highest volume bracket its past submission count has
//! reached, capped at 10000 basis points; the fee is
//! `base * (10000 - effective) / 10000` with integer division truncating
//! in the business's favour.
//!
//! The schedule never moves tokens itself: [`FeeSchedule::collect`]
//! returns the [`TokenTransfer`] the environment must perform.

use vstd::arithmetic::div_mod::{
    lemma_div_is_ordered, lemma_div_multiples_vanish, lemma_div_pos_is_pos,
    lemma_fundamental_div_mod, lemma_hoist_over_denominator,
};
use vstd::arithmetic::mul::{lemma_mul_inequality, lemma_mul_nonnegative};
use vstd::prelude::*;

use std::collections::HashMap;

use crate::errors::Error;
use crate::Address;

verus! {

broadcast use vstd::std_specs::hash::group_hash_axioms;

/// The fee schedule's core configuration: which token fees are paid in,
/// who collects them, the undiscounted fee per submission, and a master
/// switch.
#[derive(Clone, Copy, Debug, PartialEq, Eq, Structural)]
pub struct FeeConfig {
    /// Token contract the fee is paid in.
    pub token: Address,
    /// Address that receives collected fees.
    pub collector: Address,
    /// Undiscounted fee per submission, in the token's smallest unit.
    /// Never negative.
    pub base_fee: i128,
    /// Master switch for fee collection.
    pub enabled: bool,
}

/// A token movement the ledger environment must perform on the library's
/// behalf.  The registries compute exact amounts and parties; the
/// token-transfer primitive itself is the environment's.
#[derive(Clone, Copy, Debug, PartialEq, Eq, Structural)]
pub struct TokenTransfer {
    /// Token contract to move.
    pub token: Address,
    /// Paying party.
    pub from: Address,
    /// Receiving party.
    pub to: Address,
    /// Amount, in the token's smallest unit; always positive.
    pub amount: i128,
}

/// The abstract state of a [`FeeSchedule`].
pub struct FeeScheduleView {
    /// The configuration, once set.
    pub config: Option<FeeConfig>,
    /// Discount in basis points for each configured tier; unset tiers
    /// discount nothing.
    pub tier_discounts: Map<u32, u32>,
    /// Tier assigned to each business; unset businesses are tier 0.
    pub business_tiers: Map<Address, u32>,
    /// Volume bracket thresholds, strictly ascending.
    pub volume_thresholds: Seq<u64>,
    /// Volume bracket discounts, parallel to the thresholds.
    pub volume_discounts: Seq<u32>,
    /// Cumulative attestations ever submitted per business; unset
    /// businesses count 0.
    pub business_counts: Map<Address, u64>,
}

/// The well-formedness every reachable [`FeeSchedule`] state satisfies.
pub open spec fn fee_view_wf(v: FeeScheduleView) -> bool {
    &&& v.volume_thresholds.len() == v.volume_discounts.len()
    &&& forall|i: int|
        0 < i < v.volume_thresholds.len() ==> v.volume_thresholds[i - 1] < #[trigger] v.volume_thresholds[i]
    &&& forall|i: int| 0 <= i < v.volume_discounts.len() ==> v.volume_discounts[i] <= 10000
    &&& forall|t: u32| #[trigger] v.tier_discounts.contains_key(t) ==> v.tier_discounts[t] <= 10000
    &&& match v.config {
        Option::Some(c) => c.base_fee >= 0,
        Option::None => true,
    }
}

/// The tier a business is assigned; 0 when unset.
pub open spec fn tier_of(v: FeeScheduleView, business: Address) -> u32 {
    if v.business_tiers.contains_key(business) {
        v.business_tiers[business]
    } else {
        0
    }
}

/// The discount of a tier, in basis points; 0 when the tier is unset.
pub open spec fn tier_discount_of(v: FeeScheduleView, tier: u32) -> u32 {
    if v.tier_discounts.contains_key(tier) {
        v.tier_discounts[tier]
    } else {
        0
    }
}

/// A business's cumulative submission count; 0 when unset.
pub open spec fn count_of(v: FeeScheduleView, business: Address) -> u64 {
    if v.business_counts.contains_key(business) {
        v.business_counts[business]
    } else {
        0
    }
}

/// The discount of the highest volume bracket whose threshold the count
/// has reached; 0 when none qualifies.
pub open spec fn volume_discount_of(th: Seq<u64>, ds: Seq<u32>, count: u64) -> u32
    decreases th.len(),
{
    if th.len() == 0 || ds.len() == 0 {
        0
    } else if th.last() <= count {
        ds.last()
    } else {
        volume_discount_of(th.drop_last(), ds.drop_last(), count)
    }
}

/// A volume discount never exceeds the last bracket's discount when the
/// bracket discounts are non-decreasing.
proof fn lemma_volume_discount_le_last(th: Seq<u64>, ds: Seq<u32>, count: u64)
    requires
        th.len() == ds.len(),
        ds.len() > 0,
        forall|i: int, j: int| 0 <= i <= j < ds.len() ==> ds[i] <= ds[j],
    ensures
        volume_discount_of(th, ds, count) <= ds.last(),
    decreases th.len(),
{
    if th.last() > count {
        if th.len() == 1 {
            assert(th.drop_last().len() == 0);
            assert(volume_discount_of(th.drop_last(), ds.drop_last(), count) == 0);
        } else {
            lemma_volume_discount_le_last(th.drop_last(), ds.drop_last(), count);
            assert(ds.drop_last().last() == ds[ds.len() - 2]);
        }
    }
}

/// Law (bracket crossing): with strictly ascending thresholds and
/// non-decreasing bracket discounts, a higher cumulative count never
/// earns a smaller volume discount — so crossing into a higher bracket
/// never raises the fee.  Bracket tables whose discounts shrink as the
/// thresholds grow are excluded: for those, crossing a bracket genuinely
/// lowers the discount.
pub proof fn lemma_volume_discount_monotone(th: Seq<u64>, ds: Seq<u32>, c1: u64, c2: u64)
    requires
        th.len() == ds.len(),
        forall|i: int| 0 < i < th.len() ==> th[i - 1] < #[trigger] th[i],
        forall|i: int, j: int| 0 <= i <= j < ds.len() ==> ds[i] <= ds[j],
        c1 <= c2,
    ensures
        volume_discount_of(th, ds, c1) <= volume_discount_of(th, ds, c2),
    decreases th.len(),
{
    if th.len() > 0 {
        if th.last() <= c1 {
            // Both counts reach the last bracket.
        } else if th.last() <= c2 {
            // Only the larger count reaches the last bracket; the
            // smaller one earns at most that bracket's discount.
            lemma_volume_discount_le_last(th, ds, c1);
        } else {
            lemma_volume_discount_monotone(th.drop_last(), ds.drop_last(), c1, c2);
        }
    }
}

/// Tier and volume discounts stack additively, capped at 10000 basis
/// points.
pub open spec fn effective_discount(tier_bps: int, volume_bps: int) -> int {
    if tier_bps + volume_bps > 10000 {
        10000
    } else {
        tier_bps + volume_bps
    }
}

/// The discounted fee: `base * (10000 - discount) / 10000`, truncating.
pub open spec fn discounted_fee(base: int, discount_bps: int) -> int {
    base * (10000 - discount_bps) / 10000
}

/// What a business is quoted: 0 when fees are unconfigured or disabled,
/// the discounted base fee otherwise.  The count used for the volume
/// lookup is the count of past submissions, not counting the one being
/// priced.
pub open spec fn quoted_fee(v: FeeScheduleView, business: Address) -> int {
    match v.config {
        Option::None => 0,
        Option::Some(c) => {
            if !c.enabled {
                0
            } else {
                discounted_fee(
                    c.base_fee as int,
                    effective_discount(
                        tier_discount_of(v, tier_of(v, business)) as int,
                        volume_discount_of(
                            v.volume_thresholds,
                            v.volume_discounts,
                            count_of(v, business),
                        ) as int,
                    ),
                )
            }
        },
    }
}

/// Law: for a fixed non-negative base fee, raising the tier discount or
/// the volume discount never raises the fee, and the fee always lies
/// between 0 and the base fee.
pub proof fn lemma_fee_monotonicity(base: int, t1: int, v1: int, t2: int, v2: int)
    requires
        0 <= base,
        0 <= t1 <= t2,
        0 <= v1 <= v2,
    ensures
        discounted_fee(base, effective_discount(t2, v2)) <= discounted_fee(
            base,
            effective_discount(t1, v1),
        ),
        0 <= discounted_fee(base, effective_discount(t2, v2)),
        discounted_fee(base, effective_discount(t1, v1)) <= base,
{
    let e1 = effective_discount(t1, v1);
    let e2 = effective_discount(t2, v2);
    assert(0 <= e1 <= e2 <= 10000);
    lemma_discounted_fee_antitone(base, e1, e2);
}

/// For a fixed non-negative base fee, a larger discount never yields a
/// larger fee, and the fee stays within `[0, base]`.
pub proof fn lemma_discounted_fee_antitone(base: int, d1: int, d2: int)
    requires
        0 <= base,
        0 <= d1 <= d2 <= 10000,
    ensures
        discounted_fee(base, d2) <= discounted_fee(base, d1),
        0 <= discounted_fee(base, d2),
        discounted_fee(base, d1) <= base,
{
    lemma_mul_inequality(10000 - d2, 10000 - d1, base);
    lemma_div_is_ordered(base * (10000 - d2), base * (10000 - d1), 10000);
    lemma_mul_nonnegative(base, 10000 - d2);
    lemma_div_pos_is_pos(base * (10000 - d2), 10000);
    lemma_mul_inequality(10000 - d1, 10000, base);
    lemma_div_is_ordered(base * (10000 - d1), base * 10000, 10000);
    lemma_div_multiples_vanish(base, 10000);
}

/// The tiered/volume fee-discount engine.
#[derive(Clone)]
pub struct FeeSchedule {
    config: Option<FeeConfig>,
    tier_discounts: HashMap<u32, u32>,
    business_tiers: HashMap<Address, u32>,
    volume_thresholds: Vec<u64>,
    volume_discounts: Vec<u32>,
    business_counts: HashMap<Address, u64>,
}

impl View for FeeSchedule {
    type V = FeeScheduleView;

    closed spec fn view(&self) -> FeeScheduleView {
        FeeScheduleView {
            config: self.config,
            tier_discounts: self.tier_discounts@,
            business_tiers: self.business_tiers@,
            volume_thresholds: self.volume_thresholds@,
            volume_discounts: self.volume_discounts@,
            business_counts: self.business_counts@,
        }
    }
}

impl FeeSchedule {
    /// Well-formedness; established by [`FeeSchedule::new`] and preserved
    /// by every operation.
    pub open spec fn wf(&self) -> bool {
        fee_view_wf(self@)
    }

    /// An empty schedule: no configuration, no discounts, no counts.
    pub fn new() -> (s: Self)
        ensures
            s.wf(),
            s@.config is None,
            s@.tier_discounts == Map::<u32, u32>::empty(),
            s@.business_tiers == Map::<Address, u32>::empty(),
            s@.volume_thresholds == Seq::<u64>::empty(),
            s@.volume_discounts == Seq::<u32>::empty(),
            s@.business_counts == Map::<Address, u64>::empty(),
    {
        FeeSchedule {
            config: None,
            tier_discounts: HashMap::new(),
            business_tiers: HashMap::new(),
            volume_thresholds: Vec::new(),
            volume_discounts: Vec::new(),
            business_counts: HashMap::new(),
        }
    }

    /// Replace the fee configuration wholesale.  Rejects a negative base
    /// fee and changes nothing else.
    pub fn set_config(&mut self, token: Address, collector: Address, base_fee: i128, enabled: bool) -> (r: Result<
        (),
        Error,
    >)
        requires
            old(self).wf(),
        ensures
            final(self).wf(),
            r is Ok <==> base_fee >= 0,
            r is Err ==> r == Err::<(), Error>(Error::InvalidBaseFee) && final(self)@ == old(self)@,
            r is Ok ==> final(self)@ == (FeeScheduleView {
                config: Some(FeeConfig { token, collector, base_fee, enabled }),
                ..old(self)@
            }),
    {
        if base_fee < 0 {
            return Err(Error::InvalidBaseFee);
        }
        self.config = Some(FeeConfig { token, collector, base_fee, enabled });
        Ok(())
    }

    /// Toggle fee collection without touching the rest of the
    /// configuration.  Fails when no configuration exists yet.
    pub fn set_enabled(&mut self, enabled: bool) -> (r: Result<(), Error>)
        requires
            old(self).wf(),
        ensures
            final(self).wf(),
            r is Ok <==> old(self)@.config is Some,
            r is Err ==> r == Err::<(), Error>(Error::FeesNotConfigured) && final(self)@ == old(self)@,
            r is Ok ==> final(self)@ == (FeeScheduleView {
                config: Some(FeeConfig { enabled, ..old(self)@.config->Some_0 }),
                ..old(self)@
            }),
    {
        match self.config {
            None => Err(Error::FeesNotConfigured),
            Some(c) => {
                self.config = Some(FeeConfig { enabled, ..c });
                Ok(())
            },
        }
    }

    /// Set the discount of one tier.  Rejects a discount above 10000
    /// basis points.
    pub fn set_tier_discount(&mut self, tier: u32, discount_bps: u32) -> (r: Result<(), Error>)
        requires
            old(self).wf(),
        ensures
            final(self).wf(),
            r is Ok <==> discount_bps <= 10000,
            r is Err ==> r == Err::<(), Error>(Error::InvalidDiscount) && final(self)@ == old(self)@,
            r is Ok ==> final(self)@ == (FeeScheduleView {
                tier_discounts: old(self)@.tier_discounts.insert(tier, discount_bps),
                ..old(self)@
            }),
    {
        if discount_bps > 10000 {
            return Err(Error::InvalidDiscount);
        }
        self.tier_discounts.insert(tier, discount_bps);
        Ok(())
    }

    /// Assign a business to a tier.  Tiers are open-ended, so any tier
    /// number is accepted.
    pub fn set_business_tier(&mut self, business: Address, tier: u32)
        requires
            old(self).wf(),
        ensures
            final(self).wf(),
            final(self)@ == (FeeScheduleView {
                business_tiers: old(self)@.business_tiers.insert(business, tier),
                ..old(self)@
            }),
    {
        self.business_tiers.insert(business, tier);
    }

    /// Replace the volume bracket table atomically.  Rejects mismatched
    /// lengths, thresholds that are not strictly ascending, and discounts
    /// above 10000 basis points; a rejected table changes nothing.
    pub fn set_volume_brackets(&mut self, thresholds: Vec<u64>, discounts: Vec<u32>) -> (r: Result<
        (),
        Error,
    >)
        requires
            old(self).wf(),
        ensures
            final(self).wf(),
            r is Ok <==> {
                &&& thresholds@.len() == discounts@.len()
                &&& forall|i: int| 0 < i < thresholds@.len() ==> thresholds@[i - 1] < #[trigger] thresholds@[i]
                &&& forall|i: int| 0 <= i < discounts@.len() ==> discounts@[i] <= 10000
            },
            r is Err ==> final(self)@ == old(self)@,
            thresholds@.len() != discounts@.len() ==> r == Err::<(), Error>(
                Error::BracketLengthMismatch,
            ),
            thresholds@.len() == discounts@.len() && !(forall|i: int|
                0 < i < thresholds@.len() ==> thresholds@[i - 1] < #[trigger] thresholds@[i]) ==> r
                == Err::<(), Error>(Error::BracketsNotAscending),
            thresholds@.len() == discounts@.len() && (forall|i: int|
                0 < i < thresholds@.len() ==> thresholds@[i - 1] < #[trigger] thresholds@[i]) && !(
            forall|i: int| 0 <= i < discounts@.len() ==> discounts@[i] <= 10000) ==> r == Err::<
                (),
                Error,
            >(Error::InvalidDiscount),
            r is Ok ==> final(self)@ == (FeeScheduleView {
                volume_thresholds: thresholds@,
                volume_discounts: discounts@,
                ..old(self)@
            }),
    {
        let n = thresholds.len();
        if n != discounts.len() {
            return Err(Error::BracketLengthMismatch);
        }
        let mut i: usize = 1;
        while i < n
            invariant
                self@ == old(self)@,
                self.wf(),
                n == thresholds@.len(),
                n == discounts@.len(),
                1 <= i,
                forall|j: int| 0 < j < i ==> thresholds@[j - 1] < #[trigger] thresholds@[j],
            decreases n - i,
        {
            if thresholds[i - 1] >= thresholds[i] {
                return Err(Error::BracketsNotAscending);
            }
            i = i + 1;
        }
        let mut j: usize = 0;
        while j < n
            invariant
                self@ == old(self)@,
                self.wf(),
                n == thresholds@.len(),
                n == discounts@.len(),
                j <= n,
                forall|k: int|
                    0 < k < thresholds@.len() ==> thresholds@[k - 1] < #[trigger] thresholds@[k],
                forall|k: int| 0 <= k < j ==> discounts@[k] <= 10000,
            decreases n - j,
        {
            if discounts[j] > 10000 {
                return Err(Error::InvalidDiscount);
            }
            j = j + 1;
        }
        self.volume_thresholds = thresholds;
        self.volume_discounts = discounts;
        Ok(())
    }

    /// The tier a business is assigned.
    pub fn get_business_tier(&self, business: Address) -> (r: u32)
        ensures
            r == tier_of(self@, business),
    {
        match self.business_tiers.get(&business) {
            Some(t) => *t,
            None => 0,
        }
    }

    /// The discount of a tier, in basis points.
    pub fn get_tier_discount(&self, tier: u32) -> (r: u32)
        requires
            self.wf(),
        ensures
            r == tier_discount_of(self@, tier),
            r <= 10000,
    {
        match self.tier_discounts.get(&tier) {
            Some(d) => {
                proof {
                    assert(self@.tier_discounts.contains_key(tier));
                }
                *d
            },
            None => 0,
        }
    }

    /// A business's cumulative submission count.
    pub fn get_business_count(&self, business: Address) -> (r: u64)
        ensures
            r == count_of(self@, business),
    {
        match self.business_counts.get(&business) {
            Some(c) => *c,
            None => 0,
        }
    }

    /// The current configuration, if any.
    pub fn get_config(&self) -> (r: Option<FeeConfig>)
        ensures
            r == self@.config,
    {
        self.config
    }

    /// The volume discount a submission count has earned.
    pub fn get_volume_discount(&self, count: u64) -> (r: u32)
        requires
            self.wf(),
        ensures
            r == volume_discount_of(self@.volume_thresholds, self@.volume_discounts, count),
            r <= 10000,
    {
        let ghost thv = self.volume_thresholds@;
        let ghost dsv = self.volume_discounts@;
        let n = self.volume_thresholds.len();
        let mut i: usize = 0;
        let mut acc: u32 = 0;
        proof {
            assert(thv.take(0) =~= Seq::<u64>::empty());
            assert(dsv.take(0) =~= Seq::<u32>::empty());
        }
        while i < n
            invariant
                self.wf(),
                thv == self.volume_thresholds@,
                dsv == self.volume_discounts@,
                n == thv.len(),
                n == dsv.len(),
                i <= n,
                acc == volume_discount_of(thv.take(i as int), dsv.take(i as int), count),
                acc <= 10000,
            decreases n - i,
        {
            if self.volume_thresholds[i] <= count {
                acc = self.volume_discounts[i];
            }
            proof {
                let k = i + 1 as int;
                assert(thv.take(k).drop_last() =~= thv.take(i as int));
                assert(dsv.take(k).drop_last() =~= dsv.take(i as int));
                assert(thv.take(k).last() == thv[i as int]);
                assert(dsv.take(k).last() == dsv[i as int]);
            }
            i = i + 1;
        }
        proof {
            assert(thv.take(n as int) =~= thv);
            assert(dsv.take(n as int) =~= dsv);
        }
        acc
    }

    /// Apply a discount to a non-negative base fee, truncating toward
    /// zero.  Computed as `q * k + (rem * k) / 10000` over the split
    /// `base = 10000 * q + rem` so that no intermediate product can
    /// overflow, and proved equal to `base * k / 10000`.
    fn apply_discount(base: i128, discount_bps: u32) -> (fee: i128)
        requires
            base >= 0,
            discount_bps <= 10000,
        ensures
            fee == discounted_fee(base as int, discount_bps as int),
            0 <= fee <= base,
    {
        let k: i128 = (10000 - discount_bps) as i128;
        let q: i128 = base / 10000;
        let rem: i128 = base % 10000;
        proof {
            lemma_fundamental_div_mod(base as int, 10000);
            assert(0 <= q);
            assert(0 <= rem < 10000);
            assert(0 <= k <= 10000);
            lemma_mul_nonnegative(q as int, k as int);
            lemma_mul_nonnegative(rem as int, k as int);
            // q * k <= 10000 * q == base - rem, so it cannot overflow.
            lemma_mul_inequality(k as int, 10000, q as int);
            // (rem * k) / 10000 <= rem, since rem * k <= 10000 * rem.
            lemma_mul_inequality(k as int, 10000, rem as int);
            lemma_div_is_ordered((rem as int) * (k as int), (rem as int) * 10000, 10000);
            lemma_div_multiples_vanish(rem as int, 10000);
            lemma_div_pos_is_pos((rem as int) * (k as int), 10000);
            // The split is exact: base * k == q * k * 10000 + rem * k.
            assert((base as int) * (k as int) == (q as int) * (k as int) * 10000 + (rem as int) * (
            k as int)) by (nonlinear_arith)
                requires
                    base as int == 10000 * (q as int) + (rem as int),
            ;
            lemma_hoist_over_denominator((rem as int) * (k as int), (q as int) * (k as int), 10000);
            // The fee never exceeds the base fee.
            lemma_mul_inequality(k as int, 10000, base as int);
            lemma_div_is_ordered((base as int) * (k as int), (base as int) * 10000, 10000);
            lemma_div_multiples_vanish(base as int, 10000);
            lemma_mul_nonnegative(base as int, k as int);
            lemma_div_pos_is_pos((base as int) * (k as int), 10000);
        }
        let scaled_q = q * k;
        let scaled_rem = (rem * k) / 10000;
        scaled_q + scaled_rem
    }

    /// The fee a business would be quoted for its next submission.
    pub fn quote(&self, business: Address) -> (fee: i128)
        requires
            self.wf(),
        ensures
            fee == quoted_fee(self@, business),
            0 <= fee,
    {
        match &self.config {
            None => 0,
            Some(c) => {
                if !c.enabled {
                    0
                } else {
                    let tier = self.get_business_tier(business);
                    let tier_bps = self.get_tier_discount(tier);
                    let count = self.get_business_count(business);
                    let vol_bps = self.get_volume_discount(count);
                    let sum: u32 = tier_bps + vol_bps;
                    let eff: u32 = if sum > 10000 {
                        10000
                    } else {
                        sum
                    };
                    let base = c.base_fee;
                    Self::apply_discount(base, eff)
                }
            },
        }
    }

    /// Price a submission and say which transfer the environment must
    /// perform: the exact quoted fee from the business to the collector,
    /// or none when the fee is zero, disabled, or unconfigured.
    pub fn collect(&self, business: Address) -> (r: (i128, Option<TokenTransfer>))
        requires
            self.wf(),
        ensures
            r.0 == quoted_fee(self@, business),
            0 <= r.0,
            r.0 > 0 ==> r.1 == Some(TokenTransfer {
                token: self@.config->Some_0.token,
                from: business,
                to: self@.config->Some_0.collector,
                amount: r.0,
            }),
            r.0 == 0 ==> r.1 is None,
    {
        match &self.config {
            None => (0, None),
            Some(c) => {
                let fee = self.quote(business);
                if fee > 0 {
                    (
                        fee,
                        Some(
                            TokenTransfer { token: c.token, from: business, to: c.collector, amount: fee },
                        ),
                    )
                } else {
                    (fee, None)
                }
            },
        }
    }

    /// Count one more submission for a business.  The count is
    /// monotonically non-decreasing and saturates at the type's maximum.
    pub fn increment_count(&mut self, business: Address)
        requires
            old(self).wf(),
        ensures
            final(self).wf(),
            final(self)@ == (FeeScheduleView {
                business_counts: old(self)@.business_counts.insert(
                    business,
                    if count_of(old(self)@, business) < u64::MAX {
                        (count_of(old(self)@, business) + 1) as u64
                    } else {
                        u64::MAX
                    },
                ),
                ..old(self)@
            }),
    {
        let c = self.get_business_count(business);
        let next: u64 = if c < u64::MAX {
            c + 1
        } else {
            u64::MAX
        };
        self.business_counts.insert(business, next);
    }
}

} // verus!
