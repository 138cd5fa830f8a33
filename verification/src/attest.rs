//! The attestation registry.
//!
//! Records a tamper-evident summary of a business's revenue for a period —
//! a 32-byte content hash, a timestamp, and a format version — keyed by
//! (business, period).  A record is write-once: a second submission for
//! the same pair fails and changes nothing.  Each successful submission is
//! priced by the registry's [`FeeSchedule`] and bumps the business's usage
//! counter.
//!
//! Beside the attestations proper, the registry holds anomaly records —
//! a flag bitmask and a risk score in `[0, 100]` — written only by
//! addresses in an admin-managed authorized-analytics set, and only for
//! attestations that exist.  Writing an anomaly record never touches the
//! attestation's own fields.

use vstd::prelude::*;

use std::collections::HashMap;

use crate::errors::Error;
use crate::fees::{
    fee_view_wf, quoted_fee, FeeConfig, FeeSchedule, FeeScheduleView, TokenTransfer,
};
use crate::period_map::PeriodMap;
use crate::Address;

verus! {

broadcast use vstd::std_specs::hash::group_hash_axioms;

/// One stored attestation.  The hash, timestamp, and version are immutable
/// once written; `fee_paid` records what the submission actually cost.
#[derive(Clone, Copy, Debug, PartialEq, Eq)]
pub struct AttestationRecord {
    /// 32-byte content hash of the attested revenue data.
    pub merkle_root: [u8; 32],
    /// Timestamp claimed for the attested period.
    pub timestamp: u64,
    /// Format version of the attested data.
    pub version: u32,
    /// Fee charged when the attestation was submitted.
    pub fee_paid: i128,
}

/// Anomaly findings for one attestation: a condition bitmask and a risk
/// score in `[0, 100]`, higher meaning riskier.
#[derive(Clone, Copy, Debug, PartialEq, Eq, Structural)]
pub struct AnomalyRecord {
    /// Bitmask of anomaly conditions; semantics are defined off-ledger.
    pub flags: u32,
    /// Risk score in `[0, 100]`.
    pub score: u32,
}

/// What a successful submission settles: the fee charged and the transfer
/// the environment must perform, if the fee was positive.
#[derive(Clone, Copy, Debug, PartialEq, Eq)]
pub struct SubmitReceipt {
    /// The fee actually charged, possibly 0.
    pub fee_paid: i128,
    /// The fee transfer to perform, present exactly when `fee_paid > 0`.
    pub transfer: Option<TokenTransfer>,
}

/// The abstract state of an [`AttestationContract`].
pub struct AttestationContractView {
    /// The admin, once initialized.
    pub admin: Option<Address>,
    /// The fee engine's state.
    pub fees: FeeScheduleView,
    /// Attestations by (business, period).
    pub attestations: Map<(Address, Seq<char>), AttestationRecord>,
    /// Anomaly records by (business, period).
    pub anomalies: Map<(Address, Seq<char>), AnomalyRecord>,
    /// The authorized-analytics set.
    pub authorized: Map<Address, ()>,
}

/// The well-formedness every reachable registry state satisfies: a sound
/// fee schedule, anomaly records only for existing attestations, and
/// anomaly scores within range.
pub open spec fn attest_view_wf(v: AttestationContractView) -> bool {
    &&& fee_view_wf(v.fees)
    &&& forall|k: (Address, Seq<char>)| #[trigger]
        v.anomalies.contains_key(k) ==> v.attestations.contains_key(k)
    &&& forall|k: (Address, Seq<char>)| #[trigger]
        v.anomalies.contains_key(k) ==> v.anomalies[k].score <= 100
}

/// Whether a submission for `(business, period)` would be accepted:
/// exactly when no attestation is stored under that key yet.
pub open spec fn submit_allowed(
    v: AttestationContractView,
    business: Address,
    period: Seq<char>,
) -> bool {
    !v.attestations.contains_key((business, period))
}

/// Law (write-once): after a submission for `(business, period)` is
/// recorded, no further submission for the same pair is allowed, and the
/// stored record is the recorded one.  Together with the contract of
/// [`AttestationContract::submit_attestation`] — which returns an error
/// and leaves the whole state unchanged whenever submission is not
/// allowed — a second submission can neither succeed nor disturb the
/// first record.
pub proof fn lemma_attestation_write_once(
    pre: AttestationContractView,
    post: AttestationContractView,
    business: Address,
    period: Seq<char>,
    rec: AttestationRecord,
)
    requires
        submit_allowed(pre, business, period),
        post.attestations == pre.attestations.insert((business, period), rec),
    ensures
        !submit_allowed(post, business, period),
        post.attestations[(business, period)] == rec,
{
}

/// Compare two 32-byte hashes.
fn roots_equal(a: &[u8; 32], b: &[u8; 32]) -> (r: bool)
    ensures
        r == (a@ == b@),
{
    let mut i: usize = 0;
    while i < 32
        invariant
            i <= 32,
            forall|j: int| 0 <= j < i ==> a@[j] == b@[j],
        decreases 32 - i,
    {
        if a[i] != b[i] {
            return false;
        }
        i = i + 1;
    }
    proof {
        assert(a@ =~= b@);
    }
    true
}

/// The attestation registry: write-once revenue attestations, the fee
/// engine that prices them, and admin-gated anomaly analytics.
#[derive(Clone)]
pub struct AttestationContract {
    admin: Option<Address>,
    fees: FeeSchedule,
    attestations: PeriodMap<AttestationRecord>,
    anomalies: PeriodMap<AnomalyRecord>,
    authorized: HashMap<Address, ()>,
}

impl View for AttestationContract {
    type V = AttestationContractView;

    closed spec fn view(&self) -> AttestationContractView {
        AttestationContractView {
            admin: self.admin,
            fees: self.fees@,
            attestations: self.attestations@,
            anomalies: self.anomalies@,
            authorized: self.authorized@,
        }
    }
}

impl AttestationContract {
    /// Well-formedness; established by [`AttestationContract::new`] and
    /// preserved by every operation.  Implies [`attest_view_wf`] of the
    /// view.
    pub closed spec fn wf(&self) -> bool {
        &&& attest_view_wf(self@)
        &&& self.fees.wf()
        &&& self.attestations.wf()
        &&& self.anomalies.wf()
    }

    /// A fresh registry: no admin, no fees configured, nothing stored.
    pub fn new() -> (s: Self)
        ensures
            s.wf(),
            s@.admin is None,
            s@.fees.config is None,
            s@.attestations == Map::<(Address, Seq<char>), AttestationRecord>::empty(),
            s@.anomalies == Map::<(Address, Seq<char>), AnomalyRecord>::empty(),
            s@.authorized == Map::<Address, ()>::empty(),
    {
        AttestationContract {
            admin: None,
            fees: FeeSchedule::new(),
            attestations: PeriodMap::new(),
            anomalies: PeriodMap::new(),
            authorized: HashMap::new(),
        }
    }

    /// One-time initialization: set the admin.  The caller must have
    /// authenticated as `admin`.
    pub fn initialize(&mut self, admin: Address) -> (r: Result<(), Error>)
        requires
            old(self).wf(),
        ensures
            final(self).wf(),
            r is Ok <==> old(self)@.admin is None,
            r is Err ==> r == Err::<(), Error>(Error::AlreadyInitialized)
                && final(self)@ == old(self)@,
            r is Ok ==> final(self)@ == (AttestationContractView {
                admin: Some(admin),
                ..old(self)@
            }),
    {
        match self.admin {
            Some(_) => Err(Error::AlreadyInitialized),
            None => {
                self.admin = Some(admin);
                Ok(())
            },
        }
    }

    /// Whether the registry's stored admin is exactly `caller`.
    pub open spec fn is_admin(v: AttestationContractView, caller: Address) -> bool {
        v.admin == Some(caller)
    }

    /// Replace the fee schedule's configuration.  Admin-gated.
    pub fn configure_fees(
        &mut self,
        caller: Address,
        token: Address,
        collector: Address,
        base_fee: i128,
        enabled: bool,
    ) -> (r: Result<(), Error>)
        requires
            old(self).wf(),
        ensures
            final(self).wf(),
            r is Err ==> final(self)@ == old(self)@,
            r is Ok <==> Self::is_admin(old(self)@, caller) && base_fee >= 0,
            old(self)@.admin is None ==> r == Err::<(), Error>(Error::NotInitialized),
            old(self)@.admin is Some && !Self::is_admin(old(self)@, caller) ==> r == Err::<
                (),
                Error,
            >(Error::NotAdmin),
            Self::is_admin(old(self)@, caller) && base_fee < 0 ==> r == Err::<(), Error>(
                Error::InvalidBaseFee,
            ),
            r is Ok ==> final(self)@ == (AttestationContractView {
                fees: FeeScheduleView {
                    config: Some(FeeConfig { token, collector, base_fee, enabled }),
                    ..old(self)@.fees
                },
                ..old(self)@
            }),
    {
        self.require_admin(caller)?;
        self.fees.set_config(token, collector, base_fee, enabled)?;
        Ok(())
    }

    /// Set the discount of one tier.  Admin-gated.
    pub fn set_tier_discount(&mut self, caller: Address, tier: u32, discount_bps: u32) -> (r:
        Result<(), Error>)
        requires
            old(self).wf(),
        ensures
            final(self).wf(),
            r is Err ==> final(self)@ == old(self)@,
            r is Ok <==> Self::is_admin(old(self)@, caller) && discount_bps <= 10000,
            old(self)@.admin is None ==> r == Err::<(), Error>(Error::NotInitialized),
            old(self)@.admin is Some && !Self::is_admin(old(self)@, caller) ==> r == Err::<
                (),
                Error,
            >(Error::NotAdmin),
            Self::is_admin(old(self)@, caller) && discount_bps > 10000 ==> r == Err::<(), Error>(
                Error::InvalidDiscount,
            ),
            r is Ok ==> final(self)@ == (AttestationContractView {
                fees: FeeScheduleView {
                    tier_discounts: old(self)@.fees.tier_discounts.insert(tier, discount_bps),
                    ..old(self)@.fees
                },
                ..old(self)@
            }),
    {
        self.require_admin(caller)?;
        self.fees.set_tier_discount(tier, discount_bps)?;
        Ok(())
    }

    /// Assign a business to a tier.  Admin-gated; tiers are open-ended.
    pub fn set_business_tier(&mut self, caller: Address, business: Address, tier: u32) -> (r:
        Result<(), Error>)
        requires
            old(self).wf(),
        ensures
            final(self).wf(),
            r is Err ==> final(self)@ == old(self)@,
            r is Ok <==> Self::is_admin(old(self)@, caller),
            old(self)@.admin is None ==> r == Err::<(), Error>(Error::NotInitialized),
            old(self)@.admin is Some && !Self::is_admin(old(self)@, caller) ==> r == Err::<
                (),
                Error,
            >(Error::NotAdmin),
            r is Ok ==> final(self)@ == (AttestationContractView {
                fees: FeeScheduleView {
                    business_tiers: old(self)@.fees.business_tiers.insert(business, tier),
                    ..old(self)@.fees
                },
                ..old(self)@
            }),
    {
        self.require_admin(caller)?;
        self.fees.set_business_tier(business, tier);
        Ok(())
    }

    /// Replace the volume bracket table atomically.  Admin-gated.
    pub fn set_volume_brackets(
        &mut self,
        caller: Address,
        thresholds: Vec<u64>,
        discounts: Vec<u32>,
    ) -> (r: Result<(), Error>)
        requires
            old(self).wf(),
        ensures
            final(self).wf(),
            r is Err ==> final(self)@ == old(self)@,
            r is Ok <==> {
                &&& Self::is_admin(old(self)@, caller)
                &&& thresholds@.len() == discounts@.len()
                &&& forall|i: int|
                    0 < i < thresholds@.len() ==> thresholds@[i - 1] < #[trigger] thresholds@[i]
                &&& forall|i: int| 0 <= i < discounts@.len() ==> discounts@[i] <= 10000
            },
            old(self)@.admin is None ==> r == Err::<(), Error>(Error::NotInitialized),
            old(self)@.admin is Some && !Self::is_admin(old(self)@, caller) ==> r == Err::<
                (),
                Error,
            >(Error::NotAdmin),
            Self::is_admin(old(self)@, caller) && thresholds@.len() != discounts@.len() ==> r
                == Err::<(), Error>(Error::BracketLengthMismatch),
            r is Ok ==> final(self)@ == (AttestationContractView {
                fees: FeeScheduleView {
                    volume_thresholds: thresholds@,
                    volume_discounts: discounts@,
                    ..old(self)@.fees
                },
                ..old(self)@
            }),
    {
        self.require_admin(caller)?;
        self.fees.set_volume_brackets(thresholds, discounts)?;
        Ok(())
    }

    /// Toggle fee collection.  Admin-gated; fails when no fee schedule
    /// was ever configured.
    pub fn set_fee_enabled(&mut self, caller: Address, enabled: bool) -> (r: Result<(), Error>)
        requires
            old(self).wf(),
        ensures
            final(self).wf(),
            r is Err ==> final(self)@ == old(self)@,
            r is Ok <==> Self::is_admin(old(self)@, caller) && old(self)@.fees.config is Some,
            old(self)@.admin is None ==> r == Err::<(), Error>(Error::NotInitialized),
            old(self)@.admin is Some && !Self::is_admin(old(self)@, caller) ==> r == Err::<
                (),
                Error,
            >(Error::NotAdmin),
            Self::is_admin(old(self)@, caller) && old(self)@.fees.config is None ==> r == Err::<
                (),
                Error,
            >(Error::FeesNotConfigured),
            r is Ok ==> final(self)@ == (AttestationContractView {
                fees: FeeScheduleView {
                    config: Some(FeeConfig { enabled, ..old(self)@.fees.config->Some_0 }),
                    ..old(self)@.fees
                },
                ..old(self)@
            }),
    {
        self.require_admin(caller)?;
        self.fees.set_enabled(enabled)?;
        Ok(())
    }

    /// Submit a revenue attestation for (business, period).  The business
    /// must have authenticated as itself.  Fails — changing nothing —
    /// when an attestation already exists for the pair; otherwise charges
    /// the quoted fee, counts the submission, stores the record, and
    /// returns the fee transfer the environment must perform.
    pub fn submit_attestation(
        &mut self,
        business: Address,
        period: &String,
        merkle_root: [u8; 32],
        timestamp: u64,
        version: u32,
    ) -> (r: Result<SubmitReceipt, Error>)
        requires
            old(self).wf(),
        ensures
            final(self).wf(),
            r is Ok <==> submit_allowed(old(self)@, business, period@),
            r is Err ==> r == Err::<SubmitReceipt, Error>(Error::DuplicateAttestation)
                && final(self)@ == old(self)@,
            r is Ok ==> {
                let receipt = r->Ok_0;
                let fee = quoted_fee(old(self)@.fees, business);
                &&& receipt.fee_paid as int == fee
                &&& receipt.fee_paid > 0 ==> receipt.transfer == Some(TokenTransfer {
                    token: old(self)@.fees.config->Some_0.token,
                    from: business,
                    to: old(self)@.fees.config->Some_0.collector,
                    amount: receipt.fee_paid,
                })
                &&& receipt.fee_paid == 0 ==> receipt.transfer is None
                &&& final(self)@ == (AttestationContractView {
                    attestations: old(self)@.attestations.insert(
                        (business, period@),
                        AttestationRecord {
                            merkle_root,
                            timestamp,
                            version,
                            fee_paid: receipt.fee_paid,
                        },
                    ),
                    fees: FeeScheduleView {
                        business_counts: old(self)@.fees.business_counts.insert(
                            business,
                            if crate::fees::count_of(old(self)@.fees, business) < u64::MAX {
                                (crate::fees::count_of(old(self)@.fees, business) + 1) as u64
                            } else {
                                u64::MAX
                            },
                        ),
                        ..old(self)@.fees
                    },
                    ..old(self)@
                })
            },
    {
        if self.attestations.contains(business, period) {
            return Err(Error::DuplicateAttestation);
        }
        let (fee_paid, transfer) = self.fees.collect(business);
        self.fees.increment_count(business);
        let record = AttestationRecord { merkle_root, timestamp, version, fee_paid };
        self.attestations.set(business, period.clone(), record);
        Ok(SubmitReceipt { fee_paid, transfer })
    }

    /// The stored attestation for (business, period), if any.
    pub fn get_attestation(&self, business: Address, period: &String) -> (r: Option<
        AttestationRecord,
    >)
        requires
            self.wf(),
        ensures
            r == if self@.attestations.contains_key((business, period@)) {
                Some(self@.attestations[(business, period@)])
            } else {
                None::<AttestationRecord>
            },
    {
        match self.attestations.get(business, period) {
            Some(rec) => Some(*rec),
            None => None,
        }
    }

    /// Whether an attestation exists for (business, period) and carries
    /// exactly this content hash.
    pub fn verify_attestation(&self, business: Address, period: &String, merkle_root: &[u8; 32]) -> (r:
        bool)
        requires
            self.wf(),
        ensures
            r == (self@.attestations.contains_key((business, period@))
                && self@.attestations[(business, period@)].merkle_root@ == merkle_root@),
    {
        match self.attestations.get(business, period) {
            Some(rec) => roots_equal(&rec.merkle_root, merkle_root),
            None => false,
        }
    }

    /// Add an address to the authorized-analytics set.  Admin-gated.
    pub fn add_authorized_analytics(&mut self, caller: Address, analytics: Address) -> (r: Result<
        (),
        Error,
    >)
        requires
            old(self).wf(),
        ensures
            final(self).wf(),
            r is Err ==> final(self)@ == old(self)@,
            r is Ok <==> Self::is_admin(old(self)@, caller),
            old(self)@.admin is None ==> r == Err::<(), Error>(Error::NotInitialized),
            old(self)@.admin is Some && !Self::is_admin(old(self)@, caller) ==> r == Err::<
                (),
                Error,
            >(Error::NotAdmin),
            r is Ok ==> final(self)@ == (AttestationContractView {
                authorized: old(self)@.authorized.insert(analytics, ()),
                ..old(self)@
            }),
    {
        self.require_admin(caller)?;
        self.authorized.insert(analytics, ());
        Ok(())
    }

    /// Remove an address from the authorized-analytics set.  Admin-gated.
    pub fn remove_authorized_analytics(&mut self, caller: Address, analytics: Address) -> (r:
        Result<(), Error>)
        requires
            old(self).wf(),
        ensures
            final(self).wf(),
            r is Err ==> final(self)@ == old(self)@,
            r is Ok <==> Self::is_admin(old(self)@, caller),
            old(self)@.admin is None ==> r == Err::<(), Error>(Error::NotInitialized),
            old(self)@.admin is Some && !Self::is_admin(old(self)@, caller) ==> r == Err::<
                (),
                Error,
            >(Error::NotAdmin),
            r is Ok ==> final(self)@ == (AttestationContractView {
                authorized: old(self)@.authorized.remove(analytics),
                ..old(self)@
            }),
    {
        self.require_admin(caller)?;
        self.authorized.remove(&analytics);
        Ok(())
    }

    /// Record anomaly findings for an existing attestation.  The updater
    /// must have authenticated as itself, be in the authorized-analytics
    /// set, reference an attestation that exists, and pass a score within
    /// `[0, 100]`.  The attestation's own fields are untouched.
    pub fn set_anomaly(
        &mut self,
        updater: Address,
        business: Address,
        period: &String,
        flags: u32,
        score: u32,
    ) -> (r: Result<(), Error>)
        requires
            old(self).wf(),
        ensures
            final(self).wf(),
            r is Err ==> final(self)@ == old(self)@,
            r is Ok <==> {
                &&& old(self)@.authorized.contains_key(updater)
                &&& old(self)@.attestations.contains_key((business, period@))
                &&& score <= 100
            },
            !old(self)@.authorized.contains_key(updater) ==> r == Err::<(), Error>(
                Error::NotAuthorized,
            ),
            old(self)@.authorized.contains_key(updater) && !old(self)@.attestations.contains_key(
                (business, period@),
            ) ==> r == Err::<(), Error>(Error::AttestationNotFound),
            old(self)@.authorized.contains_key(updater) && old(self)@.attestations.contains_key(
                (business, period@),
            ) && score > 100 ==> r == Err::<(), Error>(Error::ScoreOutOfRange),
            r is Ok ==> final(self)@ == (AttestationContractView {
                anomalies: old(self)@.anomalies.insert(
                    (business, period@),
                    AnomalyRecord { flags, score },
                ),
                ..old(self)@
            }),
    {
        if !self.authorized.contains_key(&updater) {
            return Err(Error::NotAuthorized);
        }
        if !self.attestations.contains(business, period) {
            return Err(Error::AttestationNotFound);
        }
        if score > 100 {
            return Err(Error::ScoreOutOfRange);
        }
        self.anomalies.set(business, period.clone(), AnomalyRecord { flags, score });
        Ok(())
    }

    /// The anomaly flags and risk score recorded for (business, period),
    /// if any.
    pub fn get_anomaly(&self, business: Address, period: &String) -> (r: Option<(u32, u32)>)
        requires
            self.wf(),
        ensures
            r == if self@.anomalies.contains_key((business, period@)) {
                Some(
                    (
                        self@.anomalies[(business, period@)].flags,
                        self@.anomalies[(business, period@)].score,
                    ),
                )
            } else {
                None::<(u32, u32)>
            },
    {
        match self.anomalies.get(business, period) {
            Some(rec) => Some((rec.flags, rec.score)),
            None => None,
        }
    }

    /// The current fee configuration, if any.
    pub fn get_fee_config(&self) -> (r: Option<FeeConfig>)
        ensures
            r == self@.fees.config,
    {
        self.fees.get_config()
    }

    /// The fee a business would pay for its next submission.
    pub fn get_fee_quote(&self, business: Address) -> (r: i128)
        requires
            self.wf(),
        ensures
            r as int == quoted_fee(self@.fees, business),
            r >= 0,
    {
        self.fees.quote(business)
    }

    /// The tier assigned to a business; 0 when unset.
    pub fn get_business_tier(&self, business: Address) -> (r: u32)
        ensures
            r == crate::fees::tier_of(self@.fees, business),
    {
        self.fees.get_business_tier(business)
    }

    /// The cumulative attestation count of a business.
    pub fn get_business_count(&self, business: Address) -> (r: u64)
        ensures
            r == crate::fees::count_of(self@.fees, business),
    {
        self.fees.get_business_count(business)
    }

    /// The admin, once initialized.
    pub fn get_admin(&self) -> (r: Option<Address>)
        ensures
            r == self@.admin,
    {
        self.admin
    }

    /// Check that the registry is initialized and `caller` is its admin.
    fn require_admin(&self, caller: Address) -> (r: Result<(), Error>)
        ensures
            r is Ok <==> Self::is_admin(self@, caller),
            self@.admin is None ==> r == Err::<(), Error>(Error::NotInitialized),
            self@.admin is Some && !Self::is_admin(self@, caller) ==> r == Err::<(), Error>(
                Error::NotAdmin,
            ),
    {
        match self.admin {
            None => Err(Error::NotInitialized),
            Some(a) => {
                if a == caller {
                    Ok(())
                } else {
                    Err(Error::NotAdmin)
                }
            },
        }
    }
}

} // verus!
