//! The dispute lifecycle.
//!
//! A dispute is a formal challenge against a stored attestation.  It is
//! opened by a challenger, moves Open -> Resolved -> Closed, and never
//! skips a state or moves backward.  Opening requires that the challenged
//! attestation exists — the lookup is the attestation registry's, and its
//! outcome is taken as an argument — and that the same challenger does
//! not already hold an open dispute on the same attestation (the
//! duplicate rule of this registry: per challenger and attestation).
//! Resolving requires an authorization the environment's policy decides,
//! passed in as a fact; closing requires only that the dispute is
//! Resolved.  Ids are assigned densely in opening order, and two
//! secondary indices — by challenged attestation and by challenger —
//! are appended to on creation and never pruned.

use vstd::prelude::*;

use std::collections::HashMap;

use crate::errors::Error;
use crate::period_map::PeriodMap;
use crate::Address;

verus! {

broadcast use vstd::std_specs::hash::group_hash_axioms;

/// A dispute's lifecycle status.
#[derive(Clone, Copy, Debug, PartialEq, Eq, Structural)]
pub enum DisputeStatus {
    /// Just opened; awaiting resolution.
    Open,
    /// Resolved by an authorized resolver; awaiting closure.
    Resolved,
    /// Closed; terminal, immutable.
    Closed,
}

/// How a dispute was resolved.
#[derive(Debug, PartialEq, Eq)]
pub struct Resolution {
    /// Who resolved it.
    pub resolver: Address,
    /// The resolver's verdict, as an application-defined code.
    pub outcome: u32,
    /// Ledger time of the resolution.
    pub resolved_at: u64,
    /// Free-form notes.
    pub notes: String,
}

impl Clone for Resolution {
    fn clone(&self) -> (res: Self)
        ensures
            res == *self,
    {
        Resolution {
            resolver: self.resolver,
            outcome: self.outcome,
            resolved_at: self.resolved_at,
            notes: self.notes.clone(),
        }
    }
}

/// One dispute case.
#[derive(Debug, PartialEq, Eq)]
pub struct Dispute {
    /// The registry-assigned id.
    pub id: u64,
    /// Who opened the dispute.
    pub challenger: Address,
    /// The business whose attestation is challenged.
    pub business: Address,
    /// The period of the challenged attestation.
    pub period: String,
    /// The kind of challenge, as an application-defined code.
    pub dispute_type: u32,
    /// Free-form evidence text.
    pub evidence: String,
    /// Lifecycle status.
    pub status: DisputeStatus,
    /// Ledger time the dispute was opened.
    pub opened_at: u64,
    /// The resolution, present exactly from the Resolved state on.
    pub resolution: Option<Resolution>,
}

impl Clone for Dispute {
    fn clone(&self) -> (res: Self)
        ensures
            res == *self,
    {
        Dispute {
            id: self.id,
            challenger: self.challenger,
            business: self.business,
            period: self.period.clone(),
            dispute_type: self.dispute_type,
            evidence: self.evidence.clone(),
            status: self.status,
            opened_at: self.opened_at,
            resolution: match &self.resolution {
                Some(r) => Some(r.clone()),
                None => None,
            },
        }
    }
}

/// The abstract state of a [`DisputeRegistry`].  Dispute ids are dense:
/// dispute `i` sits at index `i` of `disputes`.
pub struct DisputeRegistryView {
    /// All disputes, by id.
    pub disputes: Seq<Dispute>,
    /// Dispute ids by challenged (business, period), in opening order.
    pub by_attestation: Map<(Address, Seq<char>), Vec<u64>>,
    /// Dispute ids by challenger, in opening order.
    pub by_challenger: Map<Address, Vec<u64>>,
}

/// The ids, in opening order, of the disputes that challenge
/// (business, period).
pub open spec fn attestation_dispute_ids(
    s: Seq<Dispute>,
    business: Address,
    period: Seq<char>,
) -> Seq<u64>
    decreases s.len(),
{
    if s.len() == 0 {
        Seq::empty()
    } else {
        let rest = attestation_dispute_ids(s.drop_last(), business, period);
        if s.last().business == business && s.last().period@ == period {
            rest.push((s.len() - 1) as u64)
        } else {
            rest
        }
    }
}

/// The ids, in opening order, of the disputes a challenger opened.
pub open spec fn challenger_dispute_ids(s: Seq<Dispute>, challenger: Address) -> Seq<u64>
    decreases s.len(),
{
    if s.len() == 0 {
        Seq::empty()
    } else {
        let rest = challenger_dispute_ids(s.drop_last(), challenger);
        if s.last().challenger == challenger {
            rest.push((s.len() - 1) as u64)
        } else {
            rest
        }
    }
}

/// Whether `challenger` already holds an Open dispute on
/// (business, period).
pub open spec fn has_open_dispute(
    s: Seq<Dispute>,
    challenger: Address,
    business: Address,
    period: Seq<char>,
) -> bool {
    exists|i: int|
        0 <= i < s.len() && (#[trigger] s[i]).challenger == challenger && s[i].business == business
            && s[i].period@ == period && s[i].status == DisputeStatus::Open
}

/// The well-formedness every reachable registry state satisfies: dense
/// ids, a resolution exactly from the Resolved state on, and secondary
/// indices that hold exactly the matching dispute ids in opening order.
pub open spec fn disputes_view_wf(v: DisputeRegistryView) -> bool {
    &&& forall|i: int| 0 <= i < v.disputes.len() ==> (#[trigger] v.disputes[i]).id == i
    &&& forall|i: int|
        0 <= i < v.disputes.len() ==> ((#[trigger] v.disputes[i]).status == DisputeStatus::Open
            <==> v.disputes[i].resolution is None)
    &&& forall|k: (Address, Seq<char>)| #[trigger]
        v.by_attestation.contains_key(k) ==> v.by_attestation[k]@ == attestation_dispute_ids(
            v.disputes,
            k.0,
            k.1,
        )
    &&& forall|k: (Address, Seq<char>)|
        !(#[trigger] v.by_attestation.contains_key(k)) ==> attestation_dispute_ids(
            v.disputes,
            k.0,
            k.1,
        ) == Seq::<u64>::empty()
    &&& forall|a: Address| #[trigger]
        v.by_challenger.contains_key(a) ==> v.by_challenger[a]@ == challenger_dispute_ids(
            v.disputes,
            a,
        )
    &&& forall|a: Address|
        !(#[trigger] v.by_challenger.contains_key(a)) ==> challenger_dispute_ids(v.disputes, a)
            == Seq::<u64>::empty()
}

/// Whether opening a dispute would be accepted: the challenged
/// attestation exists and the challenger holds no open dispute on it.
pub open spec fn open_allowed(
    v: DisputeRegistryView,
    challenger: Address,
    business: Address,
    period: Seq<char>,
    attestation_exists: bool,
) -> bool {
    &&& attestation_exists
    &&& !has_open_dispute(v.disputes, challenger, business, period)
}

/// Whether resolving a dispute would be accepted, authorization aside:
/// it exists and is Open.
pub open spec fn resolve_allowed(v: DisputeRegistryView, dispute_id: u64) -> bool {
    &&& dispute_id < v.disputes.len()
    &&& v.disputes[dispute_id as int].status == DisputeStatus::Open
}

/// Whether closing a dispute would be accepted: it exists and is
/// Resolved.
pub open spec fn close_allowed(v: DisputeRegistryView, dispute_id: u64) -> bool {
    &&& dispute_id < v.disputes.len()
    &&& v.disputes[dispute_id as int].status == DisputeStatus::Resolved
}

/// Law (dispute lifecycle): a dispute is resolvable only from Open and
/// closable only from Resolved.  So a Closed dispute admits no further
/// transition, an Open one cannot be closed, and a Resolved one cannot
/// be resolved again.  Together with the contracts of
/// [`DisputeRegistry::resolve_dispute`] and
/// [`DisputeRegistry::close_dispute`] — which fail and leave the state
/// unchanged whenever these conditions do not hold — no transition
/// skips a state or moves backward.
pub proof fn lemma_dispute_lifecycle(v: DisputeRegistryView, dispute_id: u64)
    requires
        dispute_id < v.disputes.len(),
    ensures
        v.disputes[dispute_id as int].status == DisputeStatus::Closed ==> !resolve_allowed(
            v,
            dispute_id,
        ) && !close_allowed(v, dispute_id),
        v.disputes[dispute_id as int].status == DisputeStatus::Open ==> !close_allowed(
            v,
            dispute_id,
        ),
        v.disputes[dispute_id as int].status == DisputeStatus::Resolved ==> !resolve_allowed(
            v,
            dispute_id,
        ),
{
}

/// Updating a dispute in place — keeping its business and period —
/// leaves every attestation index unchanged.
proof fn lemma_attestation_ids_update(
    s: Seq<Dispute>,
    i: int,
    d: Dispute,
    business: Address,
    period: Seq<char>,
)
    requires
        0 <= i < s.len(),
        d.business == s[i].business,
        d.period@ == s[i].period@,
    ensures
        attestation_dispute_ids(s.update(i, d), business, period) == attestation_dispute_ids(
            s,
            business,
            period,
        ),
    decreases s.len(),
{
    let t = s.update(i, d);
    if i == s.len() - 1 {
        assert(t.drop_last() =~= s.drop_last());
    } else {
        assert(t.drop_last() =~= s.drop_last().update(i, d));
        lemma_attestation_ids_update(s.drop_last(), i, d, business, period);
        assert(t.last() == s.last());
    }
}

/// Updating a dispute in place — keeping its challenger — leaves every
/// challenger index unchanged.
proof fn lemma_challenger_ids_update(s: Seq<Dispute>, i: int, d: Dispute, challenger: Address)
    requires
        0 <= i < s.len(),
        d.challenger == s[i].challenger,
    ensures
        challenger_dispute_ids(s.update(i, d), challenger) == challenger_dispute_ids(
            s,
            challenger,
        ),
    decreases s.len(),
{
    let t = s.update(i, d);
    if i == s.len() - 1 {
        assert(t.drop_last() =~= s.drop_last());
    } else {
        assert(t.drop_last() =~= s.drop_last().update(i, d));
        lemma_challenger_ids_update(s.drop_last(), i, d, challenger);
        assert(t.last() == s.last());
    }
}

/// Appending a dispute appends its id to exactly the indices it
/// matches.
proof fn lemma_attestation_ids_push(s: Seq<Dispute>, d: Dispute, business: Address, period: Seq<char>)
    ensures
        attestation_dispute_ids(s.push(d), business, period) == if d.business == business
            && d.period@ == period {
            attestation_dispute_ids(s, business, period).push(s.len() as u64)
        } else {
            attestation_dispute_ids(s, business, period)
        },
{
    assert(s.push(d).drop_last() =~= s);
    assert(s.push(d).last() == d);
}

/// Appending a dispute appends its id to exactly its challenger's
/// index.
proof fn lemma_challenger_ids_push(s: Seq<Dispute>, d: Dispute, challenger: Address)
    ensures
        challenger_dispute_ids(s.push(d), challenger) == if d.challenger == challenger {
            challenger_dispute_ids(s, challenger).push(s.len() as u64)
        } else {
            challenger_dispute_ids(s, challenger)
        },
{
    assert(s.push(d).drop_last() =~= s);
    assert(s.push(d).last() == d);
}

/// Copy a list of dispute ids.
fn copy_ids(v: &Vec<u64>) -> (r: Vec<u64>)
    ensures
        r@ == v@,
{
    let mut r: Vec<u64> = Vec::new();
    let n = v.len();
    let mut i: usize = 0;
    while i < n
        invariant
            n == v@.len(),
            i <= n,
            r@ == v@.take(i as int),
        decreases n - i,
    {
        r.push(v[i]);
        proof {
            assert(r@ =~= v@.take(i + 1 as int));
        }
        i = i + 1;
    }
    proof {
        assert(v@.take(n as int) =~= v@);
    }
    r
}

/// The dispute registry: cases by id, plus lookup indices by challenged
/// attestation and by challenger.
#[derive(Clone)]
pub struct DisputeRegistry {
    disputes: Vec<Dispute>,
    by_attestation: PeriodMap<Vec<u64>>,
    by_challenger: HashMap<Address, Vec<u64>>,
}

impl View for DisputeRegistry {
    type V = DisputeRegistryView;

    closed spec fn view(&self) -> DisputeRegistryView {
        DisputeRegistryView {
            disputes: self.disputes@,
            by_attestation: self.by_attestation@,
            by_challenger: self.by_challenger@,
        }
    }
}

impl DisputeRegistry {
    /// Well-formedness; established by [`DisputeRegistry::new`] and
    /// preserved by every operation.  Implies [`disputes_view_wf`] of
    /// the view.
    pub closed spec fn wf(&self) -> bool {
        &&& disputes_view_wf(self@)
        &&& self.by_attestation.wf()
    }

    /// A fresh registry with no disputes.
    pub fn new() -> (s: Self)
        ensures
            s.wf(),
            s@.disputes == Seq::<Dispute>::empty(),
    {
        let s = DisputeRegistry {
            disputes: Vec::new(),
            by_attestation: PeriodMap::new(),
            by_challenger: HashMap::new(),
        };
        proof {
            assert forall|k: (Address, Seq<char>)|
                !(#[trigger] s@.by_attestation.contains_key(k)) implies attestation_dispute_ids(
                s@.disputes,
                k.0,
                k.1,
            ) == Seq::<u64>::empty() by {
                assert(s@.disputes.len() == 0);
            }
        }
        s
    }

    /// Open a dispute against the attestation for (business, period).
    /// The challenger must have authenticated as itself;
    /// `attestation_exists` is the outcome of the external attestation
    /// lookup; `now` is the ledger time.  Fails when the attestation is
    /// missing or the challenger already holds an open dispute on it;
    /// otherwise records the dispute as Open under the next dense id and
    /// appends the id to both lookup indices.
    pub fn open_dispute(
        &mut self,
        challenger: Address,
        business: Address,
        period: &String,
        dispute_type: u32,
        evidence: String,
        attestation_exists: bool,
        now: u64,
    ) -> (r: Result<u64, Error>)
        requires
            old(self).wf(),
        ensures
            final(self).wf(),
            r is Err ==> final(self)@ == old(self)@,
            r is Ok <==> open_allowed(old(self)@, challenger, business, period@, attestation_exists),
            !attestation_exists ==> r == Err::<u64, Error>(Error::AttestationNotFound),
            attestation_exists && has_open_dispute(old(self)@.disputes, challenger, business, period@)
                ==> r == Err::<u64, Error>(Error::DuplicateDispute),
            r is Ok ==> {
                let id = old(self)@.disputes.len() as u64;
                &&& r == Ok::<u64, Error>(id)
                &&& final(self)@.disputes == old(self)@.disputes.push(
                    Dispute {
                        id,
                        challenger,
                        business,
                        period: *period,
                        dispute_type,
                        evidence,
                        status: DisputeStatus::Open,
                        opened_at: now,
                        resolution: None,
                    },
                )
            },
    {
        if !attestation_exists {
            return Err(Error::AttestationNotFound);
        }
        let n = self.disputes.len();
        let mut i: usize = 0;
        while i < n
            invariant
                attestation_exists,
                self.wf(),
                self@ == old(self)@,
                n == self@.disputes.len(),
                i <= n,
                forall|j: int|
                    0 <= j < i ==> !((#[trigger] self@.disputes[j]).challenger == challenger
                        && self@.disputes[j].business == business && self@.disputes[j].period@
                        == period@ && self@.disputes[j].status == DisputeStatus::Open),
            decreases n - i,
        {
            let d = &self.disputes[i];
            if d.challenger == challenger && d.business == business && d.period == *period
                && d.status == DisputeStatus::Open {
                return Err(Error::DuplicateDispute);
            }
            i = i + 1;
        }
        let id = n as u64;
        let dispute = Dispute {
            id,
            challenger,
            business,
            period: period.clone(),
            dispute_type,
            evidence,
            status: DisputeStatus::Open,
            opened_at: now,
            resolution: None,
        };
        let ghost old_disputes = self.disputes@;
        let ghost new_dispute = dispute;
        self.disputes.push(dispute);
        let attestation_ids = match self.by_attestation.get(business, period) {
            Some(ids) => {
                let mut ids = copy_ids(ids);
                ids.push(id);
                ids
            },
            None => {
                let mut ids: Vec<u64> = Vec::new();
                ids.push(id);
                ids
            },
        };
        self.by_attestation.set(business, period.clone(), attestation_ids);
        let challenger_ids = match self.by_challenger.get(&challenger) {
            Some(ids) => {
                let mut ids = copy_ids(ids);
                ids.push(id);
                ids
            },
            None => {
                let mut ids: Vec<u64> = Vec::new();
                ids.push(id);
                ids
            },
        };
        self.by_challenger.insert(challenger, challenger_ids);
        proof {
            let oldv = old(self)@;
            let newv = self@;
            let key = (business, period@);
            assert(newv.disputes =~= old_disputes.push(new_dispute));
            assert forall|k: (Address, Seq<char>)| #[trigger]
                newv.by_attestation.contains_key(k) implies newv.by_attestation[k]@
                == attestation_dispute_ids(newv.disputes, k.0, k.1) by {
                lemma_attestation_ids_push(old_disputes, new_dispute, k.0, k.1);
                if k != key {
                    assert(oldv.by_attestation.contains_key(k));
                    assert(newv.by_attestation[k] == oldv.by_attestation[k]);
                } else {
                    if oldv.by_attestation.contains_key(key) {
                        assert(newv.by_attestation[key]@ =~= oldv.by_attestation[key]@.push(id));
                    } else {
                        assert(attestation_dispute_ids(old_disputes, business, period@)
                            == Seq::<u64>::empty());
                        assert(newv.by_attestation[key]@ =~= Seq::<u64>::empty().push(id));
                    }
                }
            }
            assert forall|k: (Address, Seq<char>)|
                !(#[trigger] newv.by_attestation.contains_key(k)) implies attestation_dispute_ids(
                newv.disputes,
                k.0,
                k.1,
            ) == Seq::<u64>::empty() by {
                assert(k != key);
                assert(!oldv.by_attestation.contains_key(k));
                lemma_attestation_ids_push(old_disputes, new_dispute, k.0, k.1);
            }
            assert forall|a: Address| #[trigger]
                newv.by_challenger.contains_key(a) implies newv.by_challenger[a]@
                == challenger_dispute_ids(newv.disputes, a) by {
                lemma_challenger_ids_push(old_disputes, new_dispute, a);
                if a != challenger {
                    assert(oldv.by_challenger.contains_key(a));
                    assert(newv.by_challenger[a] == oldv.by_challenger[a]);
                } else {
                    if oldv.by_challenger.contains_key(challenger) {
                        assert(newv.by_challenger[a]@ =~= oldv.by_challenger[a]@.push(id));
                    } else {
                        assert(challenger_dispute_ids(old_disputes, challenger)
                            == Seq::<u64>::empty());
                        assert(newv.by_challenger[a]@ =~= Seq::<u64>::empty().push(id));
                    }
                }
            }
            assert forall|a: Address|
                !(#[trigger] newv.by_challenger.contains_key(a)) implies challenger_dispute_ids(
                newv.disputes,
                a,
            ) == Seq::<u64>::empty() by {
                assert(a != challenger);
                assert(!oldv.by_challenger.contains_key(a));
                lemma_challenger_ids_push(old_disputes, new_dispute, a);
            }
        }
        Ok(id)
    }

    /// Resolve an Open dispute.  `authorized` is the outcome of the
    /// environment's resolver-authorization policy for `resolver`; `now`
    /// is the ledger time.  On success the resolution is recorded and
    /// the dispute becomes Resolved.
    pub fn resolve_dispute(
        &mut self,
        dispute_id: u64,
        resolver: Address,
        authorized: bool,
        outcome: u32,
        notes: String,
        now: u64,
    ) -> (r: Result<(), Error>)
        requires
            old(self).wf(),
        ensures
            final(self).wf(),
            r is Err ==> final(self)@ == old(self)@,
            r is Ok <==> resolve_allowed(old(self)@, dispute_id) && authorized,
            !(dispute_id < old(self)@.disputes.len()) ==> r == Err::<(), Error>(
                Error::DisputeNotFound,
            ),
            dispute_id < old(self)@.disputes.len() && old(self)@.disputes[dispute_id as int].status
                != DisputeStatus::Open ==> r == Err::<(), Error>(Error::WrongDisputeStatus),
            resolve_allowed(old(self)@, dispute_id) && !authorized ==> r == Err::<(), Error>(
                Error::NotAuthorized,
            ),
            r is Ok ==> final(self)@.disputes == old(self)@.disputes.update(
                dispute_id as int,
                Dispute {
                    status: DisputeStatus::Resolved,
                    resolution: Some(Resolution { resolver, outcome, resolved_at: now, notes }),
                    ..old(self)@.disputes[dispute_id as int]
                },
            ),
            r is Ok ==> final(self)@.by_attestation == old(self)@.by_attestation
                && final(self)@.by_challenger == old(self)@.by_challenger,
    {
        let n = self.disputes.len();
        if dispute_id >= n as u64 {
            return Err(Error::DisputeNotFound);
        }
        let idx = dispute_id as usize;
        let current = self.disputes[idx].clone();
        if current.status != DisputeStatus::Open {
            return Err(Error::WrongDisputeStatus);
        }
        if !authorized {
            return Err(Error::NotAuthorized);
        }
        let updated = Dispute {
            status: DisputeStatus::Resolved,
            resolution: Some(Resolution { resolver, outcome, resolved_at: now, notes }),
            ..current
        };
        let ghost old_disputes = self.disputes@;
        let ghost new_dispute = updated;
        self.disputes[idx] = updated;
        proof {
            Self::lemma_indices_stable_under_update(
                old(self)@,
                self@,
                old_disputes,
                new_dispute,
                idx as int,
            );
        }
        Ok(())
    }

    /// Close a Resolved dispute.  The resolution is kept untouched; the
    /// dispute becomes Closed, terminally.
    pub fn close_dispute(&mut self, dispute_id: u64) -> (r: Result<(), Error>)
        requires
            old(self).wf(),
        ensures
            final(self).wf(),
            r is Err ==> final(self)@ == old(self)@,
            r is Ok <==> close_allowed(old(self)@, dispute_id),
            !(dispute_id < old(self)@.disputes.len()) ==> r == Err::<(), Error>(
                Error::DisputeNotFound,
            ),
            dispute_id < old(self)@.disputes.len() && old(self)@.disputes[dispute_id as int].status
                != DisputeStatus::Resolved ==> r == Err::<(), Error>(Error::WrongDisputeStatus),
            r is Ok ==> final(self)@.disputes == old(self)@.disputes.update(
                dispute_id as int,
                Dispute {
                    status: DisputeStatus::Closed,
                    ..old(self)@.disputes[dispute_id as int]
                },
            ),
            r is Ok ==> final(self)@.by_attestation == old(self)@.by_attestation
                && final(self)@.by_challenger == old(self)@.by_challenger,
    {
        let n = self.disputes.len();
        if dispute_id >= n as u64 {
            return Err(Error::DisputeNotFound);
        }
        let idx = dispute_id as usize;
        let current = self.disputes[idx].clone();
        if current.status != DisputeStatus::Resolved {
            return Err(Error::WrongDisputeStatus);
        }
        let updated = Dispute { status: DisputeStatus::Closed, ..current };
        let ghost old_disputes = self.disputes@;
        let ghost new_dispute = updated;
        self.disputes[idx] = updated;
        proof {
            Self::lemma_indices_stable_under_update(
                old(self)@,
                self@,
                old_disputes,
                new_dispute,
                idx as int,
            );
        }
        Ok(())
    }

    /// A same-key in-place dispute update leaves both indices correct.
    proof fn lemma_indices_stable_under_update(
        oldv: DisputeRegistryView,
        newv: DisputeRegistryView,
        old_disputes: Seq<Dispute>,
        d: Dispute,
        i: int,
    )
        requires
            disputes_view_wf(oldv),
            oldv.disputes == old_disputes,
            0 <= i < old_disputes.len(),
            d.business == old_disputes[i].business,
            d.period@ == old_disputes[i].period@,
            d.challenger == old_disputes[i].challenger,
            newv.disputes == old_disputes.update(i, d),
            newv.by_attestation == oldv.by_attestation,
            newv.by_challenger == oldv.by_challenger,
        ensures
            forall|k: (Address, Seq<char>)| #[trigger]
                newv.by_attestation.contains_key(k) ==> newv.by_attestation[k]@
                    == attestation_dispute_ids(newv.disputes, k.0, k.1),
            forall|k: (Address, Seq<char>)|
                !(#[trigger] newv.by_attestation.contains_key(k)) ==> attestation_dispute_ids(
                    newv.disputes,
                    k.0,
                    k.1,
                ) == Seq::<u64>::empty(),
            forall|a: Address| #[trigger]
                newv.by_challenger.contains_key(a) ==> newv.by_challenger[a]@
                    == challenger_dispute_ids(newv.disputes, a),
            forall|a: Address|
                !(#[trigger] newv.by_challenger.contains_key(a)) ==> challenger_dispute_ids(
                    newv.disputes,
                    a,
                ) == Seq::<u64>::empty(),
    {
        assert forall|k: (Address, Seq<char>)| true implies attestation_dispute_ids(
            newv.disputes,
            k.0,
            k.1,
        ) == attestation_dispute_ids(old_disputes, k.0, k.1) by {
            lemma_attestation_ids_update(old_disputes, i, d, k.0, k.1);
        }
        assert forall|a: Address| true implies challenger_dispute_ids(newv.disputes, a)
            == challenger_dispute_ids(old_disputes, a) by {
            lemma_challenger_ids_update(old_disputes, i, d, a);
        }
    }

    /// The dispute stored under an id, if any.
    pub fn get_dispute(&self, dispute_id: u64) -> (r: Option<Dispute>)
        ensures
            r == if dispute_id < self@.disputes.len() {
                Some(self@.disputes[dispute_id as int])
            } else {
                None::<Dispute>
            },
    {
        let n = self.disputes.len();
        if dispute_id < n as u64 {
            Some(self.disputes[dispute_id as usize].clone())
        } else {
            None
        }
    }

    /// The ids of the disputes challenging (business, period), in
    /// opening order.
    pub fn get_disputes_by_attestation(&self, business: Address, period: &String) -> (r: Vec<u64>)
        requires
            self.wf(),
        ensures
            r@ == attestation_dispute_ids(self@.disputes, business, period@),
    {
        match self.by_attestation.get(business, period) {
            Some(ids) => {
                proof {
                    assert(self@.by_attestation.contains_key((business, period@)));
                }
                copy_ids(ids)
            },
            None => {
                proof {
                    assert(!self@.by_attestation.contains_key((business, period@)));
                }
                Vec::new()
            },
        }
    }

    /// The ids of the disputes a challenger opened, in opening order.
    pub fn get_disputes_by_challenger(&self, challenger: Address) -> (r: Vec<u64>)
        requires
            self.wf(),
        ensures
            r@ == challenger_dispute_ids(self@.disputes, challenger),
    {
        match self.by_challenger.get(&challenger) {
            Some(ids) => {
                proof {
                    assert(self@.by_challenger.contains_key(challenger));
                }
                copy_ids(ids)
            },
            None => {
                proof {
                    assert(!self@.by_challenger.contains_key(challenger));
                }
                Vec::new()
            },
        }
    }
}

} // verus!
