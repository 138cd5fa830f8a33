//! A verified association table keyed by an id and a period label.
//!
//! Several record kinds of this crate are keyed by such a pair: attestations
//! and anomaly records by (business, period), redemption records by
//! (bond id, period), dispute indices by the attestation they challenge.
//! The table's view is a [`Map`] from `(u64, Seq<char>)` keys to the stored
//! values, and every operation's contract is stated over that view.

use vstd::prelude::*;

verus! {

/// One stored binding: a numeric id (a business address or a bond id), a
/// period label, and the value recorded under that pair.
#[derive(Clone)]
pub struct PeriodEntry<V> {
    pub id: u64,
    pub period: String,
    pub value: V,
}

/// The key a stored entry is filed under.
pub open spec fn entry_key<V>(e: PeriodEntry<V>) -> (u64, Seq<char>) {
    (e.id, e.period@)
}

/// The partial map a sequence of entries denotes.  A later entry for the
/// same key would win, but a well-formed [`PeriodMap`] never stores a key
/// twice.
pub open spec fn entries_map<V>(s: Seq<PeriodEntry<V>>) -> Map<(u64, Seq<char>), V>
    decreases s.len(),
{
    if s.len() == 0 {
        Map::empty()
    } else {
        entries_map(s.drop_last()).insert(entry_key(s.last()), s.last().value)
    }
}

/// Pairwise-distinct keys: the well-formedness of a [`PeriodMap`].
pub open spec fn distinct_keys<V>(s: Seq<PeriodEntry<V>>) -> bool {
    forall|i: int, j: int|
        0 <= i < j < s.len() ==> entry_key(s[i]) != entry_key(s[j])
}

/// A key is in the denoted map exactly when some entry carries it.
pub proof fn lemma_entries_map_contains<V>(s: Seq<PeriodEntry<V>>, k: (u64, Seq<char>))
    ensures
        entries_map(s).contains_key(k) <==> exists|i: int| 0 <= i < s.len() && entry_key(s[i]) == k,
    decreases s.len(),
{
    if s.len() > 0 {
        lemma_entries_map_contains(s.drop_last(), k);
        if entries_map(s).contains_key(k) {
            if entry_key(s.last()) == k {
                assert(entry_key(s[s.len() - 1]) == k);
            } else {
                let i = choose|i: int| 0 <= i < s.drop_last().len() && entry_key(s.drop_last()[i]) == k;
                assert(entry_key(s[i]) == k);
            }
        }
        if exists|i: int| 0 <= i < s.len() && entry_key(s[i]) == k {
            let i = choose|i: int| 0 <= i < s.len() && entry_key(s[i]) == k;
            if i < s.len() - 1 {
                assert(entry_key(s.drop_last()[i]) == k);
            }
        }
    }
}

/// Under distinct keys, the denoted map sends each entry's key to that
/// entry's value.
pub proof fn lemma_entries_map_value<V>(s: Seq<PeriodEntry<V>>, i: int)
    requires
        distinct_keys(s),
        0 <= i < s.len(),
    ensures
        entries_map(s)[entry_key(s[i])] == s[i].value,
    decreases s.len(),
{
    if i < s.len() - 1 {
        assert(distinct_keys(s.drop_last()));
        lemma_entries_map_value(s.drop_last(), i);
        assert(entry_key(s[i]) != entry_key(s[s.len() - 1]));
    }
}

/// Replacing the entry at `i` by one with the same key updates exactly that
/// key's value in the denoted map.
pub proof fn lemma_entries_map_update<V>(s: Seq<PeriodEntry<V>>, i: int, e: PeriodEntry<V>)
    requires
        distinct_keys(s),
        0 <= i < s.len(),
        entry_key(e) == entry_key(s[i]),
    ensures
        entries_map(s.update(i, e)) == entries_map(s).insert(entry_key(e), e.value),
    decreases s.len(),
{
    let t = s.update(i, e);
    if i == s.len() - 1 {
        assert(t.drop_last() =~= s.drop_last());
        assert(t.last() == e);
        assert(entries_map(t) =~= entries_map(s).insert(entry_key(e), e.value));
    } else {
        assert(distinct_keys(s.drop_last()));
        lemma_entries_map_update(s.drop_last(), i, e);
        assert(t.drop_last() =~= s.drop_last().update(i, e));
        assert(t.last() == s.last());
        assert(entry_key(e) != entry_key(s[s.len() - 1]));
        assert(entries_map(t) =~= entries_map(s).insert(entry_key(e), e.value));
    }
}

/// An association table over (id, period) keys, viewed as a [`Map`].
#[derive(Clone)]
pub struct PeriodMap<V> {
    entries: Vec<PeriodEntry<V>>,
}

impl<V> PeriodMap<V> {
    /// The map this table denotes.
    pub closed spec fn view(&self) -> Map<(u64, Seq<char>), V> {
        entries_map(self.entries@)
    }

    /// No key is stored twice.
    pub closed spec fn wf(&self) -> bool {
        distinct_keys(self.entries@)
    }

    /// An empty table.
    pub fn new() -> (m: Self)
        ensures
            m.wf(),
            m@ == Map::<(u64, Seq<char>), V>::empty(),
    {
        PeriodMap { entries: Vec::new() }
    }

    /// The index of the entry keyed `(id, period)`, if any.
    fn index_of(&self, id: u64, period: &String) -> (r: Option<usize>)
        ensures
            match r {
                Some(i) => i < self.entries@.len() && entry_key(self.entries@[i as int]) == (id, period@),
                None => forall|i: int|
                    0 <= i < self.entries@.len() ==> entry_key(self.entries@[i]) != (id, period@),
            },
    {
        let n = self.entries.len();
        let mut i: usize = 0;
        while i < n
            invariant
                n == self.entries@.len(),
                i <= n,
                forall|j: int| 0 <= j < i ==> entry_key(self.entries@[j]) != (id, period@),
            decreases n - i,
        {
            let e = &self.entries[i];
            if e.id == id && e.period == *period {
                return Some(i);
            }
            i = i + 1;
        }
        None
    }

    /// Whether a value is recorded under `(id, period)`.
    pub fn contains(&self, id: u64, period: &String) -> (r: bool)
        ensures
            r == self@.contains_key((id, period@)),
    {
        proof {
            lemma_entries_map_contains(self.entries@, (id, period@));
        }
        self.index_of(id, period).is_some()
    }

    /// The value recorded under `(id, period)`, if any.
    pub fn get(&self, id: u64, period: &String) -> (r: Option<&V>)
        requires
            self.wf(),
        ensures
            (match r {
                Some(v) => self@.contains_key((id, period@)) && *v == self@[(id, period@)],
                None => !self@.contains_key((id, period@)),
            }),
    {
        proof {
            lemma_entries_map_contains(self.entries@, (id, period@));
        }
        match self.index_of(id, period) {
            Some(i) => {
                proof {
                    lemma_entries_map_value(self.entries@, i as int);
                }
                Some(&self.entries[i].value)
            }
            None => None,
        }
    }

    /// Record `value` under `(id, period)`, replacing any previous value.
    pub fn set(&mut self, id: u64, period: String, value: V)
        requires
            old(self).wf(),
        ensures
            final(self).wf(),
            final(self)@ == old(self)@.insert((id, period@), value),
    {
        let ghost k = (id, period@);
        proof {
            lemma_entries_map_contains(self.entries@, k);
        }
        match self.index_of(id, &period) {
            Some(i) => {
                let entry = PeriodEntry { id, period, value };
                proof {
                    lemma_entries_map_update(self.entries@, i as int, entry);
                    assert(distinct_keys(self.entries@.update(i as int, entry)));
                }
                self.entries[i] = entry;
            }
            None => {
                let entry = PeriodEntry { id, period, value };
                let ghost s = self.entries@;
                self.entries.push(entry);
                proof {
                    assert(self.entries@.drop_last() =~= s);
                    assert(self.entries@.last() == entry);
                    assert(forall|i: int| 0 <= i < s.len() ==> entry_key(s[i]) != k);
                    assert(distinct_keys(self.entries@));
                }
            }
        }
    }
}

} // verus!
