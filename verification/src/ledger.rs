//! The counter ledger: a durable mapping from donor identity to a 64-bit
//! donation count.
//!
//! The ledger is an association list with pairwise-distinct keys. A key that
//! was never recorded is semantically equivalent to the count zero; the
//! default-zero reading lives here and nowhere else.

use vstd::prelude::*;

verus! {

use crate::identity::AccountId;

/// The count an association list records for `key`: the value of the first
/// entry carrying `key`, or zero when no entry does.
pub open spec fn seq_count_of(s: Seq<(AccountId, u64)>, key: AccountId) -> u64
    decreases s.len(),
{
    if s.len() == 0 {
        0u64
    } else if s[0].0 == key {
        s[0].1
    } else {
        seq_count_of(s.drop_first(), key)
    }
}

/// Whether some entry of `s` carries `key`.
pub open spec fn seq_has_key(s: Seq<(AccountId, u64)>, key: AccountId) -> bool {
    exists|i: int| 0 <= i < s.len() && s[i].0 == key
}

/// A list without an entry for `key` records count zero for it.
proof fn lemma_count_of_absent(s: Seq<(AccountId, u64)>, key: AccountId)
    requires
        !seq_has_key(s, key),
    ensures
        seq_count_of(s, key) == 0,
    decreases s.len(),
{
    if s.len() > 0 {
        assert(s[0].0 != key);
        assert(forall|i: int| 0 <= i < s.drop_first().len() ==> s.drop_first()[i] == s[i + 1]);
        lemma_count_of_absent(s.drop_first(), key);
    }
}

/// The first entry carrying `key` decides the recorded count.
proof fn lemma_count_of_first_match(s: Seq<(AccountId, u64)>, key: AccountId, i: int)
    requires
        0 <= i < s.len(),
        s[i].0 == key,
        forall|j: int| 0 <= j < i ==> s[j].0 != key,
    ensures
        seq_count_of(s, key) == s[i].1,
    decreases i,
{
    if i > 0 {
        assert(s[0].0 != key);
        assert(forall|j: int| 0 <= j < s.drop_first().len() ==> s.drop_first()[j] == s[j + 1]);
        lemma_count_of_first_match(s.drop_first(), key, i - 1);
    }
}

/// Appending an entry for a key the list does not hold records that
/// entry's value for the key.
proof fn lemma_count_of_push_fresh(s: Seq<(AccountId, u64)>, e: (AccountId, u64))
    requires
        !seq_has_key(s, e.0),
    ensures
        seq_count_of(s.push(e), e.0) == e.1,
    decreases s.len(),
{
    if s.len() == 0 {
        assert(s.push(e)[0] == e);
    } else {
        assert(s[0].0 != e.0);
        assert(s.push(e)[0] == s[0]);
        assert(s.push(e).drop_first() =~= s.drop_first().push(e));
        assert(forall|i: int| 0 <= i < s.drop_first().len() ==> s.drop_first()[i] == s[i + 1]);
        lemma_count_of_push_fresh(s.drop_first(), e);
    }
}

/// Appending an entry leaves every other key's count unchanged.
proof fn lemma_count_of_push_other(s: Seq<(AccountId, u64)>, e: (AccountId, u64), key: AccountId)
    requires
        key != e.0,
    ensures
        seq_count_of(s.push(e), key) == seq_count_of(s, key),
    decreases s.len(),
{
    if s.len() == 0 {
        assert(s.push(e)[0] == e);
        assert(s.push(e).drop_first() =~= s);
        assert(seq_count_of(s.push(e), key) == seq_count_of(s.push(e).drop_first(), key));
    } else {
        assert(s.push(e)[0] == s[0]);
        if s[0].0 != key {
            assert(s.push(e).drop_first() =~= s.drop_first().push(e));
            lemma_count_of_push_other(s.drop_first(), e, key);
        }
    }
}

/// Overwriting the value of the entry at `i` leaves every key other than
/// that entry's own unchanged.
proof fn lemma_count_of_update_other(s: Seq<(AccountId, u64)>, i: int, v: u64, key: AccountId)
    requires
        0 <= i < s.len(),
        key != s[i].0,
    ensures
        seq_count_of(s.update(i, (s[i].0, v)), key) == seq_count_of(s, key),
    decreases i,
{
    let t = s.update(i, (s[i].0, v));
    if i == 0 {
        assert(t[0].0 == s[0].0);
        assert(t.drop_first() =~= s.drop_first());
    } else {
        assert(t[0] == s[0]);
        if s[0].0 != key {
            assert(t.drop_first() =~= s.drop_first().update(i - 1, (s.drop_first()[i - 1].0, v)));
            lemma_count_of_update_other(s.drop_first(), i - 1, v, key);
        }
    }
}

/// A ledger of per-donor donation counts, keyed by account hash, with
/// default-zero semantics for donors that were never recorded.
pub struct CounterLedger {
    entries: Vec<(AccountId, u64)>,
}

impl CounterLedger {
    /// Keys are pairwise distinct, so each donor has one authoritative entry.
    pub closed spec fn wf(self) -> bool {
        forall|i: int, j: int|
            0 <= i < j < self.entries@.len() ==> self.entries@[i].0 != self.entries@[j].0
    }

    /// The count recorded for `key` (zero when `key` was never recorded).
    pub closed spec fn spec_count(self, key: AccountId) -> u64 {
        seq_count_of(self.entries@, key)
    }

    /// Whether an entry for `key` has ever been materialized.
    pub closed spec fn spec_has(self, key: AccountId) -> bool {
        seq_has_key(self.entries@, key)
    }

    /// Allocates a fresh, empty ledger: no donor is recorded and every
    /// count reads as zero.
    pub fn create() -> (r: Self)
        ensures
            r.wf(),
            forall|k: AccountId| !r.spec_has(k),
            forall|k: AccountId| r.spec_count(k) == 0,
    {
        CounterLedger { entries: Vec::new() }
    }

    /// Index of the entry carrying `key`, if one exists.
    fn index_of(&self, key: AccountId) -> (r: Option<usize>)
        ensures
            match r {
                Some(i) => 0 <= i < self.entries@.len() && self.entries@[i as int].0 == key
                    && forall|j: int| 0 <= j < i ==> self.entries@[j].0 != key,
                None => !seq_has_key(self.entries@, key),
            },
    {
        let mut i: usize = 0;
        while i < self.entries.len()
            invariant
                i <= self.entries@.len(),
                forall|j: int| 0 <= j < i ==> self.entries@[j].0 != key,
            decreases self.entries@.len() - i,
        {
            if self.entries[i].0 == key {
                return Some(i);
            }
            i = i + 1;
        }
        None
    }

    /// The stored count for `key`, if an entry was ever materialized.
    pub fn lookup(&self, key: AccountId) -> (r: Option<u64>)
        ensures
            r is Some <==> self.spec_has(key),
            r matches Some(c) ==> c == self.spec_count(key),
    {
        match self.index_of(key) {
            Some(i) => {
                proof {
                    lemma_count_of_first_match(self.entries@, key, i as int);
                }
                Some(self.entries[i].1)
            },
            None => None,
        }
    }

    /// The count for `key`: the stored value, or zero when `key` was never
    /// recorded.
    pub fn get(&self, key: AccountId) -> (r: u64)
        ensures
            r == self.spec_count(key),
    {
        match self.lookup(key) {
            Some(c) => c,
            None => {
                proof {
                    lemma_count_of_absent(self.entries@, key);
                }
                0
            },
        }
    }

    /// Records one more donation for `key`: its count grows by exactly one
    /// and no other donor's record changes.
    pub fn increment(&mut self, key: AccountId)
        requires
            old(self).wf(),
            old(self).spec_count(key) < u64::MAX,
        ensures
            final(self).wf(),
            final(self).spec_has(key),
            final(self).spec_count(key) == old(self).spec_count(key) + 1,
            forall|o: AccountId| o != key ==> final(self).spec_count(o) == old(self).spec_count(o),
            forall|o: AccountId| o != key ==> (final(self).spec_has(o) <==> old(self).spec_has(o)),
    {
        let ghost s = self.entries@;
        match self.index_of(key) {
            Some(i) => {
                let c = self.entries[i].1;
                proof {
                    lemma_count_of_first_match(s, key, i as int);
                }
                self.entries[i] = (key, c + 1);
                proof {
                    let t = self.entries@;
                    assert(t =~= s.update(i as int, (s[i as int].0, (c + 1) as u64)));
                    assert(forall|j: int| 0 <= j < t.len() ==> t[j].0 == s[j].0);
                    lemma_count_of_first_match(t, key, i as int);
                    assert forall|o: AccountId| o != key implies seq_count_of(t, o) == seq_count_of(
                        s,
                        o,
                    ) by {
                        lemma_count_of_update_other(s, i as int, (c + 1) as u64, o);
                    }
                    assert forall|o: AccountId| seq_has_key(t, o) <==> seq_has_key(s, o) by {
                        if seq_has_key(t, o) {
                            let w = choose|w: int| 0 <= w < t.len() && t[w].0 == o;
                            assert(s[w].0 == o);
                        }
                        if seq_has_key(s, o) {
                            let w = choose|w: int| 0 <= w < s.len() && s[w].0 == o;
                            assert(t[w].0 == o);
                        }
                    }
                }
            },
            None => {
                proof {
                    lemma_count_of_absent(s, key);
                }
                self.entries.push((key, 1));
                proof {
                    let t = self.entries@;
                    assert(t =~= s.push((key, 1u64)));
                    lemma_count_of_push_fresh(s, (key, 1u64));
                    assert forall|o: AccountId| o != key implies seq_count_of(t, o) == seq_count_of(
                        s,
                        o,
                    ) by {
                        lemma_count_of_push_other(s, (key, 1u64), o);
                    }
                    assert(t[t.len() - 1].0 == key);
                    assert forall|o: AccountId| o != key implies (seq_has_key(t, o) <==> seq_has_key(
                        s,
                        o,
                    )) by {
                        if seq_has_key(t, o) {
                            let w = choose|w: int| 0 <= w < t.len() && t[w].0 == o;
                            assert(w < s.len());
                            assert(s[w].0 == o);
                        }
                        if seq_has_key(s, o) {
                            let w = choose|w: int| 0 <= w < s.len() && s[w].0 == o;
                            assert(t[w].0 == o);
                        }
                    }
                }
            },
        }
    }
}

/// A donor with no materialized entry reads as count zero.
pub proof fn lemma_absent_count_zero(l: CounterLedger, key: AccountId)
    requires
        !l.spec_has(key),
    ensures
        l.spec_count(key) == 0,
{
    lemma_count_of_absent(l.entries@, key);
}

/// The default-zero reading of a stored count: a value that was never
/// materialized is read as zero.
pub open spec fn spec_count_or_default(found: Option<u64>) -> u64 {
    match found {
        Some(c) => c,
        None => 0u64,
    }
}

/// Reads a stored count with default-zero semantics.
pub fn count_or_default(found: Option<u64>) -> (r: u64)
    ensures
        r == spec_count_or_default(found),
{
    match found {
        Some(c) => c,
        None => 0,
    }
}

/// The count to store after one more donation by a donor whose stored
/// count is `found`: the default-zero reading plus one.
pub fn incremented_count(found: Option<u64>) -> (r: u64)
    requires
        spec_count_or_default(found) < u64::MAX,
    ensures
        r == spec_count_or_default(found) + 1,
{
    count_or_default(found) + 1
}

} // verus!
