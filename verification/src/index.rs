//! The ordered index of the page/object store.
//!
//! An [`OrderedIndex`] maps 64-bit integer keys to row identifiers and keeps
//! its entries in ascending `(key, row)` order at all times. It backs class
//! indexes and `ORDER BY` evaluation: insert, delete, point lookup and range
//! scans (ascending or descending) all preserve and exploit the ordering.
//! A unique index additionally refuses a second entry under the same key.
//!
//! Deletion does not rebalance anything: the structure is a flat ordered
//! run, so removal keeps the ordering by construction.

use vstd::prelude::*;

use crate::sql::{SqlCode, SqlError};
use crate::Error;

verus! {

/// Strict lexicographic order on `(key, row)` entries.
pub open spec fn entry_lt(a: (i64, u64), b: (i64, u64)) -> bool {
    a.0 < b.0 || (a.0 == b.0 && a.1 < b.1)
}

/// The row identifiers of the entries of `s` whose keys lie in
/// `[lo, hi]`, in the order they stand in `s`.
pub open spec fn range_rows(s: Seq<(i64, u64)>, lo: i64, hi: i64) -> Seq<u64>
    decreases s.len(),
{
    if s.len() == 0 {
        Seq::empty()
    } else if lo <= s.last().0 <= hi {
        range_rows(s.drop_last(), lo, hi).push(s.last().1)
    } else {
        range_rows(s.drop_last(), lo, hi)
    }
}

/// An ordered index over 64-bit integer keys.
pub struct OrderedIndex {
    /// Whether a key may appear at most once.
    pub unique: bool,
    /// The entries, kept in ascending `(key, row)` order.
    pub entries: Vec<(i64, u64)>,
}

impl OrderedIndex {
    /// The entries of the index, in ascending `(key, row)` order.
    pub open spec fn view(self) -> Seq<(i64, u64)> {
        self.entries@
    }

    /// Well-formedness: entries are strictly ascending in `(key, row)`
    /// order, and under uniqueness no key repeats.
    pub open spec fn wf(self) -> bool {
        &&& (forall|i: int, j: int|
            0 <= i < j < self@.len() ==> entry_lt(#[trigger] self@[i], #[trigger] self@[j]))
        &&& (self.unique ==> forall|i: int, j: int|
            0 <= i < j < self@.len() ==> (#[trigger] self@[i]).0 != (#[trigger] self@[j]).0)
    }

    /// True if the index holds an entry mapping `k` to `r`.
    pub open spec fn contains_pair(self, k: i64, r: u64) -> bool {
        exists|i: int| 0 <= i < self@.len() && self@[i] == (k, r)
    }

    /// True if the index holds any entry under key `k`.
    pub open spec fn contains_key(self, k: i64) -> bool {
        exists|i: int| 0 <= i < self@.len() && (#[trigger] self@[i]).0 == k
    }

    /// Creates an empty index.
    pub fn new(unique: bool) -> (r: Self)
        ensures
            r.unique == unique,
            r@ =~= Seq::<(i64, u64)>::empty(),
            r.wf(),
    {
        OrderedIndex { unique, entries: Vec::new() }
    }

    /// Returns the number of entries.
    pub fn len(&self) -> (r: usize)
        ensures
            r == self@.len(),
    {
        self.entries.len()
    }

    /// Returns the entry at position `i` of the ascending order.
    pub fn entry_at(&self, i: usize) -> (r: (i64, u64))
        requires
            i < self@.len(),
        ensures
            r == self@[i as int],
    {
        self.entries[i]
    }

    /// Finds the first position whose entry is not below `(k, r)`.
    fn lower_bound(&self, k: i64, r: u64) -> (pos: usize)
        requires
            self.wf(),
        ensures
            pos <= self@.len(),
            forall|j: int| 0 <= j < pos ==> entry_lt(#[trigger] self@[j], (k, r)),
            forall|j: int| pos <= j < self@.len() ==> !entry_lt(#[trigger] self@[j], (k, r)),
    {
        let n = self.entries.len();
        let mut i: usize = 0;
        while i < n
            invariant
                i <= n,
                n == self@.len(),
                self.wf(),
                forall|j: int| 0 <= j < i ==> entry_lt(#[trigger] self@[j], (k, r)),
            decreases n - i,
        {
            let e = self.entries[i];
            if e.0 < k || (e.0 == k && e.1 < r) {
                i = i + 1;
            } else {
                return i;
            }
        }
        i
    }

    /// Inserts the entry `(k, r)` at its place in the ascending order.
    ///
    /// A unique index refuses a second entry under an existing key with
    /// `NotUnique` and stays unchanged; inserting a pair that is already
    /// present leaves the index unchanged and succeeds.
    pub fn insert(&mut self, k: i64, r: u64) -> (res: Result<(), Error>)
        requires
            old(self).wf(),
        ensures
            final(self).wf(),
            final(self).unique == old(self).unique,
            (old(self).unique && old(self).contains_key(k) ==> res == Err::<(), Error>(
                Error::Sql(SqlError(SqlCode::NotUnique)),
            ) && *final(self) == *old(self)),
            (!(old(self).unique && old(self).contains_key(k)) && old(self).contains_pair(k, r)
                ==> res == Ok::<(), Error>(()) && *final(self) == *old(self)),
            (!(old(self).unique && old(self).contains_key(k)) && !old(self).contains_pair(k, r)
                ==> res == Ok::<(), Error>(()) && final(self)@.len() == old(self)@.len() + 1 && (
            exists|idx: int|
                0 <= idx <= old(self)@.len() && final(self)@ == #[trigger] old(self)@.insert(
                    idx,
                    (k, r),
                ))),
            (forall|k2: i64, r2: u64|
                final(self).contains_pair(k2, r2) <==> (old(self).contains_pair(k2, r2) || (res
                    is Ok && k2 == k && r2 == r))),
    {
        let pos = self.lower_bound(k, r);
        let n = self.entries.len();
        if self.unique {
            // Under uniqueness an equal key can only stand at `pos`
            // (a smaller row under the same key would sort below `(k, r)`,
            // a larger one above; both sides are checked here).
            if pos < n && self.entries[pos].0 == k {
                proof {
                    assert(self.contains_key(k));
                }
                return Err(Error::Sql(SqlError(SqlCode::NotUnique)));
            }
            if pos > 0 && self.entries[pos - 1].0 == k {
                proof {
                    assert(self.contains_key(k));
                }
                return Err(Error::Sql(SqlError(SqlCode::NotUnique)));
            }
            proof {
                assert forall|i: int| 0 <= i < self@.len() implies (#[trigger] self@[i]).0 != k by {
                    if i < pos {
                        assert(entry_lt(self@[i], (k, r)));
                        if i < pos - 1 {
                            assert(entry_lt(self@[i], self@[pos - 1]));
                        }
                    }
                }
                assert(!self.contains_key(k));
            }
        }
        if pos < n {
            let e = self.entries[pos];
            if e.0 == k && e.1 == r {
                proof {
                    assert(self.contains_pair(k, r));
                }
                return Ok(());
            }
        }
        proof {
            // The pair is nowhere: below `pos` everything is strictly
            // smaller, from `pos` on everything is strictly larger.
            assert forall|i: int| 0 <= i < self@.len() implies self@[i] != (k, r) by {
                if i >= pos && self@[i] == (k, r) {
                    assert(!entry_lt(self@[i], (k, r)));
                    if i > pos {
                        assert(entry_lt(self@[pos as int], self@[i]));
                    }
                }
            }
            assert(!self.contains_pair(k, r));
        }
        self.entries.insert(pos, (k, r));
        proof {
            let s = old(self)@;
            let t = self@;
            assert(t == s.insert(pos as int, (k, r)));
            assert forall|i: int, j: int| 0 <= i < j < t.len() implies entry_lt(t[i], t[j]) by {
                if j < pos {
                    assert(entry_lt(s[i], s[j]));
                } else if i > pos {
                    assert(entry_lt(s[i - 1], s[j - 1]));
                } else if i < pos && j == pos {
                    assert(entry_lt(s[i], (k, r)));
                } else if i == pos && j > pos {
                    assert(!entry_lt(s[j - 1], (k, r)));
                    assert(s[j - 1] != (k, r));
                } else if i < pos && j > pos {
                    assert(entry_lt(s[i], (k, r)));
                    assert(!entry_lt(s[j - 1], (k, r)));
                    assert(s[j - 1] != (k, r));
                }
            }
            if self.unique {
                assert forall|i: int, j: int| 0 <= i < j < t.len() implies t[i].0 != t[j].0 by {
                    if j < pos {
                        assert(s[i].0 != s[j].0);
                    } else if i > pos {
                        assert(s[i - 1].0 != s[j - 1].0);
                    } else if i < pos && j == pos {
                        assert(s[i].0 != k) by {
                            assert(!old(self).contains_key(k));
                            assert(s[i] == old(self)@[i]);
                        }
                    } else if i == pos && j > pos {
                        assert(s[j - 1].0 != k) by {
                            assert(!old(self).contains_key(k));
                        }
                    } else {
                        assert(s[i].0 != s[j - 1].0);
                    }
                }
            }
            assert forall|k2: i64, r2: u64|
                self.contains_pair(k2, r2) <==> (old(self).contains_pair(k2, r2) || (k2 == k && r2
                    == r)) by {
                if self.contains_pair(k2, r2) {
                    let i = choose|i: int| 0 <= i < t.len() && t[i] == (k2, r2);
                    if i < pos {
                        assert(s[i] == (k2, r2));
                    } else if i > pos {
                        assert(s[i - 1] == (k2, r2));
                    }
                }
                if old(self).contains_pair(k2, r2) {
                    let i = choose|i: int| 0 <= i < s.len() && s[i] == (k2, r2);
                    if i < pos {
                        assert(t[i] == (k2, r2));
                    } else {
                        assert(t[i + 1] == (k2, r2));
                    }
                }
                if k2 == k && r2 == r {
                    assert(t[pos as int] == (k2, r2));
                }
            }
        }
        Ok(())
    }
    /// Removes the entry `(k, r)` if it is present. Returns whether an
    /// entry was removed; an absent pair leaves the index unchanged.
    pub fn remove(&mut self, k: i64, r: u64) -> (removed: bool)
        requires
            old(self).wf(),
        ensures
            final(self).wf(),
            final(self).unique == old(self).unique,
            removed == old(self).contains_pair(k, r),
            (!removed ==> *final(self) == *old(self)),
            (removed ==> final(self)@.len() + 1 == old(self)@.len() && (exists|idx: int|
                0 <= idx < old(self)@.len() && old(self)@[idx] == (k, r) && final(self)@
                    == #[trigger] old(self)@.remove(idx))),
            (forall|k2: i64, r2: u64|
                final(self).contains_pair(k2, r2) <==> (old(self).contains_pair(k2, r2) && !(k2
                    == k && r2 == r))),
    {
        let pos = self.lower_bound(k, r);
        let n = self.entries.len();
        if pos < n {
            let e = self.entries[pos];
            if e.0 == k && e.1 == r {
                self.entries.remove(pos);
                proof {
                    let s = old(self)@;
                    let t = self@;
                    assert(t == s.remove(pos as int));
                    assert(old(self).contains_pair(k, r));
                    assert forall|i: int, j: int| 0 <= i < j < t.len() implies entry_lt(
                        t[i],
                        t[j],
                    ) by {
                        if j < pos {
                            assert(entry_lt(s[i], s[j]));
                        } else if i >= pos {
                            assert(entry_lt(s[i + 1], s[j + 1]));
                        } else {
                            assert(entry_lt(s[i], s[j + 1]));
                        }
                    }
                    if self.unique {
                        assert forall|i: int, j: int| 0 <= i < j < t.len() implies t[i].0
                            != t[j].0 by {
                            if j < pos {
                                assert(s[i].0 != s[j].0);
                            } else if i >= pos {
                                assert(s[i + 1].0 != s[j + 1].0);
                            } else {
                                assert(s[i].0 != s[j + 1].0);
                            }
                        }
                    }
                    assert forall|k2: i64, r2: u64|
                        self.contains_pair(k2, r2) <==> (old(self).contains_pair(k2, r2) && !(k2
                            == k && r2 == r)) by {
                        if self.contains_pair(k2, r2) {
                            let i = choose|i: int| 0 <= i < t.len() && t[i] == (k2, r2);
                            if i < pos {
                                assert(s[i] == (k2, r2));
                                // Entries are strictly ordered, so the
                                // removed pair stands nowhere else.
                                assert(entry_lt(s[i], s[pos as int]));
                            } else {
                                assert(s[i + 1] == (k2, r2));
                                assert(entry_lt(s[pos as int], s[i + 1]));
                            }
                        }
                        if old(self).contains_pair(k2, r2) && !(k2 == k && r2 == r) {
                            let i = choose|i: int| 0 <= i < s.len() && s[i] == (k2, r2);
                            if i < pos {
                                assert(t[i] == (k2, r2));
                            } else if i > pos {
                                assert(t[i - 1] == (k2, r2));
                            }
                        }
                    }
                }
                return true;
            }
        }
        proof {
            // `(k, r)` is absent: everything below `pos` is strictly
            // smaller, everything from `pos` on differs from it.
            assert forall|i: int| 0 <= i < self@.len() implies self@[i] != (k, r) by {
                if i >= pos && self@[i] == (k, r) {
                    if i > pos {
                        assert(entry_lt(self@[pos as int], self@[i]));
                        assert(!entry_lt(self@[pos as int], (k, r)));
                    }
                }
            }
        }
        false
    }

    /// Looks up a key and returns the smallest row identifier stored under
    /// it, or `None` if the key is absent.
    pub fn lookup(&self, k: i64) -> (r: Option<u64>)
        requires
            self.wf(),
        ensures
            (r matches Some(row) ==> self.contains_pair(k, row) && (forall|r2: u64|
                self.contains_pair(k, r2) ==> row <= r2)),
            (r is None ==> !self.contains_key(k)),
    {
        let pos = self.lower_bound(k, 0);
        let n = self.entries.len();
        if pos < n {
            let e = self.entries[pos];
            if e.0 == k {
                proof {
                    assert(self.contains_pair(k, e.1)) by {
                        assert(self@[pos as int] == (k, e.1));
                    }
                    assert forall|r2: u64| self.contains_pair(k, r2) implies e.1 <= r2 by {
                        let i = choose|i: int| 0 <= i < self@.len() && self@[i] == (k, r2);
                        if i < pos {
                            assert(entry_lt(self@[i], (k, 0)));
                        } else if i > pos {
                            assert(entry_lt(self@[pos as int], self@[i]));
                        }
                    }
                }
                return Some(e.1);
            }
        }
        proof {
            assert forall|i: int| 0 <= i < self@.len() implies (#[trigger] self@[i]).0 != k by {
                if i < pos {
                    assert(entry_lt(self@[i], (k, 0)));
                } else if self@[i].0 == k {
                    assert(!entry_lt(self@[pos as int], (k, 0)));
                    if i > pos {
                        assert(entry_lt(self@[pos as int], self@[i]));
                    }
                }
            }
        }
        None
    }

    /// Scans the keys in `[lo, hi]` and returns the stored row identifiers,
    /// in ascending entry order, or descending when `descending` is set.
    pub fn scan_range(&self, lo: i64, hi: i64, descending: bool) -> (r: Vec<u64>)
        ensures
            (!descending ==> r@ == range_rows(self@, lo, hi)),
            (descending ==> r@ == range_rows(self@, lo, hi).reverse()),
    {
        let n = self.entries.len();
        let mut out: Vec<u64> = Vec::new();
        if !descending {
            let mut i: usize = 0;
            while i < n
                invariant
                    i <= n,
                    n == self@.len(),
                    out@ == range_rows(self@.subrange(0, i as int), lo, hi),
                decreases n - i,
            {
                let e = self.entries[i];
                proof {
                    assert(self@.subrange(0, i + 1).drop_last() =~= self@.subrange(0, i as int));
                    assert(self@.subrange(0, i + 1).last() == self@[i as int]);
                }
                if lo <= e.0 && e.0 <= hi {
                    out.push(e.1);
                }
                i = i + 1;
            }
            proof {
                assert(self@.subrange(0, n as int) =~= self@);
            }
        } else {
            let mut i: usize = n;
            while i > 0
                invariant
                    i <= n,
                    n == self@.len(),
                    out@ == range_rows(self@.subrange(i as int, n as int), lo, hi).reverse(),
                decreases i,
            {
                let e = self.entries[i - 1];
                proof {
                    lemma_range_rows_first(self@.subrange(i - 1, n as int), lo, hi);
                    assert(self@.subrange(i - 1, n as int).drop_first() =~= self@.subrange(
                        i as int,
                        n as int,
                    ));
                    assert(self@.subrange(i - 1, n as int)[0] == self@[i - 1]);
                }
                if lo <= e.0 && e.0 <= hi {
                    out.push(e.1);
                    proof {
                        let rest = range_rows(self@.subrange(i as int, n as int), lo, hi);
                        assert((seq![self@[i - 1].1] + rest).reverse() =~= rest.reverse().push(
                            self@[i - 1].1,
                        ));
                    }
                } else {
                    proof {
                        let rest = range_rows(self@.subrange(i as int, n as int), lo, hi);
                        assert(Seq::<u64>::empty() + rest =~= rest);
                    }
                }
                i = i - 1;
            }
            proof {
                assert(self@.subrange(0, n as int) =~= self@);
            }
        }
        out
    }
}

/// The range scan of a non-empty run is its first entry's contribution
/// followed by the scan of the rest.
proof fn lemma_range_rows_first(s: Seq<(i64, u64)>, lo: i64, hi: i64)
    requires
        s.len() > 0,
    ensures
        range_rows(s, lo, hi) == (if lo <= s[0].0 <= hi {
            seq![s[0].1]
        } else {
            Seq::<u64>::empty()
        }) + range_rows(s.drop_first(), lo, hi),
    decreases s.len(),
{
    let head: Seq<u64> = if lo <= s[0].0 <= hi {
        seq![s[0].1]
    } else {
        Seq::<u64>::empty()
    };
    if s.len() == 1 {
        assert(s.drop_last() =~= Seq::<(i64, u64)>::empty());
        assert(s.drop_first() =~= Seq::<(i64, u64)>::empty());
        assert(range_rows(s, lo, hi) =~= head + range_rows(s.drop_first(), lo, hi));
    } else {
        lemma_range_rows_first(s.drop_last(), lo, hi);
        assert(s.drop_last()[0] == s[0]);
        assert(s.drop_last().drop_first() =~= s.drop_first().drop_last());
        assert(s.drop_first().last() == s.last());
        if lo <= s.last().0 <= hi {
            assert(range_rows(s, lo, hi) == range_rows(s.drop_last(), lo, hi).push(s.last().1));
            assert((head + range_rows(s.drop_first().drop_last(), lo, hi)).push(s.last().1) =~= head
                + range_rows(s.drop_first().drop_last(), lo, hi).push(s.last().1));
        } else {
            assert(range_rows(s, lo, hi) == range_rows(s.drop_last(), lo, hi));
        }
    }
}

/// A scan over the full key range returns every entry's row, in entry
/// order.
pub proof fn lemma_range_rows_full(s: Seq<(i64, u64)>)
    ensures
        range_rows(s, i64::MIN, i64::MAX).len() == s.len(),
        forall|j: int|
            0 <= j < s.len() ==> #[trigger] range_rows(s, i64::MIN, i64::MAX)[j] == s[j].1,
    decreases s.len(),
{
    if s.len() > 0 {
        lemma_range_rows_full(s.drop_last());
        assert(range_rows(s, i64::MIN, i64::MAX) == range_rows(
            s.drop_last(),
            i64::MIN,
            i64::MAX,
        ).push(s.last().1));
        assert forall|j: int|
            0 <= j < s.len() implies #[trigger] range_rows(s, i64::MIN, i64::MAX)[j] == s[j].1 by {
            if j < s.len() - 1 {
                assert(range_rows(s, i64::MIN, i64::MAX)[j] == range_rows(
                    s.drop_last(),
                    i64::MIN,
                    i64::MAX,
                )[j]);
                assert(s.drop_last()[j] == s[j]);
            }
        }
    }
}

} // verus!
