//! A last-write-wins association table keyed by the normalized byte form
//! of an identifier.  Both registry maps (interface name to registration,
//! object path to path data) are instances of it.
//!
//! The model is the pair of spec functions `table_lookup` and
//! `table_insert`; the entry order is kept, so lookups after a fixed
//! insertion history are deterministic.

use vstd::prelude::*;
use crate::bytes::bytes_eq;

verus! {

/// The first value stored under key `k`, if any.
pub open spec fn table_lookup<V>(s: Seq<(Seq<u8>, V)>, k: Seq<u8>) -> Option<V>
    decreases s.len(),
{
    if s.len() == 0 {
        None
    } else if s[0].0 == k {
        Some(s[0].1)
    } else {
        table_lookup(s.drop_first(), k)
    }
}

/// The table after storing `v` under `k`: the first entry keyed `k` is
/// replaced in place, or a fresh entry is appended.
pub open spec fn table_insert<V>(s: Seq<(Seq<u8>, V)>, k: Seq<u8>, v: V) -> Seq<(Seq<u8>, V)>
    decreases s.len(),
{
    if s.len() == 0 {
        seq![(k, v)]
    } else if s[0].0 == k {
        seq![(k, v)] + s.drop_first()
    } else {
        seq![s[0]] + table_insert(s.drop_first(), k, v)
    }
}

/// After an insert, the inserted value is what the key looks up to.
pub proof fn lemma_insert_lookup_same<V>(s: Seq<(Seq<u8>, V)>, k: Seq<u8>, v: V)
    ensures
        table_lookup(table_insert(s, k, v), k) == Some(v),
    decreases s.len(),
{
    let t = table_insert(s, k, v);
    if s.len() == 0 {
        assert(t[0].0 == k);
    } else if s[0].0 == k {
        assert(t[0].0 == k);
    } else {
        assert(t[0] == s[0]);
        assert(t.drop_first() =~= table_insert(s.drop_first(), k, v));
        lemma_insert_lookup_same(s.drop_first(), k, v);
    }
}

/// An insert leaves every other key's lookup unchanged.
pub proof fn lemma_insert_lookup_other<V>(s: Seq<(Seq<u8>, V)>, k: Seq<u8>, v: V, k2: Seq<u8>)
    requires
        k2 != k,
    ensures
        table_lookup(table_insert(s, k, v), k2) == table_lookup(s, k2),
    decreases s.len(),
{
    let t = table_insert(s, k, v);
    if s.len() == 0 {
        assert(t[0].0 == k);
        assert(t.drop_first() =~= Seq::<(Seq<u8>, V)>::empty());
        assert(table_lookup(t.drop_first(), k2) is None);
        assert(table_lookup(s, k2) is None);
    } else if s[0].0 == k {
        assert(t[0].0 == k);
        assert(t.drop_first() =~= s.drop_first());
        assert(table_lookup(t, k2) == table_lookup(s.drop_first(), k2));
        assert(table_lookup(s, k2) == table_lookup(s.drop_first(), k2));
    } else {
        assert(t[0] == s[0]);
        assert(t.drop_first() =~= table_insert(s.drop_first(), k, v));
        lemma_insert_lookup_other(s.drop_first(), k, v, k2);
        assert(table_lookup(t, k2) == if t[0].0 == k2 {
            Some(t[0].1)
        } else {
            table_lookup(t.drop_first(), k2)
        });
    }
}

/// If the first `j` entries miss the key and entry `j` carries it, the
/// lookup yields entry `j`'s value.
pub proof fn lemma_lookup_first_match<V>(s: Seq<(Seq<u8>, V)>, k: Seq<u8>, j: int)
    requires
        0 <= j < s.len(),
        forall|i: int| 0 <= i < j ==> (#[trigger] s[i]).0 != k,
        s[j].0 == k,
    ensures
        table_lookup(s, k) == Some(s[j].1),
    decreases j,
{
    if j == 0 {
    } else {
        assert(s.drop_first() =~= s.subrange(1, s.len() as int));
        lemma_lookup_first_match(s.drop_first(), k, j - 1);
    }
}

/// If no entry carries the key, the lookup yields nothing.
pub proof fn lemma_lookup_no_match<V>(s: Seq<(Seq<u8>, V)>, k: Seq<u8>)
    requires
        forall|i: int| 0 <= i < s.len() ==> (#[trigger] s[i]).0 != k,
    ensures
        table_lookup(s, k) is None,
    decreases s.len(),
{
    if s.len() > 0 {
        lemma_lookup_no_match(s.drop_first(), k);
    }
}

/// If the first `j` entries miss the key and entry `j` carries it, an
/// insert replaces entry `j` in place.
pub proof fn lemma_insert_first_match<V>(s: Seq<(Seq<u8>, V)>, k: Seq<u8>, v: V, j: int)
    requires
        0 <= j < s.len(),
        forall|i: int| 0 <= i < j ==> (#[trigger] s[i]).0 != k,
        s[j].0 == k,
    ensures
        table_insert(s, k, v) =~= s.update(j, (k, v)),
    decreases j,
{
    if j == 0 {
    } else {
        lemma_insert_first_match(s.drop_first(), k, v, j - 1);
        assert(table_insert(s, k, v) =~= seq![s[0]] + table_insert(s.drop_first(), k, v));
    }
}

/// If no entry carries the key, an insert appends a fresh entry.
pub proof fn lemma_insert_no_match<V>(s: Seq<(Seq<u8>, V)>, k: Seq<u8>, v: V)
    requires
        forall|i: int| 0 <= i < s.len() ==> (#[trigger] s[i]).0 != k,
    ensures
        table_insert(s, k, v) =~= s.push((k, v)),
    decreases s.len(),
{
    if s.len() > 0 {
        lemma_insert_no_match(s.drop_first(), k, v);
    }
}

/// Every value stored after an insert is the inserted one or one that was
/// already in the table.
pub proof fn lemma_insert_values<V>(s: Seq<(Seq<u8>, V)>, k: Seq<u8>, v: V)
    ensures
        forall|i: int|
            0 <= i < table_insert(s, k, v).len() ==> (#[trigger] table_insert(s, k, v)[i]).1 == v
                || exists|j: int| 0 <= j < s.len() && (#[trigger] s[j]).1 == table_insert(
                s,
                k,
                v,
            )[i].1,
    decreases s.len(),
{
    let t = table_insert(s, k, v);
    if s.len() == 0 {
        assert(t.len() == 1 && t[0].1 == v);
    } else if s[0].0 == k {
        assert forall|i: int| 0 <= i < t.len() implies (t[i].1 == v || exists|j: int|
            0 <= j < s.len() && (#[trigger] s[j]).1 == t[i].1) by {
            if i > 0 {
                assert(t[i] == s.drop_first()[i - 1]);
                assert(s[i].1 == t[i].1);
            }
        }
    } else {
        lemma_insert_values(s.drop_first(), k, v);
        let t2 = table_insert(s.drop_first(), k, v);
        assert forall|i: int| 0 <= i < t.len() implies (t[i].1 == v || exists|j: int|
            0 <= j < s.len() && (#[trigger] s[j]).1 == t[i].1) by {
            if i == 0 {
                assert(s[0].1 == t[0].1);
            } else {
                assert(t[i] == t2[i - 1]);
                if t2[i - 1].1 != v {
                    let j = choose|j: int|
                        0 <= j < s.drop_first().len() && (#[trigger] s.drop_first()[j]).1 == t2[i
                            - 1].1;
                    assert(s[j + 1].1 == t[i].1);
                }
            }
        }
    }
}

/// Every value a lookup can yield sits in some entry of the table.
pub proof fn lemma_lookup_is_entry<V>(s: Seq<(Seq<u8>, V)>, k: Seq<u8>)
    requires
        table_lookup(s, k) is Some,
    ensures
        exists|i: int| 0 <= i < s.len() && #[trigger] s[i] == (k, table_lookup(s, k)->0),
    decreases s.len(),
{
    if s.len() > 0 {
        if s[0].0 == k {
            assert(s[0] == (k, table_lookup(s, k)->0));
        } else {
            lemma_lookup_is_entry(s.drop_first(), k);
            let i = choose|i: int|
                0 <= i < s.drop_first().len() && #[trigger] s.drop_first()[i] == (
                k,
                table_lookup(s.drop_first(), k)->0,
                );
            assert(s[i + 1] == (k, table_lookup(s, k)->0));
        }
    }
}

/// A last-write-wins table of values keyed by identifier bytes.
pub struct Table<V> {
    entries: Vec<(Vec<u8>, V)>,
}

impl<V> View for Table<V> {
    type V = Seq<(Seq<u8>, V)>;

    closed spec fn view(&self) -> Seq<(Seq<u8>, V)> {
        Seq::new(self.entries@.len(), |i: int| (self.entries@[i].0@, self.entries@[i].1))
    }
}

impl<V> Table<V> {
    /// An empty table.
    pub fn new() -> (r: Table<V>)
        ensures
            r@ == Seq::<(Seq<u8>, V)>::empty(),
    {
        let r = Table { entries: Vec::new() };
        proof {
            assert(r@ =~= Seq::<(Seq<u8>, V)>::empty());
        }
        r
    }

    /// The index of the first entry keyed `k`, if any.
    fn position(&self, k: &Vec<u8>) -> (r: Option<usize>)
        ensures
            r matches Some(j) ==> j < self@.len() && self@[j as int].0 == k@ && forall|i: int|
                0 <= i < j ==> (#[trigger] self@[i]).0 != k@,
            r is None ==> forall|i: int| 0 <= i < self@.len() ==> (#[trigger] self@[i]).0 != k@,
    {
        let n = self.entries.len();
        let mut j: usize = 0;
        while j < n
            invariant
                n == self.entries.len(),
                j <= n,
                forall|i: int| 0 <= i < j ==> (#[trigger] self@[i]).0 != k@,
            decreases n - j,
        {
            if bytes_eq(&self.entries[j].0, k) {
                proof {
                    assert(self@[j as int].0 == self.entries@[j as int].0@);
                }
                return Some(j);
            }
            proof {
                assert(self@[j as int].0 == self.entries@[j as int].0@);
            }
            j += 1;
        }
        None
    }

    /// Stores `v` under `k`, replacing and returning any value previously
    /// stored under that key (last write wins).
    pub fn insert(&mut self, k: Vec<u8>, v: V) -> (r: Option<V>)
        ensures
            final(self)@ == table_insert(old(self)@, k@, v),
            r == table_lookup(old(self)@, k@),
    {
        match self.position(&k) {
            Some(j) => {
                proof {
                    lemma_lookup_first_match(self@, k@, j as int);
                    lemma_insert_first_match(self@, k@, v, j as int);
                }
                let prev = self.entries.remove(j);
                self.entries.insert(j, (k, v));
                proof {
                    assert(self@ =~= old(self)@.update(j as int, (k@, v)));
                }
                Some(prev.1)
            },
            None => {
                proof {
                    lemma_lookup_no_match(self@, k@);
                    lemma_insert_no_match(self@, k@, v);
                }
                self.entries.push((k, v));
                proof {
                    assert(self@ =~= old(self)@.push((k@, v)));
                }
                None
            },
        }
    }

    /// The value stored under `k`, if any.
    pub fn get(&self, k: &Vec<u8>) -> (r: Option<&V>)
        ensures
            r matches Some(v) ==> table_lookup(self@, k@) == Some(*v),
            r is Some <==> table_lookup(self@, k@) is Some,
    {
        match self.position(k) {
            Some(j) => {
                proof {
                    lemma_lookup_first_match(self@, k@, j as int);
                }
                Some(&self.entries[j].1)
            },
            None => {
                proof {
                    lemma_lookup_no_match(self@, k@);
                }
                None
            },
        }
    }
}

} // verus!
