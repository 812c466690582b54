//! A small map from numbers to plain values, kept as a list of rows.
use vstd::prelude::*;

use crate::copying::{copy_all, Duplicate};

verus! {

/// A map from numbers to plain values.
pub struct Table<V: Copy> {
    pub rows: Vec<(u64, V)>,
}

/// The value in the first row of a key.
pub open spec fn lookup<V>(rows: Seq<(u64, V)>, k: u64) -> Option<V>
    decreases rows.len(),
{
    if rows.len() == 0 {
        None
    } else if rows[0].0 == k {
        Some(rows[0].1)
    } else {
        lookup(rows.drop_first(), k)
    }
}

/// The map that a list of rows stands for.
pub open spec fn table_map<V>(rows: Seq<(u64, V)>) -> Map<u64, V> {
    Map::new(|k: u64| lookup(rows, k) is Some, |k: u64| lookup(rows, k)->0)
}

impl<V: Copy> View for Table<V> {
    type V = Map<u64, V>;

    open spec fn view(&self) -> Map<u64, V> {
        table_map(self.rows@)
    }
}

impl<V: Copy> Duplicate for Table<V> {
    fn duplicate(&self) -> (r: Self) {
        Table { rows: copy_all(&self.rows) }
    }
}

proof fn lookup_at<V>(rows: Seq<(u64, V)>, k: u64, i: int)
    requires
        0 <= i < rows.len(),
        rows[i].0 == k,
        forall|j: int| 0 <= j < i ==> (#[trigger] rows[j]).0 != k,
    ensures
        lookup(rows, k) == Some(rows[i].1),
    decreases rows.len(),
{
    if i > 0 {
        let rest = rows.drop_first();
        assert(rest[i - 1] == rows[i]);
        assert forall|j: int| 0 <= j < i - 1 implies (#[trigger] rest[j]).0 != k by {
            assert(rest[j] == rows[j + 1]);
        }
        lookup_at(rest, k, i - 1);
    }
}

proof fn lookup_missing<V>(rows: Seq<(u64, V)>, k: u64)
    requires
        forall|j: int| 0 <= j < rows.len() ==> (#[trigger] rows[j]).0 != k,
    ensures
        lookup(rows, k) is None,
    decreases rows.len(),
{
    if rows.len() > 0 {
        let rest = rows.drop_first();
        assert forall|j: int| 0 <= j < rest.len() implies (#[trigger] rest[j]).0 != k by {
            assert(rest[j] == rows[j + 1]);
        }
        lookup_missing(rest, k);
    }
}

proof fn lookup_updated<V>(rows: Seq<(u64, V)>, k: u64, i: int, v: V, q: u64)
    requires
        0 <= i < rows.len(),
        rows[i].0 == k,
        forall|j: int| 0 <= j < i ==> (#[trigger] rows[j]).0 != k,
    ensures
        lookup(rows.update(i, (k, v)), q) == if q == k {
            Some(v)
        } else {
            lookup(rows, q)
        },
    decreases rows.len(),
{
    let new = rows.update(i, (k, v));
    if i == 0 {
        assert(new.drop_first() =~= rows.drop_first());
    } else {
        let rest = rows.drop_first();
        assert(new.drop_first() =~= rest.update(i - 1, (k, v)));
        assert(rest[i - 1] == rows[i]);
        assert forall|j: int| 0 <= j < i - 1 implies (#[trigger] rest[j]).0 != k by {
            assert(rest[j] == rows[j + 1]);
        }
        lookup_updated(rest, k, i - 1, v, q);
    }
}

proof fn lookup_pushed<V>(rows: Seq<(u64, V)>, k: u64, v: V, q: u64)
    requires
        forall|j: int| 0 <= j < rows.len() ==> (#[trigger] rows[j]).0 != k,
    ensures
        lookup(rows.push((k, v)), q) == if q == k {
            Some(v)
        } else {
            lookup(rows, q)
        },
    decreases rows.len(),
{
    let new = rows.push((k, v));
    if rows.len() > 0 {
        let rest = rows.drop_first();
        assert(new[0] == rows[0]);
        assert(new.drop_first() =~= rest.push((k, v)));
        assert forall|j: int| 0 <= j < rest.len() implies (#[trigger] rest[j]).0 != k by {
            assert(rest[j] == rows[j + 1]);
        }
        lookup_pushed(rest, k, v, q);
    } else {
        assert(new[0] == (k, v));
        assert(lookup(new.drop_first(), q) is None);
    }
}

impl<V: Copy> Table<V> {
    /// A table with nothing in it.
    pub fn new() -> (r: Self)
        ensures
            r@ == Map::<u64, V>::empty(),
    {
        let r = Table { rows: Vec::new() };
        assert(r@ =~= Map::<u64, V>::empty());
        r
    }

    /// The value of a key.
    pub fn get(&self, k: u64) -> (r: Option<V>)
        ensures
            r is Some <==> self@.dom().contains(k),
            r is Some ==> r->0 == self@[k],
    {
        let mut i: usize = 0;
        while i < self.rows.len()
            invariant
                i <= self.rows.len(),
                forall|j: int| 0 <= j < i ==> (#[trigger] self.rows@[j]).0 != k,
            decreases self.rows.len() - i,
        {
            if self.rows[i].0 == k {
                proof {
                    lookup_at(self.rows@, k, i as int);
                }
                return Some(self.rows[i].1);
            }
            i += 1;
        }
        proof {
            lookup_missing(self.rows@, k);
        }
        None
    }

    /// Gives a key a value, in place of the one it may have.
    pub fn insert(&mut self, k: u64, v: V)
        ensures
            final(self)@ == old(self)@.insert(k, v),
    {
        let mut i: usize = 0;
        while i < self.rows.len()
            invariant
                i <= self.rows.len(),
                self.rows@ == old(self).rows@,
                forall|j: int| 0 <= j < i ==> (#[trigger] self.rows@[j]).0 != k,
            decreases self.rows.len() - i,
        {
            if self.rows[i].0 == k {
                let ghost before = self.rows@;
                self.rows.set(i, (k, v));
                assert forall|q: u64|
                    lookup(self.rows@, q) == if q == k {
                        Some(v)
                    } else {
                        #[trigger] lookup(before, q)
                    } by {
                    lookup_updated(before, k, i as int, v, q);
                }
                assert(self@ =~= old(self)@.insert(k, v));
                return;
            }
            i += 1;
        }
        let ghost before = self.rows@;
        self.rows.push((k, v));
        assert forall|q: u64|
            lookup(self.rows@, q) == if q == k {
                Some(v)
            } else {
                #[trigger] lookup(before, q)
            } by {
            lookup_pushed(before, k, v, q);
        }
        assert(self@ =~= old(self)@.insert(k, v));
    }
}

} // verus!
