//! A small map from texts to texts, kept as a list of rows.
use vstd::prelude::*;

use crate::config::{Pair, PairView};
use crate::copying::{group_views, opt_view, views};
use crate::text::same;

verus! {

/// A map from texts to texts.
pub struct TextMap {
    pub rows: Vec<Pair>,
}

/// The value in the first row of a key.
pub open spec fn text_lookup(rows: Seq<PairView>, k: Seq<char>) -> Option<Seq<char>>
    decreases rows.len(),
{
    if rows.len() == 0 {
        None
    } else if rows[0].key == k {
        Some(rows[0].value)
    } else {
        text_lookup(rows.drop_first(), k)
    }
}

/// The map that a list of rows stands for.
pub open spec fn text_map(rows: Seq<PairView>) -> Map<Seq<char>, Seq<char>> {
    Map::new(
        |k: Seq<char>| text_lookup(rows, k) is Some,
        |k: Seq<char>| text_lookup(rows, k)->0,
    )
}

impl View for TextMap {
    type V = Map<Seq<char>, Seq<char>>;

    open spec fn view(&self) -> Map<Seq<char>, Seq<char>> {
        text_map(views(self.rows@))
    }
}

proof fn text_lookup_at(rows: Seq<PairView>, k: Seq<char>, i: int)
    requires
        0 <= i < rows.len(),
        rows[i].key == k,
        forall|j: int| 0 <= j < i ==> (#[trigger] rows[j]).key != k,
    ensures
        text_lookup(rows, k) == Some(rows[i].value),
    decreases rows.len(),
{
    if i > 0 {
        let rest = rows.drop_first();
        assert(rest[i - 1] == rows[i]);
        assert forall|j: int| 0 <= j < i - 1 implies (#[trigger] rest[j]).key != k by {
            assert(rest[j] == rows[j + 1]);
        }
        text_lookup_at(rest, k, i - 1);
    }
}

proof fn text_lookup_missing(rows: Seq<PairView>, k: Seq<char>)
    requires
        forall|j: int| 0 <= j < rows.len() ==> (#[trigger] rows[j]).key != k,
    ensures
        text_lookup(rows, k) is None,
    decreases rows.len(),
{
    if rows.len() > 0 {
        let rest = rows.drop_first();
        assert forall|j: int| 0 <= j < rest.len() implies (#[trigger] rest[j]).key != k by {
            assert(rest[j] == rows[j + 1]);
        }
        text_lookup_missing(rest, k);
    }
}

proof fn text_lookup_updated(rows: Seq<PairView>, i: int, p: PairView, q: Seq<char>)
    requires
        0 <= i < rows.len(),
        rows[i].key == p.key,
        forall|j: int| 0 <= j < i ==> (#[trigger] rows[j]).key != p.key,
    ensures
        text_lookup(rows.update(i, p), q) == if q == p.key {
            Some(p.value)
        } else {
            text_lookup(rows, q)
        },
    decreases rows.len(),
{
    let new = rows.update(i, p);
    if i == 0 {
        assert(new.drop_first() =~= rows.drop_first());
    } else {
        let rest = rows.drop_first();
        assert(new.drop_first() =~= rest.update(i - 1, p));
        assert(rest[i - 1] == rows[i]);
        assert forall|j: int| 0 <= j < i - 1 implies (#[trigger] rest[j]).key != p.key by {
            assert(rest[j] == rows[j + 1]);
        }
        text_lookup_updated(rest, i - 1, p, q);
    }
}

proof fn text_lookup_pushed(rows: Seq<PairView>, p: PairView, q: Seq<char>)
    requires
        forall|j: int| 0 <= j < rows.len() ==> (#[trigger] rows[j]).key != p.key,
    ensures
        text_lookup(rows.push(p), q) == if q == p.key {
            Some(p.value)
        } else {
            text_lookup(rows, q)
        },
    decreases rows.len(),
{
    let new = rows.push(p);
    if rows.len() > 0 {
        let rest = rows.drop_first();
        assert(new[0] == rows[0]);
        assert(new.drop_first() =~= rest.push(p));
        assert forall|j: int| 0 <= j < rest.len() implies (#[trigger] rest[j]).key != p.key by {
            assert(rest[j] == rows[j + 1]);
        }
        text_lookup_pushed(rest, p, q);
    } else {
        assert(new[0] == p);
        assert(text_lookup(new.drop_first(), q) is None);
    }
}

proof fn inserted_map(before: Seq<PairView>, after: Seq<PairView>, p: PairView)
    requires
        forall|q: Seq<char>| #[trigger]
            text_lookup(after, q) == if q == p.key {
                Some(p.value)
            } else {
                text_lookup(before, q)
            },
    ensures
        text_map(after) == text_map(before).insert(p.key, p.value),
{
    let a = text_map(after);
    let b = text_map(before).insert(p.key, p.value);
    assert forall|q: Seq<char>| a.dom().contains(q) <==> b.dom().contains(q) by {
        assert(text_lookup(after, q) is Some <==> a.dom().contains(q));
    }
    assert forall|q: Seq<char>| a.dom().contains(q) implies a[q] == b[q] by {
        assert(text_lookup(after, q) is Some);
    }
    assert(a =~= b);
}

impl TextMap {
    /// A map with nothing in it.
    pub fn new() -> (r: TextMap)
        ensures
            r@ == Map::<Seq<char>, Seq<char>>::empty(),
    {
        broadcast use group_views;

        let r = TextMap { rows: Vec::new() };
        assert(r@ =~= Map::<Seq<char>, Seq<char>>::empty());
        r
    }

    /// The value of a key.
    pub fn get(&self, k: &str) -> (r: Option<String>)
        ensures
            opt_view(r) == if self@.dom().contains(k@) {
                Some(self@[k@])
            } else {
                None
            },
    {
        let ghost rows = views(self.rows@);
        let mut i: usize = 0;
        while i < self.rows.len()
            invariant
                i <= self.rows.len(),
                rows == views(self.rows@),
                forall|j: int| 0 <= j < i ==> (#[trigger] rows[j]).key != k@,
            decreases self.rows.len() - i,
        {
            if same(self.rows[i].key.as_str(), k) {
                proof {
                    assert(rows[i as int].key == k@);
                    text_lookup_at(rows, k@, i as int);
                }
                return Some(self.rows[i].value.clone());
            }
            i += 1;
        }
        proof {
            text_lookup_missing(rows, k@);
        }
        None
    }

    /// Gives a key a value, in place of the one it may have.
    pub fn insert(&mut self, k: String, v: String)
        ensures
            final(self)@ == old(self)@.insert(k@, v@),
    {
        broadcast use group_views;

        let ghost before = views(self.rows@);
        let ghost p = PairView { key: k@, value: v@ };
        let mut i: usize = 0;
        while i < self.rows.len()
            invariant
                i <= self.rows.len(),
                before == views(self.rows@),
                before == views(old(self).rows@),
                p == (PairView { key: k@, value: v@ }),
                forall|j: int| 0 <= j < i ==> (#[trigger] before[j]).key != k@,
            decreases self.rows.len() - i,
        {
            if same(self.rows[i].key.as_str(), k.as_str()) {
                assert(before[i as int].key == k@);
                self.rows.set(i, Pair { key: k, value: v });
                assert(views(self.rows@) =~= before.update(i as int, p));
                let ghost after = views(self.rows@);
                assert forall|q: Seq<char>| #[trigger]
                    text_lookup(after, q) == if q == p.key {
                        Some(p.value)
                    } else {
                        text_lookup(before, q)
                    } by {
                    text_lookup_updated(before, i as int, p, q);
                }
                proof {
                    inserted_map(before, after, p);
                }
                return;
            }
            i += 1;
        }
        self.rows.push(Pair { key: k, value: v });
        let ghost after = views(self.rows@);
        assert forall|q: Seq<char>| #[trigger]
            text_lookup(after, q) == if q == p.key {
                Some(p.value)
            } else {
                text_lookup(before, q)
            } by {
            text_lookup_pushed(before, p, q);
        }
        proof {
            inserted_map(before, after, p);
        }
    }
}

} // verus!
