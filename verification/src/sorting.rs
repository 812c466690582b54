//! The order of texts, and lists sorted by it.
use vstd::prelude::*;

use crate::copying::views;

verus! {

/// Whether one text comes before another or is the same: by their first difference, a shorter
/// beginning first.
pub open spec fn text_le(a: Seq<char>, b: Seq<char>) -> bool
    decreases a.len(),
{
    if a.len() == 0 {
        true
    } else if b.len() == 0 {
        false
    } else if a[0] == b[0] {
        text_le(a.drop_first(), b.drop_first())
    } else {
        a[0] < b[0]
    }
}

/// Of two texts one comes first.
pub proof fn text_le_total(a: Seq<char>, b: Seq<char>)
    ensures
        text_le(a, b) || text_le(b, a),
    decreases a.len(),
{
    if a.len() > 0 && b.len() > 0 && a[0] == b[0] {
        text_le_total(a.drop_first(), b.drop_first());
    }
}

/// The order of texts carries over.
pub proof fn text_le_transitive(a: Seq<char>, b: Seq<char>, c: Seq<char>)
    requires
        text_le(a, b),
        text_le(b, c),
    ensures
        text_le(a, c),
    decreases a.len(),
{
    if a.len() > 0 && b.len() > 0 && c.len() > 0 && a[0] == b[0] && b[0] == c[0] {
        text_le_transitive(a.drop_first(), b.drop_first(), c.drop_first());
    }
}

/// Two texts that each come before the other are the same.
pub proof fn text_le_antisymmetric(a: Seq<char>, b: Seq<char>)
    requires
        text_le(a, b),
        text_le(b, a),
    ensures
        a == b,
    decreases a.len(),
{
    if a.len() > 0 && b.len() > 0 {
        text_le_antisymmetric(a.drop_first(), b.drop_first());
        assert(a =~= seq![a[0]] + a.drop_first());
        assert(b =~= seq![b[0]] + b.drop_first());
    } else {
        assert(a =~= b);
    }
}

/// Whether one text comes before another or is the same.
pub fn text_first(a: &str, b: &str) -> (r: bool)
    ensures
        r == text_le(a@, b@),
{
    let n: usize = a.unicode_len();
    let m: usize = b.unicode_len();
    let mut i: usize = 0;
    assert(a@.subrange(0, n as int) =~= a@);
    assert(b@.subrange(0, m as int) =~= b@);
    while i < n && i < m
        invariant
            i <= n,
            i <= m,
            n == a@.len(),
            m == b@.len(),
            text_le(a@, b@) == text_le(
                a@.subrange(i as int, n as int),
                b@.subrange(i as int, m as int),
            ),
        decreases n - i,
    {
        let ghost ta = a@.subrange(i as int, n as int);
        let ghost tb = b@.subrange(i as int, m as int);
        let x: char = a.get_char(i);
        let y: char = b.get_char(i);
        assert(ta[0] == x && tb[0] == y);
        if x != y {
            return x < y;
        }
        assert(ta.drop_first() =~= a@.subrange(i + 1, n as int));
        assert(tb.drop_first() =~= b@.subrange(i + 1, m as int));
        i += 1;
    }
    i == n
}

/// Whether texts stand in order.
pub open spec fn texts_sorted(s: Seq<Seq<char>>) -> bool {
    forall|i: int, j: int| 0 <= i <= j < s.len() ==> text_le(#[trigger] s[i], #[trigger] s[j])
}

/// Puts a text into a list that stands in order.
pub fn insert_sorted(v: &mut Vec<String>, x: String)
    requires
        texts_sorted(views(old(v)@)),
    ensures
        texts_sorted(views(final(v)@)),
        views(final(v)@).to_multiset() == views(old(v)@).to_multiset().insert(x@),
        final(v).len() == old(v).len() + 1,
{
    let ghost before = views(v@);
    let mut i: usize = 0;
    while i < v.len() && text_first(v[i].as_str(), x.as_str())
        invariant
            i <= v.len(),
            before == views(v@),
            v@ == old(v)@,
            forall|k: int| 0 <= k < i ==> text_le(#[trigger] before[k], x@),
        ensures
            i <= v.len(),
            forall|k: int| 0 <= k < i ==> text_le(#[trigger] before[k], x@),
            i < v.len() ==> !text_le(before[i as int], x@),
        decreases v.len() - i,
    {
        assert(before[i as int] == v@[i as int]@);
        i += 1;
    }
    let ghost t = x@;
    v.insert(i, x);
    let ghost after = views(v@);
    assert(after =~= before.insert(i as int, t));
    assert forall|a: int, b: int| 0 <= a <= b < after.len() implies text_le(
        #[trigger] after[a],
        #[trigger] after[b],
    ) by {
        let pa = if a < i {
            a
        } else {
            a - 1
        };
        let pb = if b < i {
            b
        } else {
            b - 1
        };
        if a != i && b != i {
            assert(after[a] == before[pa] && after[b] == before[pb]);
        } else if a == i && b == i {
            text_le_total(t, t);
        } else if b == i {
            assert(after[a] == before[a]);
        } else {
            text_le_total(before[i as int], t);
            assert(after[b] == before[pb]);
            assert(text_le(before[i as int], before[pb]));
            text_le_transitive(t, before[i as int], before[pb]);
        }
    }
    proof {
        vstd::seq_lib::to_multiset_insert(before, i as int, t);
    }
}

} // verus!
