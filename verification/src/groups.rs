//! Groups of objects that are selected as a unit.
use vstd::prelude::*;

use crate::app::{AppView, CadApp};
use crate::copying::{copy_all, group_views, views};
use crate::doc::{DObject, DObjectView};
use crate::inspect::ascending;
use crate::text::{cat3, dec, dec_text};

verus! {

/// The handles of the selected objects, in the order of the selection. An index past the end names
/// no object.
pub open spec fn picked_handles(d: Seq<DObjectView>, sel: Seq<usize>) -> Seq<u64>
    decreases sel.len(),
{
    if sel.len() == 0 {
        Seq::empty()
    } else {
        let rest = picked_handles(d, sel.drop_last());
        if sel.last() < d.len() {
            rest.push(d[sel.last() as int].handle)
        } else {
            rest
        }
    }
}

/// A list without repetitions: of equal items the first stays.
pub open spec fn distinct(s: Seq<u64>) -> Seq<u64>
    decreases s.len(),
{
    if s.len() == 0 {
        Seq::empty()
    } else {
        let rest = distinct(s.drop_last());
        if rest.contains(s.last()) {
            rest
        } else {
            rest.push(s.last())
        }
    }
}

/// Whether a group has a member among some handles.
pub open spec fn touches(g: Seq<u64>, s: Seq<u64>) -> bool {
    exists|i: int| 0 <= i < g.len() && s.contains(#[trigger] g[i])
}

/// Lists one after the other.
pub open spec fn joined(gs: Seq<Seq<u64>>) -> Seq<u64>
    decreases gs.len(),
{
    if gs.len() == 0 {
        Seq::empty()
    } else {
        joined(gs.drop_last()) + gs.last()
    }
}

/// The groups that have a member among some handles.
pub open spec fn touched_groups(gs: Seq<Seq<u64>>, s: Seq<u64>) -> Seq<Seq<u64>> {
    gs.filter(|g: Seq<u64>| touches(g, s))
}

/// The groups that have no member among some handles.
pub open spec fn untouched_groups(gs: Seq<Seq<u64>>, s: Seq<u64>) -> Seq<Seq<u64>> {
    gs.filter(|g: Seq<u64>| !touches(g, s))
}

/// The indices of the objects whose handles are among some handles, in ascending order.
pub open spec fn indices_among(d: Seq<DObjectView>, want: Seq<u64>) -> Seq<usize>
    decreases d.len(),
{
    if d.len() == 0 {
        Seq::empty()
    } else {
        let rest = indices_among(d.drop_last(), want);
        if want.contains(d.last().handle) {
            rest.push((d.len() - 1) as usize)
        } else {
            rest
        }
    }
}

/// Whether every item of one list is in another.
pub open spec fn all_in(a: Seq<u64>, b: Seq<u64>) -> bool {
    forall|i: int| 0 <= i < a.len() ==> b.contains(#[trigger] a[i])
}

/// Whether no handle is in two groups.
pub open spec fn groups_disjoint(gs: Seq<Seq<u64>>) -> bool {
    forall|i: int, j: int, h: u64|
        0 <= i < gs.len() && 0 <= j < gs.len() && (#[trigger] gs[i].contains(h)) && (
        #[trigger] gs[j].contains(h)) ==> i == j
}

impl AppView {
    /// The handles of the selected objects, each once.
    pub open spec fn sel_handles(self) -> Seq<u64> {
        distinct(picked_handles(self.doc.dobjects, self.selection))
    }

    /// After the selection has been made one group.
    pub open spec fn grouped(self) -> AppView {
        let members = picked_handles(self.doc.dobjects, self.selection);
        if members.len() < 2 {
            self.said("  ! group: select 2+ objects first"@)
        } else {
            AppView {
                groups: untouched_groups(self.groups, members).push(members),
                ..self
            }.said("  ⊞ grouped "@ + dec(members.len()) + " objects"@)
        }
    }

    /// After the selected objects have joined the groups that the selection touches.
    pub open spec fn added_to_group(self) -> AppView {
        let sel = self.sel_handles();
        let touched = touched_groups(self.groups, sel);
        if sel.len() == 0 {
            self.said("  ! add to group: nothing selected"@)
        } else if touched.len() == 0 {
            self.said("  ! add to group: include an existing group in the selection"@)
        } else {
            let members = distinct(joined(touched) + sel);
            AppView {
                groups: untouched_groups(self.groups, sel).push(members),
                ..self
            }.said("  ⊞ added to group ("@ + dec(members.len()) + " objects total)"@)
        }
    }

    /// After the groups that the selection touches have been dissolved.
    pub open spec fn ungrouped(self) -> AppView {
        let sel = self.sel_handles();
        let kept = untouched_groups(self.groups, sel);
        let removed = (self.groups.len() - kept.len()) as nat;
        if sel.len() == 0 {
            self.said("  ! ungroup: nothing selected"@)
        } else if removed == 0 {
            self.said("  ungroup: selection isn't in a group"@)
        } else {
            AppView { groups: kept, ..self }.said(
                "  ⊟ ungrouped "@ + dec(removed) + " group(s)"@,
            )
        }
    }

    /// Whether a handle shares a group with that of a selected object.
    pub open spec fn grouped_with_selection(self, h: u64) -> bool {
        exists|g: int|
            0 <= g < self.groups.len() && (#[trigger] self.groups[g]).contains(h) && touches(
                self.groups[g],
                self.sel_handles(),
            )
    }

    /// After the selection has grown to whole groups.
    pub open spec fn group_expanded(self) -> AppView {
        let sel = self.sel_handles();
        let more = joined(touched_groups(self.groups, sel));
        if self.groups.len() == 0 || self.selection.len() == 0 || all_in(more, sel) {
            self
        } else {
            AppView { selection: indices_among(self.doc.dobjects, sel + more), ..self }
        }
    }
}

fn holds(s: &Vec<u64>, h: u64) -> (r: bool)
    ensures
        r == s@.contains(h),
{
    let mut i: usize = 0;
    while i < s.len()
        invariant
            i <= s.len(),
            forall|j: int| 0 <= j < i ==> s@[j] != h,
        decreases s.len() - i,
    {
        if s[i] == h {
            assert(s@[i as int] == h);
            return true;
        }
        i += 1;
    }
    false
}

fn touching(g: &Vec<u64>, s: &Vec<u64>) -> (r: bool)
    ensures
        r == touches(g@, s@),
{
    let mut i: usize = 0;
    while i < g.len()
        invariant
            i <= g.len(),
            forall|j: int| 0 <= j < i ==> !s@.contains(#[trigger] g@[j]),
        decreases g.len() - i,
    {
        if holds(s, g[i]) {
            assert(s@.contains(g@[i as int]));
            return true;
        }
        i += 1;
    }
    false
}

proof fn distinct_contains(s: Seq<u64>)
    ensures
        forall|h: u64| distinct(s).contains(h) <==> s.contains(h),
    decreases s.len(),
{
    if s.len() > 0 {
        let rest = s.drop_last();
        let d = distinct(rest);
        distinct_contains(rest);
        assert forall|h: u64| distinct(s).contains(h) <==> s.contains(h) by {
            if s.contains(h) {
                let i = choose|i: int| 0 <= i < s.len() && s[i] == h;
                if i < rest.len() {
                    assert(rest[i] == h);
                    assert(rest.contains(h));
                    assert(d.contains(h));
                }
                if !d.contains(s.last()) {
                    assert(d.push(s.last()).last() == s.last());
                    if d.contains(h) {
                        let k = choose|k: int| 0 <= k < d.len() && d[k] == h;
                        assert(d.push(s.last())[k] == h);
                    }
                }
            }
            if distinct(s).contains(h) {
                let k = choose|k: int| 0 <= k < distinct(s).len() && distinct(s)[k] == h;
                if k < d.len() {
                    assert(d[k] == h);
                    assert(rest.contains(h));
                    let i = choose|i: int| 0 <= i < rest.len() && rest[i] == h;
                    assert(s[i] == h);
                } else {
                    assert(s[s.len() - 1] == h);
                }
            }
        }
    }
}

fn without_repetitions(s: &Vec<u64>) -> (r: Vec<u64>)
    ensures
        r@ == distinct(s@),
{
    let mut r: Vec<u64> = Vec::new();
    let mut i: usize = 0;
    while i < s.len()
        invariant
            i <= s.len(),
            r@ == distinct(s@.subrange(0, i as int)),
        decreases s.len() - i,
    {
        assert(s@.subrange(0, i + 1).drop_last() =~= s@.subrange(0, i as int));
        if !holds(&r, s[i]) {
            r.push(s[i]);
        }
        i += 1;
    }
    assert(s@.subrange(0, i as int) =~= s@);
    r
}

fn handles_of(d: &Vec<DObject>, sel: &Vec<usize>) -> (r: Vec<u64>)
    ensures
        r@ == picked_handles(views(d@), sel@),
{
    let mut r: Vec<u64> = Vec::new();
    let mut i: usize = 0;
    while i < sel.len()
        invariant
            i <= sel.len(),
            r@ == picked_handles(views(d@), sel@.subrange(0, i as int)),
        decreases sel.len() - i,
    {
        assert(sel@.subrange(0, i + 1).drop_last() =~= sel@.subrange(0, i as int));
        let k: usize = sel[i];
        if k < d.len() {
            r.push(d[k].handle);
        }
        i += 1;
    }
    assert(sel@.subrange(0, i as int) =~= sel@);
    r
}

/// Splits the groups into those that have no member among some handles and the members of those
/// that have one.
fn split_groups(gs: &Vec<Vec<u64>>, s: &Vec<u64>) -> (r: (Vec<Vec<u64>>, Vec<u64>, usize))
    ensures
        views(r.0@) == untouched_groups(views(gs@), s@),
        r.1@ == joined(touched_groups(views(gs@), s@)),
        r.2 == touched_groups(views(gs@), s@).len(),
        r.2 + r.0.len() == gs.len(),
{
    broadcast use group_views;

    let ghost all = views(gs@);
    let ghost hit = |g: Seq<u64>| touches(g, s@);
    let ghost miss = |g: Seq<u64>| !touches(g, s@);
    let mut kept: Vec<Vec<u64>> = Vec::new();
    let mut members: Vec<u64> = Vec::new();
    let mut n: usize = 0;
    let mut i: usize = 0;
    proof {
        reveal(Seq::filter);
        assert(all.subrange(0, 0).filter(hit) =~= Seq::empty());
        assert(all.subrange(0, 0).filter(miss) =~= Seq::empty());
    }
    while i < gs.len()
        invariant
            i <= gs.len(),
            all == views(gs@),
            hit == (|g: Seq<u64>| touches(g, s@)),
            miss == (|g: Seq<u64>| !touches(g, s@)),
            views(kept@) == all.subrange(0, i as int).filter(miss),
            members@ == joined(all.subrange(0, i as int).filter(hit)),
            n == all.subrange(0, i as int).filter(hit).len(),
            n + kept.len() == i,
        decreases gs.len() - i,
    {
        let ghost front = all.subrange(0, i as int);
        let g: &Vec<u64> = &gs[i];
        proof {
            reveal(Seq::filter);
            assert(all.subrange(0, i + 1).drop_last() =~= front);
            assert(all.subrange(0, i + 1).last() == g@);
        }
        if touching(g, s) {
            let mut copy = copy_all(g);
            proof {
                let f = front.filter(hit);
                assert(f.push(g@).drop_last() =~= f);
            }
            members.append(&mut copy);
            n += 1;
        } else {
            kept.push(copy_all(g));
        }
        i += 1;
    }
    assert(all.subrange(0, i as int) =~= all);
    (kept, members, n)
}

impl CadApp {
    /// The handles of the selected objects, each once.
    pub fn selected_handles(&self) -> (r: Vec<u64>)
        ensures
            r@ == self@.sel_handles(),
    {
        without_repetitions(&handles_of(&self.doc.dobjects, &self.selection))
    }

    /// Makes the selection one group. Groups that share a member with it are dropped, so that no
    /// object is in two groups.
    pub fn group_selection(&mut self)
        ensures
            final(self)@ == old(self)@.grouped(),
    {
        broadcast use group_views;

        let members = handles_of(&self.doc.dobjects, &self.selection);
        if members.len() < 2 {
            self.say(String::from_str("  ! group: select 2+ objects first"));
            return;
        }
        let n: usize = members.len();
        let (kept, _, _) = split_groups(&self.groups, &members);
        self.groups = kept;
        self.groups.push(members);
        self.say(cat3("  ⊞ grouped ", dec_text(n as u64).as_str(), " objects"));
    }

    /// Merges the selected objects and every group that the selection touches into one group. At
    /// least one selected object has to be in a group already.
    pub fn add_to_group(&mut self)
        ensures
            final(self)@ == old(self)@.added_to_group(),
    {
        broadcast use group_views;

        let sel = self.selected_handles();
        if sel.len() == 0 {
            self.say(String::from_str("  ! add to group: nothing selected"));
            return;
        }
        let (kept, mut members, n) = split_groups(&self.groups, &sel);
        if n == 0 {
            self.say(
                String::from_str("  ! add to group: include an existing group in the selection"),
            );
            return;
        }
        let mut more = sel;
        members.append(&mut more);
        let merged = without_repetitions(&members);
        let total: usize = merged.len();
        self.groups = kept;
        self.groups.push(merged);
        self.say(
            cat3("  ⊞ added to group (", dec_text(total as u64).as_str(), " objects total)"),
        );
    }

    /// Dissolves every group that a selected object is in; the objects stay.
    pub fn ungroup_selection(&mut self)
        ensures
            final(self)@ == old(self)@.ungrouped(),
    {
        let sel = self.selected_handles();
        if sel.len() == 0 {
            self.say(String::from_str("  ! ungroup: nothing selected"));
            return;
        }
        let (kept, _, removed) = split_groups(&self.groups, &sel);
        if removed == 0 {
            self.say(String::from_str("  ungroup: selection isn't in a group"));
        } else {
            self.groups = kept;
            self.say(cat3("  ⊟ ungrouped ", dec_text(removed as u64).as_str(), " group(s)"));
        }
    }

    /// Grows the selection so that picking a member of a group selects the whole group.
    pub fn expand_selection_to_groups(&mut self)
        ensures
            final(self)@ == old(self)@.group_expanded(),
    {
        if self.groups.len() == 0 || self.selection.len() == 0 {
            return;
        }
        let sel = self.selected_handles();
        let (_, more, _) = split_groups(&self.groups, &sel);
        let mut new = false;
        let mut i: usize = 0;
        while i < more.len() && !new
            invariant
                i <= more.len(),
                !new ==> forall|j: int| 0 <= j < i ==> sel@.contains(#[trigger] more@[j]),
                new ==> !all_in(more@, sel@),
            decreases more.len() - i, if new {
                0int
            } else {
                1int
            },
        {
            if !holds(&sel, more[i]) {
                assert(!sel@.contains(more@[i as int]));
                new = true;
            } else {
                i += 1;
            }
        }
        if !new {
            return;
        }
        let mut want = sel;
        let mut rest = more;
        want.append(&mut rest);
        let ghost d = self@.doc.dobjects;
        let mut picked: Vec<usize> = Vec::new();
        let mut k: usize = 0;
        while k < self.doc.dobjects.len()
            invariant
                k <= self.doc.dobjects.len(),
                d == views(self.doc.dobjects@),
                picked@ == indices_among(d.subrange(0, k as int), want@),
            decreases self.doc.dobjects.len() - k,
        {
            assert(d.subrange(0, k + 1).drop_last() =~= d.subrange(0, k as int));
            if holds(&want, self.doc.dobjects[k].handle) {
                picked.push(k);
            }
            k += 1;
        }
        assert(d.subrange(0, k as int) =~= d);
        self.selection = picked;
    }
}

pub(crate) proof fn filter_places<A>(s: Seq<A>, p: spec_fn(A) -> bool) -> (at: Seq<int>)
    ensures
        at.len() == s.filter(p).len(),
        forall|i: int|
            0 <= i < at.len() ==> 0 <= (#[trigger] at[i]) < s.len() && s[at[i]] == s.filter(p)[i],
        forall|i: int| 0 <= i < s.filter(p).len() ==> p(#[trigger] s.filter(p)[i]),
        forall|i: int, j: int| 0 <= i < j < at.len() ==> (#[trigger] at[i]) < (#[trigger] at[j]),
        forall|k: int|
            0 <= k < s.len() && p(#[trigger] s[k]) ==> exists|i: int|
                0 <= i < at.len() && #[trigger] at[i] == k,
    decreases s.len(),
{
    reveal(Seq::filter);
    if s.len() == 0 {
        Seq::empty()
    } else {
        let front = s.drop_last();
        let at = filter_places(front, p);
        let out = if p(s.last()) {
            at.push(s.len() - 1)
        } else {
            at
        };
        assert forall|k: int| 0 <= k < s.len() && p(#[trigger] s[k]) implies exists|i: int|
            0 <= i < out.len() && #[trigger] out[i] == k by {
            if k < front.len() {
                assert(front[k] == s[k]);
                let i = choose|i: int| 0 <= i < at.len() && #[trigger] at[i] == k;
                assert(out[i] == k);
            } else {
                assert(out[out.len() - 1] == k);
            }
        }
        out
    }
}

proof fn kept_groups_stay_disjoint(gs: Seq<Seq<u64>>, s: Seq<u64>)
    requires
        groups_disjoint(gs),
    ensures
        groups_disjoint(untouched_groups(gs, s)),
{
    let miss = |g: Seq<u64>| !touches(g, s);
    let kept = untouched_groups(gs, s);
    let at = filter_places(gs, miss);
    assert forall|i: int, j: int, h: u64|
        0 <= i < kept.len() && 0 <= j < kept.len() && (#[trigger] kept[i].contains(h)) && (
        #[trigger] kept[j].contains(h)) implies i == j by {
        assert(gs[at[i]].contains(h) && gs[at[j]].contains(h));
        assert(at[i] == at[j]);
    }
}

proof fn pushed_group_is_disjoint(gs: Seq<Seq<u64>>, g: Seq<u64>)
    requires
        groups_disjoint(gs),
        forall|i: int, h: u64| 0 <= i < gs.len() && #[trigger] gs[i].contains(h) ==> !g.contains(h),
    ensures
        groups_disjoint(gs.push(g)),
{
    let all = gs.push(g);
    assert forall|i: int, j: int, h: u64|
        0 <= i < all.len() && 0 <= j < all.len() && (#[trigger] all[i].contains(h)) && (
        #[trigger] all[j].contains(h)) implies i == j by {
        if i < gs.len() && j < gs.len() {
            assert(gs[i].contains(h) && gs[j].contains(h));
        } else if i < gs.len() {
            assert(gs[i].contains(h));
        } else if j < gs.len() {
            assert(gs[j].contains(h));
        }
    }
}

proof fn joined_contains(gs: Seq<Seq<u64>>, h: u64)
    ensures
        joined(gs).contains(h) <==> exists|i: int| 0 <= i < gs.len() && #[trigger] gs[i].contains(h),
    decreases gs.len(),
{
    if gs.len() > 0 {
        let front = gs.drop_last();
        joined_contains(front, h);
        let a = joined(front);
        let b = gs.last();
        if joined(gs).contains(h) {
            let k = choose|k: int| 0 <= k < joined(gs).len() && joined(gs)[k] == h;
            if k < a.len() {
                assert(a[k] == h);
                let i = choose|i: int| 0 <= i < front.len() && #[trigger] front[i].contains(h);
                assert(gs[i].contains(h));
            } else {
                assert(b[k - a.len()] == h);
                assert(gs[gs.len() - 1].contains(h));
            }
        }
        if exists|i: int| 0 <= i < gs.len() && #[trigger] gs[i].contains(h) {
            let i = choose|i: int| 0 <= i < gs.len() && #[trigger] gs[i].contains(h);
            if i < front.len() {
                assert(front[i].contains(h));
                let k = choose|k: int| 0 <= k < a.len() && a[k] == h;
                assert((a + b)[k] == h);
            } else {
                let k = choose|k: int| 0 <= k < b.len() && b[k] == h;
                assert((a + b)[a.len() + k] == h);
            }
        }
    }
}

/// Grouping, adding to a group and ungrouping keep every object in at most one group.
pub proof fn groups_stay_disjoint(s: AppView)
    requires
        groups_disjoint(s.groups),
    ensures
        groups_disjoint(s.grouped().groups),
        groups_disjoint(s.added_to_group().groups),
        groups_disjoint(s.ungrouped().groups),
{
    reveal(AppView::said);
    let members = picked_handles(s.doc.dobjects, s.selection);
    let sel = s.sel_handles();
    kept_groups_stay_disjoint(s.groups, members);
    kept_groups_stay_disjoint(s.groups, sel);
    if members.len() >= 2 {
        let kept = untouched_groups(s.groups, members);
        let at = filter_places(s.groups, |g: Seq<u64>| !touches(g, members));
        assert forall|i: int, h: u64| 0 <= i < kept.len() && #[trigger] kept[i].contains(
            h,
        ) implies !members.contains(h) by {
            assert(!touches(kept[i], members));
        }
        pushed_group_is_disjoint(kept, members);
    }
    let touched = touched_groups(s.groups, sel);
    if sel.len() > 0 && touched.len() > 0 {
        let kept = untouched_groups(s.groups, sel);
        let merged = distinct(joined(touched) + sel);
        let at = filter_places(s.groups, |g: Seq<u64>| !touches(g, sel));
        let hit_at = filter_places(s.groups, |g: Seq<u64>| touches(g, sel));
        distinct_contains(joined(touched) + sel);
        assert forall|i: int, h: u64| 0 <= i < kept.len() && #[trigger] kept[i].contains(
            h,
        ) implies !merged.contains(h) by {
            assert(!touches(kept[i], sel));
            if merged.contains(h) {
                assert((joined(touched) + sel).contains(h));
                let k = choose|k: int|
                    0 <= k < (joined(touched) + sel).len() && (joined(touched) + sel)[k] == h;
                if k < joined(touched).len() {
                    assert(joined(touched)[k] == h);
                    joined_contains(touched, h);
                    let j = choose|j: int|
                        0 <= j < touched.len() && #[trigger] touched[j].contains(h);
                    assert(s.groups[hit_at[j]].contains(h) && s.groups[at[i]].contains(h));
                    assert(hit_at[j] == at[i]);
                    assert(touches(touched[j], sel));
                    assert(false);
                } else {
                    assert(sel[k - joined(touched).len()] == h);
                    assert(sel.contains(h));
                    assert(false);
                }
            }
        }
        pushed_group_is_disjoint(kept, merged);
    }
}

proof fn indices_among_contains(d: Seq<DObjectView>, want: Seq<u64>, i: int)
    requires
        d.len() <= usize::MAX,
    ensures
        0 <= i < d.len() ==> (indices_among(d, want).contains(i as usize) <==> want.contains(
            d[i].handle,
        )),
        forall|k: int|
            0 <= k < indices_among(d, want).len() ==> (#[trigger] indices_among(d, want)[k])
                < d.len(),
    decreases d.len(),
{
    if d.len() > 0 {
        let front = d.drop_last();
        let rest = indices_among(front, want);
        indices_among_contains(front, want, i);
        let all = indices_among(d, want);
        let last = (d.len() - 1) as usize;
        if 0 <= i < d.len() {
            if i < front.len() {
                if rest.contains(i as usize) {
                    let k = choose|k: int| 0 <= k < rest.len() && rest[k] == i as usize;
                    assert(all[k] == i as usize);
                }
                if all.contains(i as usize) {
                    let k = choose|k: int| 0 <= k < all.len() && all[k] == i as usize;
                    assert(k < rest.len());
                    assert(rest[k] == i as usize);
                }
            } else {
                if want.contains(d[i].handle) {
                    assert(all[all.len() - 1] == last);
                }
                if all.contains(i as usize) {
                    let k = choose|k: int| 0 <= k < all.len() && all[k] == i as usize;
                    if !want.contains(d[i].handle) {
                        assert(rest[k] < front.len());
                    }
                }
            }
        }
    }
}

proof fn picked_contains(d: Seq<DObjectView>, sel: Seq<usize>, h: u64)
    ensures
        picked_handles(d, sel).contains(h) <==> exists|k: int|
            0 <= k < sel.len() && (#[trigger] sel[k]) < d.len() && d[sel[k] as int].handle == h,
    decreases sel.len(),
{
    if sel.len() > 0 {
        let front = sel.drop_last();
        let rest = picked_handles(d, front);
        let all = picked_handles(d, sel);
        picked_contains(d, front, h);
        if all.contains(h) {
            let k = choose|k: int| 0 <= k < all.len() && all[k] == h;
            if k < rest.len() {
                assert(rest[k] == h);
                let j = choose|j: int|
                    0 <= j < front.len() && (#[trigger] front[j]) < d.len()
                        && d[front[j] as int].handle == h;
                assert(sel[j] == front[j]);
            } else {
                assert(sel[sel.len() - 1] < d.len());
            }
        }
        if exists|k: int|
            0 <= k < sel.len() && (#[trigger] sel[k]) < d.len() && d[sel[k] as int].handle == h {
            let k = choose|k: int|
                0 <= k < sel.len() && (#[trigger] sel[k]) < d.len() && d[sel[k] as int].handle
                    == h;
            if k < front.len() {
                assert(front[k] == sel[k]);
                let j = choose|j: int| 0 <= j < rest.len() && rest[j] == h;
                assert(all[j] == h);
            } else {
                assert(all[all.len() - 1] == h);
            }
        }
    }
}

/// Groups are selected as a unit: after the selection has grown, an object `i` that shares a group
/// with a selected object `k` is selected too.
pub proof fn expanded_selection_holds_whole_groups(s: AppView, g: int, k: usize, i: int)
    requires
        groups_disjoint(s.groups),
        s.doc.handles_apart(),
        s.doc.dobjects.len() <= usize::MAX,
        0 <= g < s.groups.len(),
        s.group_expanded().selection.contains(k),
        k < s.doc.dobjects.len(),
        0 <= i < s.doc.dobjects.len(),
        s.groups[g].contains(s.doc.dobjects[k as int].handle),
        s.groups[g].contains(s.doc.dobjects[i].handle),
    ensures
        s.group_expanded().selection.contains(i as usize),
{
    let d = s.doc.dobjects;
    let hk = d[k as int].handle;
    let hi = d[i].handle;
    let picked = picked_handles(d, s.selection);
    let sel = s.sel_handles();
    let touched = touched_groups(s.groups, sel);
    let more = joined(touched);
    let hit = |g: Seq<u64>| touches(g, sel);
    let at = filter_places(s.groups, hit);
    distinct_contains(picked);
    joined_contains(touched, hi);
    joined_contains(touched, hk);
    let expands = !(s.groups.len() == 0 || s.selection.len() == 0 || all_in(more, sel));
    // The group is one that the selection touched to begin with.
    assert(touches(s.groups[g], sel)) by {
        if expands {
            indices_among_contains(d, sel + more, k as int);
            assert((sel + more).contains(hk));
            let n = choose|n: int| 0 <= n < (sel + more).len() && (sel + more)[n] == hk;
            if n < sel.len() {
                assert(sel[n] == hk);
                assert(sel.contains(hk));
                let m = choose|m: int| 0 <= m < s.groups[g].len() && s.groups[g][m] == hk;
                assert(sel.contains(s.groups[g][m]));
            } else {
                assert(more[n - sel.len()] == hk);
                assert(more.contains(hk));
                let j = choose|j: int| 0 <= j < touched.len() && #[trigger] touched[j].contains(hk);
                assert(s.groups[at[j]].contains(hk) && s.groups[g].contains(hk));
                assert(at[j] == g);
            }
        } else {
            let n = choose|n: int| 0 <= n < s.selection.len() && s.selection[n] == k;
            picked_contains(d, s.selection, hk);
            assert(s.selection[n] < d.len());
            assert(picked.contains(hk));
            assert(sel.contains(hk));
            let m = choose|m: int| 0 <= m < s.groups[g].len() && s.groups[g][m] == hk;
            assert(sel.contains(s.groups[g][m]));
        }
    }
    assert(hit(s.groups[g]));
    let j = choose|j: int| 0 <= j < at.len() && #[trigger] at[j] == g;
    assert(touched[j].contains(hi));
    assert(more.contains(hi));
    let m = choose|m: int| 0 <= m < more.len() && more[m] == hi;
    if expands {
        assert((sel + more)[sel.len() + m] == hi);
        assert((sel + more).contains(hi));
        indices_among_contains(d, sel + more, i);
    } else {
        assert(sel.contains(more[m]));
        assert(picked.contains(hi));
        picked_contains(d, s.selection, hi);
        let n = choose|n: int|
            0 <= n < s.selection.len() && (#[trigger] s.selection[n]) < d.len()
                && d[s.selection[n] as int].handle == hi;
        assert(d[s.selection[n] as int].handle == d[i].handle);
        assert(s.selection[n] == i as usize);
    }
}

proof fn joined_is_grouped(s: AppView, h: u64)
    ensures
        joined(touched_groups(s.groups, s.sel_handles())).contains(h) <==> s.grouped_with_selection(
            h,
        ),
{
    let sel = s.sel_handles();
    let hit = |g: Seq<u64>| touches(g, sel);
    let touched = touched_groups(s.groups, sel);
    let at = filter_places(s.groups, hit);
    joined_contains(touched, h);
    if joined(touched).contains(h) {
        let j = choose|j: int| 0 <= j < touched.len() && #[trigger] touched[j].contains(h);
        assert(s.groups[at[j]].contains(h) && hit(touched[j]));
    }
    if s.grouped_with_selection(h) {
        let g = choose|g: int|
            0 <= g < s.groups.len() && (#[trigger] s.groups[g]).contains(h) && touches(
                s.groups[g],
                sel,
            );
        assert(hit(s.groups[g]));
        let j = choose|j: int| 0 <= j < at.len() && #[trigger] at[j] == g;
        assert(touched[j].contains(h));
    }
}

proof fn selected_by_handle(s: AppView, i: int)
    requires
        s.doc.handles_apart(),
        0 <= i < s.doc.dobjects.len() <= usize::MAX,
    ensures
        s.sel_handles().contains(s.doc.dobjects[i].handle) <==> s.selection.contains(i as usize),
{
    let d = s.doc.dobjects;
    let h = d[i].handle;
    distinct_contains(picked_handles(d, s.selection));
    picked_contains(d, s.selection, h);
    if s.selection.contains(i as usize) {
        let n = choose|n: int| 0 <= n < s.selection.len() && s.selection[n] == i as usize;
        assert(s.selection[n] < d.len() && d[s.selection[n] as int].handle == h);
    }
    if s.sel_handles().contains(h) {
        let n = choose|n: int|
            0 <= n < s.selection.len() && (#[trigger] s.selection[n]) < d.len()
                && d[s.selection[n] as int].handle == h;
        assert(d[s.selection[n] as int].handle == d[i].handle);
        assert(s.selection[n] == i as usize);
    }
}

proof fn joined_lists_contain(a: Seq<u64>, b: Seq<u64>, h: u64)
    ensures
        (a + b).contains(h) <==> a.contains(h) || b.contains(h),
{
    if a.contains(h) {
        let k = choose|k: int| 0 <= k < a.len() && a[k] == h;
        assert((a + b)[k] == h);
    }
    if b.contains(h) {
        let k = choose|k: int| 0 <= k < b.len() && b[k] == h;
        assert((a + b)[a.len() + k] == h);
    }
    if (a + b).contains(h) {
        let k = choose|k: int| 0 <= k < (a + b).len() && (a + b)[k] == h;
        if k < a.len() {
            assert(a[k] == h);
        } else {
            assert(b[k - a.len()] == h);
        }
    }
}

proof fn indices_among_ascend(d: Seq<DObjectView>, want: Seq<u64>)
    requires
        d.len() <= usize::MAX,
    ensures
        ascending(indices_among(d, want)),
        forall|k: int|
            0 <= k < indices_among(d, want).len() ==> (#[trigger] indices_among(d, want)[k])
                < d.len(),
    decreases d.len(),
{
    if d.len() > 0 {
        indices_among_ascend(d.drop_last(), want);
    }
}

proof fn indices_among_same(d: Seq<DObjectView>, a: Seq<u64>, b: Seq<u64>)
    requires
        forall|i: int|
            0 <= i < d.len() ==> (a.contains((#[trigger] d[i]).handle) <==> b.contains(
                d[i].handle,
            )),
    ensures
        indices_among(d, a) == indices_among(d, b),
    decreases d.len(),
{
    if d.len() > 0 {
        let front = d.drop_last();
        assert forall|i: int| 0 <= i < front.len() implies (a.contains((#[trigger] front[i]).handle)
            <==> b.contains(front[i].handle)) by {
            assert(front[i] == d[i]);
        }
        indices_among_same(front, a, b);
        assert(d[d.len() - 1] == d.last());
    }
}

/// The selection grows to whole groups and by nothing else: an object is selected afterwards where
/// it was before, or where it shares a group with one that was. If the selection changed, it is in
/// ascending order, each object once.
pub proof fn expanded_selection_is_exact(s: AppView, i: int)
    requires
        s.doc.handles_apart(),
        0 <= i < s.doc.dobjects.len() <= usize::MAX,
    ensures
        ({
            let t = s.group_expanded();
            &&& t.selection.contains(i as usize) <==> s.selection.contains(i as usize)
                || s.grouped_with_selection(s.doc.dobjects[i].handle)
            &&& t.selection == s.selection || (ascending(t.selection) && forall|k: int|
                0 <= k < t.selection.len() ==> (#[trigger] t.selection[k]) < s.doc.dobjects.len())
            &&& t == (AppView { selection: t.selection, ..s })
        }),
{
    let d = s.doc.dobjects;
    let h = d[i].handle;
    let sel = s.sel_handles();
    let more = joined(touched_groups(s.groups, sel));
    joined_is_grouped(s, h);
    selected_by_handle(s, i);
    if s.groups.len() == 0 || s.selection.len() == 0 {
        assert(!s.grouped_with_selection(h));
    } else if all_in(more, sel) {
        if more.contains(h) {
            let k = choose|k: int| 0 <= k < more.len() && more[k] == h;
            assert(sel.contains(more[k]));
        }
    } else {
        joined_lists_contain(sel, more, h);
        indices_among_contains(d, sel + more, i);
        indices_among_ascend(d, sel + more);
    }
}

/// A selection that holds whole groups stays as it is: growing it a second time changes nothing.
pub proof fn expanding_again_changes_nothing(s: AppView)
    requires
        groups_disjoint(s.groups),
        s.doc.handles_apart(),
        s.doc.dobjects.len() <= usize::MAX,
    ensures
        s.group_expanded().group_expanded() == s.group_expanded(),
{
    let d = s.doc.dobjects;
    let sel = s.sel_handles();
    let more = joined(touched_groups(s.groups, sel));
    let t = s.group_expanded();
    let want = t.sel_handles() + joined(touched_groups(t.groups, t.sel_handles()));
    if t != s && t.group_expanded() != t {
        assert forall|i: int| 0 <= i < d.len() implies (want.contains((#[trigger] d[i]).handle)
            <==> (sel + more).contains(d[i].handle)) by {
            let h = d[i].handle;
            indices_among_contains(d, sel + more, i);
            joined_lists_contain(t.sel_handles(), joined(touched_groups(t.groups, t.sel_handles())), h);
            joined_is_grouped(t, h);
            selected_by_handle(t, i);
            if t.grouped_with_selection(h) {
                let g = choose|g: int|
                    0 <= g < t.groups.len() && (#[trigger] t.groups[g]).contains(h) && touches(
                        t.groups[g],
                        t.sel_handles(),
                    );
                let m = choose|m: int|
                    0 <= m < t.groups[g].len() && t.sel_handles().contains(
                        #[trigger] t.groups[g][m],
                    );
                let other = t.groups[g][m];
                distinct_contains(picked_handles(d, t.selection));
                picked_contains(d, t.selection, other);
                let n = choose|n: int|
                    0 <= n < t.selection.len() && (#[trigger] t.selection[n]) < d.len()
                        && d[t.selection[n] as int].handle == other;
                assert(t.groups[g].contains(other));
                expanded_selection_holds_whole_groups(s, g, t.selection[n], i);
            }
        }
        indices_among_same(d, want, sel + more);
    }
}

/// Whether an object with a handle is selected.
pub open spec fn handle_is_selected(s: AppView, h: u64) -> bool {
    exists|k: int|
        0 <= k < s.selection.len() && (#[trigger] s.selection[k]) < s.doc.dobjects.len()
            && s.doc.dobjects[s.selection[k] as int].handle == h
}

/// Whether a group has a selected member.
pub open spec fn group_is_selected(s: AppView, g: Seq<u64>) -> bool {
    exists|h: u64| #[trigger] g.contains(h) && handle_is_selected(s, h)
}

proof fn touched_is_selected(s: AppView, g: Seq<u64>)
    ensures
        touches(g, s.sel_handles()) <==> group_is_selected(s, g),
        touches(g, picked_handles(s.doc.dobjects, s.selection)) <==> group_is_selected(s, g),
{
    let p = picked_handles(s.doc.dobjects, s.selection);
    distinct_contains(p);
    if group_is_selected(s, g) {
        let h = choose|h: u64| #[trigger] g.contains(h) && handle_is_selected(s, h);
        picked_contains(s.doc.dobjects, s.selection, h);
        let i = choose|i: int| 0 <= i < g.len() && g[i] == h;
        assert(p.contains(g[i]));
        assert(s.sel_handles().contains(g[i]));
    }
    if touches(g, p) {
        let i = choose|i: int| 0 <= i < g.len() && p.contains(#[trigger] g[i]);
        picked_contains(s.doc.dobjects, s.selection, g[i]);
        assert(g.contains(g[i]));
    }
    if touches(g, s.sel_handles()) {
        let i = choose|i: int| 0 <= i < g.len() && s.sel_handles().contains(#[trigger] g[i]);
        assert(p.contains(g[i]));
        picked_contains(s.doc.dobjects, s.selection, g[i]);
        assert(g.contains(g[i]));
    }
}

proof fn kept_are_unselected(s: AppView, hs: Seq<u64>, g: Seq<u64>)
    requires
        hs == s.sel_handles() || hs == picked_handles(s.doc.dobjects, s.selection),
    ensures
        untouched_groups(s.groups, hs).contains(g) <==> s.groups.contains(g) && !group_is_selected(
            s,
            g,
        ),
{
    touched_is_selected(s, g);
    let p = |g: Seq<u64>| !touches(g, hs);
    let kept = untouched_groups(s.groups, hs);
    let at = filter_places(s.groups, p);
    if s.groups.contains(g) && !group_is_selected(s, g) {
        let k = choose|k: int| 0 <= k < s.groups.len() && s.groups[k] == g;
        assert(p(s.groups[k]));
        let i = choose|i: int| 0 <= i < at.len() && #[trigger] at[i] == k;
        assert(kept[i] == g);
    }
    if kept.contains(g) {
        let i = choose|i: int| 0 <= i < kept.len() && kept[i] == g;
        assert(s.groups[at[i]] == g);
        assert(p(kept[i]));
    }
}

proof fn picked_are_all(d: Seq<DObjectView>, sel: Seq<usize>)
    requires
        forall|k: int| 0 <= k < sel.len() ==> (#[trigger] sel[k]) < d.len(),
    ensures
        picked_handles(d, sel).len() == sel.len(),
        forall|k: int|
            0 <= k < sel.len() ==> picked_handles(d, sel)[k] == d[(#[trigger] sel[k]) as int].handle,
    decreases sel.len(),
{
    if sel.len() > 0 {
        let front = sel.drop_last();
        assert forall|k: int| 0 <= k < front.len() implies (#[trigger] front[k]) < d.len() by {
            assert(sel[k] < d.len());
        }
        picked_are_all(d, front);
        assert forall|k: int| 0 <= k < sel.len() implies picked_handles(d, sel)[k] == d[(
        #[trigger] sel[k]) as int].handle by {
            if k < front.len() {
                assert(front[k] == sel[k]);
            }
        }
    }
}

/// Grouping two or more objects makes one new group of exactly those. Groups that had one of them
/// are gone, the others are kept, and the drawing is not touched.
pub proof fn grouped_objects_are_one_group(s: AppView)
    requires
        s.selection.len() >= 2,
        forall|k: int|
            0 <= k < s.selection.len() ==> (#[trigger] s.selection[k]) < s.doc.dobjects.len(),
    ensures
        s.grouped().groups.len() > 0,
        s.grouped().groups.last().len() == s.selection.len(),
        forall|h: u64| #[trigger]
            s.grouped().groups.last().contains(h) <==> handle_is_selected(s, h),
        forall|g: Seq<u64>| #[trigger]
            s.grouped().groups.drop_last().contains(g) <==> s.groups.contains(g)
                && !group_is_selected(s, g),
        s.grouped().doc == s.doc,
        s.grouped().selection == s.selection,
        s.grouped().undo == s.undo,
{
    reveal(AppView::said);
    let members = picked_handles(s.doc.dobjects, s.selection);
    picked_are_all(s.doc.dobjects, s.selection);
    assert(s.grouped().groups.drop_last() =~= untouched_groups(s.groups, members));
    assert forall|h: u64| #[trigger]
        s.grouped().groups.last().contains(h) <==> handle_is_selected(s, h) by {
        picked_contains(s.doc.dobjects, s.selection, h);
    }
    assert forall|g: Seq<u64>| #[trigger]
        s.grouped().groups.drop_last().contains(g) <==> s.groups.contains(g)
            && !group_is_selected(s, g) by {
        kept_are_unselected(s, members, g);
    }
}

proof fn distinct_repeats_nothing(s: Seq<u64>)
    ensures
        distinct(s).no_duplicates(),
    decreases s.len(),
{
    if s.len() > 0 {
        distinct_repeats_nothing(s.drop_last());
    }
}

proof fn touched_members(s: AppView, h: u64)
    ensures
        joined(touched_groups(s.groups, s.sel_handles())).contains(h) <==> exists|g: Seq<u64>|
            s.groups.contains(g) && #[trigger] g.contains(h) && group_is_selected(s, g),
{
    let p = |g: Seq<u64>| touches(g, s.sel_handles());
    let touched = touched_groups(s.groups, s.sel_handles());
    let at = filter_places(s.groups, p);
    joined_contains(touched, h);
    if exists|g: Seq<u64>| s.groups.contains(g) && #[trigger] g.contains(h) && group_is_selected(s, g) {
        let g = choose|g: Seq<u64>|
            s.groups.contains(g) && #[trigger] g.contains(h) && group_is_selected(s, g);
        touched_is_selected(s, g);
        let k = choose|k: int| 0 <= k < s.groups.len() && s.groups[k] == g;
        assert(p(s.groups[k]));
        let i = choose|i: int| 0 <= i < at.len() && #[trigger] at[i] == k;
        assert(touched[i].contains(h));
    }
    if joined(touched).contains(h) {
        let i = choose|i: int| 0 <= i < touched.len() && #[trigger] touched[i].contains(h);
        assert(p(touched[i]));
        touched_is_selected(s, touched[i]);
        assert(s.groups[at[i]] == touched[i]);
        assert(s.groups.contains(touched[i]));
    }
}

/// Adding to a group joins the groups that have a selected member with the selection, each object
/// once, and keeps the other groups. Where no group has one, nothing changes.
pub proof fn joined_group_has_all(s: AppView)
    ensures
        s.added_to_group().doc == s.doc,
        s.added_to_group().selection == s.selection,
        s.added_to_group().undo == s.undo,
        (forall|i: int| 0 <= i < s.groups.len() ==> !group_is_selected(s, #[trigger] s.groups[i]))
            ==> s.added_to_group().groups == s.groups,
        (exists|i: int| 0 <= i < s.groups.len() && group_is_selected(s, #[trigger] s.groups[i]))
            ==> {
            let t = s.added_to_group().groups;
            &&& t.len() > 0
            &&& t.last().no_duplicates()
            &&& forall|h: u64| #[trigger]
                t.last().contains(h) <==> handle_is_selected(s, h) || exists|g: Seq<u64>|
                    s.groups.contains(g) && #[trigger] g.contains(h) && group_is_selected(s, g)
            &&& forall|g: Seq<u64>| #[trigger]
                t.drop_last().contains(g) <==> s.groups.contains(g) && !group_is_selected(s, g)
        },
{
    reveal(AppView::said);
    let sel = s.sel_handles();
    let touched = touched_groups(s.groups, sel);
    let p = |g: Seq<u64>| touches(g, sel);
    let at = filter_places(s.groups, p);
    let picked = picked_handles(s.doc.dobjects, s.selection);
    distinct_contains(picked);
    if forall|i: int| 0 <= i < s.groups.len() ==> !group_is_selected(s, #[trigger] s.groups[i]) {
        if touched.len() > 0 {
            assert(p(touched[0]));
            touched_is_selected(s, touched[0]);
            assert(s.groups[at[0]] == touched[0]);
        }
    } else {
        let i = choose|i: int|
            0 <= i < s.groups.len() && group_is_selected(s, #[trigger] s.groups[i]);
        touched_is_selected(s, s.groups[i]);
        assert(p(s.groups[i]));
        let j = choose|j: int| 0 <= j < at.len() && #[trigger] at[j] == i;
        let h = choose|h: u64| #[trigger] s.groups[i].contains(h) && handle_is_selected(s, h);
        picked_contains(s.doc.dobjects, s.selection, h);
        assert(sel.contains(h));
        let t = s.added_to_group().groups;
        let all = joined(touched) + sel;
        distinct_repeats_nothing(all);
        distinct_contains(all);
        assert(t.drop_last() =~= untouched_groups(s.groups, sel));
        assert forall|h: u64| #[trigger]
            t.last().contains(h) <==> handle_is_selected(s, h) || exists|g: Seq<u64>|
                s.groups.contains(g) && #[trigger] g.contains(h) && group_is_selected(s, g) by {
            picked_contains(s.doc.dobjects, s.selection, h);
            touched_members(s, h);
            joined_lists_contain(joined(touched), sel, h);
        }
        assert forall|g: Seq<u64>| #[trigger]
            t.drop_last().contains(g) <==> s.groups.contains(g) && !group_is_selected(s, g) by {
            kept_are_unselected(s, sel, g);
        }
    }
}

/// Ungrouping leaves exactly the groups without a selected member, and the drawing as it is.
pub proof fn ungrouped_objects_are_free(s: AppView)
    ensures
        forall|g: Seq<u64>| #[trigger]
            s.ungrouped().groups.contains(g) <==> s.groups.contains(g) && !group_is_selected(s, g),
        s.ungrouped().doc == s.doc,
        s.ungrouped().selection == s.selection,
        s.ungrouped().undo == s.undo,
{
    reveal(AppView::said);
    let sel = s.sel_handles();
    let kept = untouched_groups(s.groups, sel);
    let p = |g: Seq<u64>| !touches(g, sel);
    assert forall|g: Seq<u64>| #[trigger]
        s.ungrouped().groups.contains(g) <==> s.groups.contains(g) && !group_is_selected(s, g) by {
        kept_are_unselected(s, sel, g);
        if s.groups.contains(g) && group_is_selected(s, g) {
            touched_is_selected(s, g);
            let h = choose|h: u64| #[trigger] g.contains(h) && handle_is_selected(s, h);
            picked_contains(s.doc.dobjects, s.selection, h);
            distinct_contains(picked_handles(s.doc.dobjects, s.selection));
            assert(sel.contains(h));
            let k = choose|k: int| 0 <= k < s.groups.len() && s.groups[k] == g;
            fewer_are_kept(s.groups, p, k);
        }
        if sel.len() == 0 || s.groups.len() == kept.len() {
            if s.groups.contains(g) && !kept.contains(g) {
                let k = choose|k: int| 0 <= k < s.groups.len() && s.groups[k] == g;
                touched_is_selected(s, g);
                if !p(g) {
                    fewer_are_kept(s.groups, p, k);
                }
            }
        }
    }
}

proof fn fewer_are_kept<A>(s: Seq<A>, p: spec_fn(A) -> bool, k: int)
    requires
        0 <= k < s.len(),
        !p(s[k]),
    ensures
        s.filter(p).len() < s.len(),
    decreases s.len(),
{
    reveal(Seq::filter);
    let front = s.drop_last();
    if k < front.len() {
        assert(front[k] == s[k]);
        fewer_are_kept(front, p, k);
    } else {
        front.lemma_filter_len(p);
    }
}

} // verus!
