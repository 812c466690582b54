//! Copy and paste of objects, also between drawings in different units.
use vstd::prelude::*;

use crate::app::{AppView, CadApp, CanvasView};
use crate::commands::CmdView;
use crate::copying::{duplicate_all, group_views, views, Duplicate};
use crate::doc::{DObject, DObjectView, DocView, Geom, GeomKind, GeomView, Pt, Traits, TraitsView};
use crate::grid::{clamp64, clamp_i64, nearest, nearest_ratio};
use crate::text::{cat3, dec, dec_text};

verus! {

/// Whether a paste waits for its destination, and if so the point that will land on it.
#[derive(Clone, Copy, Debug, PartialEq, Eq, Structural)]
pub enum PasteState {
    Off,
    WaitingForDest(Pt),
}

/// The objects that were copied, and what one unit of their drawing measures.
pub struct Clipboard {
    pub dobjects: Vec<DObject>,
    pub unit_nm: u64,
    pub paste_state: PasteState,
}

/// The model of a [`Clipboard`].
pub struct ClipView {
    pub dobjects: Seq<DObjectView>,
    pub unit_nm: u64,
    pub paste_state: PasteState,
}

impl View for Clipboard {
    type V = ClipView;

    open spec fn view(&self) -> ClipView {
        ClipView {
            dobjects: views(self.dobjects@),
            unit_nm: self.unit_nm,
            paste_state: self.paste_state,
        }
    }
}

/// A point in other units, where one old unit is `from` and one new unit is `to` nanometres: the
/// nearest one that can be held.
pub open spec fn pt_scaled(p: Pt, from: int, to: int) -> Pt {
    Pt { x: clamp64(nearest(p.x * from, to)), y: clamp64(nearest(p.y * from, to)) }
}

/// Whether two units agree: their ratio differs from one by less than one part in a million million.
pub open spec fn units_agree(from: int, to: int) -> bool {
    (if from < to {
        to - from
    } else {
        from - to
    }) * 1_000_000_000_000 < to
}

fn agree(from: u64, to: u64) -> (r: bool)
    ensures
        r == units_agree(from as int, to as int),
{
    let gap: u64 = if from < to {
        to - from
    } else {
        from - to
    };
    (gap as u128) * 1_000_000_000_000 < to as u128
}

/// What an object has besides its place, in other units. The size of a point is a matter of how it
/// is drawn and stays.
pub open spec fn traits_scaled(g: GeomView, from: int, to: int) -> TraitsView {
    if g.kind == GeomKind::Point {
        g.traits
    } else {
        TraitsView { size: clamp64(nearest(g.traits.size * from, to)), ..g.traits }
    }
}

/// A shape in other units, about the origin.
pub open spec fn geom_scaled(g: GeomView, from: int, to: int) -> GeomView {
    GeomView {
        pts: g.pts.map_values(|p: Pt| pt_scaled(p, from, to)),
        lo: pt_scaled(g.lo, from, to),
        hi: pt_scaled(g.hi, from, to),
        traits: traits_scaled(g, from, to),
        ..g
    }
}

/// A point moved by the way from `base` to `dest`.
pub open spec fn pt_moved(p: Pt, base: Pt, dest: Pt) -> Pt {
    Pt { x: clamp64(p.x + dest.x - base.x), y: clamp64(p.y + dest.y - base.y) }
}

/// A shape moved by the way from `base` to `dest`.
pub open spec fn geom_moved(g: GeomView, base: Pt, dest: Pt) -> GeomView {
    GeomView {
        pts: g.pts.map_values(|p: Pt| pt_moved(p, base, dest)),
        lo: pt_moved(g.lo, base, dest),
        hi: pt_moved(g.hi, base, dest),
        ..g
    }
}

/// The objects at the places that a selection names, in its order.
pub open spec fn picked_objects(d: Seq<DObjectView>, sel: Seq<usize>) -> Seq<DObjectView>
    decreases sel.len(),
{
    if sel.len() == 0 {
        Seq::empty()
    } else {
        let rest = picked_objects(d, sel.drop_last());
        if sel.last() < d.len() {
            rest.push(d[sel.last() as int])
        } else {
            rest
        }
    }
}

/// The lower left corner of the bounding boxes of some objects.
pub open spec fn lower_left(d: Seq<DObjectView>) -> Pt
    decreases d.len(),
{
    if d.len() <= 1 {
        d[0].geom.lo
    } else {
        let rest = lower_left(d.drop_last());
        let a = d.last().geom.lo;
        Pt {
            x: if a.x < rest.x {
                a.x
            } else {
                rest.x
            },
            y: if a.y < rest.y {
                a.y
            } else {
                rest.y
            },
        }
    }
}

/// A document with some objects added, moved by the way from `base` to `dest`, each under a fresh
/// handle.
pub open spec fn doc_pasted(doc: DocView, clip: Seq<DObjectView>, base: Pt, dest: Pt) -> DocView
    decreases clip.len(),
{
    if clip.len() == 0 {
        doc
    } else {
        doc_pasted(doc, clip.drop_last(), base, dest).pushed(
            geom_moved(clip.last().geom, base, dest),
            clip.last().style,
        )
    }
}

/// The numbers from `lo` up to, and without, `hi`.
pub open spec fn run_of(lo: int, hi: int) -> Seq<usize> {
    Seq::new((hi - lo) as nat, |i: int| (lo + i) as usize)
}

impl AppView {
    /// Whether the clipboard is measured in the active document's unit, or in none that can be
    /// converted.
    pub open spec fn clip_fits(self) -> bool {
        let from = self.clip.unit_nm;
        let to = self.doc.units.nm_per_unit;
        from == 0 || to == 0 || units_agree(from as int, to as int)
    }

    /// The clipboard in the active document's units.
    pub open spec fn clip_here(self) -> Seq<DObjectView> {
        if self.clip_fits() {
            self.clip.dobjects
        } else {
            self.clip.dobjects.map_values(
                |d: DObjectView|
                    DObjectView {
                        handle: 0,
                        geom: geom_scaled(
                            d.geom,
                            self.clip.unit_nm as int,
                            self.doc.units.nm_per_unit as int,
                        ),
                        style: d.style,
                    },
            )
        }
    }

    /// After the selection has been copied.
    pub open spec fn copied(self) -> AppView {
        if self.selection.len() == 0 {
            self.said("  copy: nothing selected"@)
        } else {
            let picked = picked_objects(self.doc.dobjects, self.selection);
            AppView {
                clip: ClipView {
                    dobjects: picked,
                    unit_nm: self.doc.units.nm_per_unit,
                    ..self.clip
                },
                ..self
            }.said("  ⎘ copied "@ + dec(picked.len()) + " dobject(s)"@)
        }
    }

    /// After a paste has been started.
    pub open spec fn paste_started(self) -> AppView {
        if self.clip.dobjects.len() == 0 {
            self.said("  paste: clipboard is empty"@)
        } else {
            AppView {
                clip: ClipView {
                    paste_state: PasteState::WaitingForDest(lower_left(self.clip_here())),
                    ..self.clip
                },
                cmds: CmdView {
                    current_prompt: "paste: click DESTINATION for "@ + dec(
                        self.clip.dobjects.len(),
                    ) + " dobject(s)   [Esc=cancel]"@,
                    refocus_cmd: true,
                    ..self.cmds
                },
                ..self
            }
        }
    }

    /// After a paste has been placed: one undo step, the new objects selected.
    pub open spec fn pasted(self, base: Pt, dest: Pt) -> AppView {
        let s = self.doc_recorded();
        let doc = doc_pasted(self.doc, self.clip_here(), base, dest);
        AppView {
            doc: doc,
            selection: run_of(self.doc.dobjects.len() as int, doc.dobjects.len() as int),
            selected: None,
            clip: ClipView { paste_state: PasteState::Off, ..s.clip },
            cmds: CmdView { current_prompt: Seq::empty(), ..s.cmds },
            canvas: CanvasView { index_dirty: true, view_dirty: true, ..s.canvas },
            ..s
        }.said("  ⎗ pasted "@ + dec(self.clip_here().len()) + " dobject(s) (selected)"@)
    }
}

fn scale_pt(p: Pt, from: u64, to: u64) -> (r: Pt)
    requires
        to > 0,
    ensures
        r == pt_scaled(p, from as int, to as int),
{
    Pt { x: clamp_i64(nearest_ratio(p.x, from, to)), y: clamp_i64(nearest_ratio(p.y, from, to)) }
}

fn scale_traits(g: &Geom, from: u64, to: u64) -> (r: Traits)
    requires
        to > 0,
    ensures
        r@ == traits_scaled(g@, from as int, to as int),
{
    let mut t = g.traits.duplicate();
    if g.kind != GeomKind::Point {
        t.size = clamp_i64(nearest_ratio(t.size, from, to));
    }
    t
}

fn scale_geom(g: &Geom, from: u64, to: u64) -> (r: Geom)
    requires
        to > 0,
    ensures
        r@ == geom_scaled(g@, from as int, to as int),
{
    let mut pts: Vec<Pt> = Vec::new();
    let mut i: usize = 0;
    while i < g.pts.len()
        invariant
            i <= g.pts.len(),
            to > 0,
            pts@ == g@.pts.subrange(0, i as int).map_values(
                |p: Pt| pt_scaled(p, from as int, to as int),
            ),
        decreases g.pts.len() - i,
    {
        pts.push(scale_pt(g.pts[i], from, to));
        assert(pts@ =~= g@.pts.subrange(0, i + 1).map_values(
            |p: Pt| pt_scaled(p, from as int, to as int),
        ));
        i += 1;
    }
    assert(g@.pts.subrange(0, i as int) =~= g@.pts);
    Geom {
        kind: g.kind,
        pts: pts,
        lo: scale_pt(g.lo, from, to),
        hi: scale_pt(g.hi, from, to),
        turn: g.turn,
        traits: scale_traits(g, from, to),
    }
}

fn move_pt(p: Pt, base: Pt, dest: Pt) -> (r: Pt)
    ensures
        r == pt_moved(p, base, dest),
{
    Pt {
        x: clamp_i64(p.x as i128 + dest.x as i128 - base.x as i128),
        y: clamp_i64(p.y as i128 + dest.y as i128 - base.y as i128),
    }
}

pub(crate) fn move_geom(g: &Geom, base: Pt, dest: Pt) -> (r: Geom)
    ensures
        r@ == geom_moved(g@, base, dest),
{
    let mut pts: Vec<Pt> = Vec::new();
    let mut i: usize = 0;
    while i < g.pts.len()
        invariant
            i <= g.pts.len(),
            pts@ == g@.pts.subrange(0, i as int).map_values(|p: Pt| pt_moved(p, base, dest)),
        decreases g.pts.len() - i,
    {
        pts.push(move_pt(g.pts[i], base, dest));
        assert(pts@ =~= g@.pts.subrange(0, i + 1).map_values(|p: Pt| pt_moved(p, base, dest)));
        i += 1;
    }
    assert(g@.pts.subrange(0, i as int) =~= g@.pts);
    Geom {
        kind: g.kind,
        pts: pts,
        lo: move_pt(g.lo, base, dest),
        hi: move_pt(g.hi, base, dest),
        turn: g.turn,
        traits: g.traits.duplicate(),
    }
}

fn objects_of(d: &Vec<DObject>, sel: &Vec<usize>) -> (r: Vec<DObject>)
    ensures
        views(r@) == picked_objects(views(d@), sel@),
        r.len() <= sel.len(),
{
    broadcast use group_views;

    let mut r: Vec<DObject> = Vec::new();
    let mut i: usize = 0;
    while i < sel.len()
        invariant
            i <= sel.len(),
            r.len() <= i,
            views(r@) == picked_objects(views(d@), sel@.subrange(0, i as int)),
        decreases sel.len() - i,
    {
        assert(sel@.subrange(0, i + 1).drop_last() =~= sel@.subrange(0, i as int));
        let k: usize = sel[i];
        if k < d.len() {
            r.push(d[k].duplicate());
        }
        i += 1;
    }
    assert(sel@.subrange(0, i as int) =~= sel@);
    r
}

fn corner_of(d: &Vec<DObject>) -> (r: Pt)
    requires
        d.len() > 0,
    ensures
        r == lower_left(views(d@)),
{
    let ghost all = views(d@);
    let mut base: Pt = d[0].geom.lo;
    let mut i: usize = 1;
    assert(all.subrange(0, 1)[0] == all[0]);
    while i < d.len()
        invariant
            1 <= i <= d.len(),
            all == views(d@),
            base == lower_left(all.subrange(0, i as int)),
        decreases d.len() - i,
    {
        assert(all.subrange(0, i + 1).drop_last() =~= all.subrange(0, i as int));
        assert(all.subrange(0, i + 1).last() == d@[i as int]@);
        let a: Pt = d[i].geom.lo;
        if a.x < base.x {
            base.x = a.x;
        }
        if a.y < base.y {
            base.y = a.y;
        }
        i += 1;
    }
    assert(all.subrange(0, i as int) =~= all);
    base
}

impl CadApp {
    /// Copies the selected objects, and with them what one unit of their drawing measures.
    pub fn copy_selection(&mut self)
        ensures
            final(self)@ == old(self)@.copied(),
    {
        if self.selection.len() == 0 {
            self.say(String::from_str("  copy: nothing selected"));
            return;
        }
        let picked = objects_of(&self.doc.dobjects, &self.selection);
        let n: usize = picked.len();
        assert(n == views(picked@).len());
        self.clip.dobjects = picked;
        self.clip.unit_nm = self.doc.units.nm_per_unit;
        self.say(cat3("  ⎘ copied ", dec_text(n as u64).as_str(), " dobject(s)"));
    }

    /// The clipboard in the active document's units: as it is where the two agree, and scaled
    /// about the origin where they do not.
    pub fn clipboard_in_active_units(&self) -> (r: Vec<DObject>)
        ensures
            views(r@) == self@.clip_here(),
    {
        broadcast use group_views;

        let from: u64 = self.clip.unit_nm;
        let to: u64 = self.doc.units.nm_per_unit;
        if from == 0 || to == 0 || agree(from, to) {
            return duplicate_all(&self.clip.dobjects);
        }
        let ghost want = self@.clip_here();
        let mut r: Vec<DObject> = Vec::new();
        let mut i: usize = 0;
        while i < self.clip.dobjects.len()
            invariant
                i <= self.clip.dobjects.len(),
                to > 0,
                from == self.clip.unit_nm,
                to == self.doc.units.nm_per_unit,
                !self@.clip_fits(),
                want == self@.clip_here(),
                views(r@) == want.subrange(0, i as int),
            decreases self.clip.dobjects.len() - i,
        {
            let d: &DObject = &self.clip.dobjects[i];
            let scaled = DObject {
                handle: 0,
                geom: scale_geom(&d.geom, from, to),
                style: d.style,
            };
            assert(scaled@ == want[i as int]);
            r.push(scaled);
            assert(want.subrange(0, i + 1) =~= want.subrange(0, i as int).push(want[i as int]));
            i += 1;
        }
        assert(want.subrange(0, i as int) =~= want);
        r
    }

    /// Starts a paste. The point that will land on the destination is the lower left corner of
    /// what is pasted, as a place in this drawing.
    pub fn start_paste(&mut self)
        ensures
            final(self)@ == old(self)@.paste_started(),
    {
        if self.clip.dobjects.len() == 0 {
            self.say(String::from_str("  paste: clipboard is empty"));
            return;
        }
        let clip = self.clipboard_in_active_units();
        assert(views(clip@).len() == clip.len());
        let base = corner_of(&clip);
        self.clip.paste_state = PasteState::WaitingForDest(base);
        self.cmds.current_prompt = cat3(
            "paste: click DESTINATION for ",
            dec_text(self.clip.dobjects.len() as u64).as_str(),
            " dobject(s)   [Esc=cancel]",
        );
        self.cmds.refocus_cmd = true;
    }

    fn push_pasted(&mut self, clip: &Vec<DObject>, base: Pt, dest: Pt)
        requires
            old(self).doc.next_handle + clip.len() <= u64::MAX,
        ensures
            final(self)@ == (AppView {
                doc: doc_pasted(old(self)@.doc, views(clip@), base, dest),
                ..old(self)@
            }),
    {
        let ghost all = views(clip@);
        let mut i: usize = 0;
        assert(doc_pasted(self@.doc, all.subrange(0, 0), base, dest) == self@.doc);
        while i < clip.len()
            invariant
                i <= clip.len(),
                all == views(clip@),
                old(self).doc.next_handle + clip.len() <= u64::MAX,
                self.doc.next_handle == old(self).doc.next_handle + i,
                self@ == (AppView {
                    doc: doc_pasted(old(self)@.doc, all.subrange(0, i as int), base, dest),
                    ..old(self)@
                }),
            decreases clip.len() - i,
        {
            assert(all.subrange(0, i + 1).drop_last() =~= all.subrange(0, i as int));
            assert(all.subrange(0, i + 1).last() == clip@[i as int]@);
            let g = move_geom(&clip[i].geom, base, dest);
            self.doc.push(g, clip[i].style);
            i += 1;
        }
        assert(all.subrange(0, i as int) =~= all);
    }

    fn end_paste(&mut self, sel: Vec<usize>)
        ensures
            final(self)@ == (AppView {
                selection: sel@,
                selected: None,
                clip: ClipView { paste_state: PasteState::Off, ..old(self)@.clip },
                cmds: CmdView { current_prompt: Seq::empty(), ..old(self)@.cmds },
                canvas: CanvasView { index_dirty: true, view_dirty: true, ..old(self)@.canvas },
                ..old(self)@
            }),
    {
        self.selection = sel;
        self.selected = None;
        self.clip.paste_state = PasteState::Off;
        self.cmds.current_prompt = String::new();
        self.canvas.index_dirty = true;
        self.canvas.view_dirty = true;
    }

    fn object_count(&self) -> (n: usize)
        ensures
            n == self@.doc.dobjects.len(),
    {
        self.doc.dobjects.len()
    }

    /// Places a paste: adds the copies, moved by the way from `base` to `dest`, selects them and
    /// ends the paste.
    pub fn commit_paste(&mut self, base: Pt, dest: Pt)
        requires
            old(self)@.doc.next_handle + old(self)@.clip.dobjects.len() <= u64::MAX,
        ensures
            final(self)@ == old(self)@.pasted(base, dest),
    {
        let clip = self.clipboard_in_active_units();
        assert(views(clip@).len() == old(self)@.clip.dobjects.len());
        let start: usize = self.object_count();
        self.snapshot_doc();
        self.push_pasted(&clip, base, dest);
        let end: usize = self.object_count();
        proof {
            doc_pasted_appends(old(self)@.doc, views(clip@), base, dest);
        }
        let line = cat3(
            "  ⎗ pasted ",
            dec_text(clip.len() as u64).as_str(),
            " dobject(s) (selected)",
        );
        self.end_paste(run_between(start, end));
        self.say(line);
    }
}

fn run_between(start: usize, end: usize) -> (r: Vec<usize>)
    requires
        start <= end,
    ensures
        r@ == run_of(start as int, end as int),
{
    let mut r: Vec<usize> = Vec::new();
    let mut i: usize = start;
    while i < end
        invariant
            start <= i <= end,
            r@ == run_of(start as int, i as int),
        decreases end - i,
    {
        r.push(i);
        assert(r@ =~= run_of(start as int, i + 1));
        i += 1;
    }
    r
}

/// A paste leaves every object that was there as it was, and appends one object for each on the
/// clipboard: its shape moved, its style kept, its handle fresh.
pub proof fn doc_pasted_appends(doc: DocView, clip: Seq<DObjectView>, base: Pt, dest: Pt)
    ensures
        ({
            let p = doc_pasted(doc, clip, base, dest);
            let n = doc.dobjects.len();
            &&& p.dobjects.len() == n + clip.len()
            &&& p.dobjects.subrange(0, n as int) == doc.dobjects
            &&& forall|i: int|
                0 <= i < clip.len() ==> (#[trigger] p.dobjects[n + i]).geom == geom_moved(
                    clip[i].geom,
                    base,
                    dest,
                ) && p.dobjects[n + i].style == clip[i].style
            &&& p.layers == doc.layers && p.units == doc.units
        }),
    decreases clip.len(),
{
    let p = doc_pasted(doc, clip, base, dest);
    let n = doc.dobjects.len();
    if clip.len() > 0 {
        let front = clip.drop_last();
        doc_pasted_appends(doc, front, base, dest);
        let q = doc_pasted(doc, front, base, dest);
        assert(p.dobjects.subrange(0, n as int) =~= q.dobjects.subrange(0, n as int));
        assert forall|i: int| 0 <= i < clip.len() implies (#[trigger] p.dobjects[n + i]).geom
            == geom_moved(clip[i].geom, base, dest) && p.dobjects[n + i].style
            == clip[i].style by {
            if i < front.len() {
                assert(p.dobjects[n + i] == q.dobjects[n + i]);
                assert(front[i] == clip[i]);
            }
        }
    } else {
        assert(p.dobjects.subrange(0, n as int) =~= doc.dobjects);
    }
}

/// A paste keeps the handles of a document apart: the new objects share a handle with nothing.
pub proof fn paste_keeps_handles_apart(doc: DocView, clip: Seq<DObjectView>, base: Pt, dest: Pt)
    requires
        doc.wf(),
        doc.next_handle + clip.len() <= u64::MAX,
    ensures
        doc_pasted(doc, clip, base, dest).wf(),
        doc_pasted(doc, clip, base, dest).next_handle == doc.next_handle + clip.len(),
    decreases clip.len(),
{
    if clip.len() > 0 {
        paste_keeps_handles_apart(doc, clip.drop_last(), base, dest);
    }
}

/// Inside one document copy and paste change no number: what is pasted is what was copied, moved.
pub proof fn paste_in_one_document_is_exact(s: AppView)
    requires
        s.selection.len() > 0,
    ensures
        s.copied().clip_here() == picked_objects(s.doc.dobjects, s.selection),
{
    reveal(AppView::said);
}

proof fn lower_left_bounds(d: Seq<DObjectView>)
    requires
        d.len() > 0,
    ensures
        forall|i: int|
            0 <= i < d.len() ==> lower_left(d).x <= (#[trigger] d[i]).geom.lo.x && lower_left(d).y
                <= d[i].geom.lo.y,
        exists|i: int| 0 <= i < d.len() && (#[trigger] d[i]).geom.lo.x == lower_left(d).x,
        exists|i: int| 0 <= i < d.len() && (#[trigger] d[i]).geom.lo.y == lower_left(d).y,
    decreases d.len(),
{
    if d.len() == 1 {
        assert(d[0].geom.lo == lower_left(d));
    } else {
        let front = d.drop_last();
        lower_left_bounds(front);
        let r = lower_left(front);
        assert forall|i: int| 0 <= i < d.len() implies lower_left(d).x <= (
        #[trigger] d[i]).geom.lo.x && lower_left(d).y <= d[i].geom.lo.y by {
            if i < front.len() {
                assert(front[i] == d[i]);
            }
        }
        let last = d.len() - 1;
        let ix = choose|i: int| 0 <= i < front.len() && (#[trigger] front[i]).geom.lo.x == r.x;
        let iy = choose|i: int| 0 <= i < front.len() && (#[trigger] front[i]).geom.lo.y == r.y;
        assert(front[ix] == d[ix]);
        assert(front[iy] == d[iy]);
        if d[last].geom.lo.x < r.x {
            assert(d[last].geom.lo.x == lower_left(d).x);
        } else {
            assert(d[ix].geom.lo.x == lower_left(d).x);
        }
        if d[last].geom.lo.y < r.y {
            assert(d[last].geom.lo.y == lower_left(d).y);
        } else {
            assert(d[iy].geom.lo.y == lower_left(d).y);
        }
    }
}

/// A paste that is started waits with the lower left corner of the whole clipboard as it will lie in
/// this drawing: no object's box reaches below it or to the left of it, and it is the edge of some
/// box either way. The drawing stays as it is.
pub proof fn paste_starts_at_the_corner(s: AppView)
    requires
        s.clip.dobjects.len() > 0,
    ensures
        ({
            let r = s.paste_started();
            let d = s.clip_here();
            &&& r.clip.paste_state is WaitingForDest
            &&& forall|i: int|
                0 <= i < d.len() ==> (r.clip.paste_state->0).x <= (#[trigger] d[i]).geom.lo.x && (
                r.clip.paste_state->0).y <= d[i].geom.lo.y
            &&& exists|i: int|
                0 <= i < d.len() && (#[trigger] d[i]).geom.lo.x == (r.clip.paste_state->0).x
            &&& exists|i: int|
                0 <= i < d.len() && (#[trigger] d[i]).geom.lo.y == (r.clip.paste_state->0).y
            &&& r.doc == s.doc && r.undo == s.undo && r.clip.dobjects == s.clip.dobjects
            &&& r.clip.unit_nm == s.clip.unit_nm && r.cmds.refocus_cmd
        }),
{
    lower_left_bounds(s.clip_here());
}

proof fn picked_are_selected(d: Seq<DObjectView>, sel: Seq<usize>)
    requires
        forall|i: int| 0 <= i < sel.len() ==> (#[trigger] sel[i]) < d.len(),
    ensures
        picked_objects(d, sel).len() == sel.len(),
        forall|i: int|
            0 <= i < sel.len() ==> (#[trigger] picked_objects(d, sel)[i]) == d[sel[i] as int],
    decreases sel.len(),
{
    if sel.len() > 0 {
        let front = sel.drop_last();
        assert forall|i: int| 0 <= i < front.len() implies (#[trigger] front[i]) < d.len() by {
            assert(front[i] == sel[i]);
        }
        picked_are_selected(d, front);
        assert(sel[sel.len() - 1] < d.len());
        assert forall|i: int| 0 <= i < sel.len() implies (#[trigger] picked_objects(d, sel)[i])
            == d[sel[i] as int] by {
            if i < front.len() {
                assert(picked_objects(d, sel)[i] == picked_objects(d, front)[i]);
            }
        }
    }
}

/// Copying takes the selected objects, each as it is and in the order of the selection, with the
/// unit of their drawing. The drawing, the selection and the history stay as they are; with nothing
/// selected the clipboard does too.
pub proof fn copy_takes_the_selection(s: AppView, i: int)
    requires
        forall|k: int| 0 <= k < s.selection.len() ==> (#[trigger] s.selection[k])
            < s.doc.dobjects.len(),
        0 <= i < s.selection.len(),
    ensures
        s.copied().clip.dobjects.len() == s.selection.len(),
        s.copied().clip.dobjects[i] == s.doc.dobjects[s.selection[i] as int],
        s.copied().clip.unit_nm == s.doc.units.nm_per_unit,
        s.copied().clip.paste_state == s.clip.paste_state,
        s.copied().doc == s.doc && s.copied().selection == s.selection && s.copied().undo
            == s.undo,
{
    reveal(AppView::said);
    picked_are_selected(s.doc.dobjects, s.selection);
}

/// With nothing selected, a copy leaves the clipboard; with nothing on it, a paste starts nothing.
pub proof fn nothing_is_copied_from_nothing(s: AppView)
    ensures
        s.selection.len() == 0 ==> s.copied().clip == s.clip && s.copied().doc == s.doc,
        s.clip.dobjects.len() == 0 ==> s.paste_started().clip == s.clip && s.paste_started().doc
            == s.doc,
{
    reveal(AppView::said);
}

/// A point that is moved keeps its place beside `base`: what stood at `base` stands at `dest`, as
/// long as the place can be held.
pub proof fn moved_points_keep_their_distance(p: Pt, base: Pt, dest: Pt)
    requires
        i64::MIN <= p.x + dest.x - base.x <= i64::MAX,
        i64::MIN <= p.y + dest.y - base.y <= i64::MAX,
    ensures
        pt_moved(p, base, dest).x - dest.x == p.x - base.x,
        pt_moved(p, base, dest).y - dest.y == p.y - base.y,
        pt_moved(base, base, dest) == dest,
{
}

/// Whether a point keeps its distance from a corner when the corner is moved.
pub open spec fn moved_with(p: Pt, q: Pt, base: Pt, dest: Pt) -> bool {
    q.x - dest.x == p.x - base.x && q.y - dest.y == p.y - base.y
}

/// A paste adds one object for each on the clipboard, behind those that are there: of the same kind,
/// turn, traits and style, with every point, and its box, as far from `dest` as it was from `base`.
/// Those are selected, the paste is over, and undo takes all of them back in one step.
pub proof fn paste_places_the_clipboard(s: AppView, base: Pt, dest: Pt, i: int, k: int)
    requires
        0 <= i < s.clip_here().len(),
        forall|x: i64, y: i64| #[trigger] pt_in(s.clip_here()[i].geom, x, y) ==> i64::MIN <= x
            + dest.x - base.x <= i64::MAX && i64::MIN <= y + dest.y - base.y <= i64::MAX,
    ensures
        ({
            let r = s.pasted(base, dest);
            let n = s.doc.dobjects.len();
            let from = s.clip_here()[i];
            let to = r.doc.dobjects[n + i];
            &&& r.doc.dobjects.len() == n + s.clip_here().len()
            &&& r.doc.dobjects.subrange(0, n as int) == s.doc.dobjects
            &&& to.style == from.style && to.geom.kind == from.geom.kind && to.geom.turn
                == from.geom.turn && to.geom.traits == from.geom.traits
            &&& to.geom.pts.len() == from.geom.pts.len()
            &&& 0 <= k < from.geom.pts.len() ==> moved_with(
                from.geom.pts[k],
                to.geom.pts[k],
                base,
                dest,
            )
            &&& moved_with(from.geom.lo, to.geom.lo, base, dest)
            &&& moved_with(from.geom.hi, to.geom.hi, base, dest)
            &&& r.selection.len() == s.clip_here().len()
            &&& n + i <= usize::MAX ==> r.selection[i] == n + i
            &&& r.clip.paste_state is Off && r.clip.dobjects == s.clip.dobjects
            &&& r.doc.layers == s.doc.layers && r.doc.units == s.doc.units
            &&& r.canvas.index_dirty && r.canvas.view_dirty
            &&& s.undo.undo_min_steps >= 1 ==> r.undone().doc == s.doc
        }),
{
    reveal(AppView::said);
    doc_pasted_appends(s.doc, s.clip_here(), base, dest);
    let g = s.clip_here()[i].geom;
    if 0 <= k < g.pts.len() {
        assert(pt_in(g, g.pts[k].x, g.pts[k].y));
    }
    assert(pt_in(g, g.lo.x, g.lo.y));
    assert(pt_in(g, g.hi.x, g.hi.y));
    if s.undo.undo_min_steps >= 1 {
        crate::undo::pushed_step_stays(
            s.undo.undo_stack,
            crate::undo::StepView::Doc(s.doc),
            s.undo.undo_budget_bytes as nat,
            s.undo.undo_min_steps as nat,
        );
    }
}

/// Whether a shape has a point, or a corner of its box, at a place.
pub open spec fn pt_in(g: GeomView, x: i64, y: i64) -> bool {
    ||| g.lo.x == x && g.lo.y == y
    ||| g.hi.x == x && g.hi.y == y
    ||| exists|k: int| 0 <= k < g.pts.len() && (#[trigger] g.pts[k]).x == x && g.pts[k].y == y
}

/// In a drawing of another unit, what is pasted measures the same: no coordinate is off by more than
/// half of a millionth of the new unit, the kinds, turns and styles stay, and so does the size of a
/// point. Where the units agree nothing changes at all.
pub proof fn other_units_measure_the_same(s: AppView, i: int, k: int)
    requires
        0 <= i < s.clip.dobjects.len(),
        s.clip.unit_nm > 0,
        s.doc.units.nm_per_unit > 0,
    ensures
        ({
            let a = s.clip.dobjects[i];
            let b = s.clip_here()[i];
            let from = s.clip.unit_nm as int;
            let to = s.doc.units.nm_per_unit as int;
            &&& s.clip_here().len() == s.clip.dobjects.len()
            &&& from == to ==> b == a
            &&& b.style == a.style && b.geom.kind == a.geom.kind && b.geom.turn == a.geom.turn
            &&& b.geom.pts.len() == a.geom.pts.len()
            &&& a.geom.kind == GeomKind::Point ==> b.geom.traits == a.geom.traits
            &&& b.geom.traits.label == a.geom.traits.label && b.geom.traits.style
                == a.geom.traits.style && b.geom.traits.params == a.geom.traits.params
            &&& !units_agree(from, to) ==> {
                &&& 0 <= k < a.geom.pts.len() ==> measures_same(
                    a.geom.pts[k].x,
                    b.geom.pts[k].x,
                    from,
                    to,
                ) && measures_same(a.geom.pts[k].y, b.geom.pts[k].y, from, to)
                &&& measures_same(a.geom.lo.x, b.geom.lo.x, from, to)
                &&& measures_same(a.geom.lo.y, b.geom.lo.y, from, to)
                &&& measures_same(a.geom.hi.x, b.geom.hi.x, from, to)
                &&& measures_same(a.geom.hi.y, b.geom.hi.y, from, to)
                &&& a.geom.kind != GeomKind::Point ==> measures_same(
                    a.geom.traits.size,
                    b.geom.traits.size,
                    from,
                    to,
                )
            }
        }),
{
    let a = s.clip.dobjects[i];
    let from = s.clip.unit_nm as int;
    let to = s.doc.units.nm_per_unit as int;
    crate::grid::nearest_is_near(a.geom.pts[k].x * from, to);
    crate::grid::nearest_is_near(a.geom.pts[k].y * from, to);
    crate::grid::nearest_is_near(a.geom.lo.x * from, to);
    crate::grid::nearest_is_near(a.geom.lo.y * from, to);
    crate::grid::nearest_is_near(a.geom.hi.x * from, to);
    crate::grid::nearest_is_near(a.geom.hi.y * from, to);
    crate::grid::nearest_is_near(a.geom.traits.size * from, to);
}

/// Whether a coordinate in units of `to` nanometres is as long as one in units of `from`, to half of
/// its last place, or is the furthest that can be held.
pub open spec fn measures_same(a: i64, b: i64, from: int, to: int) -> bool {
    b == i64::MIN || b == i64::MAX || -to <= 2 * (a * from - b * to) <= to
}

/// Units agree when their ratio is within one part in a million million of one, and only then.
pub proof fn equal_units_agree(a: int, b: int)
    requires
        a > 0,
        b > 0,
    ensures
        units_agree(a, a),
        a >= 2 * b ==> !units_agree(a, b),
        b >= 2 * a ==> !units_agree(a, b),
        units_agree(a, b) <==> -b < (a - b) * 1_000_000_000_000 < b,
{
}

/// Pasting asks for a place, and goes on until there is one; with nothing on the clipboard it does not
/// begin. What was pasted is selected, and the prompt is gone.
pub proof fn paste_asks_for_a_place(s: AppView, base: Pt, dest: Pt)
    ensures
        ({
            let t = s.paste_started();
            &&& s.clip.dobjects.len() > 0 ==> t.clip.paste_state is WaitingForDest
                && t.cmds.refocus_cmd && t.clip.dobjects == s.clip.dobjects && t.clip.unit_nm
                == s.clip.unit_nm
            &&& s.clip.dobjects.len() == 0 ==> t.clip == s.clip && t.cmds == s.cmds
            &&& t.doc == s.doc && t.undo == s.undo && t.selection == s.selection && t.files == s.files
        }),
        s.pasted(base, dest).cmds.current_prompt.len() == 0,
        s.pasted(base, dest).selected is None,
        s.pasted(base, dest).files.unsaved,
        s.pasted(base, dest).light == s.light,
        s.pasted(base, dest).factory == s.factory,
{
    reveal(AppView::said);
}

} // verus!
