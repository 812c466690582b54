//! Undo and redo over the drawing, the fixtures and the 3D model.
//!
//! Every edit first puts what it is about to change on one stack, whichever view it is made in, so
//! that one command walks back through all of them in the order they happened. The stack is kept
//! inside a number of steps and inside a memory budget.
use vstd::prelude::*;

use crate::app::{AppView, CadApp, CanvasView, Gestures, GesturesView};
use crate::copying::{duplicate_all, group_views, views, Duplicate};
use crate::doc::{Camera, DocView, Document};
use crate::factory::{
    FactoryData, FactoryDataView, FactoryView, SketchView, Texture, TextureView, Xform,
};
use crate::light::{LightView, Luminaire, LuminaireView};
use crate::recorder::{DbgEvent, EventView, RecorderView};
use crate::text::{cat5, dec, dec_text};

verus! {

/// How many steps either stack holds at most.
pub const UNDO_STACK_CAP: usize = 64;

/// The 3D model as a step keeps it, with the placement of each material.
pub struct FactorySnap {
    pub data: FactoryData,
    pub texture_xforms: Vec<Xform>,
}

/// The model of a [`FactorySnap`].
#[verifier::ext_equal]
pub struct FactorySnapView {
    pub data: FactoryDataView,
    pub texture_xforms: Seq<Xform>,
}

impl View for FactorySnap {
    type V = FactorySnapView;

    open spec fn view(&self) -> FactorySnapView {
        FactorySnapView { data: self.data@, texture_xforms: self.texture_xforms@ }
    }
}

/// One step of the history: what to put back.
pub enum UndoStep {
    Doc(Document),
    Light(Vec<Luminaire>),
    Both(Document, Vec<Luminaire>),
    Factory(FactorySnap),
}

/// The model of an [`UndoStep`].
#[verifier::ext_equal]
pub enum StepView {
    Doc(DocView),
    Light(Seq<LuminaireView>),
    Both(DocView, Seq<LuminaireView>),
    Factory(FactorySnapView),
}

impl View for UndoStep {
    type V = StepView;

    open spec fn view(&self) -> StepView {
        match self {
            UndoStep::Doc(d) => StepView::Doc(d@),
            UndoStep::Light(l) => StepView::Light(views(l@)),
            UndoStep::Both(d, l) => StepView::Both(d@, views(l@)),
            UndoStep::Factory(s) => StepView::Factory(s@),
        }
    }
}

/// The two stacks, newest step last, and their limits: a memory budget, and how many steps are
/// kept however large they are.
pub struct UndoState {
    pub undo_stack: Vec<UndoStep>,
    pub redo_stack: Vec<UndoStep>,
    pub undo_budget_bytes: u64,
    pub undo_min_steps: usize,
}

/// The model of an [`UndoState`].
pub struct UndoView {
    pub undo_stack: Seq<StepView>,
    pub redo_stack: Seq<StepView>,
    pub undo_budget_bytes: u64,
    pub undo_min_steps: usize,
}

impl View for UndoState {
    type V = UndoView;

    open spec fn view(&self) -> UndoView {
        UndoView {
            undo_stack: views(self.undo_stack@),
            redo_stack: views(self.redo_stack@),
            undo_budget_bytes: self.undo_budget_bytes,
            undo_min_steps: self.undo_min_steps,
        }
    }
}

/// What a document takes in memory, roughly: two hundred bytes an object, sixty-four for each
/// layer and line type.
pub open spec fn doc_bytes(d: DocView) -> nat {
    d.dobjects.len() * 200 + d.layers.len() * 64 + d.linetypes.len() * 64
}

/// What a step takes in memory, roughly.
pub open spec fn step_bytes(s: StepView) -> nat {
    match s {
        StepView::Doc(d) => doc_bytes(d),
        StepView::Light(l) => l.len() * 200,
        StepView::Both(d, l) => doc_bytes(d) + l.len() * 200,
        StepView::Factory(f) => (f.data.features.len() + f.data.walls.len()
            + f.data.furniture.len()) * 200 + sketches_bytes(f.data.sketches),
    }
}

/// What the drawings of sketches take in memory, roughly.
pub open spec fn sketches_bytes(s: Seq<SketchView>) -> nat
    decreases s.len(),
{
    if s.len() == 0 {
        0
    } else {
        sketches_bytes(s.drop_last()) + doc_bytes(s.last().doc)
    }
}

/// What a stack of steps takes in memory, roughly.
pub open spec fn stack_bytes(s: Seq<StepView>) -> nat
    decreases s.len(),
{
    if s.len() == 0 {
        0
    } else {
        step_bytes(s[0]) + stack_bytes(s.drop_first())
    }
}

/// Whether a stack is inside its limits: at most the cap, and inside the budget unless it is down
/// to the steps that are kept in any case.
pub open spec fn within_limits(s: Seq<StepView>, budget: nat, min: nat) -> bool {
    s.len() <= UNDO_STACK_CAP && (stack_bytes(s) <= budget || s.len() <= min)
}

/// A stack without the oldest steps that have to go for it to be inside its limits.
pub open spec fn trimmed_stack(s: Seq<StepView>, budget: nat, min: nat) -> Seq<StepView>
    decreases s.len(),
{
    if s.len() == 0 || within_limits(s, budget, min) {
        s
    } else {
        trimmed_stack(s.drop_first(), budget, min)
    }
}

impl UndoView {
    /// The undo stack with a new step on it, trimmed, and nothing left to redo.
    pub open spec fn recorded(self, step: StepView) -> UndoView {
        UndoView {
            undo_stack: trimmed_stack(
                self.undo_stack.push(step),
                self.undo_budget_bytes as nat,
                self.undo_min_steps as nat,
            ),
            redo_stack: Seq::empty(),
            ..self
        }
    }

    /// Both stacks inside the cap.
    pub open spec fn wf(self) -> bool {
        self.undo_stack.len() <= UNDO_STACK_CAP && self.redo_stack.len() <= UNDO_STACK_CAP
    }
}

/// Trimming keeps the newest steps, ends inside the limits, and takes no step that could stay.
pub proof fn trimmed_stack_is_newest(s: Seq<StepView>, budget: nat, min: nat)
    ensures
        ({
            let t = trimmed_stack(s, budget, min);
            &&& t.len() <= s.len()
            &&& t == s.subrange(s.len() - t.len(), s.len() as int)
            &&& t.len() == 0 || within_limits(t, budget, min)
            &&& forall|n: int|
                t.len() < n <= s.len() ==> !within_limits(
                    #[trigger] s.subrange(s.len() - n, s.len() as int),
                    budget,
                    min,
                )
        }),
    decreases s.len(),
{
    let t = trimmed_stack(s, budget, min);
    assert(s.subrange(0, s.len() as int) =~= s);
    if s.len() == 0 || within_limits(s, budget, min) {
        assert(s.subrange(s.len() - t.len(), s.len() as int) =~= s);
    } else {
        let rest = s.drop_first();
        trimmed_stack_is_newest(rest, budget, min);
        assert(rest.subrange(rest.len() - t.len(), rest.len() as int) =~= s.subrange(
            s.len() - t.len(),
            s.len() as int,
        ));
        assert forall|n: int| t.len() < n <= s.len() implies !within_limits(
            #[trigger] s.subrange(s.len() - n, s.len() as int),
            budget,
            min,
        ) by {
            if n < s.len() {
                assert(rest.subrange(rest.len() - n, rest.len() as int) =~= s.subrange(
                    s.len() - n,
                    s.len() as int,
                ));
            }
        }
    }
}

/// However small the budget, trimming keeps the newest steps up to the number that is kept in any
/// case.
pub proof fn trimming_keeps_min_steps(s: Seq<StepView>, budget: nat, min: nat)
    requires
        min <= UNDO_STACK_CAP,
    ensures
        s.len() >= min ==> trimmed_stack(s, budget, min).len() >= min,
        s.len() < min ==> trimmed_stack(s, budget, min) == s,
    decreases s.len(),
{
    if s.len() > 0 && !within_limits(s, budget, min) {
        trimming_keeps_min_steps(s.drop_first(), budget, min);
    }
}

fn doc_size(d: &Document) -> (r: u128)
    ensures
        r == doc_bytes(d@),
{
    d.dobjects.len() as u128 * 200 + d.layers.len() as u128 * 64 + d.linetypes.len() as u128 * 64
}

/// Subtracts what a document takes from what is left of a budget, where it fits.
fn doc_within(d: &Document, left: u64) -> (r: Option<u64>)
    ensures
        match r {
            Some(rest) => doc_bytes(d@) <= left && rest == left - doc_bytes(d@),
            None => doc_bytes(d@) > left,
        },
{
    let bytes: u128 = doc_size(d);
    if bytes <= left as u128 {
        Some(left - bytes as u64)
    } else {
        None
    }
}

/// Subtracts a number of records of two hundred bytes each from what is left of a budget.
fn records_within(n: u128, left: u64) -> (r: Option<u64>)
    requires
        n <= 3 * u64::MAX,
    ensures
        match r {
            Some(rest) => n * 200 <= left && rest == left - n * 200,
            None => n * 200 > left,
        },
{
    let bytes: u128 = n * 200;
    if bytes <= left as u128 {
        Some(left - bytes as u64)
    } else {
        None
    }
}

proof fn sketches_bytes_grow(s: Seq<SketchView>, n: int)
    requires
        0 <= n <= s.len(),
    ensures
        sketches_bytes(s.subrange(0, n)) <= sketches_bytes(s),
    decreases s.len() - n,
{
    if n < s.len() {
        sketches_bytes_grow(s, n + 1);
        assert(s.subrange(0, n + 1).drop_last() =~= s.subrange(0, n));
    } else {
        assert(s.subrange(0, n) =~= s);
    }
}

fn sketches_within(s: &Vec<crate::factory::Sketch>, left: u64) -> (r: Option<u64>)
    ensures
        match r {
            Some(rest) => sketches_bytes(views(s@)) <= left && rest == left - sketches_bytes(
                views(s@),
            ),
            None => sketches_bytes(views(s@)) > left,
        },
{
    let ghost all = views(s@);
    let mut rest: u64 = left;
    let mut i: usize = 0;
    assert(all.subrange(0, 0) =~= Seq::<SketchView>::empty());
    while i < s.len()
        invariant
            i <= s.len(),
            all == views(s@),
            sketches_bytes(all.subrange(0, i as int)) <= left,
            rest == left - sketches_bytes(all.subrange(0, i as int)),
        decreases s.len() - i,
    {
        proof {
            assert(all.subrange(0, i + 1).drop_last() =~= all.subrange(0, i as int));
            sketches_bytes_grow(all, i + 1);
        }
        match doc_within(&s[i].doc, rest) {
            Some(r) => {
                rest = r;
            },
            None => {
                return None;
            },
        }
        i += 1;
    }
    assert(all.subrange(0, i as int) =~= all);
    Some(rest)
}

/// Subtracts what a step takes from what is left of a budget, where it fits.
fn step_within(s: &UndoStep, left: u64) -> (r: Option<u64>)
    ensures
        match r {
            Some(rest) => step_bytes(s@) <= left && rest == left - step_bytes(s@),
            None => step_bytes(s@) > left,
        },
{
    match s {
        UndoStep::Doc(d) => doc_within(d, left),
        UndoStep::Light(l) => records_within(l.len() as u128, left),
        UndoStep::Both(d, l) => match doc_within(d, left) {
            Some(rest) => records_within(l.len() as u128, rest),
            None => None,
        },
        UndoStep::Factory(f) => {
            let n: u128 = f.data.features.len() as u128 + f.data.walls.len() as u128
                + f.data.furniture.len() as u128;
            match records_within(n, left) {
                Some(rest) => sketches_within(&f.data.sketches, rest),
                None => None,
            }
        },
    }
}

/// Whether a stack fits into a budget.
fn stack_fits(s: &Vec<UndoStep>, budget: u64) -> (r: bool)
    ensures
        r == (stack_bytes(views(s@)) <= budget),
{
    let ghost all = views(s@);
    let mut rest: u64 = budget;
    let mut i: usize = 0;
    assert(all.subrange(0, all.len() as int) =~= all);
    while i < s.len()
        invariant
            i <= s.len(),
            all == views(s@),
            rest <= budget,
            stack_bytes(all) == budget - rest + stack_bytes(
                all.subrange(i as int, all.len() as int),
            ),
        decreases s.len() - i,
    {
        let ghost tail = all.subrange(i as int, all.len() as int);
        assert(tail[0] == s@[i as int]@);
        assert(tail.drop_first() =~= all.subrange(i + 1, all.len() as int));
        match step_within(&s[i], rest) {
            Some(r) => {
                rest = r;
            },
            None => {
                return false;
            },
        }
        i += 1;
    }
    assert(all.subrange(i as int, all.len() as int).len() == 0);
    true
}

impl UndoState {
    fn over_limits(&self) -> (r: bool)
        ensures
            r == !(self.undo_stack.len() == 0 || within_limits(
                self@.undo_stack,
                self.undo_budget_bytes as nat,
                self.undo_min_steps as nat,
            )),
    {
        let n: usize = self.undo_stack.len();
        n > UNDO_STACK_CAP || (n > self.undo_min_steps && !stack_fits(
            &self.undo_stack,
            self.undo_budget_bytes,
        ))
    }

    fn trim(&mut self)
        ensures
            final(self)@ == (UndoView {
                undo_stack: trimmed_stack(
                    old(self)@.undo_stack,
                    old(self).undo_budget_bytes as nat,
                    old(self).undo_min_steps as nat,
                ),
                ..old(self)@
            }),
    {
        broadcast use group_views;

        let mut over = self.over_limits();
        while over
            invariant
                over == !(self.undo_stack.len() == 0 || within_limits(
                    self@.undo_stack,
                    self.undo_budget_bytes as nat,
                    self.undo_min_steps as nat,
                )),
                self.undo_budget_bytes == old(self).undo_budget_bytes,
                self.undo_min_steps == old(self).undo_min_steps,
                self.redo_stack == old(self).redo_stack,
                trimmed_stack(
                    self@.undo_stack,
                    self.undo_budget_bytes as nat,
                    self.undo_min_steps as nat,
                ) == trimmed_stack(
                    old(self)@.undo_stack,
                    self.undo_budget_bytes as nat,
                    self.undo_min_steps as nat,
                ),
            decreases self.undo_stack.len(),
        {
            let ghost before = self@.undo_stack;
            self.undo_stack.remove(0);
            assert(self@.undo_stack =~= before.drop_first());
            over = self.over_limits();
        }
    }

    fn push_redo(&mut self, step: UndoStep)
        ensures
            final(self)@ == (UndoView {
                redo_stack: (if old(self)@.redo_stack.len() >= UNDO_STACK_CAP {
                    old(self)@.redo_stack.remove(0)
                } else {
                    old(self)@.redo_stack
                }).push(step@),
                ..old(self)@
            }),
    {
        broadcast use group_views;

        if self.redo_stack.len() >= UNDO_STACK_CAP {
            self.redo_stack.remove(0);
        }
        self.redo_stack.push(step);
    }

    fn record(&mut self, step: UndoStep)
        ensures
            final(self)@ == old(self)@.recorded(step@),
    {
        broadcast use group_views;

        self.undo_stack.push(step);
        self.trim();
        self.redo_stack.clear();
    }
}

/// The first sketch of an id.
pub open spec fn sketch_index(s: Seq<SketchView>, id: u32) -> Option<int>
    decreases s.len(),
{
    if s.len() == 0 {
        None
    } else if s[0].id == id {
        Some(0)
    } else {
        match sketch_index(s.drop_first(), id) {
            Some(i) => Some(i + 1),
            None => None,
        }
    }
}

/// `sketch_index` is the least index of that id.
pub proof fn sketch_index_is_least(s: Seq<SketchView>, id: u32)
    ensures
        match sketch_index(s, id) {
            Some(i) => 0 <= i < s.len() && s[i].id == id && forall|j: int|
                0 <= j < i ==> (#[trigger] s[j]).id != id,
            None => forall|j: int| 0 <= j < s.len() ==> (#[trigger] s[j]).id != id,
        },
    decreases s.len(),
{
    if s.len() > 0 && s[0].id != id {
        let rest = s.drop_first();
        sketch_index_is_least(rest, id);
        assert forall|j: int| 0 < j < s.len() implies (#[trigger] s[j]) == rest[j - 1] by {}
    }
}

/// Looks a sketch up by its id.
pub fn find_sketch(s: &Vec<crate::factory::Sketch>, id: u32) -> (r: Option<usize>)
    ensures
        match r {
            Some(i) => sketch_index(views(s@), id) == Some(i as int) && i < s.len(),
            None => sketch_index(views(s@), id) is None,
        },
{
    let ghost all = views(s@);
    let mut i: usize = 0;
    while i < s.len()
        invariant
            i <= s.len(),
            all == views(s@),
            forall|j: int| 0 <= j < i ==> (#[trigger] all[j]).id != id,
        decreases s.len() - i,
    {
        if s[i].id == id {
            proof {
                sketch_index_is_least(all, id);
            }
            assert(all[i as int].id == id);
            return Some(i);
        }
        i += 1;
    }
    proof {
        sketch_index_is_least(all, id);
    }
    None
}

/// The placements of the materials, in order.
pub open spec fn xforms_of(t: Seq<TextureView>) -> Seq<Xform> {
    t.map_values(|t: TextureView| t.xform)
}

/// The materials with the placements that a step holds; a material that the step does not reach
/// keeps its own.
pub open spec fn xforms_put(t: Seq<TextureView>, x: Seq<Xform>) -> Seq<TextureView> {
    Seq::new(
        t.len(),
        |i: int|
            if i < x.len() {
                TextureView { xform: x[i], ..t[i] }
            } else {
                t[i]
            },
    )
}

fn copy_xforms(t: &Vec<Texture>) -> (r: Vec<Xform>)
    ensures
        r@ == xforms_of(views(t@)),
{
    let mut r: Vec<Xform> = Vec::new();
    let mut i: usize = 0;
    while i < t.len()
        invariant
            i <= t.len(),
            r@ == xforms_of(views(t@)).subrange(0, i as int),
        decreases t.len() - i,
    {
        r.push(t[i].xform);
        assert(xforms_of(views(t@)).subrange(0, i + 1) =~= xforms_of(views(t@)).subrange(
            0,
            i as int,
        ).push(t@[i as int].xform));
        i += 1;
    }
    assert(xforms_of(views(t@)).subrange(0, i as int) =~= xforms_of(views(t@)));
    r
}

fn put_xforms(t: &mut Vec<Texture>, x: &Vec<Xform>)
    ensures
        views(final(t)@) == xforms_put(views(old(t)@), x@),
{
    let n: usize = t.len();
    let mut i: usize = 0;
    while i < n && i < x.len()
        invariant
            i <= n,
            i <= x.len(),
            n == t.len(),
            n == old(t).len(),
            forall|j: int| 0 <= j < n ==> (#[trigger] t@[j])@ == if j < i {
                TextureView { xform: x@[j], ..old(t)@[j]@ }
            } else {
                old(t)@[j]@
            },
        decreases n - i,
    {
        t[i].xform = x[i];
        i += 1;
    }
    assert(views(t@) =~= xforms_put(views(old(t)@), x@));
}

impl AppView {
    /// The fixtures as they were before the edit that is being recorded.
    pub open spec fn lights_before(self) -> Seq<LuminaireView> {
        match self.light.undo_pending {
            Some(l) => l,
            None => self.light.luminaires,
        }
    }

    /// The 3D model as a step must keep it. While a sketch is open its drawing is the active
    /// document and the model's copy of it is empty, so the drawing is put back in.
    pub open spec fn factory_filled(self) -> FactoryDataView {
        match self.factory.session {
            None => self.factory.data,
            Some(s) => match sketch_index(self.factory.data.sketches, s.plane) {
                None => self.factory.data,
                Some(i) => FactoryDataView {
                    sketches: self.factory.data.sketches.update(
                        i,
                        SketchView { doc: self.doc, ..self.factory.data.sketches[i] },
                    ),
                    ..self.factory.data
                },
            },
        }
    }

    /// The 3D model and the placements of its materials, as a step keeps them.
    pub open spec fn factory_snap(self) -> FactorySnapView {
        FactorySnapView {
            data: self.factory_filled(),
            texture_xforms: xforms_of(self.factory.textures),
        }
    }

    /// After the recorder has been told of a step that took a copy of the drawing: how deep the
    /// history is now, and what the copy takes in memory, roughly.
    pub open spec fn copy_noted(self) -> AppView {
        self.noted(
            EventView::UndoSnapshotTaken {
                undo_depth_after: self.undo.undo_stack.len(),
                bytes_estimate: doc_bytes(self.doc),
            },
        ).noted(
            EventView::MemoryEvent {
                name: "snapshot_doc (Document clone)"@,
                bytes: doc_bytes(self.doc),
                took_us: None,
            },
        )
    }

    /// After a step that takes the drawing along has been recorded.
    pub open spec fn doc_recorded(self) -> AppView {
        AppView {
            files: self.files.edited(),
            undo: self.undo.recorded(StepView::Doc(self.doc)),
            ..self
        }.copy_noted()
    }

    /// After a step that takes the 3D model along has been recorded.
    pub open spec fn factory_recorded(self) -> AppView {
        AppView {
            files: self.files.edited(),
            undo: self.undo.recorded(StepView::Factory(self.factory_snap())),
            ..self
        }
    }

    /// After a step that takes the fixtures along has been recorded.
    pub open spec fn lights_recorded(self) -> AppView {
        AppView {
            files: self.files.edited(),
            light: LightView { undo_pending: None, ..self.light },
            undo: self.undo.recorded(StepView::Light(self.lights_before())),
            ..self
        }
    }

    /// After fixtures that the panel has staged have become a step, where there are any.
    pub open spec fn lights_committed(self) -> AppView {
        if self.light.undo_pending is Some {
            self.lights_recorded()
        } else {
            self
        }
    }

    /// After a step that takes the drawing and the fixtures along has been recorded.
    pub open spec fn both_recorded(self) -> AppView {
        AppView {
            files: self.files.edited(),
            light: LightView { undo_pending: None, ..self.light },
            undo: self.undo.recorded(StepView::Both(self.doc, self.lights_before())),
            ..self
        }
    }

    /// What the step on top of the one stack leaves on the other: the current state of the same
    /// things.
    pub open spec fn counterpart(self, step: StepView) -> StepView {
        match step {
            StepView::Doc(_) => StepView::Doc(self.doc),
            StepView::Light(_) => StepView::Light(self.light.luminaires),
            StepView::Both(_, _) => StepView::Both(self.doc, self.light.luminaires),
            StepView::Factory(_) => StepView::Factory(self.factory_snap()),
        }
    }

    /// The camera that goes with a document: that of its active layout, or the one that model
    /// space was left with.
    pub open spec fn camera_for(self, d: DocView) -> Camera {
        match d.active_layout {
            Some(li) => if li < d.layouts.len() {
                d.layouts[li as int]
            } else {
                self.canvas.camera
            },
            None => match (self.canvas.saved_model_scale, self.canvas.saved_model_offset) {
                (Some(s), Some(o)) => Camera { zoom: s, pan_x: o.0, pan_y: o.1 },
                _ => self.canvas.camera,
            },
        }
    }

    /// The drawing put back: gestures, selection and everything derived from the old one are
    /// dropped.
    pub open spec fn doc_restored(self, d: DocView) -> AppView {
        AppView {
            doc: d,
            selection: Seq::empty(),
            selected: None,
            gestures: GesturesView::idle(),
            canvas: CanvasView {
                camera: self.camera_for(d),
                saved_model_scale: if d.active_layout is None {
                    None
                } else {
                    self.canvas.saved_model_scale
                },
                saved_model_offset: if d.active_layout is None {
                    None
                } else {
                    self.canvas.saved_model_offset
                },
                intersections: Seq::empty(),
                index_dirty: true,
                view_dirty: true,
                ..self.canvas
            },
            ..self
        }
    }

    /// The fixtures put back: what names a fixture is dropped, and the results are out of date.
    pub open spec fn lights_restored(self, l: Seq<LuminaireView>) -> AppView {
        AppView {
            light: LightView {
                luminaires: l,
                selected: Seq::empty(),
                drag: None,
                hover: None,
                undo_pending: None,
                results_stale: true,
                ..self.light
            },
            ..self
        }
    }

    /// The 3D model put back: selected furniture that is still there stays selected, and the
    /// solids have to be computed again.
    pub open spec fn factory_restored(self, snap: FactorySnapView) -> AppView {
        AppView {
            factory: FactoryView {
                data: snap.data,
                textures: xforms_put(self.factory.textures, snap.texture_xforms),
                selection: Seq::empty(),
                sel_furniture: self.factory.sel_furniture.filter(
                    |i: usize| i < snap.data.furniture.len(),
                ),
                modify: None,
                dirty: true,
                recompute_due: true,
                ..self.factory
            },
            ..self
        }
    }

    /// One step put back.
    pub open spec fn restored(self, step: StepView) -> AppView {
        match step {
            StepView::Doc(d) => self.doc_restored(d),
            StepView::Light(l) => self.lights_restored(l),
            StepView::Both(d, l) => self.doc_restored(d).lights_restored(l),
            StepView::Factory(s) => self.factory_restored(s),
        }
    }

    /// The redo stack with room for one more step: the oldest one goes when it is full.
    pub open spec fn redo_with_room(self) -> Seq<StepView> {
        if self.undo.redo_stack.len() >= UNDO_STACK_CAP {
            self.undo.redo_stack.remove(0)
        } else {
            self.undo.redo_stack
        }
    }

    /// After one more edit has been counted. Undo and redo are edits too: what they bring back
    /// differs from what is on disk, and the fixtures have to be held against their symbols again.
    pub open spec fn counted(self) -> AppView {
        AppView { files: self.files.edited(), ..self }
    }

    /// After an undo, before it is reported.
    pub open spec fn undone_quietly(self) -> AppView {
        let step = self.undo.undo_stack.last();
        let s = AppView {
            undo: UndoView {
                undo_stack: self.undo.undo_stack.drop_last(),
                redo_stack: self.redo_with_room().push(self.counterpart(step)),
                ..self.undo
            },
            ..self
        };
        s.restored(step)
    }

    /// After a redo, before it is reported.
    pub open spec fn redone_quietly(self) -> AppView {
        let step = self.undo.redo_stack.last();
        let s = AppView {
            undo: UndoView {
                undo_stack: trimmed_stack(
                    self.undo.undo_stack.push(self.counterpart(step)),
                    self.undo.undo_budget_bytes as nat,
                    self.undo.undo_min_steps as nat,
                ),
                redo_stack: self.undo.redo_stack.drop_last(),
                ..self.undo
            },
            ..self
        };
        s.restored(step)
    }

    /// The line that reports an undo or a redo: how deep the two stacks are.
    pub open spec fn depth_line(self, head: Seq<char>) -> Seq<char> {
        head + dec(self.undo.undo_stack.len()) + "  redo: "@ + dec(self.undo.redo_stack.len())
            + ")"@
    }

    /// After an undo.
    pub open spec fn undone(self) -> AppView {
        if self.undo.undo_stack.len() == 0 {
            self.said("  ! nothing to undo"@)
        } else {
            let s = self.undone_quietly().counted();
            s.noted(
                EventView::UndoFired {
                    from_depth: self.undo.undo_stack.len(),
                    to_depth: s.undo.undo_stack.len(),
                },
            ).said(s.depth_line("  ↶ undo  (undo: "@))
        }
    }

    /// After an operation on the drawing that failed has been taken back.
    pub open spec fn rolled_back(self) -> AppView {
        if self.undo.undo_stack.len() > 0 && self.undo.undo_stack.last() is Doc {
            AppView {
                doc: self.undo.undo_stack.last()->Doc_0,
                undo: UndoView { undo_stack: self.undo.undo_stack.drop_last(), ..self.undo },
                ..self
            }
        } else {
            self
        }
    }

    /// After a redo.
    pub open spec fn redone(self) -> AppView {
        if self.undo.redo_stack.len() == 0 {
            self.said("  ! nothing to redo"@)
        } else {
            let s = self.redone_quietly().counted();
            s.noted(
                EventView::RedoFired {
                    from_depth: self.undo.redo_stack.len(),
                    to_depth: s.undo.redo_stack.len(),
                },
            ).said(s.depth_line("  ↷ redo  (undo: "@))
        }
    }
}

impl CadApp {
    /// Keeps the undo history inside both its limits, the count and the memory budget: the oldest
    /// steps go first, and never below the number that is kept in any case.
    pub fn trim_undo_stack(&mut self)
        ensures
            final(self)@ == (AppView {
                undo: UndoView {
                    undo_stack: trimmed_stack(
                        old(self)@.undo.undo_stack,
                        old(self)@.undo.undo_budget_bytes as nat,
                        old(self)@.undo.undo_min_steps as nat,
                    ),
                    ..old(self)@.undo
                },
                ..old(self)@
            }),
    {
        self.undo.trim();
    }

    fn take_lights_before(&mut self) -> (r: Vec<Luminaire>)
        ensures
            views(r@) == old(self)@.lights_before(),
            final(self)@ == (AppView {
                light: LightView { undo_pending: None, ..old(self)@.light },
                ..old(self)@
            }),
    {
        match self.light.undo_pending.take() {
            Some(l) => l,
            None => duplicate_all(&self.light.luminaires),
        }
    }

    /// Records a step for an edit that changes the fixtures only. Where the panel has staged the
    /// fixtures it overwrote, those are what is kept.
    pub fn snapshot_lights(&mut self)
        ensures
            final(self)@ == old(self)@.lights_recorded(),
    {
        let luminaires = self.take_lights_before();
        self.files.count_edit();
        self.undo.record(UndoStep::Light(luminaires));
    }

    /// Records one step for an edit that changes the drawing and the fixtures together.
    pub fn snapshot_doc_and_lights(&mut self)
        ensures
            final(self)@ == old(self)@.both_recorded(),
    {
        let luminaires = self.take_lights_before();
        self.files.count_edit();
        self.undo.record(UndoStep::Both(self.doc.duplicate(), luminaires));
    }

    /// Turns fixtures staged by the panel into an undo step, if any are waiting.
    pub fn commit_light_undo(&mut self)
        ensures
            final(self)@ == old(self)@.lights_committed(),
    {
        if self.light.undo_pending.is_some() {
            self.snapshot_lights();
        }
    }

    fn note_copy(&mut self)
        ensures
            final(self)@ == old(self)@.copy_noted(),
    {
        let bytes: u128 = doc_size(&self.doc);
        self.note(
            DbgEvent::UndoSnapshotTaken {
                undo_depth_after: self.undo.undo_stack.len(),
                bytes_estimate: bytes,
            },
        );
        self.note(
            DbgEvent::MemoryEvent {
                name: String::from_str("snapshot_doc (Document clone)"),
                bytes: bytes,
                took_us: None,
            },
        );
    }

    /// Records a step for an edit that changes the drawing, and tells the recorder what it took.
    pub fn snapshot_doc(&mut self)
        ensures
            final(self)@ == old(self)@.doc_recorded(),
    {
        self.files.count_edit();
        self.undo.record(UndoStep::Doc(self.doc.duplicate()));
        self.note_copy();
    }

    /// The 3D model as a step must keep it, with the drawing of the open sketch in it.
    pub fn factory_model_for_snapshot(&self) -> (r: FactoryData)
        ensures
            r@ == self@.factory_filled(),
    {
        broadcast use group_views;

        let mut data = self.factory.data.duplicate();
        if let Some(s) = &self.factory.session {
            if let Some(i) = find_sketch(&data.sketches, s.plane) {
                let ghost before = data.sketches@;
                data.sketches[i].doc = self.doc.duplicate();
                assert(views(data.sketches@) =~= views(before).update(
                    i as int,
                    SketchView { doc: self.doc@, ..views(before)[i as int] },
                ));
            }
        }
        data
    }

    fn factory_snapshot(&self) -> (r: FactorySnap)
        ensures
            r@ == self@.factory_snap(),
    {
        FactorySnap {
            data: self.factory_model_for_snapshot(),
            texture_xforms: copy_xforms(&self.factory.textures),
        }
    }

    /// Records a step for an edit that changes the 3D model, on the same stack.
    pub fn snapshot_factory(&mut self)
        ensures
            final(self)@ == old(self)@.factory_recorded(),
    {
        let snap = self.factory_snapshot();
        self.files.count_edit();
        self.undo.record(UndoStep::Factory(snap));
    }

    /// Takes back an operation on the drawing that failed after it had recorded its step, so that
    /// it leaves no step behind. A step of another kind on top belongs to someone else and stays.
    pub fn rollback_doc(&mut self)
        ensures
            final(self)@ == old(self)@.rolled_back(),
    {
        broadcast use group_views;

        let n: usize = self.undo.undo_stack.len();
        if n == 0 {
            return;
        }
        let is_doc = match &self.undo.undo_stack[n - 1] {
            UndoStep::Doc(_) => true,
            _ => false,
        };
        if is_doc {
            let ghost before = self.undo.undo_stack@;
            if let Some(UndoStep::Doc(prev)) = self.undo.undo_stack.pop() {
                self.doc = prev;
            }
            assert(self.undo.undo_stack@ =~= before.subrange(0, before.len() - 1));
            assert(views(before).drop_last() =~= views(before).subrange(0, before.len() - 1));
        }
    }

    /// The fixtures as they are now, for an undo step.
    pub fn light_snap(&self) -> (r: Vec<Luminaire>)
        ensures
            views(r@) == self@.light.luminaires,
    {
        duplicate_all(&self.light.luminaires)
    }

    /// Puts the drawing back, and drops everything that was derived from the other one.
    pub fn restore_doc(&mut self, doc: Document)
        ensures
            final(self)@ == old(self)@.doc_restored(doc@),
    {
        self.gestures = Gestures::new();
        match doc.active_layout {
            Some(li) => {
                if li < doc.layouts.len() {
                    self.canvas.camera = doc.layouts[li];
                }
            },
            None => {
                let scale = self.canvas.saved_model_scale.take();
                let offset = self.canvas.saved_model_offset.take();
                if let Some(s) = scale {
                    if let Some(o) = offset {
                        self.canvas.camera = Camera { zoom: s, pan_x: o.0, pan_y: o.1 };
                    }
                }
            },
        }
        self.doc = doc;
        self.selection.clear();
        self.selected = None;
        self.canvas.intersections.clear();
        self.canvas.index_dirty = true;
        self.canvas.view_dirty = true;
    }

    /// Puts the fixtures back. The selection and any drag go with the old ones, and the results
    /// are marked out of date.
    pub fn restore_lights(&mut self, snap: Vec<Luminaire>)
        ensures
            final(self)@ == old(self)@.lights_restored(views(snap@)),
    {
        self.light.luminaires = snap;
        self.light.selected.clear();
        self.light.drag = None;
        self.light.hover = None;
        self.light.undo_pending = None;
        self.light.results_stale = true;
    }

    /// The current state in the shape of a given step, for the opposite stack.
    pub fn counterpart_of(&self, step: &UndoStep) -> (r: UndoStep)
        ensures
            r@ == self@.counterpart(step@),
    {
        match step {
            UndoStep::Doc(_) => UndoStep::Doc(self.doc.duplicate()),
            UndoStep::Light(_) => UndoStep::Light(self.light_snap()),
            UndoStep::Both(_, _) => UndoStep::Both(self.doc.duplicate(), self.light_snap()),
            UndoStep::Factory(_) => UndoStep::Factory(self.factory_snapshot()),
        }
    }

    fn restore_factory(&mut self, snap: FactorySnap)
        ensures
            final(self)@ == old(self)@.factory_restored(snap@),
    {
        let live: usize = snap.data.furniture.len();
        put_xforms(&mut self.factory.textures, &snap.texture_xforms);
        let ghost keep = |i: usize| i < snap@.data.furniture.len();
        let mut kept: Vec<usize> = Vec::new();
        let mut i: usize = 0;
        let ghost sel = self.factory.sel_furniture@;
        assert(sel.subrange(0, 0).filter(keep) =~= Seq::<usize>::empty()) by {
            reveal(Seq::filter);
        }
        while i < self.factory.sel_furniture.len()
            invariant
                i <= self.factory.sel_furniture.len(),
                sel == self.factory.sel_furniture@,
                live == snap@.data.furniture.len(),
                keep == (|i: usize| i < snap@.data.furniture.len()),
                kept@ == sel.subrange(0, i as int).filter(keep),
            decreases self.factory.sel_furniture.len() - i,
        {
            let k: usize = self.factory.sel_furniture[i];
            proof {
                assert(sel.subrange(0, i + 1).drop_last() =~= sel.subrange(0, i as int));
                reveal(Seq::filter);
            }
            if k < live {
                kept.push(k);
            }
            i += 1;
        }
        assert(sel.subrange(0, i as int) =~= sel);
        self.factory.data = snap.data;
        self.factory.sel_furniture = kept;
        self.factory.selection.clear();
        self.factory.modify = None;
        self.factory.dirty = true;
        self.factory.recompute_due = true;
    }

    /// Puts one step back; each kind of step drops what was derived from what it replaces.
    pub fn restore_step(&mut self, step: UndoStep)
        ensures
            final(self)@ == old(self)@.restored(step@),
    {
        match step {
            UndoStep::Doc(doc) => self.restore_doc(doc),
            UndoStep::Light(l) => self.restore_lights(l),
            UndoStep::Both(doc, l) => {
                self.restore_doc(doc);
                self.restore_lights(l);
            },
            UndoStep::Factory(snap) => self.restore_factory(snap),
        }
    }

    fn note_edit(&mut self)
        ensures
            final(self)@ == old(self)@.counted(),
    {
        self.files.count_edit();
    }

    fn say_depth(&mut self, head: &str)
        ensures
            final(self)@ == old(self)@.said(old(self)@.depth_line(head@)),
    {
        let line = cat5(
            head,
            dec_text(self.undo.undo_stack.len() as u64).as_str(),
            "  redo: ",
            dec_text(self.undo.redo_stack.len() as u64).as_str(),
            ")",
        );
        self.say(line);
    }

    fn put_back(&mut self, prev: UndoStep)
        ensures
            final(self)@ == (AppView {
                undo: UndoView {
                    redo_stack: old(self)@.redo_with_room().push(
                        old(self)@.counterpart(prev@),
                    ),
                    ..old(self)@.undo
                },
                ..old(self)@
            }).restored(prev@),
    {
        broadcast use group_views;

        let cur = self.counterpart_of(&prev);
        self.undo.push_redo(cur);
        self.restore_step(prev);
    }

    fn put_forward(&mut self, next: UndoStep)
        ensures
            final(self)@ == (AppView {
                undo: UndoView {
                    undo_stack: trimmed_stack(
                        old(self)@.undo.undo_stack.push(old(self)@.counterpart(next@)),
                        old(self)@.undo.undo_budget_bytes as nat,
                        old(self)@.undo.undo_min_steps as nat,
                    ),
                    ..old(self)@.undo
                },
                ..old(self)@
            }).restored(next@),
    {
        broadcast use group_views;

        let cur = self.counterpart_of(&next);
        self.undo.undo_stack.push(cur);
        self.trim_undo_stack();
        self.restore_step(next);
    }

    /// Takes the last edit back.
    pub fn do_undo(&mut self)
        ensures
            final(self)@ == old(self)@.undone(),
    {
        broadcast use group_views;

        let ghost before = self.undo.undo_stack@;
        let from: usize = self.undo.undo_stack.len();
        match self.undo.undo_stack.pop() {
            Some(prev) => {
                assert(views(self.undo.undo_stack@) =~= views(before).drop_last());
                self.put_back(prev);
                self.note_edit();
                self.note(
                    DbgEvent::UndoFired {
                        from_depth: from,
                        to_depth: self.undo.undo_stack.len(),
                    },
                );
                self.say_depth("  ↶ undo  (undo: ");
            },
            None => {
                assert(self.undo.undo_stack@ =~= before);
                self.say(String::from_str("  ! nothing to undo"));
            },
        }
    }

    /// Makes the edit again that was taken back last.
    pub fn do_redo(&mut self)
        ensures
            final(self)@ == old(self)@.redone(),
    {
        broadcast use group_views;

        let ghost before = self.undo.redo_stack@;
        let from: usize = self.undo.redo_stack.len();
        match self.undo.redo_stack.pop() {
            Some(next) => {
                assert(views(self.undo.redo_stack@) =~= views(before).drop_last());
                self.put_forward(next);
                self.note_edit();
                self.note(
                    DbgEvent::RedoFired {
                        from_depth: from,
                        to_depth: self.undo.redo_stack.len(),
                    },
                );
                self.say_depth("  ↷ redo  (undo: ");
            },
            None => {
                assert(self.undo.redo_stack@ =~= before);
                self.say(String::from_str("  ! nothing to redo"));
            },
        }
    }
}

/// What undo and redo bring back: the drawing, the fixtures, the 3D model and the materials.
#[verifier::ext_equal]
pub struct Content {
    pub doc: DocView,
    pub luminaires: Seq<LuminaireView>,
    pub data: FactoryDataView,
    pub textures: Seq<TextureView>,
}

impl AppView {
    /// What the project holds, apart from the state of its windows. The drawing of an open sketch
    /// counts as part of the model.
    pub open spec fn content(self) -> Content {
        Content {
            doc: self.doc,
            luminaires: self.light.luminaires,
            data: self.factory_filled(),
            textures: self.factory.textures,
        }
    }
}

pub(crate) proof fn pushed_step_stays(s: Seq<StepView>, x: StepView, budget: nat, min: nat)
    requires
        min >= 1,
    ensures
        trimmed_stack(s.push(x), budget, min).len() > 0,
        trimmed_stack(s.push(x), budget, min).last() == x,
    decreases s.len(),
{
    let t = s.push(x);
    if !within_limits(t, budget, min) && s.len() > 0 {
        assert(t.drop_first() =~= s.drop_first().push(x));
        pushed_step_stays(s.drop_first(), x, budget, min);
    }
}

/// Filling in the drawing of the open sketch once is enough.
proof fn filled_stays_filled(s: AppView, t: AppView)
    requires
        t.factory.data == s.factory_filled(),
        t.factory.session == s.factory.session,
        t.doc == s.doc,
    ensures
        t.factory_filled() == s.factory_filled(),
{
    if let Some(session) = s.factory.session {
        let a = s.factory.data.sketches;
        let b = t.factory.data.sketches;
        sketch_index_is_least(a, session.plane);
        sketch_index_is_least(b, session.plane);
        if let Some(i) = sketch_index(a, session.plane) {
            assert(b[i].id == session.plane);
            assert(forall|j: int| 0 <= j < i ==> (#[trigger] b[j]) == a[j]);
            assert(sketch_index(b, session.plane) == Some(i));
            assert(b.update(i, SketchView { doc: t.doc, ..b[i] }) =~= b);
        } else {
            assert(a == b);
        }
    }
}

/// Redo after undo brings the project back to what it was before the undo, also while a sketch is
/// open.
pub proof fn redo_reverses_undo(s: AppView)
    requires
        s.undo.undo_stack.len() > 0,
    ensures
        s.undone().redone().content() == s.content(),
{
    reveal(AppView::said);
    let u = s.undone();
    let step = s.undo.undo_stack.last();
    assert(u.undo.redo_stack.last() == s.counterpart(step));
    assert(u.undo.redo_stack.len() > 0);
    let r = u.redone();
    if let StepView::Factory(f) = step {
        assert(r.factory.textures =~= s.factory.textures);
        filled_stays_filled(s, r);
    }
}

/// Undo after redo brings the project back to what it was before the redo, also while a sketch is
/// open, as long as at least one step is always kept.
pub proof fn undo_reverses_redo(s: AppView)
    requires
        s.undo.redo_stack.len() > 0,
        s.undo.undo_min_steps >= 1,
    ensures
        s.redone().undone().content() == s.content(),
{
    reveal(AppView::said);
    let step = s.undo.redo_stack.last();
    pushed_step_stays(
        s.undo.undo_stack,
        s.counterpart(step),
        s.undo.undo_budget_bytes as nat,
        s.undo.undo_min_steps as nat,
    );
    let u = s.redone();
    let r = u.undone();
    if let StepView::Factory(f) = step {
        assert(r.factory.textures =~= s.factory.textures);
        filled_stays_filled(s, r);
    }
}

/// Redo after undo leaves both stacks as they were, where the redo stack had room and the undo
/// stack was inside its limits. (A step of the 3D model comes back as it was where no sketch is
/// open and no material has been added since it was recorded.)
pub proof fn redo_after_undo_restores_stacks(s: AppView)
    requires
        s.undo.undo_stack.len() > 0,
        s.undo.undo_stack.last() matches StepView::Factory(f) ==> s.factory.session is None
            && f.texture_xforms.len() == s.factory.textures.len(),
        s.undo.redo_stack.len() < UNDO_STACK_CAP,
        within_limits(
            s.undo.undo_stack,
            s.undo.undo_budget_bytes as nat,
            s.undo.undo_min_steps as nat,
        ),
    ensures
        s.undone().redone().undo == s.undo,
{
    reveal(AppView::said);
    let u = s.undone();
    let step = s.undo.undo_stack.last();
    assert(u.undo.redo_stack.last() == s.counterpart(step));
    assert(u.undo.redo_stack.drop_last() =~= s.undo.redo_stack);
    assert(u.undo.undo_stack.push(step) =~= s.undo.undo_stack);
    if let StepView::Factory(f) = step {
        assert(xforms_of(u.factory.textures) =~= f.texture_xforms);
    }
    assert(u.counterpart(s.counterpart(step)) == step);
}

/// Undo gives back the drawing that an edit recorded, whatever the edit then made of it, as long
/// as at least one step is always kept.
pub proof fn undo_takes_back_doc_edit(s: AppView, changed: DocView)
    requires
        s.undo.undo_min_steps >= 1,
    ensures
        (AppView { doc: changed, ..s.doc_recorded() }).undone().doc == s.doc,
{
    reveal(AppView::said);
    pushed_step_stays(
        s.undo.undo_stack,
        StepView::Doc(s.doc),
        s.undo.undo_budget_bytes as nat,
        s.undo.undo_min_steps as nat,
    );
}

/// Undo gives back the drawing and the fixtures together where one edit changed both, as long as
/// at least one step is always kept.
pub proof fn undo_takes_back_placement(
    s: AppView,
    changed: DocView,
    lights: Seq<LuminaireView>,
)
    requires
        s.undo.undo_min_steps >= 1,
        s.light.undo_pending is None,
    ensures
        ({
            let r = s.both_recorded();
            let e = AppView {
                doc: changed,
                light: LightView { luminaires: lights, ..r.light },
                ..r
            };
            e.undone().doc == s.doc && e.undone().light.luminaires == s.light.luminaires
        }),
{
    reveal(AppView::said);
    pushed_step_stays(
        s.undo.undo_stack,
        StepView::Both(s.doc, s.light.luminaires),
        s.undo.undo_budget_bytes as nat,
        s.undo.undo_min_steps as nat,
    );
}

/// Undo gives back the 3D model that an edit recorded, with the drawing of an open sketch in it,
/// as long as at least one step is always kept.
pub proof fn undo_takes_back_factory_edit(s: AppView, changed: FactoryDataView)
    requires
        s.undo.undo_min_steps >= 1,
    ensures
        ({
            let r = s.factory_recorded();
            let e = AppView { factory: FactoryView { data: changed, ..r.factory }, ..r };
            e.undone().factory.data == s.factory_filled()
        }),
{
    reveal(AppView::said);
    pushed_step_stays(
        s.undo.undo_stack,
        StepView::Factory(s.factory_snap()),
        s.undo.undo_budget_bytes as nat,
        s.undo.undo_min_steps as nat,
    );
}

/// A failed command that rolls back leaves the drawing as it found it, whatever it had made of it,
/// as long as at least one step is always kept; and it leaves no step in the undo history, where
/// recording its step pushed no older one out.
pub proof fn rollback_leaves_no_step(s: AppView, changed: DocView)
    requires
        s.undo.undo_min_steps >= 1,
    ensures
        ({
            let r = (AppView { doc: changed, ..s.doc_recorded() }).rolled_back();
            &&& r.doc == s.doc
            &&& within_limits(
                s.undo.undo_stack.push(StepView::Doc(s.doc)),
                s.undo.undo_budget_bytes as nat,
                s.undo.undo_min_steps as nat,
            ) ==> r.undo.undo_stack == s.undo.undo_stack
        }),
{
    pushed_step_stays(
        s.undo.undo_stack,
        StepView::Doc(s.doc),
        s.undo.undo_budget_bytes as nat,
        s.undo.undo_min_steps as nat,
    );
    assert(s.undo.undo_stack.push(StepView::Doc(s.doc)).drop_last() =~= s.undo.undo_stack);
}

/// Every step that is recorded counts as an edit, whatever it takes along, and so do undo and redo
/// where there is something to undo or to redo.
pub proof fn every_step_counts(s: AppView)
    ensures
        s.doc_recorded().files == s.files.edited(),
        s.lights_recorded().files == s.files.edited(),
        s.both_recorded().files == s.files.edited(),
        s.factory_recorded().files == s.files.edited(),
        s.undo.undo_stack.len() > 0 ==> s.undone().files == s.files.edited(),
        s.undo.redo_stack.len() > 0 ==> s.redone().files == s.files.edited(),
{
    reveal(AppView::said);
}

/// What the recorder keeps of the history while it is on: a step that takes the drawing along, with
/// the depth after it and what the copy takes; an undo and a redo, with the depth of their stack
/// before and after. It keeps what was there, and nothing while it is off.
pub proof fn history_is_recorded(s: AppView)
    ensures
        ({
            let n = doc_bytes(s.doc);
            s.recorder.on ==> s.doc_recorded().recorder.events == s.recorder.events.push(
                EventView::UndoSnapshotTaken {
                    undo_depth_after: s.doc_recorded().undo.undo_stack.len(),
                    bytes_estimate: n,
                },
            ).push(
                EventView::MemoryEvent {
                    name: "snapshot_doc (Document clone)"@,
                    bytes: n,
                    took_us: None,
                },
            )
        }),
        s.recorder.on && s.undo.undo_stack.len() > 0 ==> s.undone().recorder.events
            == s.recorder.events.push(
            EventView::UndoFired {
                from_depth: s.undo.undo_stack.len(),
                to_depth: (s.undo.undo_stack.len() - 1) as nat,
            },
        ),
        s.recorder.on && s.undo.redo_stack.len() > 0 ==> s.redone().recorder.events
            == s.recorder.events.push(
            EventView::RedoFired {
                from_depth: s.undo.redo_stack.len(),
                to_depth: (s.undo.redo_stack.len() - 1) as nat,
            },
        ),
        !s.recorder.on ==> s.doc_recorded().recorder == s.recorder && s.undone().recorder
            == s.recorder && s.redone().recorder == s.recorder,
{
    reveal(AppView::said);
    reveal(RecorderView::kept);
}

/// Recording, undo and redo keep both stacks inside the cap.
pub proof fn stacks_stay_capped(s: AppView, step: StepView)
    requires
        s.undo.wf(),
    ensures
        s.undo.recorded(step).wf(),
        s.undone().undo.wf(),
        s.redone().undo.wf(),
{
    reveal(AppView::said);
    let budget = s.undo.undo_budget_bytes as nat;
    let min = s.undo.undo_min_steps as nat;
    trimmed_stack_is_newest(s.undo.undo_stack.push(step), budget, min);
    if s.undo.redo_stack.len() > 0 {
        let c = s.counterpart(s.undo.redo_stack.last());
        trimmed_stack_is_newest(s.undo.undo_stack.push(c), budget, min);
    }
}

/// Undo gives back the fixtures as they were before an edit of the panel, which has staged them,
/// whatever the panel made of them, as long as at least one step is always kept. Nothing stays
/// staged, and the drawing is the one there was.
pub proof fn undo_takes_back_panel_edit(s: AppView, before: Seq<LuminaireView>)
    requires
        s.light.undo_pending == Some(before),
        s.undo.undo_min_steps >= 1,
    ensures
        s.lights_committed().light.luminaires == s.light.luminaires,
        s.lights_committed().light.undo_pending is None,
        s.lights_committed().undone().light.luminaires == before,
        s.lights_committed().undone().doc == s.doc,
        s.lights_recorded().undone().light.luminaires == before,
        s.both_recorded().light.luminaires == s.light.luminaires,
        s.both_recorded().light.undo_pending is None,
        s.both_recorded().undone().light.luminaires == before,
        s.both_recorded().undone().doc == s.doc,
{
    reveal(AppView::said);
    pushed_step_stays(
        s.undo.undo_stack,
        StepView::Light(before),
        s.undo.undo_budget_bytes as nat,
        s.undo.undo_min_steps as nat,
    );
    pushed_step_stays(
        s.undo.undo_stack,
        StepView::Both(s.doc, before),
        s.undo.undo_budget_bytes as nat,
        s.undo.undo_min_steps as nat,
    );
}

/// Without anything staged, committing does nothing, and undo gives back the fixtures that were
/// there when the step was recorded, whatever was made of them since.
pub proof fn undo_takes_back_lights_edit(s: AppView, changed: Seq<LuminaireView>)
    requires
        s.light.undo_pending is None,
        s.undo.undo_min_steps >= 1,
    ensures
        s.lights_committed() == s,
        ({
            let r = s.lights_recorded();
            let e = AppView { light: LightView { luminaires: changed, ..r.light }, ..r };
            &&& r.light.luminaires == s.light.luminaires
            &&& e.undone().light.luminaires == s.light.luminaires
            &&& e.undone().doc == s.doc
            &&& e.undone().factory == s.factory
        }),
{
    reveal(AppView::said);
    pushed_step_stays(
        s.undo.undo_stack,
        StepView::Light(s.light.luminaires),
        s.undo.undo_budget_bytes as nat,
        s.undo.undo_min_steps as nat,
    );
}

/// An undo puts back what the newest step holds and nothing else: a step of the drawing leaves the
/// fixtures and the model, one of the fixtures the drawing and the model, one of the model the
/// drawing and the fixtures. What is put back is what the step was recorded with.
pub proof fn undo_touches_what_the_step_holds(s: AppView)
    requires
        s.undo.undo_stack.len() > 0,
    ensures
        ({
            let u = s.undone();
            match s.undo.undo_stack.last() {
                StepView::Doc(d) => u.doc == d && u.light == s.light && u.factory == s.factory,
                StepView::Light(l) => u.light.luminaires == l && u.doc == s.doc && u.factory
                    == s.factory && u.selection == s.selection,
                StepView::Both(d, l) => u.doc == d && u.light.luminaires == l && u.factory
                    == s.factory,
                StepView::Factory(f) => u.factory.data == f.data && u.doc == s.doc && u.light
                    == s.light && u.selection == s.selection,
            }
        }),
        s.undone().clip == s.clip && s.undone().groups == s.groups && s.undone().project
            == s.project && s.undone().report == s.report && s.undone().materials == s.materials,
        s.undone().files.current_file == s.files.current_file,
{
    reveal(AppView::said);
}

/// A redo puts back what the newest undone step holds and nothing else.
pub proof fn redo_touches_what_the_step_holds(s: AppView)
    requires
        s.undo.redo_stack.len() > 0,
    ensures
        ({
            let u = s.redone();
            match s.undo.redo_stack.last() {
                StepView::Doc(d) => u.doc == d && u.light == s.light && u.factory == s.factory,
                StepView::Light(l) => u.light.luminaires == l && u.doc == s.doc && u.factory
                    == s.factory && u.selection == s.selection,
                StepView::Both(d, l) => u.doc == d && u.light.luminaires == l && u.factory
                    == s.factory,
                StepView::Factory(f) => u.factory.data == f.data && u.doc == s.doc && u.light
                    == s.light && u.selection == s.selection,
            }
        }),
        s.redone().clip == s.clip && s.redone().groups == s.groups && s.redone().project
            == s.project && s.redone().report == s.report && s.redone().materials == s.materials,
        s.redone().files.current_file == s.files.current_file,
{
    reveal(AppView::said);
}

/// Undo takes the newest step first and leaves the older ones in their order; what it took can be
/// redone, newest first, with older undone steps under it. A redo stack that is full loses its
/// oldest step.
pub proof fn undo_walks_back(s: AppView)
    requires
        s.undo.undo_stack.len() > 0,
    ensures
        s.undone().undo.undo_stack.len() == s.undo.undo_stack.len() - 1,
        forall|i: int|
            0 <= i < s.undo.undo_stack.len() - 1 ==> (#[trigger] s.undone().undo.undo_stack[i])
                == s.undo.undo_stack[i],
        s.undo.redo_stack.len() < UNDO_STACK_CAP ==> s.undone().undo.redo_stack.len()
            == s.undo.redo_stack.len() + 1 && s.undone().undo.redo_stack.drop_last()
            == s.undo.redo_stack,
        s.undo.redo_stack.len() == UNDO_STACK_CAP ==> s.undone().undo.redo_stack.len()
            == UNDO_STACK_CAP && s.undone().undo.redo_stack.drop_last()
            == s.undo.redo_stack.drop_first(),
        s.undone().undo.undo_budget_bytes == s.undo.undo_budget_bytes,
        s.undone().undo.undo_min_steps == s.undo.undo_min_steps,
{
    reveal(AppView::said);
    let r = s.undone().undo.redo_stack;
    if s.undo.redo_stack.len() < UNDO_STACK_CAP {
        assert(r.drop_last() =~= s.undo.redo_stack);
    } else if s.undo.redo_stack.len() == UNDO_STACK_CAP {
        assert(r.drop_last() =~= s.undo.redo_stack.drop_first());
    }
}

/// With nothing to undo, and with nothing to redo, nothing changes but what is said.
pub proof fn empty_history_changes_nothing(s: AppView)
    ensures
        s.undo.undo_stack.len() == 0 ==> s.undone().history.len() == s.history.len() + 1
            && s.undone() == (AppView { history: s.undone().history, ..s }),
        s.undo.redo_stack.len() == 0 ==> s.redone().history.len() == s.history.len() + 1
            && s.redone() == (AppView { history: s.redone().history, ..s }),
{
    reveal(AppView::said);
}

/// Recording a step changes nothing of the project, puts one step on top of the history while there
/// is room for it, and leaves nothing to redo.
pub proof fn recording_changes_nothing_else(s: AppView)
    requires
        s.undo.undo_min_steps >= 1,
    ensures
        s.doc_recorded().content() == s.content(),
        s.lights_recorded().content() == s.content(),
        s.both_recorded().content() == s.content(),
        s.factory_recorded().content() == s.content(),
        s.doc_recorded().undo.redo_stack.len() == 0,
        s.lights_recorded().undo.redo_stack.len() == 0,
        s.both_recorded().undo.redo_stack.len() == 0,
        s.factory_recorded().undo.redo_stack.len() == 0,
        s.doc_recorded().undo.undo_stack.last() == StepView::Doc(s.doc),
        s.factory_recorded().undo.undo_stack.last() is Factory,
        s.doc_recorded().selection == s.selection,
        s.factory_recorded().factory == s.factory,
{
    let b = s.undo.undo_budget_bytes as nat;
    let m = s.undo.undo_min_steps as nat;
    pushed_step_stays(s.undo.undo_stack, StepView::Doc(s.doc), b, m);
    pushed_step_stays(s.undo.undo_stack, StepView::Factory(s.factory_snap()), b, m);
}

/// A drawing that is put back comes without the gestures, the selection and the derived marks of
/// the other one, under the camera of its active layout where it has one.
pub proof fn restored_drawing_starts_clean(s: AppView, d: DocView)
    ensures
        ({
            let r = s.doc_restored(d);
            &&& r.doc == d
            &&& r.selection.len() == 0 && r.selected is None
            &&& r.gestures.grip_drag is None && r.gestures.vp_edit_dialog is None
                && r.gestures.layout_grip_drag is None && r.gestures.viewport_draw_p1 is None
                && r.gestures.layout_selection.len() == 0
            &&& r.canvas.intersections.len() == 0
            &&& r.canvas.index_dirty && r.canvas.view_dirty
            &&& d.active_layout is Some && d.active_layout->0 < d.layouts.len()
                ==> r.canvas.camera == d.layouts[d.active_layout->0 as int]
            &&& d.active_layout is None && s.canvas.saved_model_scale is Some ==> (
            s.canvas.saved_model_offset matches Some((x, y)) ==> r.canvas.camera.zoom
                == s.canvas.saved_model_scale->0 && r.canvas.camera.pan_x == x
                && r.canvas.camera.pan_y == y)
            &&& d.active_layout is None ==> r.canvas.saved_model_scale is None
                && r.canvas.saved_model_offset is None
        }),
{
}

/// Fixtures that are put back leave no drag and no selection, and mark the results out of date.
pub proof fn restored_lights_start_clean(s: AppView, l: Seq<LuminaireView>)
    ensures
        ({
            let r = s.lights_restored(l);
            &&& r.light.luminaires == l
            &&& r.light.selected.len() == 0 && r.light.drag is None && r.light.hover is None
            &&& r.light.undo_pending is None
            &&& r.light.results_stale
            &&& r.light.rooms == s.light.rooms
        }),
{
}

/// A model that is put back is computed again, ends a change in flight, and keeps of the selected
/// furniture just what is still there; each material has the placement that the step holds for it,
/// and is otherwise as it is.
pub proof fn restored_model_starts_clean(s: AppView, snap: FactorySnapView, i: usize, k: int)
    requires
        0 <= k < s.factory.textures.len(),
    ensures
        ({
            let r = s.factory_restored(snap);
            &&& r.factory.data == snap.data
            &&& r.factory.selection.len() == 0 && r.factory.modify is None
            &&& r.factory.dirty && r.factory.recompute_due
            &&& r.factory.sel_furniture.contains(i) <==> s.factory.sel_furniture.contains(i) && i
                < snap.data.furniture.len()
            &&& r.factory.textures.len() == s.factory.textures.len()
            &&& k < snap.texture_xforms.len() ==> r.factory.textures[k].xform
                == snap.texture_xforms[k]
            &&& k >= snap.texture_xforms.len() ==> r.factory.textures[k] == s.factory.textures[k]
            &&& r.factory.textures[k].name == s.factory.textures[k].name
        }),
{
    let keep = |i: usize| i < snap.data.furniture.len();
    let sel = s.factory.sel_furniture;
    if sel.filter(keep).contains(i) {
        let j = choose|j: int| 0 <= j < sel.filter(keep).len() && sel.filter(keep)[j] == i;
        sel.lemma_filter_pred(keep, j);
        sel.lemma_filter_contains_rev(keep, i);
    }
    if sel.contains(i) && keep(i) {
        let j = choose|j: int| 0 <= j < sel.len() && sel[j] == i;
        sel.lemma_filter_contains(keep, j);
    }
}

/// What a history weighs is the sum of its steps, each of which weighs what it holds: the drawing and
/// the fixtures of a step that has both, and each sketch of the model.
pub proof fn steps_weigh_what_they_hold(s: Seq<StepView>, step: StepView, d: DocView, l: Seq<LuminaireView>)
    ensures
        stack_bytes(s.push(step)) == stack_bytes(s) + step_bytes(step),
        step_bytes(StepView::Both(d, l)) == step_bytes(StepView::Doc(d)) + step_bytes(
            StepView::Light(l),
        ),
        step_bytes(StepView::Doc(d)) >= 200 * d.dobjects.len(),
        step_bytes(StepView::Light(l)) == 200 * l.len(),
    decreases s.len(),
{
    if s.len() > 0 {
        steps_weigh_what_they_hold(s.drop_first(), step, d, l);
        assert(s.push(step).drop_first() =~= s.drop_first().push(step));
    } else {
        assert(s.push(step).drop_first() =~= Seq::<StepView>::empty());
        assert(stack_bytes(Seq::<StepView>::empty()) == 0);
    }
}

} // verus!
