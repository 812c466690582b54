//! Edits of the properties of several objects at once.
use vstd::prelude::*;

use crate::app::{AppView, CadApp, CanvasView};
use crate::copying::{group_views, views};
use crate::doc::{
    Color, DObject, DObjectView, DocView, Document, Geom, GeomKind, GeomView, Lineweight, Pt, Style,
    Traits, TraitsView,
};
use crate::grid::{clamp64, clamp_i64};
use crate::picker::PropsView;
use crate::props::{general_of, targeted};

verus! {

/// An edit of a property. Lengths and scales are in millionths, angles in millionths of a degree;
/// the slant of a text is in millionths of a radian.
///
/// An edit of what only one kind of object has leaves the others as they are.
pub enum PropEdit {
    Layer(u32),
    Color(Color),
    Linetype(u32),
    LtScale(i64),
    Lineweight(Lineweight),
    Visible(bool),
    LineXs(i64, i64),
    LineYs(i64, i64),
    LineEnd(Pt),
    Center(Pt),
    Radius(i64),
    PointStyle(u32),
    PointSize(i64),
    Closed(bool),
    HatchScale(i64),
    HatchAngle(i64),
    SplineWidth(i64),
    WallStyle(u32, Option<i64>),
    WallThickness(i64),
    TextStyle(u32),
    TextFont(String),
    TextBold(bool),
    TextSlant(i64),
    TextHeight(i64),
    TextAngle(i64),
    TextContent(String),
    DimStyle(u32),
    BlockScale(i64),
    BlockRotation(i64),
    BlockParam(usize, i64),
}

/// A value kept within bounds.
pub open spec fn bounded(v: i64, lo: i64, hi: i64) -> i64 {
    if v < lo {
        lo
    } else if v > hi {
        hi
    } else {
        v
    }
}

fn bound(v: i64, lo: i64, hi: i64) -> (r: i64)
    ensures
        r == bounded(v, lo, hi),
{
    if v < lo {
        lo
    } else if v > hi {
        hi
    } else {
        v
    }
}

/// An angle kept within one turn either way.
pub open spec fn bounded_angle(v: i64) -> i64 {
    bounded(v, -360_000_000i64 as i64, 360_000_000)
}

/// A style after an edit. The scale of a line type stays between a hundredth and a thousand.
pub open spec fn style_edited(s: Style, e: PropEdit) -> Style {
    match e {
        PropEdit::Layer(l) => Style { layer: l, ..s },
        PropEdit::Color(c) => Style { color: c, ..s },
        PropEdit::Linetype(l) => Style { linetype: l, ..s },
        PropEdit::LtScale(v) => Style { ltscale: bounded(v, 10_000, 1_000_000_000), ..s },
        PropEdit::Lineweight(w) => Style { lineweight: w, ..s },
        PropEdit::Visible(v) => Style { visible: v, ..s },
        _ => s,
    }
}

/// A line with given ends, in its bounding box.
pub open spec fn line_between(g: GeomView, a: Pt, b: Pt) -> GeomView {
    GeomView {
        pts: g.pts.update(0, a).update(1, b),
        lo: Pt {
            x: if a.x < b.x {
                a.x
            } else {
                b.x
            },
            y: if a.y < b.y {
                a.y
            } else {
                b.y
            },
        },
        hi: Pt {
            x: if a.x < b.x {
                b.x
            } else {
                a.x
            },
            y: if a.y < b.y {
                b.y
            } else {
                a.y
            },
        },
        ..g
    }
}

/// A circle with a given centre and radius, in its bounding box.
pub open spec fn circle_about(g: GeomView, c: Pt, r: i64) -> GeomView {
    GeomView {
        pts: g.pts.update(0, c),
        lo: Pt { x: clamp64(c.x - r), y: clamp64(c.y - r) },
        hi: Pt { x: clamp64(c.x + r), y: clamp64(c.y + r) },
        traits: TraitsView { size: r, ..g.traits },
        ..g
    }
}

/// A line or a circle after an edit of its place. A radius is never negative.
pub open spec fn shape_edited(g: GeomView, e: PropEdit) -> GeomView {
    if g.kind == GeomKind::Line && g.pts.len() >= 2 {
        match e {
            PropEdit::LineXs(a, b) => line_between(
                g,
                Pt { x: a, y: g.pts[0].y },
                Pt { x: b, y: g.pts[1].y },
            ),
            PropEdit::LineYs(a, b) => line_between(
                g,
                Pt { x: g.pts[0].x, y: a },
                Pt { x: g.pts[1].x, y: b },
            ),
            PropEdit::LineEnd(p) => line_between(g, g.pts[0], p),
            _ => g,
        }
    } else if g.kind == GeomKind::Circle && g.pts.len() >= 1 {
        match e {
            PropEdit::Center(c) => circle_about(g, c, g.traits.size),
            PropEdit::Radius(r) => circle_about(
                g,
                g.pts[0],
                if r < 0 {
                    0
                } else {
                    r
                },
            ),
            _ => g,
        }
    } else {
        g
    }
}

/// The turn of an object after an edit.
pub open spec fn turn_edited(g: GeomView, e: PropEdit) -> i64 {
    match e {
        PropEdit::HatchAngle(a) if g.kind == GeomKind::Hatch && g.traits.flag => bounded_angle(a),
        PropEdit::TextAngle(a) if g.kind == GeomKind::Text => bounded_angle(a),
        PropEdit::BlockRotation(a) if g.kind == GeomKind::BlockRef => bounded_angle(a),
        _ => g.turn,
    }
}

/// What an object has besides its place after an edit of its measure.
pub open spec fn size_edited(k: GeomKind, t: TraitsView, e: PropEdit) -> i64 {
    match e {
        PropEdit::PointSize(v) if k == GeomKind::Point => bounded(v, 0, 1_000_000_000_000),
        PropEdit::HatchScale(v) if k == GeomKind::Hatch && t.flag => bounded(
            v,
            1_000,
            1_000_000_000_000,
        ),
        PropEdit::SplineWidth(v) if k == GeomKind::Spline => bounded(v, 0, 1_000_000_000_000_000),
        PropEdit::WallThickness(v) if k == GeomKind::Wall => bounded(
            v,
            1_000,
            1_000_000_000_000_000,
        ),
        PropEdit::WallStyle(_, Some(v)) if k == GeomKind::Wall && v > 0 => v,
        PropEdit::TextHeight(v) if k == GeomKind::Text => bounded(v, 1_000, 1_000_000_000_000_000),
        PropEdit::BlockScale(v) if k == GeomKind::BlockRef => bounded(
            v,
            100,
            1_000_000_000_000_000,
        ),
        _ => t.size,
    }
}

/// The named style of an object after an edit. The style of a point ends at ninety-nine.
pub open spec fn named_style_edited(k: GeomKind, t: TraitsView, e: PropEdit) -> u32 {
    match e {
        PropEdit::PointStyle(v) if k == GeomKind::Point => if v > 99 {
            99
        } else {
            v
        },
        PropEdit::WallStyle(id, _) if k == GeomKind::Wall => id,
        PropEdit::TextStyle(id) if k == GeomKind::Text => id,
        PropEdit::DimStyle(id) if k == GeomKind::Dimension => id,
        _ => t.style,
    }
}

/// What an object has besides its place after an edit.
pub open spec fn traits_edited(k: GeomKind, t: TraitsView, e: PropEdit) -> TraitsView {
    TraitsView {
        size: size_edited(k, t, e),
        style: named_style_edited(k, t, e),
        flag: match e {
            PropEdit::Closed(v) if k == GeomKind::Polyline => v,
            PropEdit::TextBold(v) if k == GeomKind::Text => v,
            _ => t.flag,
        },
        slant: match e {
            PropEdit::TextSlant(v) if k == GeomKind::Text => v,
            _ => t.slant,
        },
        label: match e {
            PropEdit::TextContent(s) if k == GeomKind::Text => s@,
            _ => t.label,
        },
        font: match e {
            PropEdit::TextFont(s) if k == GeomKind::Text => s@,
            _ => t.font,
        },
        params: match e {
            PropEdit::BlockParam(i, v) if k == GeomKind::BlockRef && i < t.params.len() =>
                t.params.update(i as int, v),
            _ => t.params,
        },
    }
}

/// A shape after an edit.
pub open spec fn geom_edited(g: GeomView, e: PropEdit) -> GeomView {
    let h = shape_edited(g, e);
    GeomView { turn: turn_edited(h, e), traits: traits_edited(h.kind, h.traits, e), ..h }
}

/// An object after an edit.
pub open spec fn object_edited(d: DObjectView, e: PropEdit) -> DObjectView {
    DObjectView { geom: geom_edited(d.geom, e), style: style_edited(d.style, e), ..d }
}

/// Objects after an edit of those at the first `n` targets.
pub open spec fn objects_edited(d: Seq<DObjectView>, targets: Seq<usize>, n: int, e: PropEdit)
    -> Seq<DObjectView>
    decreases n,
{
    if n <= 0 {
        d
    } else {
        let before = objects_edited(d, targets, n - 1, e);
        let i = targets[n - 1] as int;
        if i < before.len() {
            before.update(i, object_edited(before[i], e))
        } else {
            before
        }
    }
}

fn edit_style(s: Style, e: &PropEdit) -> (r: Style)
    ensures
        r == style_edited(s, *e),
{
    match e {
        PropEdit::Layer(l) => Style { layer: *l, ..s },
        PropEdit::Color(c) => Style { color: *c, ..s },
        PropEdit::Linetype(l) => Style { linetype: *l, ..s },
        PropEdit::LtScale(v) => Style { ltscale: bound(*v, 10_000, 1_000_000_000), ..s },
        PropEdit::Lineweight(w) => Style { lineweight: *w, ..s },
        PropEdit::Visible(v) => Style { visible: *v, ..s },
        _ => s,
    }
}

fn lower_of(a: i64, b: i64) -> (r: i64)
    ensures
        r == if a < b {
            a
        } else {
            b
        },
{
    if a < b {
        a
    } else {
        b
    }
}

fn upper_of(a: i64, b: i64) -> (r: i64)
    ensures
        r == if a < b {
            b
        } else {
            a
        },
{
    if a < b {
        b
    } else {
        a
    }
}

fn set_line(g: &mut Geom, a: Pt, b: Pt)
    requires
        old(g)@.pts.len() >= 2,
    ensures
        final(g)@ == line_between(old(g)@, a, b),
{
    g.pts.set(0, a);
    g.pts.set(1, b);
    g.lo = Pt { x: lower_of(a.x, b.x), y: lower_of(a.y, b.y) };
    g.hi = Pt { x: upper_of(a.x, b.x), y: upper_of(a.y, b.y) };
}

fn set_circle(g: &mut Geom, c: Pt, r: i64)
    requires
        old(g)@.pts.len() >= 1,
    ensures
        final(g)@ == circle_about(old(g)@, c, r),
{
    g.pts.set(0, c);
    g.lo = Pt { x: clamp_i64(c.x as i128 - r as i128), y: clamp_i64(c.y as i128 - r as i128) };
    g.hi = Pt { x: clamp_i64(c.x as i128 + r as i128), y: clamp_i64(c.y as i128 + r as i128) };
    g.traits.size = r;
}

fn edit_line(g: &mut Geom, e: &PropEdit)
    requires
        old(g)@.kind == GeomKind::Line,
        old(g)@.pts.len() >= 2,
    ensures
        final(g)@ == shape_edited(old(g)@, *e),
{
    let a: Pt = g.pts[0];
    let b: Pt = g.pts[1];
    match e {
        PropEdit::LineXs(p, q) => set_line(g, Pt { x: *p, y: a.y }, Pt { x: *q, y: b.y }),
        PropEdit::LineYs(p, q) => set_line(g, Pt { x: a.x, y: *p }, Pt { x: b.x, y: *q }),
        PropEdit::LineEnd(p) => set_line(g, a, *p),
        _ => {},
    }
}

fn edit_circle(g: &mut Geom, e: &PropEdit)
    requires
        old(g)@.kind == GeomKind::Circle,
        old(g)@.pts.len() >= 1,
    ensures
        final(g)@ == shape_edited(old(g)@, *e),
{
    let r: i64 = g.traits.size;
    let c: Pt = g.pts[0];
    match e {
        PropEdit::Center(p) => set_circle(g, *p, r),
        PropEdit::Radius(v) => set_circle(g, c, upper_of(*v, 0)),
        _ => {},
    }
}

fn edit_shape(g: &mut Geom, e: &PropEdit)
    ensures
        final(g)@ == shape_edited(old(g)@, *e),
{
    if g.kind == GeomKind::Line && g.pts.len() >= 2 {
        edit_line(g, e);
    } else if g.kind == GeomKind::Circle && g.pts.len() >= 1 {
        edit_circle(g, e);
    }
}

fn edited_turn(g: &Geom, e: &PropEdit) -> (r: i64)
    ensures
        r == turn_edited(g@, *e),
{
    match e {
        PropEdit::HatchAngle(a) if g.kind == GeomKind::Hatch && g.traits.flag => bound(
            *a,
            -360_000_000,
            360_000_000,
        ),
        PropEdit::TextAngle(a) if g.kind == GeomKind::Text => bound(
            *a,
            -360_000_000,
            360_000_000,
        ),
        PropEdit::BlockRotation(a) if g.kind == GeomKind::BlockRef => bound(
            *a,
            -360_000_000,
            360_000_000,
        ),
        _ => g.turn,
    }
}

fn edited_size(k: GeomKind, t: &Traits, e: &PropEdit) -> (r: i64)
    ensures
        r == size_edited(k, t@, *e),
{
    match e {
        PropEdit::PointSize(v) if k == GeomKind::Point => bound(*v, 0, 1_000_000_000_000),
        PropEdit::HatchScale(v) if k == GeomKind::Hatch && t.flag => bound(
            *v,
            1_000,
            1_000_000_000_000,
        ),
        PropEdit::SplineWidth(v) if k == GeomKind::Spline => bound(*v, 0, 1_000_000_000_000_000),
        PropEdit::WallThickness(v) if k == GeomKind::Wall => bound(
            *v,
            1_000,
            1_000_000_000_000_000,
        ),
        PropEdit::WallStyle(_, Some(v)) if k == GeomKind::Wall && *v > 0 => *v,
        PropEdit::TextHeight(v) if k == GeomKind::Text => bound(*v, 1_000, 1_000_000_000_000_000),
        PropEdit::BlockScale(v) if k == GeomKind::BlockRef => bound(
            *v,
            100,
            1_000_000_000_000_000,
        ),
        _ => t.size,
    }
}

fn edited_named_style(k: GeomKind, t: &Traits, e: &PropEdit) -> (r: u32)
    ensures
        r == named_style_edited(k, t@, *e),
{
    match e {
        PropEdit::PointStyle(v) if k == GeomKind::Point => if *v > 99 {
            99
        } else {
            *v
        },
        PropEdit::WallStyle(id, _) if k == GeomKind::Wall => *id,
        PropEdit::TextStyle(id) if k == GeomKind::Text => *id,
        PropEdit::DimStyle(id) if k == GeomKind::Dimension => *id,
        _ => t.style,
    }
}

fn edit_text_traits(k: GeomKind, t: &mut Traits, e: &PropEdit)
    ensures
        final(t)@ == (TraitsView {
            size: old(t)@.size,
            style: old(t)@.style,
            ..traits_edited(k, old(t)@, *e)
        }),
{
    match e {
        PropEdit::Closed(v) => {
            if k == GeomKind::Polyline {
                t.flag = *v;
            }
        },
        PropEdit::TextBold(v) => {
            if k == GeomKind::Text {
                t.flag = *v;
            }
        },
        PropEdit::TextSlant(v) => {
            if k == GeomKind::Text {
                t.slant = *v;
            }
        },
        PropEdit::TextContent(s) => {
            if k == GeomKind::Text {
                t.label = s.clone();
            }
        },
        PropEdit::TextFont(s) => {
            if k == GeomKind::Text {
                t.font = s.clone();
            }
        },
        PropEdit::BlockParam(i, v) => {
            if k == GeomKind::BlockRef && *i < t.params.len() {
                t.params.set(*i, *v);
            }
        },
        _ => {},
    }
}

fn edit_traits(k: GeomKind, t: &mut Traits, e: &PropEdit)
    ensures
        final(t)@ == traits_edited(k, old(t)@, *e),
{
    let size: i64 = edited_size(k, t, e);
    let style: u32 = edited_named_style(k, t, e);
    edit_text_traits(k, t, e);
    t.size = size;
    t.style = style;
}

fn edit_geom(g: &mut Geom, e: &PropEdit)
    ensures
        final(g)@ == geom_edited(old(g)@, *e),
{
    edit_shape(g, e);
    let turn: i64 = edited_turn(g, e);
    let k: GeomKind = g.kind;
    edit_traits(k, &mut g.traits, e);
    g.turn = turn;
}

fn edit_object(d: &mut DObject, e: &PropEdit)
    ensures
        final(d)@ == object_edited(old(d)@, *e),
{
    edit_geom(&mut d.geom, e);
    d.style = edit_style(d.style, e);
}

proof fn edited_len(d: Seq<DObjectView>, targets: Seq<usize>, n: int, e: PropEdit)
    ensures
        objects_edited(d, targets, n, e).len() == d.len(),
    decreases n,
{
    if n > 0 {
        edited_len(d, targets, n - 1, e);
    }
}

impl Document {
    fn edit_objects(&mut self, targets: &Vec<usize>, e: &PropEdit)
        ensures
            final(self)@ == (DocView {
                dobjects: objects_edited(
                    old(self)@.dobjects,
                    targets@,
                    targets@.len() as int,
                    *e,
                ),
                ..old(self)@
            }),
    {
        broadcast use group_views;

        let ghost was = self@;
        let mut n: usize = 0;
        while n < targets.len()
            invariant
                n <= targets.len(),
                self@ == (DocView {
                    dobjects: objects_edited(was.dobjects, targets@, n as int, *e),
                    ..was
                }),
            decreases targets.len() - n,
        {
            let i: usize = targets[n];
            if i < self.dobjects.len() {
                let ghost before = self.dobjects@;
                edit_object(&mut self.dobjects[i], e);
                assert(self.dobjects@ =~= before.update(i as int, self.dobjects@[i as int]));
                assert(views(before)[i as int] == before[i as int]@);
            }
            n += 1;
        }
    }
}

impl AppView {
    /// After an edit of the objects at some places, without a step of the undo history.
    pub open spec fn props_set(self, targets: Seq<usize>, e: PropEdit) -> AppView {
        AppView {
            doc: DocView {
                dobjects: objects_edited(self.doc.dobjects, targets, targets.len() as int, e),
                ..self.doc
            },
            canvas: CanvasView {
                intersections: Seq::empty(),
                index_dirty: true,
                view_dirty: true,
                ..self.canvas
            },
            ..self
        }
    }

    /// After an edit of the objects at some places, as a step of the undo history or as a part of
    /// one.
    pub open spec fn props_applied(self, targets: Seq<usize>, snapshot: bool, e: PropEdit)
        -> AppView {
        if snapshot {
            self.doc_recorded().props_set(targets, e)
        } else {
            self.props_set(targets, e)
        }
    }

    /// After a frame of a gesture on a field: the first change of the gesture is recorded, and
    /// only that one.
    pub open spec fn gesture_seen(self, changed: bool, ended: bool) -> AppView {
        let s = if changed && !self.props.edit_gesture {
            self.doc_recorded()
        } else {
            self
        };
        AppView {
            props: PropsView {
                edit_gesture: (s.props.edit_gesture || changed) && !ended,
                ..s.props
            },
            ..s
        }
    }

    /// After a frame of a field that is edited by dragging or typing.
    pub open spec fn field_seen(self, targets: Seq<usize>, e: Option<PropEdit>, ended: bool)
        -> AppView {
        let s = self.gesture_seen(e is Some, ended);
        match e {
            Some(e) => s.props_set(targets, e),
            None => s,
        }
    }
}

impl CadApp {
    fn props_redrawn(&mut self)
        ensures
            final(self)@ == (AppView {
                canvas: CanvasView {
                    intersections: Seq::empty(),
                    index_dirty: true,
                    view_dirty: true,
                    ..old(self)@.canvas
                },
                ..old(self)@
            }),
    {
        self.canvas.intersections = Vec::new();
        self.canvas.index_dirty = true;
        self.canvas.view_dirty = true;
    }

    fn edit_targets(&mut self, targets: &Vec<usize>, e: &PropEdit)
        ensures
            final(self)@ == (AppView {
                doc: DocView {
                    dobjects: objects_edited(
                        old(self)@.doc.dobjects,
                        targets@,
                        targets@.len() as int,
                        *e,
                    ),
                    ..old(self)@.doc
                },
                ..old(self)@
            }),
    {
        self.doc.edit_objects(targets, e);
    }

    /// Edits the objects at some places, after recording one step of the undo history where that
    /// is asked for.
    pub fn props_apply(&mut self, targets: &Vec<usize>, snapshot: bool, e: &PropEdit)
        ensures
            final(self)@ == old(self)@.props_applied(targets@, snapshot, *e),
    {
        if snapshot {
            self.snapshot_doc();
        }
        self.edit_targets(targets, e);
        self.props_redrawn();
    }

    fn set_gesture(&mut self, on: bool)
        ensures
            final(self)@ == (AppView {
                props: PropsView { edit_gesture: on, ..old(self)@.props },
                ..old(self)@
            }),
    {
        self.props.edit_gesture = on;
    }

    /// Records a step of the undo history on the first change of a gesture. It returns whether it
    /// did.
    pub fn props_gesture_snapshot(&mut self, changed: bool, ended: bool) -> (r: bool)
        ensures
            final(self)@ == old(self)@.gesture_seen(changed, ended),
            r == (changed && !old(self)@.props.edit_gesture),
    {
        let on = self.props.edit_gesture;
        let first = changed && !on;
        if first {
            self.snapshot_doc();
        }
        self.set_gesture((on || changed) && !ended);
        first
    }

    /// Takes a frame of a field that is edited by dragging or typing: the edit it made, if any, and
    /// whether the gesture ended. It returns whether a step of the undo history was recorded.
    pub fn props_field(&mut self, targets: &Vec<usize>, e: Option<PropEdit>, ended: bool) -> (r: bool)
        ensures
            final(self)@ == old(self)@.field_seen(targets@, e, ended),
            r == (e is Some && !old(self)@.props.edit_gesture),
    {
        let first = self.props_gesture_snapshot(e.is_some(), ended);
        if let Some(e) = e {
            self.props_apply(targets, false, &e);
        }
        first
    }
}

/// An edit changes no object but its targets.
pub proof fn edit_keeps_others(d: Seq<DObjectView>, targets: Seq<usize>, n: int, e: PropEdit, i: int)
    requires
        n <= targets.len(),
        0 <= i < d.len(),
        forall|k: int| 0 <= k < targets.len() ==> #[trigger] targets[k] != i,
    ensures
        objects_edited(d, targets, n, e).len() == d.len(),
        objects_edited(d, targets, n, e)[i] == d[i],
    decreases n,
{
    edited_len(d, targets, n, e);
    if n > 0 {
        edited_len(d, targets, n - 1, e);
        edit_keeps_others(d, targets, n - 1, e, i);
        assert(targets[n - 1] != i);
    }
}

/// An edit neither adds nor removes objects, nor changes a handle.
pub proof fn edit_keeps_handles(d: Seq<DObjectView>, targets: Seq<usize>, n: int, e: PropEdit, i: int)
    requires
        0 <= i < d.len(),
    ensures
        objects_edited(d, targets, n, e).len() == d.len(),
        objects_edited(d, targets, n, e)[i].handle == d[i].handle,
        objects_edited(d, targets, n, e)[i].geom.kind == d[i].geom.kind,
    decreases n,
{
    edited_len(d, targets, n, e);
    if n > 0 {
        edited_len(d, targets, n - 1, e);
        edit_keeps_handles(d, targets, n - 1, e, i);
    }
}

proof fn edited_layer(d: Seq<DObjectView>, targets: Seq<usize>, n: int, l: u32, k: int)
    requires
        0 <= k < n <= targets.len(),
        targets[k] < d.len(),
    ensures
        objects_edited(d, targets, n, PropEdit::Layer(l))[targets[k] as int].style.layer == l,
    decreases n,
{
    edited_len(d, targets, n - 1, PropEdit::Layer(l));
    if k < n - 1 {
        edited_layer(d, targets, n - 1, l, k);
    }
}

/// After several objects have been put on a layer, that is the layer they share.
pub proof fn edit_is_shared(s: AppView, targets: Seq<usize>, snapshot: bool, l: u32)
    requires
        targets.len() > 0,
        forall|k: int| 0 <= k < targets.len() ==> #[trigger] targets[k] < s.doc.dobjects.len(),
    ensures
        general_of(
            targeted(
                s.props_applied(targets, snapshot, PropEdit::Layer(l)).doc.dobjects,
                targets,
            ),
        ).layer == Some(l),
{
    let d = objects_edited(
        s.doc.dobjects,
        targets,
        targets.len() as int,
        PropEdit::Layer(l),
    );
    edited_len(s.doc.dobjects, targets, targets.len() as int, PropEdit::Layer(l));
    targets_all_in(d, targets);
    let layers = targeted(d, targets).map_values(|o: DObjectView| o.style.layer);
    assert forall|k: int| 0 <= k < layers.len() implies #[trigger] layers[k] == l by {
        edited_layer(s.doc.dobjects, targets, targets.len() as int, l, k);
    }
    assert(layers[0] == l);
}

proof fn targets_all_in(d: Seq<DObjectView>, targets: Seq<usize>)
    requires
        forall|k: int| 0 <= k < targets.len() ==> #[trigger] targets[k] < d.len(),
    ensures
        targeted(d, targets) == targets.map_values(|i: usize| d[i as int]),
    decreases targets.len(),
{
    let all = targets.map_values(|i: usize| d[i as int]);
    if targets.len() > 0 {
        let rest = targets.drop_last();
        assert forall|k: int| 0 <= k < rest.len() implies #[trigger] rest[k] < d.len() by {
            assert(rest[k] == targets[k]);
        }
        targets_all_in(d, rest);
        assert(targets[targets.len() - 1] < d.len());
        assert(all =~= rest.map_values(|i: usize| d[i as int]).push(d[targets.last() as int]));
    } else {
        assert(all =~= Seq::<DObjectView>::empty());
    }
}

/// A gesture is one step of the undo history: once a change has been recorded, the further frames
/// of the gesture record nothing, and the next gesture records again.
pub proof fn gesture_is_one_step(s: AppView, targets: Seq<usize>, e: PropEdit, f: PropEdit)
    requires
        !s.props.edit_gesture,
    ensures
        s.field_seen(targets, Some(e), false).undo == s.doc_recorded().undo,
        s.field_seen(targets, Some(e), false).field_seen(targets, Some(f), false).undo
            == s.doc_recorded().undo,
        !s.field_seen(targets, Some(e), false).field_seen(targets, None, true).props.edit_gesture,
{
}

/// Whether a value was set, or the nearest one within bounds.
pub open spec fn set_within(got: i64, want: i64, lo: int, hi: int) -> bool {
    &&& lo <= got <= hi
    &&& lo <= want <= hi ==> got == want
    &&& want < lo ==> got == lo
    &&& want > hi ==> got == hi
}

/// Whether the box of a line is spanned by its two ends.
pub open spec fn boxed_line(g: GeomView) -> bool {
    let a = g.pts[0];
    let b = g.pts[1];
    &&& g.lo.x <= a.x <= g.hi.x && g.lo.x <= b.x <= g.hi.x
    &&& g.lo.y <= a.y <= g.hi.y && g.lo.y <= b.y <= g.hi.y
    &&& (g.lo.x == a.x && g.hi.x == b.x) || (g.lo.x == b.x && g.hi.x == a.x)
    &&& (g.lo.y == a.y && g.hi.y == b.y) || (g.lo.y == b.y && g.hi.y == a.y)
}

/// Whether the box of a circle lies about its centre, as far as it can be held.
pub open spec fn boxed_circle(g: GeomView) -> bool {
    let c = g.pts[0];
    let r = g.traits.size;
    &&& c.x - r >= i64::MIN && c.x - r <= i64::MAX ==> g.lo.x == c.x - r
    &&& c.y - r >= i64::MIN && c.y - r <= i64::MAX ==> g.lo.y == c.y - r
    &&& c.x + r >= i64::MIN && c.x + r <= i64::MAX ==> g.hi.x == c.x + r
    &&& c.y + r >= i64::MIN && c.y + r <= i64::MAX ==> g.hi.y == c.y + r
}

/// Whether an object has after an edit what the edit asked for, where the edit is one of its kind.
pub open spec fn edit_took(d: DObjectView, r: DObjectView, e: PropEdit) -> bool {
    let k = d.geom.kind;
    let g = d.geom;
    let h = r.geom;
    let line = k == GeomKind::Line && g.pts.len() >= 2;
    let circle = k == GeomKind::Circle && g.pts.len() >= 1;
    match e {
        PropEdit::Layer(l) => r.style.layer == l,
        PropEdit::Color(c) => r.style.color == c,
        PropEdit::Linetype(l) => r.style.linetype == l,
        PropEdit::LtScale(v) => set_within(r.style.ltscale, v, 10_000, 1_000_000_000),
        PropEdit::Lineweight(w) => r.style.lineweight == w,
        PropEdit::Visible(v) => r.style.visible == v,
        PropEdit::LineXs(a, b) => line ==> h.pts[0].x == a && h.pts[1].x == b && h.pts[0].y
            == g.pts[0].y && h.pts[1].y == g.pts[1].y && boxed_line(h),
        PropEdit::LineYs(a, b) => line ==> h.pts[0].y == a && h.pts[1].y == b && h.pts[0].x
            == g.pts[0].x && h.pts[1].x == g.pts[1].x && boxed_line(h),
        PropEdit::LineEnd(p) => line ==> h.pts[1] == p && h.pts[0] == g.pts[0] && boxed_line(h),
        PropEdit::Center(p) => circle ==> h.pts[0] == p && h.traits.size == g.traits.size
            && boxed_circle(h),
        PropEdit::Radius(v) => circle ==> h.pts[0] == g.pts[0] && set_within(
            h.traits.size,
            v,
            0,
            i64::MAX as int,
        ) && boxed_circle(h),
        PropEdit::PointStyle(v) => k == GeomKind::Point ==> h.traits.style <= 99 && (v <= 99
            ==> h.traits.style == v) && (v > 99 ==> h.traits.style == 99),
        PropEdit::PointSize(v) => k == GeomKind::Point ==> set_within(
            h.traits.size,
            v,
            0,
            1_000_000_000_000,
        ),
        PropEdit::Closed(v) => k == GeomKind::Polyline ==> h.traits.flag == v,
        PropEdit::HatchScale(v) => k == GeomKind::Hatch && g.traits.flag ==> set_within(
            h.traits.size,
            v,
            1_000,
            1_000_000_000_000,
        ),
        PropEdit::HatchAngle(v) => k == GeomKind::Hatch && g.traits.flag ==> set_within(
            h.turn,
            v,
            -360_000_000,
            360_000_000,
        ),
        PropEdit::SplineWidth(v) => k == GeomKind::Spline ==> set_within(
            h.traits.size,
            v,
            0,
            1_000_000_000_000_000,
        ),
        PropEdit::WallStyle(id, t) => k == GeomKind::Wall ==> h.traits.style == id && (
        t matches Some(v) ==> h.traits.size == if v > 0 {
            v
        } else {
            g.traits.size
        }) && (t is None ==> h.traits.size == g.traits.size),
        PropEdit::WallThickness(v) => k == GeomKind::Wall ==> set_within(
            h.traits.size,
            v,
            1_000,
            1_000_000_000_000_000,
        ),
        PropEdit::TextStyle(id) => k == GeomKind::Text ==> h.traits.style == id,
        PropEdit::TextFont(t) => k == GeomKind::Text ==> h.traits.font == t@,
        PropEdit::TextBold(v) => k == GeomKind::Text ==> h.traits.flag == v,
        PropEdit::TextSlant(v) => k == GeomKind::Text ==> h.traits.slant == v,
        PropEdit::TextHeight(v) => k == GeomKind::Text ==> set_within(
            h.traits.size,
            v,
            1_000,
            1_000_000_000_000_000,
        ),
        PropEdit::TextAngle(v) => k == GeomKind::Text ==> set_within(
            h.turn,
            v,
            -360_000_000,
            360_000_000,
        ),
        PropEdit::TextContent(t) => k == GeomKind::Text ==> h.traits.label == t@,
        PropEdit::DimStyle(id) => k == GeomKind::Dimension ==> h.traits.style == id,
        PropEdit::BlockScale(v) => k == GeomKind::BlockRef ==> set_within(
            h.traits.size,
            v,
            100,
            1_000_000_000_000_000,
        ),
        PropEdit::BlockRotation(v) => k == GeomKind::BlockRef ==> set_within(
            h.turn,
            v,
            -360_000_000,
            360_000_000,
        ),
        PropEdit::BlockParam(i, v) => k == GeomKind::BlockRef && i < g.traits.params.len()
            ==> h.traits.params.len() == g.traits.params.len() && h.traits.params[i as int] == v
            && forall|j: int|
            0 <= j < g.traits.params.len() && j != i ==> (#[trigger] h.traits.params[j])
                == g.traits.params[j],
    }
}

/// Whether an edit is of the style, which every object has.
pub open spec fn edits_style(e: PropEdit) -> bool {
    e is Layer || e is Color || e is Linetype || e is LtScale || e is Lineweight || e is Visible
}

/// Whether an edit is of something that a kind of object has.
pub open spec fn edits_kind(e: PropEdit, k: GeomKind) -> bool {
    match k {
        GeomKind::Line => e is LineXs || e is LineYs || e is LineEnd,
        GeomKind::Circle => e is Center || e is Radius,
        GeomKind::Point => e is PointStyle || e is PointSize,
        GeomKind::Polyline => e is Closed,
        GeomKind::Hatch => e is HatchScale || e is HatchAngle,
        GeomKind::Spline => e is SplineWidth,
        GeomKind::Wall => e is WallStyle || e is WallThickness,
        GeomKind::Text => e is TextStyle || e is TextFont || e is TextBold || e is TextSlant || e
            is TextHeight || e is TextAngle || e is TextContent,
        GeomKind::Dimension => e is DimStyle,
        GeomKind::BlockRef => e is BlockScale || e is BlockRotation || e is BlockParam,
        _ => false,
    }
}

proof fn object_edit_takes(d: DObjectView, e: PropEdit)
    ensures
        edit_took(d, object_edited(d, e), e),
{
}

proof fn object_edit_is_narrow(d: DObjectView, e: PropEdit)
    ensures
        ({
            let r = object_edited(d, e);
            &&& r.handle == d.handle && r.geom.kind == d.geom.kind
            &&& r.geom.pts.len() == d.geom.pts.len()
            &&& edits_style(e) ==> r.geom == d.geom
            &&& !edits_style(e) ==> r.style == d.style
            &&& !edits_style(e) && !edits_kind(e, d.geom.kind) ==> r == d
            &&& forall|i: int|
                2 <= i < d.geom.pts.len() ==> (#[trigger] r.geom.pts[i]) == d.geom.pts[i]
        }),
{
    let r = object_edited(d, e);
    if !edits_style(e) && !edits_kind(e, d.geom.kind) {
        assert(r.geom =~= d.geom);
    }
    if edits_style(e) {
        assert(r.geom =~= d.geom);
    }
}

proof fn object_edit_keeps_the_rest(d: DObjectView, e: PropEdit)
    ensures
        ({
            let a = d.style;
            let b = object_edited(d, e).style;
            let g = d.geom;
            let h = object_edited(d, e).geom;
            &&& !(e is Layer) ==> b.layer == a.layer
            &&& !(e is Color) ==> b.color == a.color
            &&& !(e is Linetype) ==> b.linetype == a.linetype
            &&& !(e is LtScale) ==> b.ltscale == a.ltscale
            &&& !(e is Lineweight) ==> b.lineweight == a.lineweight
            &&& !(e is Visible) ==> b.visible == a.visible
            &&& !(e is HatchAngle || e is TextAngle || e is BlockRotation) ==> h.turn == g.turn
            &&& !(e is LineXs || e is LineYs || e is LineEnd || e is Center || e is Radius)
                ==> h.pts == g.pts && h.lo == g.lo && h.hi == g.hi
            &&& !(e is Radius || e is PointSize || e is HatchScale || e is SplineWidth || e
                is WallStyle || e is WallThickness || e is TextHeight || e is BlockScale)
                ==> h.traits.size == g.traits.size
            &&& !(e is PointStyle || e is WallStyle || e is TextStyle || e is DimStyle)
                ==> h.traits.style == g.traits.style
            &&& !(e is Closed || e is TextBold) ==> h.traits.flag == g.traits.flag
            &&& !(e is TextSlant) ==> h.traits.slant == g.traits.slant
            &&& !(e is TextContent) ==> h.traits.label == g.traits.label
            &&& !(e is TextFont) ==> h.traits.font == g.traits.font
            &&& !(e is BlockParam) ==> h.traits.params == g.traits.params
        }),
{
}

proof fn object_edit_settles(d: DObjectView, e: PropEdit)
    ensures
        object_edited(object_edited(d, e), e) == object_edited(d, e),
{
    let r = object_edited(d, e);
    let q = object_edited(r, e);
    assert(q.geom.pts =~= r.geom.pts);
    assert(q.geom.traits.params =~= r.geom.traits.params);
    assert(q.geom =~= r.geom);
}

proof fn targets_are_edited(d: Seq<DObjectView>, targets: Seq<usize>, n: int, e: PropEdit, k: int)
    requires
        0 <= k < n <= targets.len(),
        targets[k] < d.len(),
    ensures
        objects_edited(d, targets, n, e)[targets[k] as int] == object_edited(
            d[targets[k] as int],
            e,
        ),
    decreases n,
{
    let t = targets[k] as int;
    edited_len(d, targets, n - 1, e);
    let before = objects_edited(d, targets, n - 1, e);
    if exists|j: int| 0 <= j < n - 1 && targets[j] == t {
        let j = choose|j: int| 0 <= j < n - 1 && targets[j] == t;
        targets_are_edited(d, targets, n - 1, e, j);
        object_edit_settles(d[t], e);
    } else {
        untouched_so_far(d, targets, n - 1, e, t);
    }
}

proof fn untouched_so_far(d: Seq<DObjectView>, targets: Seq<usize>, n: int, e: PropEdit, i: int)
    requires
        n <= targets.len(),
        0 <= i < d.len(),
        forall|j: int| 0 <= j < n ==> targets[j] != i,
    ensures
        objects_edited(d, targets, n, e)[i] == d[i],
    decreases n,
{
    edited_len(d, targets, n, e);
    if n > 0 {
        edited_len(d, targets, n - 1, e);
        untouched_so_far(d, targets, n - 1, e, i);
        assert(targets[n - 1] != i);
    }
}

/// Every target has after an edit what the edit asked for: the property that was set reads back as
/// the value that was set, within its bounds, where the object is of the kind that has it. That
/// holds also where a target is named twice.
pub proof fn edit_reads_back(s: AppView, targets: Seq<usize>, snapshot: bool, e: PropEdit, k: int)
    requires
        0 <= k < targets.len(),
        targets[k] < s.doc.dobjects.len(),
    ensures
        edit_took(
            s.doc.dobjects[targets[k] as int],
            s.props_applied(targets, snapshot, e).doc.dobjects[targets[k] as int],
            e,
        ),
{
    targets_are_edited(s.doc.dobjects, targets, targets.len() as int, e, k);
    object_edit_takes(s.doc.dobjects[targets[k] as int], e);
}

/// An edit changes of an object just what it is of: one of the style leaves the shape, one of the
/// shape leaves the style, one of another kind's property leaves the object, and each leaves all
/// the other properties. An object that is no target stays as it is, and so does everything else of
/// the drawing.
pub proof fn edit_changes_just_that(s: AppView, targets: Seq<usize>, snapshot: bool, e: PropEdit, i: int)
    requires
        0 <= i < s.doc.dobjects.len(),
    ensures
        ({
            let r = s.props_applied(targets, snapshot, e);
            let a = s.doc.dobjects[i];
            let b = r.doc.dobjects[i];
            &&& r.doc.dobjects.len() == s.doc.dobjects.len()
            &&& b.handle == a.handle && b.geom.kind == a.geom.kind
            &&& !(exists|k: int| 0 <= k < targets.len() && targets[k] == i) ==> b == a
            &&& edits_style(e) ==> b.geom == a.geom
            &&& !edits_style(e) ==> b.style == a.style
            &&& !edits_style(e) && !edits_kind(e, a.geom.kind) ==> b == a
            &&& !(e is Layer) ==> b.style.layer == a.style.layer
            &&& !(e is Color) ==> b.style.color == a.style.color
            &&& !(e is Linetype) ==> b.style.linetype == a.style.linetype
            &&& !(e is LtScale) ==> b.style.ltscale == a.style.ltscale
            &&& !(e is Lineweight) ==> b.style.lineweight == a.style.lineweight
            &&& !(e is Visible) ==> b.style.visible == a.style.visible
            &&& !(e is HatchAngle || e is TextAngle || e is BlockRotation) ==> b.geom.turn
                == a.geom.turn
            &&& !(e is LineXs || e is LineYs || e is LineEnd || e is Center || e is Radius)
                ==> b.geom.pts == a.geom.pts && b.geom.lo == a.geom.lo && b.geom.hi == a.geom.hi
            &&& !(e is Radius || e is PointSize || e is HatchScale || e is SplineWidth || e
                is WallStyle || e is WallThickness || e is TextHeight || e is BlockScale)
                ==> b.geom.traits.size == a.geom.traits.size
            &&& !(e is PointStyle || e is WallStyle || e is TextStyle || e is DimStyle)
                ==> b.geom.traits.style == a.geom.traits.style
            &&& !(e is Closed || e is TextBold) ==> b.geom.traits.flag == a.geom.traits.flag
            &&& !(e is TextSlant) ==> b.geom.traits.slant == a.geom.traits.slant
            &&& !(e is TextContent) ==> b.geom.traits.label == a.geom.traits.label
            &&& !(e is TextFont) ==> b.geom.traits.font == a.geom.traits.font
            &&& !(e is BlockParam) ==> b.geom.traits.params == a.geom.traits.params
            &&& r.doc.layers == s.doc.layers && r.doc.units == s.doc.units && r.doc.next_handle
                == s.doc.next_handle
            &&& r.light == s.light && r.factory == s.factory && r.selection == s.selection
            &&& r.canvas.index_dirty && r.canvas.view_dirty && r.canvas.intersections.len() == 0
        }),
{
    let d = s.doc.dobjects;
    edited_len(d, targets, targets.len() as int, e);
    if exists|k: int| 0 <= k < targets.len() && targets[k] == i {
        let k = choose|k: int| 0 <= k < targets.len() && targets[k] == i;
        targets_are_edited(d, targets, targets.len() as int, e, k);
        object_edit_is_narrow(d[i], e);
        object_edit_keeps_the_rest(d[i], e);
    } else {
        untouched_so_far(d, targets, targets.len() as int, e, i);
    }
}

/// An edit that is recorded is one step, and undo gives the drawing back; one that is not recorded
/// leaves the history.
pub proof fn edit_is_taken_back(s: AppView, targets: Seq<usize>, e: PropEdit)
    requires
        s.undo.undo_min_steps >= 1,
    ensures
        s.props_applied(targets, true, e).undone().doc == s.doc,
        s.props_applied(targets, true, e).files.unsaved,
        s.props_applied(targets, false, e).undo == s.undo,
        s.props_applied(targets, false, e).files == s.files,
        s.props_applied(targets, true, e).doc == s.props_applied(targets, false, e).doc,
{
    reveal(AppView::said);
    crate::undo::pushed_step_stays(
        s.undo.undo_stack,
        crate::undo::StepView::Doc(s.doc),
        s.undo.undo_budget_bytes as nat,
        s.undo.undo_min_steps as nat,
    );
}

/// A field that is dragged sets what it shows in every frame in which it changes, records only the
/// first of them, and starts over once the gesture has ended; undo then gives back the drawing from
/// before the gesture.
pub proof fn dragged_field_is_taken_back(s: AppView, targets: Seq<usize>, e: PropEdit, f: PropEdit)
    requires
        !s.props.edit_gesture,
        s.undo.undo_min_steps >= 1,
    ensures
        ({
            let a = s.field_seen(targets, Some(e), false);
            let b = a.field_seen(targets, Some(f), true);
            &&& a.props.edit_gesture && !b.props.edit_gesture
            &&& a.doc == s.props_applied(targets, true, e).doc
            &&& b.doc == a.props_applied(targets, false, f).doc
            &&& b.undone().doc == s.doc
            &&& s.field_seen(targets, None, false).doc == s.doc
            &&& s.field_seen(targets, None, false).undo == s.undo
        }),
{
    reveal(AppView::said);
    crate::undo::pushed_step_stays(
        s.undo.undo_stack,
        crate::undo::StepView::Doc(s.doc),
        s.undo.undo_budget_bytes as nat,
        s.undo.undo_min_steps as nat,
    );
}

} // verus!
