//! The properties of the selected objects: what they share, and edits of all of them at once.
use vstd::prelude::*;

use crate::app::CadApp;
use crate::copying::{group_views, views};
use crate::doc::{Color, DObject, DObjectView, Geom, GeomKind, Lineweight, Style};

verus! {

/// The objects at the places that exist, in the order of the places.
pub open spec fn targeted(d: Seq<DObjectView>, targets: Seq<usize>) -> Seq<DObjectView> {
    crate::clipboard::picked_objects(d, targets)
}

/// What all of some values are, where they agree.
pub open spec fn shared_of<T>(vals: Seq<T>) -> Option<T> {
    if vals.len() > 0 && forall|i: int| 0 <= i < vals.len() ==> #[trigger] vals[i] == vals[0] {
        Some(vals[0])
    } else {
        None
    }
}

/// The number that stands for a kind of object.
pub open spec fn tag_of(k: GeomKind) -> u8 {
    match k {
        GeomKind::Line => 0,
        GeomKind::Circle => 1,
        GeomKind::Arc => 2,
        GeomKind::Ellipse => 3,
        GeomKind::EllipseArc => 4,
        GeomKind::Point => 5,
        GeomKind::Polyline => 6,
        GeomKind::Hatch => 7,
        GeomKind::Spline => 8,
        GeomKind::Wall => 9,
        GeomKind::Text => 10,
        GeomKind::Dimension => 11,
        GeomKind::BlockRef => 12,
        GeomKind::Other(_) => 13,
    }
}

pub(crate) fn number_of(k: GeomKind) -> (r: u8)
    ensures
        r == tag_of(k),
{
    match k {
        GeomKind::Line => 0,
        GeomKind::Circle => 1,
        GeomKind::Arc => 2,
        GeomKind::Ellipse => 3,
        GeomKind::EllipseArc => 4,
        GeomKind::Point => 5,
        GeomKind::Polyline => 6,
        GeomKind::Hatch => 7,
        GeomKind::Spline => 8,
        GeomKind::Wall => 9,
        GeomKind::Text => 10,
        GeomKind::Dimension => 11,
        GeomKind::BlockRef => 12,
        GeomKind::Other(_) => 13,
    }
}

/// The number of the kind that objects share; none where they are of different kinds, though no
/// rows of their own are shown for either.
pub open spec fn uniform_tag(d: Seq<DObjectView>) -> Option<u8> {
    match shared_of(d.map_values(|o: DObjectView| o.geom.kind)) {
        Some(k) => Some(tag_of(k)),
        None => None,
    }
}

/// A plain value that can be held against another one.
pub trait Comparable: Copy {
    /// Whether the two are the same.
    fn equals(self, other: Self) -> (r: bool)
        ensures
            r == (self == other),
    ;
}

impl Comparable for u8 {
    fn equals(self, other: Self) -> (r: bool) {
        self == other
    }
}

impl Comparable for u32 {
    fn equals(self, other: Self) -> (r: bool) {
        self == other
    }
}

impl Comparable for i64 {
    fn equals(self, other: Self) -> (r: bool) {
        self == other
    }
}

impl Comparable for bool {
    fn equals(self, other: Self) -> (r: bool) {
        self == other
    }
}

impl Comparable for GeomKind {
    fn equals(self, other: Self) -> (r: bool) {
        self == other
    }
}

impl Comparable for Color {
    fn equals(self, other: Self) -> (r: bool) {
        self == other
    }
}

impl Comparable for Lineweight {
    fn equals(self, other: Self) -> (r: bool) {
        self == other
    }
}

/// Keeps the value that several readings share, one reading at a time.
struct Sharing<T> {
    first: Option<T>,
    same: bool,
}

/// Whether a reading state is that of some values.
spec fn sharing_of<T>(s: Sharing<T>, vals: Seq<T>) -> bool {
    &&& s.first is Some <==> vals.len() > 0
    &&& vals.len() > 0 ==> s.first == Some(vals[0])
    &&& s.same <==> forall|i: int| 0 <= i < vals.len() ==> #[trigger] vals[i] == vals[0]
}

impl<T: Comparable> Sharing<T> {
    fn new() -> (r: Self)
        ensures
            sharing_of(r, Seq::empty()),
    {
        Sharing { first: None, same: true }
    }

    fn read(&mut self, v: T, Ghost(vals): Ghost<Seq<T>>)
        requires
            sharing_of(*old(self), vals),
        ensures
            sharing_of(*final(self), vals.push(v)),
    {
        match self.first {
            None => {
                self.first = Some(v);
            },
            Some(f) => {
                if !v.equals(f) {
                    self.same = false;
                    assert(vals.push(v)[vals.len() as int] != vals.push(v)[0]);
                } else {
                    assert(vals.push(v)[0] == vals[0]);
                    if self.same {
                        assert forall|i: int| 0 <= i < vals.push(v).len() implies #[trigger] vals.push(v)[i]
                            == vals.push(v)[0] by {
                            if i < vals.len() {
                                assert(vals.push(v)[i] == vals[i]);
                            }
                        }
                    } else {
                        let ghost j = choose|j: int| 0 <= j < vals.len() && #[trigger] vals[j] != vals[0];
                        assert(vals.push(v)[j] == vals[j]);
                    }
                }
            },
        }
    }

    fn shared(&self, Ghost(vals): Ghost<Seq<T>>) -> (r: Option<T>)
        requires
            sharing_of(*self, vals),
        ensures
            r == shared_of(vals),
    {
        if self.same {
            self.first
        } else {
            None
        }
    }
}

/// Whether `vals` are what reading each of some styles gives.
pub open spec fn style_readings<T, F: Fn(&Style) -> T>(
    get: F,
    objects: Seq<DObjectView>,
    vals: Seq<T>,
) -> bool {
    vals.len() == objects.len() && forall|i: int|
        0 <= i < vals.len() ==> get.ensures((&objects[i].style,), #[trigger] vals[i])
}

/// The objects of a document at the places that exist, one target at a time.
proof fn targeted_step(d: Seq<DObjectView>, targets: Seq<usize>, n: int)
    requires
        0 <= n < targets.len(),
    ensures
        targeted(d, targets.subrange(0, n + 1)) == if targets[n] < d.len() {
            targeted(d, targets.subrange(0, n)).push(d[targets[n] as int])
        } else {
            targeted(d, targets.subrange(0, n))
        },
{
    assert(targets.subrange(0, n + 1).drop_last() =~= targets.subrange(0, n));
}

impl CadApp {
    /// What a reading of the style gives on all targets, where they agree.
    pub fn shared_style<T: Comparable, F: Fn(&Style) -> T>(&self, targets: &Vec<usize>, get: F)
        -> (r: Option<T>)
        requires
            forall|s: Style| get.requires((&s,)),
        ensures
            exists|vals: Seq<T>|
                style_readings(get, targeted(self@.doc.dobjects, targets@), vals) && r
                    == #[trigger] shared_of(vals),
    {
        let ghost d = self@.doc.dobjects;
        let mut state: Sharing<T> = Sharing::new();
        let ghost mut vals: Seq<T> = Seq::empty();
        let mut n: usize = 0;
        while n < targets.len()
            invariant
                n <= targets.len(),
                d == views(self.doc.dobjects@),
                forall|s: Style| get.requires((&s,)),
                sharing_of(state, vals),
                style_readings(get, targeted(d, targets@.subrange(0, n as int)), vals),
            decreases targets.len() - n,
        {
            proof {
                targeted_step(d, targets@, n as int);
            }
            let i: usize = targets[n];
            if i < self.doc.dobjects.len() {
                let v = get(&self.doc.dobjects[i].style);
                assert(d[i as int].style == self.doc.dobjects@[i as int].style);
                state.read(v, Ghost(vals));
                proof {
                    vals = vals.push(v);
                }
            }
            n += 1;
        }
        assert(targets@.subrange(0, n as int) =~= targets@);
        state.shared(Ghost(vals))
    }
}

/// Whether `vals` are what reading each of some shapes gives, without those that give nothing.
pub open spec fn geom_readings<F: Fn(&Geom) -> Option<i64>>(
    get: F,
    objects: Seq<DObject>,
    targets: Seq<usize>,
    vals: Seq<i64>,
) -> bool
    decreases targets.len(),
{
    if targets.len() == 0 {
        vals.len() == 0
    } else if targets.last() < objects.len() {
        let g = objects[targets.last() as int].geom;
        ||| vals.len() > 0 && get.ensures((&g,), Some(vals.last())) && geom_readings(
            get,
            objects,
            targets.drop_last(),
            vals.drop_last(),
        )
        ||| get.ensures((&g,), None) && geom_readings(get, objects, targets.drop_last(), vals)
    } else {
        geom_readings(get, objects, targets.drop_last(), vals)
    }
}

/// Whether `r` is what reading some shapes in their order gives first, if one gives anything.
pub open spec fn first_reading<F: Fn(&Geom) -> Option<String>>(
    get: F,
    objects: Seq<DObject>,
    targets: Seq<usize>,
    r: Option<String>,
) -> bool
    decreases targets.len(),
{
    if targets.len() == 0 {
        r is None
    } else if targets[0] < objects.len() {
        let g = objects[targets[0] as int].geom;
        ||| r is Some && get.ensures((&g,), r)
        ||| get.ensures((&g,), None) && first_reading(get, objects, targets.drop_first(), r)
    } else {
        first_reading(get, objects, targets.drop_first(), r)
    }
}

impl CadApp {
    /// The number that stands for the kind of a shape.
    pub fn geom_tag(g: &Geom) -> (r: u8)
        ensures
            r == tag_of(g@.kind),
    {
        number_of(g.kind)
    }

    /// The kind of all targets, where they are of one kind.
    pub fn targets_uniform_tag(&self, targets: &Vec<usize>) -> (r: Option<u8>)
        ensures
            r == uniform_tag(targeted(self@.doc.dobjects, targets@)),
    {
        broadcast use group_views;

        let ghost d = self@.doc.dobjects;
        let ghost kinds = |o: DObjectView| o.geom.kind;
        let mut state: Sharing<GeomKind> = Sharing::new();
        let mut n: usize = 0;
        assert(targeted(d, targets@.subrange(0, 0)).map_values(kinds) =~= Seq::<GeomKind>::empty());
        while n < targets.len()
            invariant
                n <= targets.len(),
                d == views(self.doc.dobjects@),
                kinds == (|o: DObjectView| o.geom.kind),
                sharing_of(
                    state,
                    targeted(d, targets@.subrange(0, n as int)).map_values(kinds),
                ),
            decreases targets.len() - n,
        {
            let ghost head = targeted(d, targets@.subrange(0, n as int));
            proof {
                targeted_step(d, targets@, n as int);
            }
            let i: usize = targets[n];
            if i < self.doc.dobjects.len() {
                let v: GeomKind = self.doc.dobjects[i].geom.kind;
                assert(d[i as int] == self.doc.dobjects@[i as int]@);
                assert(head.push(d[i as int]).map_values(kinds) =~= head.map_values(kinds).push(v));
                state.read(v, Ghost(head.map_values(kinds)));
            }
            n += 1;
        }
        assert(targets@.subrange(0, n as int) =~= targets@);
        let kind: Option<GeomKind> = state.shared(
            Ghost(targeted(d, targets@).map_values(kinds)),
        );
        match kind {
            Some(k) => Some(number_of(k)),
            None => None,
        }
    }

    /// What a reading of the shape gives on all targets that it gives anything on, where they
    /// agree.
    pub fn props_shared_geom<F: Fn(&Geom) -> Option<i64>>(&self, targets: &Vec<usize>, get: F) -> (r:
        Option<i64>)
        requires
            forall|g: Geom| get.requires((&g,)),
        ensures
            exists|vals: Seq<i64>|
                geom_readings(get, self.doc.dobjects@, targets@, vals) && r == #[trigger] shared_of(
                    vals,
                ),
    {
        let mut state: Sharing<i64> = Sharing::new();
        let ghost mut vals: Seq<i64> = Seq::empty();
        let mut n: usize = 0;
        while n < targets.len()
            invariant
                n <= targets.len(),
                forall|g: Geom| get.requires((&g,)),
                sharing_of(state, vals),
                geom_readings(get, self.doc.dobjects@, targets@.subrange(0, n as int), vals),
            decreases targets.len() - n,
        {
            let ghost next = targets@.subrange(0, n + 1);
            assert(next.drop_last() =~= targets@.subrange(0, n as int));
            let i: usize = targets[n];
            assert(next.last() == i);
            if i < self.doc.dobjects.len() {
                if let Some(v) = get(&self.doc.dobjects[i].geom) {
                    state.read(v, Ghost(vals));
                    proof {
                        assert(vals.push(v).drop_last() =~= vals);
                        vals = vals.push(v);
                    }
                }
            }
            n += 1;
        }
        assert(targets@.subrange(0, n as int) =~= targets@);
        state.shared(Ghost(vals))
    }

    /// The first text that a reading of the shape gives among the targets.
    pub fn props_first_geom_string<F: Fn(&Geom) -> Option<String>>(
        &self,
        targets: &Vec<usize>,
        get: F,
    ) -> (r: Option<String>)
        requires
            forall|g: Geom| get.requires((&g,)),
        ensures
            first_reading(get, self.doc.dobjects@, targets@, r),
    {
        let mut n: usize = 0;
        let ghost len = targets@.len();
        assert(targets@.subrange(0, len as int) =~= targets@);
        while n < targets.len()
            invariant
                n <= targets.len(),
                len == targets@.len(),
                forall|g: Geom| get.requires((&g,)),
                forall|r: Option<String>|
                    first_reading(
                        get,
                        self.doc.dobjects@,
                        targets@.subrange(n as int, len as int),
                        r,
                    ) ==> #[trigger] first_reading(get, self.doc.dobjects@, targets@, r),
            decreases targets.len() - n,
        {
            let ghost here = targets@.subrange(n as int, len as int);
            assert(here.drop_first() =~= targets@.subrange(n + 1, len as int));
            let i: usize = targets[n];
            assert(here[0] == i);
            if i < self.doc.dobjects.len() {
                let t = get(&self.doc.dobjects[i].geom);
                if t.is_some() {
                    assert(first_reading(get, self.doc.dobjects@, here, t));
                    return t;
                }
            }
            n += 1;
        }
        let none: Option<String> = None;
        assert(first_reading(
            get,
            self.doc.dobjects@,
            targets@.subrange(n as int, len as int),
            none,
        ));
        none
    }
}

/// What the styles of several objects share.
pub struct SharedStyle {
    pub layer: Option<u32>,
    pub color: Option<Color>,
    pub linetype: Option<u32>,
    pub ltscale: Option<i64>,
    pub lineweight: Option<Lineweight>,
    pub visible: Option<bool>,
}

/// What the styles of several objects share.
pub open spec fn general_of(d: Seq<DObjectView>) -> SharedStyle {
    SharedStyle {
        layer: shared_of(d.map_values(|o: DObjectView| o.style.layer)),
        color: shared_of(d.map_values(|o: DObjectView| o.style.color)),
        linetype: shared_of(d.map_values(|o: DObjectView| o.style.linetype)),
        ltscale: shared_of(d.map_values(|o: DObjectView| o.style.ltscale)),
        lineweight: shared_of(d.map_values(|o: DObjectView| o.style.lineweight)),
        visible: shared_of(d.map_values(|o: DObjectView| o.style.visible)),
    }
}

impl CadApp {
    fn shared_layer(&self, targets: &Vec<usize>) -> (r: Option<u32>)
        ensures
            r == general_of(targeted(self@.doc.dobjects, targets@)).layer,
    {
        let ghost d = targeted(self@.doc.dobjects, targets@);
        let get = |s: &Style| -> (v: u32)
            ensures
                v == s.layer,
            { s.layer };
        let r = self.shared_style(targets, get);
        proof {
            let vals = choose|vals: Seq<u32>|
                style_readings(get, d, vals) && r == #[trigger] shared_of(vals);
            assert(vals =~= d.map_values(|o: DObjectView| o.style.layer));
        }
        r
    }

    fn shared_color(&self, targets: &Vec<usize>) -> (r: Option<Color>)
        ensures
            r == general_of(targeted(self@.doc.dobjects, targets@)).color,
    {
        let ghost d = targeted(self@.doc.dobjects, targets@);
        let get = |s: &Style| -> (v: Color)
            ensures
                v == s.color,
            { s.color };
        let r = self.shared_style(targets, get);
        proof {
            let vals = choose|vals: Seq<Color>|
                style_readings(get, d, vals) && r == #[trigger] shared_of(vals);
            assert(vals =~= d.map_values(|o: DObjectView| o.style.color));
        }
        r
    }

    fn shared_linetype(&self, targets: &Vec<usize>) -> (r: Option<u32>)
        ensures
            r == general_of(targeted(self@.doc.dobjects, targets@)).linetype,
    {
        let ghost d = targeted(self@.doc.dobjects, targets@);
        let get = |s: &Style| -> (v: u32)
            ensures
                v == s.linetype,
            { s.linetype };
        let r = self.shared_style(targets, get);
        proof {
            let vals = choose|vals: Seq<u32>|
                style_readings(get, d, vals) && r == #[trigger] shared_of(vals);
            assert(vals =~= d.map_values(|o: DObjectView| o.style.linetype));
        }
        r
    }

    fn shared_ltscale(&self, targets: &Vec<usize>) -> (r: Option<i64>)
        ensures
            r == general_of(targeted(self@.doc.dobjects, targets@)).ltscale,
    {
        let ghost d = targeted(self@.doc.dobjects, targets@);
        let get = |s: &Style| -> (v: i64)
            ensures
                v == s.ltscale,
            { s.ltscale };
        let r = self.shared_style(targets, get);
        proof {
            let vals = choose|vals: Seq<i64>|
                style_readings(get, d, vals) && r == #[trigger] shared_of(vals);
            assert(vals =~= d.map_values(|o: DObjectView| o.style.ltscale));
        }
        r
    }

    fn shared_lineweight(&self, targets: &Vec<usize>) -> (r: Option<Lineweight>)
        ensures
            r == general_of(targeted(self@.doc.dobjects, targets@)).lineweight,
    {
        let ghost d = targeted(self@.doc.dobjects, targets@);
        let get = |s: &Style| -> (v: Lineweight)
            ensures
                v == s.lineweight,
            { s.lineweight };
        let r = self.shared_style(targets, get);
        proof {
            let vals = choose|vals: Seq<Lineweight>|
                style_readings(get, d, vals) && r == #[trigger] shared_of(vals);
            assert(vals =~= d.map_values(|o: DObjectView| o.style.lineweight));
        }
        r
    }

    fn shared_visible(&self, targets: &Vec<usize>) -> (r: Option<bool>)
        ensures
            r == general_of(targeted(self@.doc.dobjects, targets@)).visible,
    {
        let ghost d = targeted(self@.doc.dobjects, targets@);
        let get = |s: &Style| -> (v: bool)
            ensures
                v == s.visible,
            { s.visible };
        let r = self.shared_style(targets, get);
        proof {
            let vals = choose|vals: Seq<bool>|
                style_readings(get, d, vals) && r == #[trigger] shared_of(vals);
            assert(vals =~= d.map_values(|o: DObjectView| o.style.visible));
        }
        r
    }

    /// What the styles of the targets share.
    pub fn shared_general(&self, targets: &Vec<usize>) -> (r: SharedStyle)
        ensures
            r == general_of(targeted(self@.doc.dobjects, targets@)),
    {
        SharedStyle {
            layer: self.shared_layer(targets),
            color: self.shared_color(targets),
            linetype: self.shared_linetype(targets),
            ltscale: self.shared_ltscale(targets),
            lineweight: self.shared_lineweight(targets),
            visible: self.shared_visible(targets),
        }
    }
}

/// Objects of different kinds share none, also where neither kind has rows of its own.
pub proof fn mixed_kinds_share_none(d: Seq<DObjectView>, i: int, j: int)
    requires
        0 <= i < d.len(),
        0 <= j < d.len(),
        d[i].geom.kind != d[j].geom.kind,
    ensures
        uniform_tag(d) is None,
{
    let kinds = d.map_values(|o: DObjectView| o.geom.kind);
    assert(kinds[i] != kinds[j]);
}

/// What is shown of the style of some objects is a value exactly if all of them have that value.
pub proof fn shown_style_is_what_all_have(d: Seq<DObjectView>, s: Style)
    requires
        d.len() > 0,
    ensures
        general_of(d).layer == Some(s.layer) <==> forall|i: int|
            0 <= i < d.len() ==> (#[trigger] d[i]).style.layer == s.layer,
        general_of(d).color == Some(s.color) <==> forall|i: int|
            0 <= i < d.len() ==> (#[trigger] d[i]).style.color == s.color,
        general_of(d).linetype == Some(s.linetype) <==> forall|i: int|
            0 <= i < d.len() ==> (#[trigger] d[i]).style.linetype == s.linetype,
        general_of(d).ltscale == Some(s.ltscale) <==> forall|i: int|
            0 <= i < d.len() ==> (#[trigger] d[i]).style.ltscale == s.ltscale,
        general_of(d).lineweight == Some(s.lineweight) <==> forall|i: int|
            0 <= i < d.len() ==> (#[trigger] d[i]).style.lineweight == s.lineweight,
        general_of(d).visible == Some(s.visible) <==> forall|i: int|
            0 <= i < d.len() ==> (#[trigger] d[i]).style.visible == s.visible,
{
    shared_is_of_all(d, |o: DObjectView| o.style.layer, s.layer);
    shared_is_of_all(d, |o: DObjectView| o.style.color, s.color);
    shared_is_of_all(d, |o: DObjectView| o.style.linetype, s.linetype);
    shared_is_of_all(d, |o: DObjectView| o.style.ltscale, s.ltscale);
    shared_is_of_all(d, |o: DObjectView| o.style.lineweight, s.lineweight);
    shared_is_of_all(d, |o: DObjectView| o.style.visible, s.visible);
}

proof fn shared_is_of_all<T>(d: Seq<DObjectView>, f: spec_fn(DObjectView) -> T, v: T)
    requires
        d.len() > 0,
    ensures
        shared_of(d.map_values(f)) == Some(v) <==> forall|i: int|
            0 <= i < d.len() ==> f(#[trigger] d[i]) == v,
{
    let vals = d.map_values(f);
    assert(forall|i: int| 0 <= i < d.len() ==> vals[i] == f(#[trigger] d[i]));
    if shared_of(vals) == Some(v) {
        assert forall|i: int| 0 <= i < d.len() implies f(#[trigger] d[i]) == v by {
            assert(vals[i] == vals[0]);
        }
    }
    if forall|i: int| 0 <= i < d.len() ==> f(#[trigger] d[i]) == v {
        assert(f(d[0]) == v);
    }
}

/// Nothing is shown of no objects.
pub proof fn no_objects_share_nothing(d: Seq<DObjectView>)
    requires
        d.len() == 0,
    ensures
        general_of(d).layer is None && general_of(d).color is None && general_of(d).linetype is None,
        general_of(d).ltscale is None && general_of(d).lineweight is None && general_of(d).visible is None,
        uniform_tag(d) is None,
{
}

/// The objects that targets name are exactly those at them, in their order, as far as there are
/// such.
pub proof fn targets_are_named(d: Seq<DObjectView>, targets: Seq<usize>, o: DObjectView)
    ensures
        targeted(d, targets).len() <= targets.len(),
        targeted(d, targets).contains(o) <==> exists|k: int|
            0 <= k < targets.len() && (#[trigger] targets[k]) < d.len() && d[targets[k] as int] == o,
    decreases targets.len(),
{
    if targets.len() > 0 {
        let front = targets.drop_last();
        targets_are_named(d, front, o);
        let rest = targeted(d, front);
        let all = targeted(d, targets);
        if all.contains(o) {
            let k = choose|k: int| 0 <= k < all.len() && all[k] == o;
            if k < rest.len() {
                assert(rest[k] == o);
                let j = choose|j: int|
                    0 <= j < front.len() && (#[trigger] front[j]) < d.len() && d[front[j] as int]
                        == o;
                assert(targets[j] == front[j]);
            } else {
                assert(targets[targets.len() - 1] < d.len());
            }
        }
        if exists|k: int|
            0 <= k < targets.len() && (#[trigger] targets[k]) < d.len() && d[targets[k] as int]
                == o {
            let k = choose|k: int|
                0 <= k < targets.len() && (#[trigger] targets[k]) < d.len() && d[targets[k] as int]
                    == o;
            if k < front.len() {
                assert(front[k] == targets[k]);
                let j = choose|j: int| 0 <= j < rest.len() && rest[j] == o;
                assert(all[j] == o);
            } else {
                assert(all.last() == o);
            }
        }
    }
}

/// Two kinds of object have the same rows only if they are one kind, or are both without rows.
pub proof fn kinds_have_their_own_rows(a: GeomKind, b: GeomKind)
    ensures
        tag_of(a) == tag_of(b) <==> a == b || a is Other && b is Other,
{
}

} // verus!
