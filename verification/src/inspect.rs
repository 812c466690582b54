//! What the inspector shows: its targets, their kinds, the rows and the labels in them.
use vstd::prelude::*;

use crate::app::{AppView, CadApp};
use crate::copying::{copy_all, opt_view, views};
use crate::doc::{Color, DObjectView, DocView, GeomKind, Lineweight};
use crate::props::{number_of, tag_of, targeted, uniform_tag, SharedStyle};
use crate::text::{cat2, cat3, cat4, dec, dec_text, holds_text, is_blank, lowered, trim, trimmed};
use crate::units::{hundredths_text, write_hundredths};

verus! {

/// What a kind of object is called.
pub open spec fn kind_name(k: GeomKind) -> Seq<char> {
    match k {
        GeomKind::Line => "line"@,
        GeomKind::Circle => "circle"@,
        GeomKind::Arc => "arc"@,
        GeomKind::Ellipse => "ellipse"@,
        GeomKind::EllipseArc => "ellipse arc"@,
        GeomKind::Point => "point"@,
        GeomKind::Polyline => "polyline"@,
        GeomKind::Hatch => "hatch"@,
        GeomKind::Spline => "spline"@,
        GeomKind::Wall => "wall"@,
        GeomKind::Text => "text"@,
        GeomKind::Dimension => "dimension"@,
        GeomKind::BlockRef => "block"@,
        GeomKind::Other(_) => "dobject"@,
    }
}

/// What a kind of object is called.
pub fn kind_label(k: GeomKind) -> (r: &'static str)
    ensures
        r@ == kind_name(k),
{
    match k {
        GeomKind::Line => "line",
        GeomKind::Circle => "circle",
        GeomKind::Arc => "arc",
        GeomKind::Ellipse => "ellipse",
        GeomKind::EllipseArc => "ellipse arc",
        GeomKind::Point => "point",
        GeomKind::Polyline => "polyline",
        GeomKind::Hatch => "hatch",
        GeomKind::Spline => "spline",
        GeomKind::Wall => "wall",
        GeomKind::Text => "text",
        GeomKind::Dimension => "dimension",
        GeomKind::BlockRef => "block",
        GeomKind::Other(_) => "dobject",
    }
}

/// What a kind of object is called at the head of the inspector.
pub open spec fn kind_title(k: GeomKind) -> Seq<char> {
    match k {
        GeomKind::Line => "Line"@,
        GeomKind::Circle => "Circle"@,
        GeomKind::Arc => "Arc"@,
        GeomKind::Ellipse => "Ellipse"@,
        GeomKind::EllipseArc => "Ellipse arc"@,
        GeomKind::Point => "Point"@,
        GeomKind::Polyline => "Polyline"@,
        GeomKind::Hatch => "Hatch"@,
        GeomKind::Spline => "Spline"@,
        GeomKind::Wall => "Wall"@,
        GeomKind::Text => "Text"@,
        GeomKind::Dimension => "Dimension"@,
        GeomKind::BlockRef => "Block"@,
        GeomKind::Other(_) => "Dobject"@,
    }
}

fn title_of(k: GeomKind) -> (r: &'static str)
    ensures
        r@ == kind_title(k),
{
    match k {
        GeomKind::Line => "Line",
        GeomKind::Circle => "Circle",
        GeomKind::Arc => "Arc",
        GeomKind::Ellipse => "Ellipse",
        GeomKind::EllipseArc => "Ellipse arc",
        GeomKind::Point => "Point",
        GeomKind::Polyline => "Polyline",
        GeomKind::Hatch => "Hatch",
        GeomKind::Spline => "Spline",
        GeomKind::Wall => "Wall",
        GeomKind::Text => "Text",
        GeomKind::Dimension => "Dimension",
        GeomKind::BlockRef => "Block",
        GeomKind::Other(_) => "Dobject",
    }
}

impl AppView {
    /// Whether the inspector is about the object at a place: about the selected objects, or about
    /// the one that was clicked where nothing is selected.
    pub open spec fn inspects(self, i: usize) -> bool {
        i < self.doc.dobjects.len() && if self.selection.len() > 0 {
            self.selection.contains(i)
        } else {
            self.selected == Some(i)
        }
    }

    /// The places that the inspector is about, as they were selected.
    pub open spec fn pill_targets(self) -> Seq<usize> {
        let all = if self.selection.len() > 0 {
            self.selection
        } else if self.selected is Some {
            seq![self.selected->0]
        } else {
            Seq::empty()
        };
        all.filter(|i: usize| i < self.doc.dobjects.len())
    }

    /// What the head of the inspector says of its targets.
    pub open spec fn pill(self) -> Option<Seq<char>> {
        let t = self.pill_targets();
        if t.len() == 0 {
            None
        } else if t.len() == 1 {
            Some(kind_title(self.doc.dobjects[t[0] as int].geom.kind))
        } else if uniform_tag(targeted(self.doc.dobjects, t)) is Some {
            Some(
                kind_title(self.doc.dobjects[t[0] as int].geom.kind) + " ("@ + dec(t.len()) + ")"@,
            )
        } else {
            Some("Mixed ("@ + dec(t.len()) + ")"@)
        }
    }
}

/// Whether numbers stand in ascending order, each once.
pub open spec fn ascending(s: Seq<usize>) -> bool {
    forall|i: int, j: int| 0 <= i < j < s.len() ==> s[i] < s[j]
}

fn insert_ascending(v: &mut Vec<usize>, x: usize)
    requires
        ascending(old(v)@),
    ensures
        ascending(final(v)@),
        forall|i: usize| final(v)@.contains(i) <==> old(v)@.contains(i) || i == x,
{
    let ghost was = v@;
    let mut p: usize = 0;
    while p < v.len() && v[p] < x
        invariant
            p <= v.len(),
            v@ == was,
            ascending(was),
            forall|k: int| 0 <= k < p ==> was[k] < x,
        ensures
            p <= v.len(),
            v@ == was,
            forall|k: int| 0 <= k < p ==> was[k] < x,
            p < v.len() ==> was[p as int] >= x,
        decreases v.len() - p,
    {
        p += 1;
    }
    if p < v.len() && v[p] == x {
        assert(was[p as int] == x);
        return;
    }
    v.insert(p, x);
    let ghost now = was.insert(p as int, x);
    assert forall|i: usize| now.contains(i) <==> was.contains(i) || i == x by {
        if was.contains(i) {
            let k = choose|k: int| 0 <= k < was.len() && was[k] == i;
            if k < p {
                assert(now[k] == i);
            } else {
                assert(now[k + 1] == i);
            }
        }
        if i == x {
            assert(now[p as int] == i);
        }
        if now.contains(i) {
            let k = choose|k: int| 0 <= k < now.len() && now[k] == i;
            if k < p {
                assert(was[k] == i);
            } else if k > p {
                assert(was[k - 1] == i);
            }
        }
    }
}

impl CadApp {
    fn raw_targets(&self) -> (r: Vec<usize>)
        ensures
            r@ == if self@.selection.len() > 0 {
                self@.selection
            } else if self@.selected is Some {
                seq![self@.selected->0]
            } else {
                Seq::<usize>::empty()
            },
    {
        if self.selection.len() > 0 {
            copy_all(&self.selection)
        } else {
            let mut r: Vec<usize> = Vec::new();
            if let Some(i) = self.selected {
                r.push(i);
                assert(r@ =~= seq![i]);
            }
            r
        }
    }

    /// The places that the inspector is about, in ascending order and each once.
    pub fn inspector_targets(&self) -> (r: Vec<usize>)
        ensures
            ascending(r@),
            forall|i: usize| r@.contains(i) <==> self@.inspects(i),
    {
        let all = self.raw_targets();
        let n: usize = self.doc.dobjects.len();
        let mut out: Vec<usize> = Vec::new();
        let mut k: usize = 0;
        while k < all.len()
            invariant
                k <= all.len(),
                ascending(out@),
                forall|i: usize|
                    out@.contains(i) <==> i < n && all@.subrange(0, k as int).contains(i),
            decreases all.len() - k,
        {
            let x: usize = all[k];
            let ghost head = all@.subrange(0, k as int);
            let ghost next = all@.subrange(0, k + 1);
            assert(next =~= head.push(x));
            assert forall|i: usize| next.contains(i) <==> head.contains(i) || i == x by {
                if head.contains(i) {
                    let j = choose|j: int| 0 <= j < head.len() && head[j] == i;
                    assert(next[j] == i);
                }
                if i == x {
                    assert(next[k as int] == i);
                }
            }
            if x < n {
                insert_ascending(&mut out, x);
            }
            k += 1;
        }
        assert(all@.subrange(0, k as int) =~= all@);
        assert(self@.doc.dobjects.len() == n);
        assert forall|i: usize| out@.contains(i) <==> self@.inspects(i) by {
            if self@.selection.len() == 0 && self@.selected is Some {
                assert(all@[0] == self@.selected->0);
            }
        }
        out
    }

    fn pill_places(&self) -> (r: Vec<usize>)
        ensures
            r@ == self@.pill_targets(),
            forall|k: int| 0 <= k < r@.len() ==> r@[k] < self@.doc.dobjects.len(),
    {
        let all = self.raw_targets();
        let n: usize = self.doc.dobjects.len();
        let ghost inside = |i: usize| i < n;
        let mut out: Vec<usize> = Vec::new();
        let mut k: usize = 0;
        assert(all@.subrange(0, 0).filter(inside) =~= Seq::<usize>::empty()) by {
            reveal(Seq::filter);
        }
        while k < all.len()
            invariant
                k <= all.len(),
                inside == (|i: usize| i < n),
                out@ == all@.subrange(0, k as int).filter(inside),
                forall|j: int| 0 <= j < out@.len() ==> out@[j] < n,
            decreases all.len() - k,
        {
            let ghost next = all@.subrange(0, k + 1);
            assert(next.drop_last() =~= all@.subrange(0, k as int));
            proof {
                reveal(Seq::filter);
            }
            if all[k] < n {
                out.push(all[k]);
            }
            k += 1;
        }
        assert(all@.subrange(0, k as int) =~= all@);
        assert(inside =~= (|i: usize| i < self@.doc.dobjects.len()));
        out
    }

    /// What the head of the inspector says of its targets: their kind, with how many they are
    /// where they are several.
    pub fn inspector_pill(&self) -> (r: Option<String>)
        ensures
            opt_view(r) == self@.pill(),
    {
        let t = self.pill_places();
        if t.len() == 0 {
            return None;
        }
        let n = dec_text(t.len() as u64);
        let first: usize = t[0];
        assert(self@.doc.dobjects[first as int] == self.doc.dobjects@[first as int]@);
        let title = title_of(self.doc.dobjects[first].geom.kind);
        if t.len() == 1 {
            Some(String::from_str(title))
        } else if self.targets_uniform_tag(&t).is_some() {
            Some(cat4(title, " (", n.as_str(), ")"))
        } else {
            Some(cat3("Mixed (", n.as_str(), ")"))
        }
    }
}

/// The kinds of objects, as they are listed.
pub open spec fn listed_kinds() -> Seq<GeomKind> {
    seq![
        GeomKind::Line,
        GeomKind::Circle,
        GeomKind::Arc,
        GeomKind::Ellipse,
        GeomKind::EllipseArc,
        GeomKind::Point,
        GeomKind::Polyline,
        GeomKind::Hatch,
        GeomKind::Spline,
        GeomKind::Wall,
        GeomKind::Text,
        GeomKind::Dimension,
        GeomKind::BlockRef,
        GeomKind::Other(0),
    ]
}

/// What several objects of a kind are called.
pub open spec fn kind_plural(k: GeomKind) -> Seq<char> {
    match k {
        GeomKind::Line => "lines"@,
        GeomKind::Circle => "circles"@,
        GeomKind::Arc => "arcs"@,
        GeomKind::Ellipse => "ellipses"@,
        GeomKind::EllipseArc => "ellipse arcs"@,
        GeomKind::Point => "points"@,
        GeomKind::Polyline => "polylines"@,
        GeomKind::Hatch => "hatches"@,
        GeomKind::Spline => "splines"@,
        GeomKind::Wall => "walls"@,
        GeomKind::Text => "texts"@,
        GeomKind::Dimension => "dimensions"@,
        GeomKind::BlockRef => "blocks"@,
        GeomKind::Other(_) => "dobjects"@,
    }
}

fn plural_label(k: GeomKind) -> (r: &'static str)
    ensures
        r@ == kind_plural(k),
{
    match k {
        GeomKind::Line => "lines",
        GeomKind::Circle => "circles",
        GeomKind::Arc => "arcs",
        GeomKind::Ellipse => "ellipses",
        GeomKind::EllipseArc => "ellipse arcs",
        GeomKind::Point => "points",
        GeomKind::Polyline => "polylines",
        GeomKind::Hatch => "hatches",
        GeomKind::Spline => "splines",
        GeomKind::Wall => "walls",
        GeomKind::Text => "texts",
        GeomKind::Dimension => "dimensions",
        GeomKind::BlockRef => "blocks",
        GeomKind::Other(_) => "dobjects",
    }
}

/// How many of some objects are of a kind. Those that no rows are listed for count together.
pub open spec fn count_kind(d: Seq<DObjectView>, k: GeomKind) -> nat
    decreases d.len(),
{
    if d.len() == 0 {
        0
    } else {
        count_kind(d.drop_last(), k) + if tag_of(d.last().geom.kind) == tag_of(k) {
            1nat
        } else {
            0nat
        }
    }
}

/// How many of some objects there are of each of the first `n` kinds, without the kinds that there
/// are none of.
pub open spec fn breakdown(d: Seq<DObjectView>, n: int) -> Seq<char>
    decreases n,
{
    if n <= 0 {
        Seq::empty()
    } else {
        let k = listed_kinds()[n - 1];
        let head = breakdown(d, n - 1);
        let count = count_kind(d, k);
        if count == 0 {
            head
        } else {
            let item = kind_plural(k) + ": "@ + dec(count);
            if head.len() == 0 {
                item
            } else {
                head + "  "@ + item
            }
        }
    }
}

fn kind_at(n: usize) -> (r: GeomKind)
    requires
        n < 14,
    ensures
        r == listed_kinds()[n as int],
{
    if n == 0 {
        GeomKind::Line
    } else if n == 1 {
        GeomKind::Circle
    } else if n == 2 {
        GeomKind::Arc
    } else if n == 3 {
        GeomKind::Ellipse
    } else if n == 4 {
        GeomKind::EllipseArc
    } else if n == 5 {
        GeomKind::Point
    } else if n == 6 {
        GeomKind::Polyline
    } else if n == 7 {
        GeomKind::Hatch
    } else if n == 8 {
        GeomKind::Spline
    } else if n == 9 {
        GeomKind::Wall
    } else if n == 10 {
        GeomKind::Text
    } else if n == 11 {
        GeomKind::Dimension
    } else if n == 12 {
        GeomKind::BlockRef
    } else {
        GeomKind::Other(0)
    }
}

impl CadApp {
    fn count_of_kind(&self, targets: &Vec<usize>, k: GeomKind) -> (r: usize)
        ensures
            r == count_kind(targeted(self@.doc.dobjects, targets@), k),
    {
        let ghost d = self@.doc.dobjects;
        let tag: u8 = number_of(k);
        let mut c: usize = 0;
        let mut n: usize = 0;
        while n < targets.len()
            invariant
                n <= targets.len(),
                c <= n,
                tag == tag_of(k),
                d == views(self.doc.dobjects@),
                c == count_kind(targeted(d, targets@.subrange(0, n as int)), k),
            decreases targets.len() - n,
        {
            let ghost next = targets@.subrange(0, n + 1);
            let ghost head = targeted(d, targets@.subrange(0, n as int));
            assert(next.drop_last() =~= targets@.subrange(0, n as int));
            let i: usize = targets[n];
            assert(next.last() == i);
            if i < self.doc.dobjects.len() {
                assert(d[i as int] == self.doc.dobjects@[i as int]@);
                assert(targeted(d, next) == head.push(d[i as int]));
                assert(head.push(d[i as int]).drop_last() =~= head);
                if number_of(self.doc.dobjects[i].geom.kind) == tag {
                    c += 1;
                }
            }
            n += 1;
        }
        assert(targets@.subrange(0, n as int) =~= targets@);
        c
    }

    /// How many of the targets there are of each kind, such as "lines: 3  circles: 1".
    pub fn props_kind_breakdown(&self, targets: &Vec<usize>) -> (r: String)
        ensures
            r@ == breakdown(targeted(self@.doc.dobjects, targets@), 14),
    {
        let ghost d = targeted(self@.doc.dobjects, targets@);
        let mut out = String::new();
        let mut n: usize = 0;
        while n < 14
            invariant
                n <= 14,
                d == targeted(self@.doc.dobjects, targets@),
                out@ == breakdown(d, n as int),
            decreases 14 - n,
        {
            let k = kind_at(n);
            let c: usize = self.count_of_kind(targets, k);
            if c > 0 {
                let item = cat3(plural_label(k), ": ", dec_text(c as u64).as_str());
                if out.as_str().unicode_len() == 0 {
                    out = item;
                } else {
                    out = cat3(out.as_str(), "  ", item.as_str());
                }
            }
            n += 1;
        }
        out
    }
}

/// How many of some objects are of one of the first `n` kinds.
pub open spec fn counted(d: Seq<DObjectView>, n: int) -> nat
    decreases n,
{
    if n <= 0 {
        0
    } else {
        counted(d, n - 1) + count_kind(d, listed_kinds()[n - 1])
    }
}

/// The kinds are listed in the order of their numbers.
proof fn listed_by_tag(j: int)
    requires
        0 <= j < 14,
    ensures
        tag_of(listed_kinds()[j]) == j,
{
}

proof fn counted_step(d: Seq<DObjectView>, n: int)
    requires
        d.len() > 0,
        0 <= n <= 14,
    ensures
        counted(d, n) == counted(d.drop_last(), n) + if tag_of(d.last().geom.kind) < n {
            1nat
        } else {
            0nat
        },
    decreases n,
{
    if n > 0 {
        counted_step(d, n - 1);
        listed_by_tag(n - 1);
    }
}

/// Every object is of one of the kinds that the breakdown goes through, so all are counted.
pub proof fn every_object_is_counted(d: Seq<DObjectView>)
    ensures
        counted(d, 14) == d.len(),
    decreases d.len(),
{
    if d.len() == 0 {
        nothing_counted(d, 14);
    } else {
        every_object_is_counted(d.drop_last());
        counted_step(d, 14);
    }
}

proof fn nothing_counted(d: Seq<DObjectView>, n: int)
    requires
        d.len() == 0,
    ensures
        counted(d, n) == 0,
    decreases n,
{
    if n > 0 {
        nothing_counted(d, n - 1);
    }
}

/// A colour as it can be shown: one of the indexed colours, or by its channels.
#[derive(Clone, Copy, Debug, PartialEq, Eq, Structural)]
pub enum Shown {
    Aci(u8),
    Rgb(u8, u8, u8),
}

/// The channels of a true colour.
pub open spec fn channels(v: u32) -> Shown {
    Shown::Rgb((v / 65536 % 256) as u8, (v / 256 % 256) as u8, (v % 256) as u8)
}

fn split_channels(v: u32) -> (r: Shown)
    ensures
        r == channels(v),
{
    Shown::Rgb((v / 65536 % 256) as u8, (v / 256 % 256) as u8, (v % 256) as u8)
}

impl DocView {
    /// An entry of the table of true colours; white where there is none.
    pub open spec fn true_color(self, idx: u16) -> Shown {
        if idx < self.truecolors.len() {
            channels(self.truecolors[idx as int])
        } else {
            Shown::Rgb(255, 255, 255)
        }
    }

    /// The colour that a layer shows.
    pub open spec fn layer_color(self, layer: u32) -> Shown {
        if layer < self.layers.len() {
            match self.layers[layer as int].color {
                Color::Aci(i) => Shown::Aci(i),
                Color::TrueColorRef(idx) => self.true_color(idx),
                _ => Shown::Rgb(180, 180, 200),
            }
        } else {
            Shown::Rgb(180, 180, 200)
        }
    }

    /// The colour that a swatch shows for an assigned colour.
    pub open spec fn shown_color(self, c: Color, layer: u32) -> Shown {
        match c {
            Color::Aci(i) => Shown::Aci(i),
            Color::TrueColorRef(idx) => self.true_color(idx),
            Color::ByBlock => Shown::Rgb(140, 140, 160),
            Color::ByLayer => self.layer_color(layer),
        }
    }

    /// The colour that the palette of pens shows for a pen.
    pub open spec fn pen_color(self, c: Color) -> Shown {
        match c {
            Color::Aci(i) => Shown::Aci(i),
            Color::TrueColorRef(idx) => if idx < self.truecolors.len() {
                channels(self.truecolors[idx as int])
            } else {
                Shown::Rgb(128, 128, 128)
            },
            _ => Shown::Rgb(180, 180, 200),
        }
    }
}

impl CadApp {
    fn true_color(&self, idx: u16) -> (r: Shown)
        ensures
            r == self@.doc.true_color(idx),
    {
        if (idx as usize) < self.doc.truecolors.len() {
            split_channels(self.doc.truecolors[idx as usize])
        } else {
            Shown::Rgb(255, 255, 255)
        }
    }

    fn layer_color(&self, layer: u32) -> (r: Shown)
        ensures
            r == self@.doc.layer_color(layer),
    {
        if (layer as u64) < self.doc.layers.len() as u64 {
            assert(self@.doc.layers[layer as int] == self.doc.layers@[layer as int]@);
            match self.doc.layers[layer as usize].color {
                Color::Aci(i) => Shown::Aci(i),
                Color::TrueColorRef(idx) => self.true_color(idx),
                _ => Shown::Rgb(180, 180, 200),
            }
        } else {
            Shown::Rgb(180, 180, 200)
        }
    }

    /// The colour that a swatch shows for an assigned colour. One that is taken over from the
    /// layer shows the layer's.
    pub fn resolve_color32(&self, c: Color, layer: u32) -> (r: Shown)
        ensures
            r == self@.doc.shown_color(c, layer),
    {
        match c {
            Color::Aci(i) => Shown::Aci(i),
            Color::TrueColorRef(idx) => self.true_color(idx),
            Color::ByBlock => Shown::Rgb(140, 140, 160),
            Color::ByLayer => self.layer_color(layer),
        }
    }

    /// The colour that the palette of pens shows for a pen.
    pub fn pen_swatch(&self, c: Color) -> (r: Shown)
        ensures
            r == self@.doc.pen_color(c),
    {
        match c {
            Color::Aci(i) => Shown::Aci(i),
            Color::TrueColorRef(idx) => {
                if (idx as usize) < self.doc.truecolors.len() {
                    split_channels(self.doc.truecolors[idx as usize])
                } else {
                    Shown::Rgb(128, 128, 128)
                }
            },
            _ => Shown::Rgb(180, 180, 200),
        }
    }
}

/// What is shown of a property that differs between the targets.
pub open spec fn varies() -> Seq<char> {
    "*VARIES*"@
}

/// The name of a shared entry of a table: `?` where the table has none, and that it varies where
/// the targets do not share one.
pub open spec fn entry_label(shared: Option<u32>, names: Seq<Seq<char>>) -> Seq<char> {
    match shared {
        Some(id) => if id < names.len() {
            names[id as int]
        } else {
            "?"@
        },
        None => varies(),
    }
}

/// The name of a shared entry of a table.
pub fn entry_name(shared: Option<u32>, names: &Vec<String>) -> (r: String)
    ensures
        r@ == entry_label(shared, views(names@)),
{
    match shared {
        Some(id) => {
            if (id as u64) < names.len() as u64 {
                assert(views(names@)[id as int] == names@[id as int]@);
                names[id as usize].clone()
            } else {
                String::from_str("?")
            }
        },
        None => String::from_str("*VARIES*"),
    }
}

/// What is shown of a line weight.
pub open spec fn weight_label(w: Option<Lineweight>) -> Seq<char> {
    match w {
        None => varies(),
        Some(Lineweight::ByLayer) => "ByLayer"@,
        Some(Lineweight::ByBlock) => "ByBlock"@,
        Some(Lineweight::Default) => "Default"@,
        Some(Lineweight::Custom(h)) => hundredths_text(h as nat) + " mm"@,
    }
}

/// What is shown of a line weight.
pub fn weight_text(w: Option<Lineweight>) -> (r: String)
    ensures
        r@ == weight_label(w),
{
    match w {
        None => String::from_str("*VARIES*"),
        Some(Lineweight::ByLayer) => String::from_str("ByLayer"),
        Some(Lineweight::ByBlock) => String::from_str("ByBlock"),
        Some(Lineweight::Default) => String::from_str("Default"),
        Some(Lineweight::Custom(h)) => cat2(write_hundredths(h as u128).as_str(), " mm"),
    }
}

/// The line weights that can be chosen.
pub open spec fn weights_offered() -> Seq<Lineweight> {
    seq![
        Lineweight::ByLayer,
        Lineweight::ByBlock,
        Lineweight::Default,
        Lineweight::Custom(5),
        Lineweight::Custom(13),
        Lineweight::Custom(18),
        Lineweight::Custom(25),
        Lineweight::Custom(35),
        Lineweight::Custom(50),
        Lineweight::Custom(70),
        Lineweight::Custom(100),
        Lineweight::Custom(140),
        Lineweight::Custom(200),
    ]
}

/// The line weights that can be chosen.
pub fn weight_choices() -> (r: Vec<Lineweight>)
    ensures
        r@ == weights_offered(),
{
    let r = vec![
        Lineweight::ByLayer,
        Lineweight::ByBlock,
        Lineweight::Default,
        Lineweight::Custom(5),
        Lineweight::Custom(13),
        Lineweight::Custom(18),
        Lineweight::Custom(25),
        Lineweight::Custom(35),
        Lineweight::Custom(50),
        Lineweight::Custom(70),
        Lineweight::Custom(100),
        Lineweight::Custom(140),
        Lineweight::Custom(200),
    ];
    assert(r@ =~= weights_offered());
    r
}

/// What is shown of a colour, and whether it is set apart because it is not the object's own.
pub struct ColorLabel {
    pub text: String,
    pub swatch: Option<Shown>,
    pub italic: bool,
}

impl DocView {
    /// What is shown of a shared colour.
    pub open spec fn color_label(self, c: Option<Color>) -> Seq<char> {
        match c {
            Some(Color::ByLayer) => "By Layer"@,
            Some(Color::ByBlock) => "By Block"@,
            Some(Color::Aci(i)) => "ACI "@ + dec(i as nat),
            Some(Color::TrueColorRef(idx)) => match self.true_color(idx) {
                Shown::Rgb(r, g, b) => "RGB #"@ + crate::text::hex_byte(r) + crate::text::hex_byte(
                    g,
                ) + crate::text::hex_byte(b),
                Shown::Aci(_) => Seq::empty(),
            },
            None => varies(),
        }
    }
}

impl CadApp {
    fn color_text(&self, c: Option<Color>) -> (r: String)
        ensures
            r@ == self@.doc.color_label(c),
    {
        match c {
            Some(Color::ByLayer) => String::from_str("By Layer"),
            Some(Color::ByBlock) => String::from_str("By Block"),
            Some(Color::Aci(i)) => cat2("ACI ", dec_text(i as u64).as_str()),
            Some(Color::TrueColorRef(idx)) => match self.true_color(idx) {
                Shown::Rgb(r, g, b) => cat4(
                    "RGB #",
                    crate::text::hex_byte_text(r).as_str(),
                    crate::text::hex_byte_text(g).as_str(),
                    crate::text::hex_byte_text(b).as_str(),
                ),
                Shown::Aci(_) => String::new(),
            },
            None => String::from_str("*VARIES*"),
        }
    }

    /// What the row for the colour shows of the targets.
    pub fn color_row(&self, g: &SharedStyle) -> (r: ColorLabel)
        ensures
            r.text@ == self@.doc.color_label(g.color),
            r.swatch == match g.color {
                Some(c) => Some(
                    self@.doc.shown_color(
                        c,
                        match g.layer {
                            Some(l) => l,
                            None => 0,
                        },
                    ),
                ),
                None => None,
            },
            r.italic == !(g.color matches Some(Color::Aci(_)) || g.color matches Some(
                Color::TrueColorRef(_),
            )),
    {
        let layer: u32 = match g.layer {
            Some(l) => l,
            None => 0,
        };
        ColorLabel {
            text: self.color_text(g.color),
            swatch: match g.color {
                Some(c) => Some(self.resolve_color32(c, layer)),
                None => None,
            },
            italic: match g.color {
                Some(Color::Aci(_)) => false,
                Some(Color::TrueColorRef(_)) => false,
                _ => true,
            },
        }
    }

    fn layer_names(&self) -> (r: Vec<String>)
        ensures
            views(r@) == self@.doc.layer_names(),
    {
        let mut out: Vec<String> = Vec::new();
        let mut i: usize = 0;
        while i < self.doc.layers.len()
            invariant
                i <= self.doc.layers.len(),
                out.len() == i,
                forall|k: int| 0 <= k < i ==> (#[trigger] out@[k])@ == self.doc.layers@[k].name@,
            decreases self.doc.layers.len() - i,
        {
            out.push(self.doc.layers[i].name.clone());
            i += 1;
        }
        assert(views(out@) =~= self@.doc.layer_names());
        out
    }

    /// What the row for the layer shows of the targets, and the colour of its swatch.
    pub fn layer_row(&self, g: &SharedStyle) -> (r: (String, Option<Shown>))
        ensures
            r.0@ == entry_label(g.layer, self@.doc.layer_names()),
            r.1 == match g.layer {
                Some(l) => Some(self@.doc.shown_color(Color::ByLayer, l)),
                None => None,
            },
    {
        let names = self.layer_names();
        let swatch = match g.layer {
            Some(l) => Some(self.resolve_color32(Color::ByLayer, l)),
            None => None,
        };
        (entry_name(g.layer, &names), swatch)
    }

    /// What the row for the line type shows of the targets.
    pub fn linetype_row(&self, g: &SharedStyle) -> (r: String)
        ensures
            r@ == entry_label(g.linetype, self@.doc.linetypes),
    {
        entry_name(g.linetype, &self.doc.linetypes)
    }
}

/// The box that says whether objects are visible.
#[derive(Clone, Copy, Debug, PartialEq, Eq, Structural)]
pub enum Check {
    On,
    Off,
    Mixed,
}

/// What the box for visibility shows.
pub fn visible_row(g: &SharedStyle) -> (r: Check)
    ensures
        r == match g.visible {
            Some(true) => Check::On,
            Some(false) => Check::Off,
            None => Check::Mixed,
        },
{
    match g.visible {
        Some(v) => {
            if v {
                Check::On
            } else {
                Check::Off
            }
        },
        None => Check::Mixed,
    }
}

/// What a click on a box makes of all targets: off where all are on, else on.
pub open spec fn toggled(shared: Option<bool>) -> bool {
    shared != Some(true)
}

/// What a click on the box for visibility makes of all targets: invisible where all are visible,
/// else visible.
pub fn visible_toggled(g: &SharedStyle) -> (r: bool)
    ensures
        r == toggled(g.visible),
{
    match g.visible {
        Some(v) => !v,
        None => true,
    }
}

/// Whether a search for a property lets a row through.
pub open spec fn row_found(query: Seq<char>, label: Seq<char>) -> bool {
    trimmed(query).len() == 0 || holds_text(lowered(label), lowered(trimmed(query)))
}

fn find_row(query: &str, label: &str) -> (r: bool)
    ensures
        r == row_found(query@, label@),
{
    let q = trim(query);
    q.unicode_len() == 0 || crate::text::holds_any_case(label, q)
}

/// Which rows of the general properties a search lets through.
#[derive(Clone, Copy, Debug, PartialEq, Eq, Structural)]
pub struct GeneralRows {
    pub layer: bool,
    pub color: bool,
    pub linetype: bool,
    pub ltscale: bool,
    pub lineweight: bool,
    pub visible: bool,
}

/// Which rows of the general properties a search lets through.
pub fn general_rows(query: &str) -> (r: GeneralRows)
    ensures
        r.layer == row_found(query@, "Layer"@),
        r.color == row_found(query@, "Color"@),
        r.linetype == (row_found(query@, "Linetype"@) || row_found(query@, "Line Type"@)),
        r.ltscale == (row_found(query@, "Lt Scale"@) || row_found(query@, "Linetype scale"@)),
        r.lineweight == (row_found(query@, "Lineweight"@) || row_found(query@, "Line Weight"@)),
        r.visible == row_found(query@, "Visible"@),
{
    GeneralRows {
        layer: find_row(query, "Layer"),
        color: find_row(query, "Color"),
        linetype: find_row(query, "Linetype") || find_row(query, "Line Type"),
        ltscale: find_row(query, "Lt Scale") || find_row(query, "Linetype scale"),
        lineweight: find_row(query, "Lineweight") || find_row(query, "Line Weight"),
        visible: find_row(query, "Visible"),
    }
}

/// Which parts the inspector shows besides the general properties. `mixed` says that only those
/// apply, and `hatch` that the part for the fill of hatches is shown.
pub struct Sections {
    pub geometry: bool,
    pub mixed: bool,
    pub hatch: bool,
    pub handle: Option<String>,
    pub index: Option<String>,
}

impl CadApp {
    /// Which parts the inspector shows for some targets: the geometry and the identity of a single
    /// one, and the fill where they are all hatches.
    pub fn inspector_sections(&self, targets: &Vec<usize>) -> (r: Sections)
        ensures
            ({
                let one = targets@.len() == 1;
                let uniform = uniform_tag(targeted(self@.doc.dobjects, targets@));
                &&& r.geometry == one
                &&& r.mixed == (!one && uniform is None)
                &&& r.hatch == (uniform == Some(tag_of(GeomKind::Hatch)))
                &&& opt_view(r.handle) == if one {
                    Some(
                        "0x"@ + crate::text::hex(
                            if targets@[0] < self@.doc.dobjects.len() {
                                self@.doc.dobjects[targets@[0] as int].handle as nat
                            } else {
                                0
                            },
                        ),
                    )
                } else {
                    None
                }
                &&& opt_view(r.index) == if one {
                    Some("#"@ + dec(targets@[0] as nat))
                } else {
                    None
                }
            }),
    {
        let uniform: Option<u8> = self.targets_uniform_tag(targets);
        let one = targets.len() == 1;
        let mut handle: Option<String> = None;
        let mut index: Option<String> = None;
        if one {
            let i: usize = targets[0];
            let h: u64 = if i < self.doc.dobjects.len() {
                assert(self@.doc.dobjects[i as int] == self.doc.dobjects@[i as int]@);
                self.doc.dobjects[i].handle
            } else {
                0
            };
            handle = Some(cat2("0x", crate::text::hex_text(h).as_str()));
            index = Some(cat2("#", dec_text(i as u64).as_str()));
        }
        Sections {
            geometry: one,
            mixed: !one && uniform.is_none(),
            hatch: match uniform {
                Some(t) => t == 7,
                None => false,
            },
            handle: handle,
            index: index,
        }
    }
}

/// The objects that the pill counts are those that the inspector shows.
pub proof fn pill_counts_what_is_inspected(s: AppView, i: usize)
    ensures
        s.pill_targets().contains(i) <==> s.inspects(i),
        s.pill() is None <==> s.pill_targets().len() == 0,
{
    let all = if s.selection.len() > 0 {
        s.selection
    } else if s.selected is Some {
        seq![s.selected->0]
    } else {
        Seq::empty()
    };
    let p = |i: usize| i < s.doc.dobjects.len();
    let at = crate::groups::filter_places(all, p);
    let t = s.pill_targets();
    if t.contains(i) {
        let k = choose|k: int| 0 <= k < t.len() && t[k] == i;
        assert(p(t[k]));
        assert(all[at[k]] == i);
        assert(all.contains(i));
    }
    if s.inspects(i) {
        if s.selection.len() == 0 {
            assert(all[0] == i);
        }
        assert(all.contains(i));
        let k = choose|k: int| 0 <= k < all.len() && all[k] == i;
        assert(p(all[k]));
        let j = choose|j: int| 0 <= j < at.len() && #[trigger] at[j] == k;
        assert(t[j] == i);
    }
}

/// An object whose colour is by layer is shown in its layer's colour, and one with a colour of its
/// own in that, whatever its layer.
pub proof fn objects_by_layer_look_like_it(d: DocView, layer: u32, other: u32, c: Color)
    requires
        layer < d.layers.len(),
    ensures
        d.layers[layer as int].color is Aci || d.layers[layer as int].color is TrueColorRef
            ==> d.shown_color(Color::ByLayer, layer) == d.shown_color(
            d.layers[layer as int].color,
            layer,
        ),
        !(c is ByLayer) ==> d.shown_color(c, layer) == d.shown_color(c, other),
        c is Aci ==> d.shown_color(c, layer) == d.pen_color(c),
        c matches Color::TrueColorRef(i) ==> i < d.truecolors.len() ==> d.shown_color(c, layer)
            == d.pen_color(c),
{
}

/// The three channels of a colour put it together again.
pub proof fn channels_make_the_color(v: u32)
    ensures
        channels(v) matches Shown::Rgb(r, g, b) ==> r * 65536 + g * 256 + b == v % 16_777_216,
        channels(v) is Rgb,
{
    assert(v / 65536 % 256 * 65536 + v / 256 % 256 * 256 + v % 256 == v % 16_777_216)
        by (bit_vector);
}

/// A row is found by nothing typed, and by any part of its label, in capitals or not.
pub proof fn rows_are_found_by_their_label(query: Seq<char>, label: Seq<char>, a: int, b: int)
    ensures
        is_blank(query) ==> row_found(query, label),
        0 <= a <= b <= label.len() && lowered(trimmed(query)) == lowered(label.subrange(a, b))
            ==> row_found(query, label),
        row_found(query, label) && !is_blank(query) ==> lowered(trimmed(query)).len() <= label.len(),
{
    if 0 <= a <= b <= label.len() && lowered(trimmed(query)) == lowered(label.subrange(a, b)) {
        let part = lowered(trimmed(query));
        assert(part.len() == b - a);
        assert(lowered(label).subrange(a, a + part.len()) =~= part);
    }
}

/// A click on the box for visibility shows all objects where one of them is hidden, and hides them
/// where all are shown; a second click then does the opposite.
pub proof fn clicked_box_goes_to_and_fro(d: Seq<DObjectView>, i: int)
    requires
        0 <= i < d.len(),
    ensures
        !d[i].style.visible ==> toggled(crate::props::general_of(d).visible),
        (forall|k: int| 0 <= k < d.len() ==> (#[trigger] d[k]).style.visible) ==> !toggled(
            crate::props::general_of(d).visible,
        ),
        toggled(Some(toggled(crate::props::general_of(d).visible))) == !toggled(
            crate::props::general_of(d).visible,
        ),
{
    crate::props::shown_style_is_what_all_have(
        d,
        crate::doc::Style { visible: true, ..d[i].style },
    );
}

} // verus!
