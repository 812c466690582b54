//! The rows that the inspector shows for objects of one kind.
use vstd::prelude::*;

use crate::app::{AppView, CadApp};
use crate::copying::{opt_view, views};
use crate::doc::{DObject, DObjectView, Geom, GeomKind, GeomView};
use crate::edits::PropEdit;
use crate::grid::{clamp64, clamp_i64, nearest, nearest_ratio};
use crate::props::{first_reading, geom_readings, shared_of, targeted};
use crate::text::{cat2, same};

verus! {

/// A row for objects of one kind.
#[derive(Clone, Copy, Debug, PartialEq, Eq, Structural)]
pub enum Row {
    PointStyle,
    PointSize,
    Closed,
    HatchScale,
    HatchAngle,
    SplineDegree,
    SplineWidth,
    WallStyle,
    WallThickness,
    TextStyle,
    TextBold,
    TextItalic,
    TextHeight,
    TextAngle,
    DimStyle,
    BlockScale,
    BlockRotation,
}

/// A quotient without its fraction.
pub open spec fn cut(a: i64, d: int) -> i64 {
    if a < 0 {
        -((-a) / d) as i64
    } else {
        (a as int / d) as i64
    }
}

fn cut_to(a: i64, d: i128) -> (r: i64)
    requires
        1 < d <= 100_000_000,
    ensures
        r == cut(a, d as int),
{
    let x: i128 = a as i128;
    if x < 0 {
        let m: i128 = -x;
        assert(0 <= m / d <= m) by (nonlinear_arith)
            requires
                m >= 0,
                d > 1,
        ;
        assert(m / d <= 0x7fff_ffff_ffff_ffff) by (nonlinear_arith)
            requires
                0 <= m <= 0x8000_0000_0000_0000,
                d > 1,
        ;
        (-(m / d)) as i64
    } else {
        assert(0 <= x / d <= x) by (nonlinear_arith)
            requires
                x >= 0,
                d > 1,
        ;
        (x / d) as i64
    }
}

/// What a row reads from a shape, if the shape is of the row's kind. Sizes are in millionths, the
/// size of a point in thousandths; the angle of a hatch is in ten-thousandths of a degree, to the
/// nearest, that of a text or a block in thousandths. A text is italic where it leans by more than
/// a millionth of a radian.
pub open spec fn row_reading(g: GeomView, row: Row) -> Option<i64> {
    match row {
        Row::PointStyle => if g.kind == GeomKind::Point {
            Some(g.traits.style as i64)
        } else {
            None
        },
        Row::PointSize => if g.kind == GeomKind::Point {
            Some(cut(g.traits.size, 1_000))
        } else {
            None
        },
        Row::Closed => if g.kind == GeomKind::Polyline {
            Some(
                if g.traits.flag {
                    1i64
                } else {
                    0
                },
            )
        } else {
            None
        },
        Row::HatchScale => if g.kind == GeomKind::Hatch && g.traits.flag {
            Some(g.traits.size)
        } else {
            None
        },
        Row::HatchAngle => if g.kind == GeomKind::Hatch && g.traits.flag {
            Some(clamp64(nearest(g.turn as int, 100)))
        } else {
            None
        },
        Row::SplineDegree => if g.kind == GeomKind::Spline {
            Some(g.traits.style as i64)
        } else {
            None
        },
        Row::SplineWidth => if g.kind == GeomKind::Spline {
            Some(g.traits.size)
        } else {
            None
        },
        Row::WallStyle => if g.kind == GeomKind::Wall {
            Some(g.traits.style as i64)
        } else {
            None
        },
        Row::WallThickness => if g.kind == GeomKind::Wall {
            Some(g.traits.size)
        } else {
            None
        },
        Row::TextStyle => if g.kind == GeomKind::Text {
            Some(g.traits.style as i64)
        } else {
            None
        },
        Row::TextBold => if g.kind == GeomKind::Text {
            Some(
                if g.traits.flag {
                    1i64
                } else {
                    0
                },
            )
        } else {
            None
        },
        Row::TextItalic => if g.kind == GeomKind::Text {
            Some(
                if g.traits.slant > 1 || g.traits.slant < -1 {
                    1i64
                } else {
                    0
                },
            )
        } else {
            None
        },
        Row::TextHeight => if g.kind == GeomKind::Text {
            Some(g.traits.size)
        } else {
            None
        },
        Row::TextAngle => if g.kind == GeomKind::Text {
            Some(cut(g.turn, 1_000))
        } else {
            None
        },
        Row::DimStyle => if g.kind == GeomKind::Dimension {
            Some(g.traits.style as i64)
        } else {
            None
        },
        Row::BlockScale => if g.kind == GeomKind::BlockRef {
            Some(g.traits.size)
        } else {
            None
        },
        Row::BlockRotation => if g.kind == GeomKind::BlockRef {
            Some(cut(g.turn, 1_000))
        } else {
            None
        },
    }
}

/// The kind that a row is for.
fn row_kind(row: Row) -> (k: GeomKind)
    ensures
        forall|g: GeomView| #[trigger] row_reading(g, row) is Some ==> g.kind == k,
        forall|g: GeomView|
            g.kind == k && (k != GeomKind::Hatch || g.traits.flag) ==> #[trigger] row_reading(
                g,
                row,
            ) is Some,
        k == GeomKind::Hatch ==> forall|g: GeomView| #[trigger]
            row_reading(g, row) is Some ==> g.traits.flag,
{
    match row {
        Row::PointStyle => GeomKind::Point,
        Row::PointSize => GeomKind::Point,
        Row::Closed => GeomKind::Polyline,
        Row::HatchScale => GeomKind::Hatch,
        Row::HatchAngle => GeomKind::Hatch,
        Row::SplineDegree => GeomKind::Spline,
        Row::SplineWidth => GeomKind::Spline,
        Row::WallStyle => GeomKind::Wall,
        Row::WallThickness => GeomKind::Wall,
        Row::TextStyle => GeomKind::Text,
        Row::TextBold => GeomKind::Text,
        Row::TextItalic => GeomKind::Text,
        Row::TextHeight => GeomKind::Text,
        Row::TextAngle => GeomKind::Text,
        Row::DimStyle => GeomKind::Dimension,
        Row::BlockScale => GeomKind::BlockRef,
        Row::BlockRotation => GeomKind::BlockRef,
    }
}

fn read_row(g: &Geom, row: Row) -> (r: Option<i64>)
    ensures
        r == row_reading(g@, row),
{
    let k = row_kind(row);
    if g.kind != k || (k == GeomKind::Hatch && !g.traits.flag) {
        return None;
    }
    let flag: i64 = if g.traits.flag {
        1
    } else {
        0
    };
    let lean: i64 = if g.traits.slant > 1 || g.traits.slant < -1 {
        1
    } else {
        0
    };
    let v: i64 = match row {
        Row::PointStyle => g.traits.style as i64,
        Row::PointSize => cut_to(g.traits.size, 1_000),
        Row::Closed => flag,
        Row::HatchScale => g.traits.size,
        Row::HatchAngle => clamp_i64(nearest_ratio(g.turn, 1, 100)),
        Row::SplineDegree => g.traits.style as i64,
        Row::SplineWidth => g.traits.size,
        Row::WallStyle => g.traits.style as i64,
        Row::WallThickness => g.traits.size,
        Row::TextStyle => g.traits.style as i64,
        Row::TextBold => flag,
        Row::TextItalic => lean,
        Row::TextHeight => g.traits.size,
        Row::TextAngle => cut_to(g.turn, 1_000),
        Row::DimStyle => g.traits.style as i64,
        Row::BlockScale => g.traits.size,
        Row::BlockRotation => cut_to(g.turn, 1_000),
    };
    Some(v)
}

/// What a row reads from some objects, without those that are not of its kind.
pub open spec fn row_readings(d: Seq<DObjectView>, row: Row) -> Seq<i64>
    decreases d.len(),
{
    if d.len() == 0 {
        Seq::empty()
    } else {
        let rest = row_readings(d.drop_last(), row);
        match row_reading(d.last().geom, row) {
            Some(v) => rest.push(v),
            None => rest,
        }
    }
}

proof fn readings_of_row<F: Fn(&Geom) -> Option<i64>>(
    get: F,
    row: Row,
    objects: Seq<DObject>,
    targets: Seq<usize>,
    vals: Seq<i64>,
)
    requires
        forall|g: Geom, o: Option<i64>| #[trigger]
            get.ensures((&g,), o) ==> o == row_reading(g@, row),
        geom_readings(get, objects, targets, vals),
    ensures
        vals == row_readings(targeted(views(objects), targets), row),
    decreases targets.len(),
{
    let d = views(objects);
    if targets.len() == 0 {
        assert(vals =~= Seq::empty());
    } else if targets.last() < objects.len() {
        let o = objects[targets.last() as int];
        assert(d[targets.last() as int] == o@);
        let rest = targeted(d, targets.drop_last());
        assert(rest.push(o@).drop_last() =~= rest);
        if vals.len() > 0 && get.ensures((&o.geom,), Some(vals.last())) && geom_readings(
            get,
            objects,
            targets.drop_last(),
            vals.drop_last(),
        ) {
            readings_of_row(get, row, objects, targets.drop_last(), vals.drop_last());
            assert(vals =~= vals.drop_last().push(vals.last()));
        } else {
            readings_of_row(get, row, objects, targets.drop_last(), vals);
        }
    } else {
        readings_of_row(get, row, objects, targets.drop_last(), vals);
    }
}

impl CadApp {
    /// What a row shows of the targets, where those of its kind share it.
    pub fn row_value(&self, targets: &Vec<usize>, row: Row) -> (r: Option<i64>)
        ensures
            r == shared_of(row_readings(targeted(self@.doc.dobjects, targets@), row)),
    {
        let get = |g: &Geom| -> (o: Option<i64>)
            ensures
                o == row_reading(g@, row),
            { read_row(g, row) };
        let r = self.props_shared_geom(targets, get);
        proof {
            let vals = choose|vals: Seq<i64>|
                geom_readings(get, self.doc.dobjects@, targets@, vals) && r == #[trigger] shared_of(
                    vals,
                );
            readings_of_row(get, row, self.doc.dobjects@, targets@, vals);
        }
        r
    }
}

/// What the box for a closed polyline says.
pub fn closed_label(shared: Option<i64>) -> (r: &'static str)
    ensures
        r@ == match shared {
            None => "(varies)"@,
            Some(v) => if v != 0 {
                "closed"@
            } else {
                "open"@
            },
        },
{
    match shared {
        None => "(varies)",
        Some(v) => {
            if v != 0 {
                "closed"
            } else {
                "open"
            }
        },
    }
}

/// The name of a hatch's fill.
pub open spec fn fill_name(g: GeomView) -> Seq<char> {
    if g.traits.flag {
        g.traits.label
    } else {
        "Solid"@
    }
}

/// The fill of the first hatch among some objects.
pub open spec fn first_fill(d: Seq<DObjectView>) -> Option<Seq<char>>
    decreases d.len(),
{
    if d.len() == 0 {
        None
    } else if d[0].geom.kind == GeomKind::Hatch {
        Some(fill_name(d[0].geom))
    } else {
        first_fill(d.drop_first())
    }
}

/// The objects at the places that exist, as the first target and the rest.
proof fn targeted_first(d: Seq<DObjectView>, targets: Seq<usize>)
    requires
        targets.len() > 0,
    ensures
        targeted(d, targets) == if targets[0] < d.len() {
            seq![d[targets[0] as int]] + targeted(d, targets.drop_first())
        } else {
            targeted(d, targets.drop_first())
        },
    decreases targets.len(),
{
    let rest = targets.drop_first();
    if targets.len() == 1 {
        assert(targets.drop_last() =~= Seq::<usize>::empty());
        assert(rest =~= Seq::<usize>::empty());
        assert(targeted(d, targets) =~= if targets[0] < d.len() {
            seq![d[targets[0] as int]] + targeted(d, rest)
        } else {
            targeted(d, rest)
        });
    } else {
        targeted_first(d, targets.drop_last());
        assert(targets.drop_last().drop_first() =~= rest.drop_last());
        assert(targeted(d, targets) =~= if targets[0] < d.len() {
            seq![d[targets[0] as int]] + targeted(d, rest)
        } else {
            targeted(d, rest)
        });
    }
}

proof fn first_reading_is_fill<F: Fn(&Geom) -> Option<String>>(
    get: F,
    objects: Seq<DObject>,
    targets: Seq<usize>,
    r: Option<String>,
)
    requires
        forall|g: Geom, o: Option<String>| #[trigger]
            get.ensures((&g,), o) ==> opt_view(o) == if g@.kind == GeomKind::Hatch {
                Some(fill_name(g@))
            } else {
                None
            },
        first_reading(get, objects, targets, r),
    ensures
        opt_view(r) == first_fill(targeted(views(objects), targets)),
    decreases targets.len(),
{
    let d = views(objects);
    if targets.len() > 0 {
        targeted_first(d, targets);
        let rest = targets.drop_first();
        if targets[0] < objects.len() {
            let o = objects[targets[0] as int];
            assert(d[targets[0] as int] == o@);
            let all = seq![o@] + targeted(d, rest);
            assert(all.drop_first() =~= targeted(d, rest));
            if r is Some && get.ensures((&o.geom,), r) {
            } else {
                let none: Option<String> = None;
                assert(get.ensures((&o.geom,), none));
                first_reading_is_fill(get, objects, rest, r);
            }
        } else {
            first_reading_is_fill(get, objects, rest, r);
        }
    }
}

impl CadApp {
    /// What the row for the pattern of hatches shows: the fill of the first hatch.
    pub fn hatch_name(&self, targets: &Vec<usize>) -> (r: String)
        ensures
            r@ == match first_fill(targeted(self@.doc.dobjects, targets@)) {
                Some(n) => n,
                None => "—"@,
            },
    {
        let get = |g: &Geom| -> (o: Option<String>)
            ensures
                opt_view(o) == if g@.kind == GeomKind::Hatch {
                    Some(fill_name(g@))
                } else {
                    None
                },
            {
                if g.kind == GeomKind::Hatch {
                    if g.traits.flag {
                        Some(g.traits.label.clone())
                    } else {
                        Some(String::from_str("Solid"))
                    }
                } else {
                    None
                }
            };
        let r = self.props_first_geom_string(targets, get);
        proof {
            first_reading_is_fill(get, self.doc.dobjects@, targets@, r);
        }
        match r {
            Some(n) => n,
            None => String::from_str("—"),
        }
    }
}

/// The font that an object asks for itself; one that is no text asks for none.
pub open spec fn own_font(d: DObjectView) -> Seq<char> {
    if d.geom.kind == GeomKind::Text {
        d.geom.traits.font
    } else {
        Seq::empty()
    }
}

/// What the row for the font shows: the font that all ask for, the one that all take over from
/// their style, or that it varies.
pub open spec fn font_label(d: Seq<DObjectView>, style_font: Option<Seq<char>>) -> Seq<char> {
    match shared_of(d.map_values(|o: DObjectView| own_font(o))) {
        Some(f) => if f.len() > 0 {
            f
        } else {
            "(inherit) "@ + match style_font {
                Some(s) => s,
                None => "standard"@,
            }
        },
        None => "*VARIES*"@,
    }
}

fn font_of(d: &DObject) -> (r: String)
    ensures
        r@ == own_font(d@),
{
    if d.geom.kind == GeomKind::Text {
        d.geom.traits.font.clone()
    } else {
        let none = String::new();
        assert(none@ =~= Seq::<char>::empty());
        none
    }
}

impl CadApp {
    fn shared_font(&self, targets: &Vec<usize>) -> (r: Option<String>)
        ensures
            opt_view(r) == shared_of(
                targeted(self@.doc.dobjects, targets@).map_values(|o: DObjectView| own_font(o)),
            ),
    {
        let ghost d = self@.doc.dobjects;
        let ghost fonts = |o: DObjectView| own_font(o);
        let mut first: Option<String> = None;
        let mut agree = true;
        let mut n: usize = 0;
        while n < targets.len()
            invariant
                n <= targets.len(),
                d == views(self.doc.dobjects@),
                fonts == (|o: DObjectView| own_font(o)),
                ({
                    let vals = targeted(d, targets@.subrange(0, n as int)).map_values(fonts);
                    &&& first is Some <==> vals.len() > 0
                    &&& vals.len() > 0 ==> first->0@ == vals[0]
                    &&& agree <==> forall|i: int| 0 <= i < vals.len() ==> #[trigger] vals[i]
                        == vals[0]
                }),
            decreases targets.len() - n,
        {
            let ghost head = targeted(d, targets@.subrange(0, n as int));
            let ghost next = targets@.subrange(0, n + 1);
            assert(next.drop_last() =~= targets@.subrange(0, n as int));
            let i: usize = targets[n];
            assert(next.last() == i);
            if i < self.doc.dobjects.len() {
                assert(d[i as int] == self.doc.dobjects@[i as int]@);
                let f = font_of(&self.doc.dobjects[i]);
                let ghost vals = head.map_values(fonts);
                let ghost more = head.push(d[i as int]).map_values(fonts);
                assert(more =~= vals.push(f@));
                assert(targeted(d, next) == head.push(d[i as int]));
                let ghost was = agree;
                match &first {
                    None => {
                        first = Some(f);
                    },
                    Some(g) => {
                        if !same(f.as_str(), g.as_str()) {
                            agree = false;
                            assert(more[vals.len() as int] != more[0]);
                        } else {
                            proof {
                                if was {
                                    assert forall|k: int| 0 <= k < more.len() implies #[trigger]
                                        more[k] == more[0] by {
                                        if k < vals.len() {
                                            assert(more[k] == vals[k]);
                                        }
                                    }
                                } else {
                                    let j = choose|j: int|
                                        0 <= j < vals.len() && #[trigger] vals[j] != vals[0];
                                    assert(more[j] == vals[j]);
                                    assert(more[0] == vals[0]);
                                }
                            }
                        }
                    },
                }
            } else {
                assert(targeted(d, next) == head);
            }
            n += 1;
        }
        assert(targets@.subrange(0, n as int) =~= targets@);
        if agree {
            first
        } else {
            None
        }
    }

    /// What the row for the font of texts shows; `style_font` is the font that the styles of all of
    /// them resolve to, if they agree on one.
    pub fn font_row(&self, targets: &Vec<usize>, style_font: Option<String>) -> (r: String)
        ensures
            r@ == font_label(targeted(self@.doc.dobjects, targets@), opt_view(style_font)),
    {
        match self.shared_font(targets) {
            Some(f) => {
                if f.as_str().unicode_len() > 0 {
                    f
                } else {
                    match style_font {
                        Some(s) => cat2("(inherit) ", s.as_str()),
                        None => cat2("(inherit) ", "standard"),
                    }
                }
            },
            None => String::from_str("*VARIES*"),
        }
    }

    /// The values of a block's parameters: its own, or those of its definition where it has none.
    /// `defs` are the values in the definition.
    pub fn block_param_values(&self, idx: usize, defs: &Vec<i64>) -> (r: Vec<i64>)
        ensures
            ({
                let block = idx < self@.doc.dobjects.len()
                    && self@.doc.dobjects[idx as int].geom.kind == GeomKind::BlockRef;
                if block {
                    r@ == params_shown(self@.doc.dobjects[idx as int].geom, defs@)
                } else {
                    r@.len() == 0
                }
            }),
    {
        let mut out: Vec<i64> = Vec::new();
        if idx < self.doc.dobjects.len() {
            let o: &DObject = &self.doc.dobjects[idx];
            assert(self@.doc.dobjects[idx as int] == o@);
            if o.geom.kind == GeomKind::BlockRef {
                let ghost own = o@.geom.traits.params;
                let mut k: usize = 0;
                while k < defs.len()
                    invariant
                        k <= defs.len(),
                        out.len() == k,
                        own == o.geom.traits.params@,
                        forall|j: int|
                            0 <= j < k ==> #[trigger] out@[j] == if j < own.len() {
                                own[j]
                            } else {
                                defs@[j]
                            },
                    decreases defs.len() - k,
                {
                    if k < o.geom.traits.params.len() {
                        out.push(o.geom.traits.params[k]);
                    } else {
                        out.push(defs[k]);
                    }
                    k += 1;
                }
                assert(out@ =~= Seq::new(
                    defs@.len(),
                    |k: int|
                        if k < own.len() {
                            own[k]
                        } else {
                            defs@[k]
                        },
                ));
            }
        }
        out
    }
}

/// A row of the inspector that was edited shows what was set, as finely as it shows it.
pub proof fn edited_row_shows_what_was_set(
    s: AppView,
    targets: Seq<usize>,
    snapshot: bool,
    e: PropEdit,
    k: int,
)
    requires
        0 <= k < targets.len(),
        targets[k] < s.doc.dobjects.len(),
    ensures
        ({
            let a = s.doc.dobjects[targets[k] as int].geom;
            let b = s.props_applied(targets, snapshot, e).doc.dobjects[targets[k] as int].geom;
            match e {
                PropEdit::PointStyle(v) => a.kind == GeomKind::Point && v <= 99 ==> row_reading(
                    b,
                    Row::PointStyle,
                ) == Some(v as i64),
                PropEdit::PointSize(v) => a.kind == GeomKind::Point && 0 <= v <= 1_000_000_000_000
                    ==> (row_reading(b, Row::PointSize) matches Some(r) && 0 <= v - r * 1_000 < 1_000),
                PropEdit::Closed(v) => a.kind == GeomKind::Polyline ==> row_reading(b, Row::Closed)
                    == Some(
                    if v {
                        1i64
                    } else {
                        0
                    },
                ),
                PropEdit::HatchScale(v) => a.kind == GeomKind::Hatch && a.traits.flag && 1_000 <= v
                    <= 1_000_000_000_000 ==> row_reading(b, Row::HatchScale) == Some(v),
                PropEdit::HatchAngle(v) => a.kind == GeomKind::Hatch && a.traits.flag
                    && -360_000_000 <= v <= 360_000_000 ==> (row_reading(
                    b,
                    Row::HatchAngle,
                ) matches Some(r) && -100 <= 2 * (v - r * 100) <= 100),
                PropEdit::SplineWidth(v) => a.kind == GeomKind::Spline && 0 <= v
                    <= 1_000_000_000_000_000 ==> row_reading(b, Row::SplineWidth) == Some(v),
                PropEdit::WallStyle(id, _) => a.kind == GeomKind::Wall ==> row_reading(
                    b,
                    Row::WallStyle,
                ) == Some(id as i64),
                PropEdit::WallThickness(v) => a.kind == GeomKind::Wall && 1_000 <= v
                    <= 1_000_000_000_000_000 ==> row_reading(b, Row::WallThickness) == Some(v),
                PropEdit::TextStyle(id) => a.kind == GeomKind::Text ==> row_reading(
                    b,
                    Row::TextStyle,
                ) == Some(id as i64),
                PropEdit::TextBold(v) => a.kind == GeomKind::Text ==> row_reading(b, Row::TextBold)
                    == Some(
                    if v {
                        1i64
                    } else {
                        0
                    },
                ),
                PropEdit::TextSlant(v) => a.kind == GeomKind::Text ==> (row_reading(
                    b,
                    Row::TextItalic,
                ) == Some(1i64) <==> v > 1 || v < -1),
                PropEdit::TextHeight(v) => a.kind == GeomKind::Text && 1_000 <= v
                    <= 1_000_000_000_000_000 ==> row_reading(b, Row::TextHeight) == Some(v),
                PropEdit::TextAngle(v) => a.kind == GeomKind::Text && -360_000_000 <= v
                    <= 360_000_000 ==> (row_reading(b, Row::TextAngle) matches Some(r) && -1_000 < v
                    - r * 1_000 < 1_000),
                PropEdit::DimStyle(id) => a.kind == GeomKind::Dimension ==> row_reading(
                    b,
                    Row::DimStyle,
                ) == Some(id as i64),
                PropEdit::BlockScale(v) => a.kind == GeomKind::BlockRef && 100 <= v
                    <= 1_000_000_000_000_000 ==> row_reading(b, Row::BlockScale) == Some(v),
                PropEdit::BlockRotation(v) => a.kind == GeomKind::BlockRef && -360_000_000 <= v
                    <= 360_000_000 ==> (row_reading(b, Row::BlockRotation) matches Some(r) && -1_000
                    < v - r * 1_000 < 1_000),
                _ => true,
            }
        }),
{
    let b = s.props_applied(targets, snapshot, e).doc.dobjects[targets[k] as int].geom;
    crate::edits::edit_reads_back(s, targets, snapshot, e, k);
    crate::edits::edit_changes_just_that(s, targets, snapshot, e, targets[k] as int);
    crate::grid::nearest_is_near(b.turn as int, 100);
    match e {
        PropEdit::HatchAngle(v) => {
            crate::grid::nearest_is_near(v as int, 100);
        },
        _ => {},
    }
}

/// A row has a value on the objects of the kind it is of, and on no others.
pub proof fn row_is_of_one_kind(g: GeomView, row: Row)
    ensures
        row is PointStyle || row is PointSize ==> (row_reading(g, row) is Some <==> g.kind
            == GeomKind::Point),
        row is Closed ==> (row_reading(g, row) is Some <==> g.kind == GeomKind::Polyline),
        row is HatchScale || row is HatchAngle ==> (row_reading(g, row) is Some <==> g.kind
            == GeomKind::Hatch && g.traits.flag),
        row is SplineDegree || row is SplineWidth ==> (row_reading(g, row) is Some <==> g.kind
            == GeomKind::Spline),
        row is WallStyle || row is WallThickness ==> (row_reading(g, row) is Some <==> g.kind
            == GeomKind::Wall),
        row is TextStyle || row is TextBold || row is TextItalic || row is TextHeight || row
            is TextAngle ==> (row_reading(g, row) is Some <==> g.kind == GeomKind::Text),
        row is DimStyle ==> (row_reading(g, row) is Some <==> g.kind == GeomKind::Dimension),
        row is BlockScale || row is BlockRotation ==> (row_reading(g, row) is Some <==> g.kind
            == GeomKind::BlockRef),
        row is SplineDegree && g.kind == GeomKind::Spline ==> row_reading(g, row) == Some(
            g.traits.style as i64,
        ),
{
}

/// A row shows a value of some objects exactly if it has a value on one of them at least, and the
/// same on each on which it has one.
pub proof fn row_shows_what_all_have(d: Seq<DObjectView>, row: Row, v: i64)
    ensures
        shared_of(row_readings(d, row)) == Some(v) <==> (exists|i: int|
            0 <= i < d.len() && row_reading((#[trigger] d[i]).geom, row) == Some(v)) && (forall|
            i: int,
        |
            0 <= i < d.len() ==> row_reading((#[trigger] d[i]).geom, row) == Some(v) || row_reading(
                d[i].geom,
                row,
            ) is None),
{
    let r = row_readings(d, row);
    readings_are_of_the_objects(d, row);
    if shared_of(r) == Some(v) {
        assert(r.contains(r[0]));
        assert forall|i: int| 0 <= i < d.len() implies row_reading((#[trigger] d[i]).geom, row)
            == Some(v) || row_reading(d[i].geom, row) is None by {
            match row_reading(d[i].geom, row) {
                Some(w) => {
                    assert(r.contains(w));
                    let j = choose|j: int| 0 <= j < r.len() && r[j] == w;
                    assert(r[j] == r[0]);
                },
                None => {},
            }
        }
    }
    if (exists|i: int| 0 <= i < d.len() && row_reading((#[trigger] d[i]).geom, row) == Some(v)) && (
    forall|i: int|
        0 <= i < d.len() ==> row_reading((#[trigger] d[i]).geom, row) == Some(v) || row_reading(
            d[i].geom,
            row,
        ) is None) {
        assert(r.contains(v));
        assert forall|j: int| 0 <= j < r.len() implies #[trigger] r[j] == v by {
            assert(r.contains(r[j]));
        }
    }
}

proof fn readings_are_of_the_objects(d: Seq<DObjectView>, row: Row)
    ensures
        forall|v: i64| #[trigger]
            row_readings(d, row).contains(v) <==> exists|i: int|
                0 <= i < d.len() && row_reading((#[trigger] d[i]).geom, row) == Some(v),
    decreases d.len(),
{
    if d.len() > 0 {
        let front = d.drop_last();
        let rest = row_readings(front, row);
        let all = row_readings(d, row);
        readings_are_of_the_objects(front, row);
        assert forall|v: i64| #[trigger] all.contains(v) <==> exists|i: int|
            0 <= i < d.len() && row_reading((#[trigger] d[i]).geom, row) == Some(v) by {
            if all.contains(v) {
                let k = choose|k: int| 0 <= k < all.len() && all[k] == v;
                if k < rest.len() {
                    assert(rest[k] == v);
                    assert(rest.contains(v));
                    let i = choose|i: int|
                        0 <= i < front.len() && row_reading((#[trigger] front[i]).geom, row)
                            == Some(v);
                    assert(d[i] == front[i]);
                } else {
                    assert(row_reading(d[d.len() - 1].geom, row) == Some(v));
                }
            }
            if exists|i: int|
                0 <= i < d.len() && row_reading((#[trigger] d[i]).geom, row) == Some(v) {
                let i = choose|i: int|
                    0 <= i < d.len() && row_reading((#[trigger] d[i]).geom, row) == Some(v);
                if i < front.len() {
                    assert(front[i] == d[i]);
                    assert(rest.contains(v));
                    let k = choose|k: int| 0 <= k < rest.len() && rest[k] == v;
                    assert(all[k] == v);
                } else {
                    assert(all.last() == v);
                }
            }
        }
    }
}

/// The fill that is shown is that of the first hatch: its pattern, or solid.
pub proof fn first_hatch_is_shown(d: Seq<DObjectView>, i: int)
    requires
        0 <= i < d.len(),
        d[i].geom.kind == GeomKind::Hatch,
        forall|j: int| 0 <= j < i ==> (#[trigger] d[j]).geom.kind != GeomKind::Hatch,
    ensures
        first_fill(d) == Some(
            if d[i].geom.traits.flag {
                d[i].geom.traits.label
            } else {
                "Solid"@
            },
        ),
    decreases d.len(),
{
    if i > 0 {
        let rest = d.drop_first();
        assert(d[0].geom.kind != GeomKind::Hatch);
        assert forall|j: int| 0 <= j < i - 1 implies (#[trigger] rest[j]).geom.kind != GeomKind::Hatch by {
            assert(d[j + 1].geom.kind != GeomKind::Hatch);
        }
        first_hatch_is_shown(rest, i - 1);
    }
}

/// A font is shown where all texts have it; where all inherit it, the style's is shown behind the word
/// that says so.
pub proof fn shared_font_is_shown(d: Seq<DObjectView>, font: Seq<char>, style_font: Option<Seq<char>>)
    requires
        d.len() > 0,
        forall|i: int|
            0 <= i < d.len() ==> (#[trigger] d[i]).geom.kind == GeomKind::Text && d[i].geom.traits.font
                == font,
    ensures
        font.len() > 0 ==> font_label(d, style_font) == font,
        font.len() == 0 && style_font is Some ==> font_label(d, style_font) == "(inherit) "@
            + style_font->0,
{
    let f = |o: DObjectView| own_font(o);
    let vals = d.map_values(f);
    assert forall|i: int| 0 <= i < vals.len() implies #[trigger] vals[i] == font by {
        assert(d[i].geom.traits.font == font);
    }
}

/// The values of a block's parameters: its own, and the definition's where it has none.
pub open spec fn params_shown(g: GeomView, defs: Seq<i64>) -> Seq<i64> {
    Seq::new(
        defs.len(),
        |k: int|
            if k < g.traits.params.len() {
                g.traits.params[k]
            } else {
                defs[k]
            },
    )
}

/// A parameter of a block that was edited shows what was set, and the others what they showed.
pub proof fn edited_parameter_is_shown(
    s: AppView,
    targets: Seq<usize>,
    snapshot: bool,
    i: usize,
    v: i64,
    defs: Seq<i64>,
    k: int,
    j: int,
)
    requires
        0 <= k < targets.len(),
        targets[k] < s.doc.dobjects.len(),
        s.doc.dobjects[targets[k] as int].geom.kind == GeomKind::BlockRef,
        i < s.doc.dobjects[targets[k] as int].geom.traits.params.len(),
        i < defs.len(),
        0 <= j < defs.len(),
    ensures
        ({
            let e = PropEdit::BlockParam(i, v);
            let a = params_shown(s.doc.dobjects[targets[k] as int].geom, defs);
            let b = params_shown(
                s.props_applied(targets, snapshot, e).doc.dobjects[targets[k] as int].geom,
                defs,
            );
            &&& a.len() == defs.len() && b.len() == defs.len()
            &&& b[i as int] == v
            &&& j != i ==> b[j] == a[j]
            &&& j >= s.doc.dobjects[targets[k] as int].geom.traits.params.len() ==> a[j] == defs[j]
        }),
{
    crate::edits::edit_reads_back(s, targets, snapshot, PropEdit::BlockParam(i, v), k);
}

} // verus!
