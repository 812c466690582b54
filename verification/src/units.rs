//! What a drawing's unit makes of it: whether the drawing could be a building at all, and which
//! fixtures stand too far away to belong to it.
use vstd::prelude::*;

use crate::app::{AppView, CadApp};
use crate::copying::views;
use crate::doc::{DObject, DObjectView, Pt};
use crate::light::{Luminaire, LuminaireView};
use crate::text::{cat2, cat3, cat4, cat5, cat7, dec, dec_text_wide};

verus! {

/// A metre, in the products of millionths of a unit and nanometres that sizes are compared in.
pub const METRE: u128 = 1_000_000_000_000_000;

/// The widest a drawing can be and still be a building: five kilometres.
pub const WIDEST: u128 = 5_000_000_000_000_000_000;

/// A number of `one`s as a whole number of `step`s, rounded to the nearest and to the even one
/// half way between.
pub open spec fn rounded(v: nat, step: nat) -> nat {
    let q = v / step;
    let r = v % step;
    if 2 * r > step || 2 * r == step && q % 2 == 1 {
        q + 1
    } else {
        q
    }
}

/// Hundredths written with two decimals.
pub open spec fn hundredths_text(q: nat) -> Seq<char> {
    dec(q / 100) + "."@ + dec(q / 10 % 10) + dec(q % 10)
}

/// Thousandths written with three decimals.
pub open spec fn thousandths_text(q: nat) -> Seq<char> {
    dec(q / 1000) + "."@ + dec(q / 100 % 10) + dec(q / 10 % 10) + dec(q % 10)
}

pub(crate) fn round_to(v: u128, step: u128) -> (q: u128)
    requires
        0 < step <= 0x1_0000_0000_0000_0000,
    ensures
        q == rounded(v as nat, step as nat),
{
    let q: u128 = v / step;
    let r: u128 = v % step;
    assert(step > 1 ==> q < u128::MAX) by (nonlinear_arith)
        requires
            q == v / step,
            v <= u128::MAX,
    ;
    if 2 * r > step || 2 * r == step && q % 2 == 1 {
        q + 1
    } else {
        q
    }
}

pub(crate) fn write_hundredths(q: u128) -> (r: String)
    ensures
        r@ == hundredths_text(q as nat),
{
    cat4(
        dec_text_wide(q / 100).as_str(),
        ".",
        dec_text_wide(q / 10 % 10).as_str(),
        dec_text_wide(q % 10).as_str(),
    )
}

pub(crate) fn write_thousandths(q: u128) -> (r: String)
    ensures
        r@ == thousandths_text(q as nat),
{
    cat5(
        dec_text_wide(q / 1000).as_str(),
        ".",
        dec_text_wide(q / 100 % 10).as_str(),
        dec_text_wide(q / 10 % 10).as_str(),
        dec_text_wide(q % 10).as_str(),
    )
}

/// A length in millionths of a unit, with two decimals.
pub open spec fn units_text(span: nat) -> Seq<char> {
    hundredths_text(rounded(span, 10_000))
}

/// A size, with two decimals of a metre.
pub open spec fn metres_text(size: nat) -> Seq<char> {
    hundredths_text(rounded(size, 10_000_000_000_000))
}

/// A size, with three decimals of a metre.
pub open spec fn metres_text_fine(size: nat) -> Seq<char> {
    thousandths_text(rounded(size, 1_000_000_000_000))
}

/// The smallest of one coordinate over the bounding boxes of some objects.
pub open spec fn least(d: Seq<DObjectView>, f: spec_fn(DObjectView) -> i64) -> i64
    decreases d.len(),
{
    if d.len() <= 1 {
        f(d[0])
    } else {
        let rest = least(d.drop_last(), f);
        if f(d.last()) < rest {
            f(d.last())
        } else {
            rest
        }
    }
}

/// The largest of one coordinate over the bounding boxes of some objects.
pub open spec fn most(d: Seq<DObjectView>, f: spec_fn(DObjectView) -> i64) -> i64
    decreases d.len(),
{
    if d.len() <= 1 {
        f(d[0])
    } else {
        let rest = most(d.drop_last(), f);
        if f(d.last()) > rest {
            f(d.last())
        } else {
            rest
        }
    }
}

/// How far objects reach, in the wider direction, in millionths of a unit.
pub open spec fn span_of(d: Seq<DObjectView>) -> int {
    let w = most(d, |o: DObjectView| o.geom.hi.x) - least(d, |o: DObjectView| o.geom.lo.x);
    let h = most(d, |o: DObjectView| o.geom.hi.y) - least(d, |o: DObjectView| o.geom.lo.y);
    if w > h {
        w
    } else {
        h
    }
}

/// Whether a size could be that of a building.
pub open spec fn plausible(size: nat) -> bool {
    METRE <= size <= WIDEST
}

/// A unit that can be set by name.
pub struct NamedUnit {
    pub name: &'static str,
    pub nm: u64,
}

/// The units that can be set by name, with what they measure in nanometres.
pub open spec fn named_units() -> Seq<(Seq<char>, u64)> {
    seq![
        ("mm"@, 1_000_000u64),
        ("cm"@, 10_000_000u64),
        ("m"@, 1_000_000_000u64),
        ("in"@, 25_400_000u64),
        ("ft"@, 304_800_000u64),
    ]
}

/// The units among the first `n` in which a span could be that of a building.
pub open spec fn fitting_units(span: nat, n: int) -> Seq<(Seq<char>, u64)>
    decreases n,
{
    if n <= 0 {
        Seq::empty()
    } else {
        let rest = fitting_units(span, n - 1);
        let u = named_units()[n - 1];
        if plausible(span * u.1 as nat) {
            rest.push(u)
        } else {
            rest
        }
    }
}

/// The commands that set some units, with what they would make of a span.
pub open spec fn unit_choices(span: nat, fits: Seq<(Seq<char>, u64)>) -> Seq<char>
    decreases fits.len(),
{
    if fits.len() == 0 {
        Seq::empty()
    } else {
        let u = fits.last();
        let one = "`units "@ + u.0 + "` ("@ + metres_text(span * u.1 as nat) + " m)"@;
        if fits.len() == 1 {
            one
        } else {
            unit_choices(span, fits.drop_last()) + " or "@ + one
        }
    }
}

/// What to do about a span that the unit makes no building of.
pub open spec fn unit_advice(span: nat) -> Seq<char> {
    let fits = fitting_units(span, 5);
    if fits.len() == 0 {
        "no standard unit makes this a building-sized drawing — check the geometry itself"@
    } else if fits.len() == 1 {
        "`units "@ + fits[0].0 + "` would make it "@ + metres_text(span * fits[0].1 as nat)
            + " m across"@
    } else {
        "try "@ + unit_choices(span, fits)
    }
}

impl AppView {
    /// What is to be said of the drawing's unit: nothing where the drawing is empty or could be a
    /// building.
    #[verifier::opaque]
    pub open spec fn unit_note(self, label: Seq<char>) -> Option<Seq<char>> {
        let d = self.doc.dobjects;
        let span = span_of(d);
        if d.len() == 0 || span <= 0 {
            None
        } else {
            let size = (span * self.doc.units.nm_per_unit) as nat;
            if plausible(size) {
                None
            } else {
                Some(
                    "  ⚠ units: this drawing is "@ + units_text(span as nat)
                        + " units across, which at 1 unit = "@ + label + " is "@
                        + metres_text_fine(size) + " m — not a building. "@ + unit_advice(
                        span as nat,
                    ) + ". (Setting the unit never moves geometry.)"@,
                )
            }
        }
    }
}

fn extent_of(d: &Vec<DObject>) -> (r: i128)
    requires
        d.len() > 0,
    ensures
        r == span_of(views(d@)),
        r <= u64::MAX,
{
    let ghost all = views(d@);
    let ghost lx = |o: DObjectView| o.geom.lo.x;
    let ghost ly = |o: DObjectView| o.geom.lo.y;
    let ghost hx = |o: DObjectView| o.geom.hi.x;
    let ghost hy = |o: DObjectView| o.geom.hi.y;
    let mut lo: Pt = d[0].geom.lo;
    let mut hi: Pt = d[0].geom.hi;
    let mut i: usize = 1;
    assert(all.subrange(0, 1)[0] == d@[0]@);
    while i < d.len()
        invariant
            1 <= i <= d.len(),
            all == views(d@),
            lx == (|o: DObjectView| o.geom.lo.x),
            ly == (|o: DObjectView| o.geom.lo.y),
            hx == (|o: DObjectView| o.geom.hi.x),
            hy == (|o: DObjectView| o.geom.hi.y),
            lo.x == least(all.subrange(0, i as int), lx),
            lo.y == least(all.subrange(0, i as int), ly),
            hi.x == most(all.subrange(0, i as int), hx),
            hi.y == most(all.subrange(0, i as int), hy),
        decreases d.len() - i,
    {
        assert(all.subrange(0, i + 1).drop_last() =~= all.subrange(0, i as int));
        assert(all.subrange(0, i + 1).last() == d@[i as int]@);
        let a: Pt = d[i].geom.lo;
        let b: Pt = d[i].geom.hi;
        if a.x < lo.x {
            lo.x = a.x;
        }
        if a.y < lo.y {
            lo.y = a.y;
        }
        if b.x > hi.x {
            hi.x = b.x;
        }
        if b.y > hi.y {
            hi.y = b.y;
        }
        i += 1;
    }
    assert(all.subrange(0, i as int) =~= all);
    let w: i128 = hi.x as i128 - lo.x as i128;
    let h: i128 = hi.y as i128 - lo.y as i128;
    if w > h {
        w
    } else {
        h
    }
}

fn size_in(span: u64, nm: u64) -> (r: u128)
    ensures
        r == span * nm,
{
    assert(span * nm <= 0xffff_ffff_ffff_ffff * 0xffff_ffff_ffff_ffff) by (nonlinear_arith)
        requires
            span <= 0xffff_ffff_ffff_ffff,
            nm <= 0xffff_ffff_ffff_ffff,
    ;
    span as u128 * nm as u128
}

fn named_unit(i: usize) -> (r: NamedUnit)
    requires
        i < 5,
    ensures
        (r.name@, r.nm) == named_units()[i as int],
{
    if i == 0 {
        NamedUnit { name: "mm", nm: 1_000_000 }
    } else if i == 1 {
        NamedUnit { name: "cm", nm: 10_000_000 }
    } else if i == 2 {
        NamedUnit { name: "m", nm: 1_000_000_000 }
    } else if i == 3 {
        NamedUnit { name: "in", nm: 25_400_000 }
    } else {
        NamedUnit { name: "ft", nm: 304_800_000 }
    }
}

fn is_plausible(size: u128) -> (r: bool)
    ensures
        r == plausible(size as nat),
{
    METRE <= size && size <= WIDEST
}

fn write_metres(size: u128) -> (r: String)
    ensures
        r@ == metres_text(size as nat),
{
    write_hundredths(round_to(size, 10_000_000_000_000))
}

fn advise_unit(span: u64) -> (r: String)
    ensures
        r@ == unit_advice(span as nat),
{
    let mut n: usize = 0;
    let mut first: usize = 0;
    let mut list = String::new();
    let mut i: usize = 0;
    while i < 5
        invariant
            i <= 5,
            n <= i,
            n == fitting_units(span as nat, i as int).len(),
            n > 0 ==> first < 5 && named_units()[first as int] == fitting_units(
                span as nat,
                i as int,
            )[0],
            list@ == unit_choices(span as nat, fitting_units(span as nat, i as int)),
        decreases 5 - i,
    {
        let ghost before = fitting_units(span as nat, i as int);
        let u = named_unit(i);
        let size: u128 = size_in(span, u.nm);
        if is_plausible(size) {
            assert(before.push(named_units()[i as int]).drop_last() =~= before);
            let metres = write_metres(size);
            let one = cat5("`units ", u.name, "` (", metres.as_str(), " m)");
            if n == 0 {
                first = i;
                list = one;
            } else {
                list = cat3(list.as_str(), " or ", one.as_str());
            }
            n += 1;
        }
        i += 1;
    }
    if n == 0 {
        String::from_str(
            "no standard unit makes this a building-sized drawing — check the geometry itself",
        )
    } else if n == 1 {
        let u = named_unit(first);
        let metres = write_metres(size_in(span, u.nm));
        cat5("`units ", u.name, "` would make it ", metres.as_str(), " m across")
    } else {
        cat2("try ", list.as_str())
    }
}

impl CadApp {
    /// Says when a drawing's unit makes it smaller than a metre or wider than five kilometres, and
    /// which units would not. `label` is the unit as the user reads it.
    pub fn unit_sanity_note(&self, label: &str) -> (r: Option<String>)
        ensures
            crate::copying::opt_view(r) == self@.unit_note(label@),
    {
        reveal(AppView::unit_note);
        if self.doc.dobjects.len() == 0 {
            return None;
        }
        let wide: i128 = extent_of(&self.doc.dobjects);
        if wide <= 0 {
            return None;
        }
        let span: u64 = wide as u64;
        let size: u128 = size_in(span, self.doc.units.nm_per_unit);
        if is_plausible(size) {
            return None;
        }
        let units = write_hundredths(round_to(span as u128, 10_000));
        let metres = write_thousandths(round_to(size, 1_000_000_000_000));
        let advice = advise_unit(span);
        let head = cat7(
            "  ⚠ units: this drawing is ",
            units.as_str(),
            " units across, which at 1 unit = ",
            label,
            " is ",
            metres.as_str(),
            " m — not a building. ",
        );
        Some(
            cat3(head.as_str(), advice.as_str(), ". (Setting the unit never moves geometry.)"),
        )
    }
}

/// How far outside the model a fixture may stand, four times, in micrometres: ten metres, or a
/// quarter of the model's wider side.
pub open spec fn stray_margin4(lo: Pt, hi: Pt) -> int {
    let w = hi.x - lo.x;
    let h = hi.y - lo.y;
    let span = if w > h {
        w
    } else {
        h
    };
    if span > 40_000_000 {
        span
    } else {
        40_000_000
    }
}

/// Whether a fixture stands too far outside the model to be part of it.
pub open spec fn is_stray(l: LuminaireView, lo: Pt, hi: Pt) -> bool {
    let pad4 = stray_margin4(lo, hi);
    4 * l.x < 4 * lo.x - pad4 || 4 * l.x > 4 * hi.x + pad4 || 4 * l.y < 4 * lo.y - pad4 || 4 * l.y
        > 4 * hi.y + pad4
}

/// The ids of the fixtures that stand too far outside the model, in their order.
pub open spec fn strays(l: Seq<LuminaireView>, lo: Pt, hi: Pt) -> Seq<u32>
    decreases l.len(),
{
    if l.len() == 0 {
        Seq::empty()
    } else {
        let rest = strays(l.drop_last(), lo, hi);
        if is_stray(l.last(), lo, hi) {
            rest.push(l.last().id)
        } else {
            rest
        }
    }
}

fn stands_astray(l: &Luminaire, lo: Pt, hi: Pt) -> (r: bool)
    ensures
        r == is_stray(l@, lo, hi),
{
    let w: i128 = hi.x as i128 - lo.x as i128;
    let h: i128 = hi.y as i128 - lo.y as i128;
    let span: i128 = if w > h {
        w
    } else {
        h
    };
    let pad4: i128 = if span > 40_000_000 {
        span
    } else {
        40_000_000
    };
    let x: i128 = 4 * l.x as i128;
    let y: i128 = 4 * l.y as i128;
    x < 4 * lo.x as i128 - pad4 || x > 4 * hi.x as i128 + pad4 || y < 4 * lo.y as i128 - pad4 || y
        > 4 * hi.y as i128 + pad4
}

impl CadApp {
    /// The ids of the fixtures that stand too far outside the model to be part of the scheme. The
    /// model is given by the corners of its bounding box, in micrometres; without a model there is
    /// nothing to be outside of.
    pub fn stray_light_ids(&self, model: Option<(Pt, Pt)>) -> (r: Vec<u32>)
        ensures
            r@ == match model {
                Some(b) => strays(self@.light.luminaires, b.0, b.1),
                None => Seq::empty(),
            },
    {
        let mut out: Vec<u32> = Vec::new();
        if let Some((lo, hi)) = model {
            let ghost all = self@.light.luminaires;
            let mut i: usize = 0;
            while i < self.light.luminaires.len()
                invariant
                    i <= self.light.luminaires.len(),
                    all == views(self.light.luminaires@),
                    out@ == strays(all.subrange(0, i as int), lo, hi),
                decreases self.light.luminaires.len() - i,
            {
                assert(all.subrange(0, i + 1).drop_last() =~= all.subrange(0, i as int));
                assert(all.subrange(0, i + 1).last() == self.light.luminaires@[i as int]@);
                if stands_astray(&self.light.luminaires[i], lo, hi) {
                    out.push(self.light.luminaires[i].id);
                }
                i += 1;
            }
            assert(all.subrange(0, i as int) =~= all);
        }
        out
    }
}

/// A fixture inside the model's bounding box, or within ten metres of it, is never a stray.
pub proof fn near_fixtures_are_no_strays(l: LuminaireView, lo: Pt, hi: Pt)
    requires
        lo.x - 10_000_000 <= l.x <= hi.x + 10_000_000,
        lo.y - 10_000_000 <= l.y <= hi.y + 10_000_000,
    ensures
        !is_stray(l, lo, hi),
{
}

/// Every unit that is offered would make the drawing a building.
pub proof fn offered_units_fit(span: nat, n: int, i: int)
    requires
        0 <= n <= 5,
        0 <= i < fitting_units(span, n).len(),
    ensures
        plausible(span * fitting_units(span, n)[i].1 as nat),
    decreases n,
{
    let rest = fitting_units(span, n - 1);
    if i < rest.len() {
        offered_units_fit(span, n - 1, i);
    }
}

/// A rounded number is as near as the step allows, and halfway it is even.
pub proof fn rounded_is_near(v: nat, step: nat)
    requires
        step > 0,
    ensures
        -(step as int) <= 2 * (rounded(v, step) * step - v) <= step,
        2 * (rounded(v, step) * step - v) == step || 2 * (v - rounded(v, step) * step) == step
            ==> rounded(v, step) % 2 == 0,
{
    let q = (v / step) as int;
    let r = (v % step) as int;
    let st = step as int;
    vstd::arithmetic::div_mod::lemma_fundamental_div_mod(v as int, st);
    assert((q + 1) * st == q * st + st) by (nonlinear_arith);
    assert(st * q == q * st) by (nonlinear_arith);
}

proof fn least_is_attained(d: Seq<DObjectView>, f: spec_fn(DObjectView) -> i64)
    requires
        d.len() > 0,
    ensures
        forall|i: int| 0 <= i < d.len() ==> least(d, f) <= f(#[trigger] d[i]) <= most(d, f),
        exists|i: int| 0 <= i < d.len() && f(#[trigger] d[i]) == least(d, f),
        exists|i: int| 0 <= i < d.len() && f(#[trigger] d[i]) == most(d, f),
    decreases d.len(),
{
    if d.len() == 1 {
        assert(f(d[0]) == least(d, f));
    } else {
        let front = d.drop_last();
        least_is_attained(front, f);
        assert forall|i: int| 0 <= i < d.len() implies least(d, f) <= f(#[trigger] d[i]) <= most(
            d,
            f,
        ) by {
            if i < front.len() {
                assert(front[i] == d[i]);
            }
        }
        let i = choose|i: int| 0 <= i < front.len() && f(#[trigger] front[i]) == least(front, f);
        let j = choose|j: int| 0 <= j < front.len() && f(#[trigger] front[j]) == most(front, f);
        assert(d[i] == front[i] && d[j] == front[j]);
        assert(d[d.len() - 1] == d.last());
    }
}

/// How far a drawing reaches: from no object to another is it farther, along either axis, and along
/// one of them it is that far.
pub proof fn span_reaches_across(d: Seq<DObjectView>)
    requires
        d.len() > 0,
    ensures
        forall|i: int, j: int|
            0 <= i < d.len() && 0 <= j < d.len() ==> (#[trigger] d[i]).geom.hi.x - (
            #[trigger] d[j]).geom.lo.x <= span_of(d) && d[i].geom.hi.y - d[j].geom.lo.y <= span_of(
                d,
            ),
        exists|i: int, j: int|
            0 <= i < d.len() && 0 <= j < d.len() && ((#[trigger] d[i]).geom.hi.x - (
            #[trigger] d[j]).geom.lo.x == span_of(d) || d[i].geom.hi.y - d[j].geom.lo.y == span_of(
                d,
            )),
{
    let hx = |o: DObjectView| o.geom.hi.x;
    let lx = |o: DObjectView| o.geom.lo.x;
    let hy = |o: DObjectView| o.geom.hi.y;
    let ly = |o: DObjectView| o.geom.lo.y;
    least_is_attained(d, hx);
    least_is_attained(d, lx);
    least_is_attained(d, hy);
    least_is_attained(d, ly);
    let a = choose|i: int| 0 <= i < d.len() && hx(#[trigger] d[i]) == most(d, hx);
    let b = choose|i: int| 0 <= i < d.len() && lx(#[trigger] d[i]) == least(d, lx);
    let c = choose|i: int| 0 <= i < d.len() && hy(#[trigger] d[i]) == most(d, hy);
    let e = choose|i: int| 0 <= i < d.len() && ly(#[trigger] d[i]) == least(d, ly);
    assert(d[a].geom.hi.x - d[b].geom.lo.x == most(d, hx) - least(d, lx));
    assert(d[c].geom.hi.y - d[e].geom.lo.y == most(d, hy) - least(d, ly));
    assert forall|i: int, j: int| 0 <= i < d.len() && 0 <= j < d.len() implies (
    #[trigger] d[i]).geom.hi.x - (#[trigger] d[j]).geom.lo.x <= span_of(d) && d[i].geom.hi.y
        - d[j].geom.lo.y <= span_of(d) by {
        assert(hx(d[i]) <= most(d, hx) && lx(d[j]) >= least(d, lx));
        assert(hy(d[i]) <= most(d, hy) && ly(d[j]) >= least(d, ly));
    }
}

/// The user is told of the unit exactly where the drawing has an extent that is under a metre or
/// over five kilometres.
pub proof fn unit_is_questioned_outside_a_building(s: AppView, label: Seq<char>)
    ensures
        s.unit_note(label) is Some <==> s.doc.dobjects.len() > 0 && span_of(s.doc.dobjects) > 0 && (
        span_of(s.doc.dobjects) * s.doc.units.nm_per_unit < 1_000_000_000_000_000 || span_of(
            s.doc.dobjects,
        ) * s.doc.units.nm_per_unit > 5_000_000_000_000_000_000),
{
    reveal(AppView::unit_note);
    let span = span_of(s.doc.dobjects);
    let nm = s.doc.units.nm_per_unit as int;
    if span > 0 {
        assert(span * nm >= 0) by (nonlinear_arith)
            requires
                span > 0,
                nm >= 0,
        ;
        let size = (span * nm) as nat;
        assert(size == span * nm);
        assert(plausible(size) <==> 1_000_000_000_000_000 <= size <= 5_000_000_000_000_000_000);
    }
}

/// The units that are offered are exactly the named ones that would make the drawing a building,
/// each once and in their order.
pub proof fn all_fitting_units_are_offered(span: nat, n: int, k: int)
    requires
        0 <= n <= 5,
        0 <= k < n,
    ensures
        fitting_units(span, n).len() <= n,
        plausible(span * named_units()[k].1 as nat) ==> fitting_units(span, n).contains(
            named_units()[k],
        ),
        forall|i: int|
            0 <= i < fitting_units(span, n).len() ==> named_units().contains(
                #[trigger] fitting_units(span, n)[i],
            ),
    decreases n,
{
    let rest = fitting_units(span, n - 1);
    let u = named_units()[n - 1];
    let all = fitting_units(span, n);
    if n > 1 {
        all_fitting_units_are_offered(
            span,
            n - 1,
            if k < n - 1 {
                k
            } else {
                0
            },
        );
    }
    assert(named_units().contains(u));
    if k < n - 1 && plausible(span * named_units()[k].1 as nat) {
        let i = choose|i: int| 0 <= i < rest.len() && rest[i] == named_units()[k];
        assert(all[i] == named_units()[k]);
    } else if plausible(span * u.1 as nat) {
        assert(all.last() == u);
    }
    assert forall|i: int| 0 <= i < all.len() implies named_units().contains(#[trigger] all[i]) by {
        if i < rest.len() {
            assert(all[i] == rest[i]);
        }
    }
}

/// A fixture is a stray exactly if it is farther outside the model's bounding box than a quarter of
/// the box's longer side, and than ten metres.
pub proof fn strays_are_far_outside(l: Seq<LuminaireView>, lo: Pt, hi: Pt, id: u32)
    ensures
        strays(l, lo, hi).contains(id) <==> exists|i: int|
            0 <= i < l.len() && (#[trigger] l[i]).id == id && ({
                let out = |d: int|
                    d > 10_000_000 && 4 * d > hi.x - lo.x && 4 * d > hi.y - lo.y;
                out(lo.x - l[i].x) || out(l[i].x - hi.x) || out(lo.y - l[i].y) || out(l[i].y - hi.y)
            }),
    decreases l.len(),
{
    if l.len() > 0 {
        let front = l.drop_last();
        let n = l.len() - 1;
        let rest = strays(front, lo, hi);
        let all = strays(l, lo, hi);
        strays_are_far_outside(front, lo, hi, id);
        let out = |d: int| d > 10_000_000 && 4 * d > hi.x - lo.x && 4 * d > hi.y - lo.y;
        let far = |f: LuminaireView|
            out(lo.x - f.x) || out(f.x - hi.x) || out(lo.y - f.y) || out(f.y - hi.y);
        assert(is_stray(l[n], lo, hi) == far(l[n]));
        if all.contains(id) {
            let k = choose|k: int| 0 <= k < all.len() && all[k] == id;
            if k < rest.len() {
                assert(rest[k] == id);
                let i = choose|i: int| 0 <= i < front.len() && (#[trigger] front[i]).id == id && far(front[i]);
                assert(l[i] == front[i]);
            } else {
                assert(l[n].id == id);
            }
        }
        if exists|i: int| 0 <= i < l.len() && (#[trigger] l[i]).id == id && far(l[i]) {
            let i = choose|i: int| 0 <= i < l.len() && (#[trigger] l[i]).id == id && far(l[i]);
            if i < n {
                assert(front[i] == l[i]);
                let k = choose|k: int| 0 <= k < rest.len() && rest[k] == id;
                assert(all[k] == id);
            } else {
                assert(all.last() == id);
            }
        }
    }
}

/// A number with two or three decimals reads as the number before the point and the one behind it.
pub proof fn decimals_read_back(q: nat)
    ensures
        exists|a: Seq<char>, b: Seq<char>|
            hundredths_text(q) == #[trigger] (a + "."@ + b) && b.len() == 2
                && crate::text::digits_value(a) == Some(q / 100) && crate::text::digits_value(b)
                == Some(q % 100),
        exists|a: Seq<char>, b: Seq<char>|
            thousandths_text(q) == #[trigger] (a + "."@ + b) && b.len() == 3
                && crate::text::digits_value(a) == Some(q / 1000) && crate::text::digits_value(b)
                == Some(q % 1000),
{
    let x = q / 100 % 10;
    let y = q / 10 % 10;
    let z = q % 10;
    crate::text::number_text_reads_back(q / 100);
    crate::text::number_text_reads_back(q / 1000);
    let two = dec(y) + dec(z);
    let three = dec(x) + dec(y) + dec(z);
    one_digit(x);
    one_digit(y);
    one_digit(z);
    assert(two.drop_last() =~= dec(y));
    assert(three.drop_last() =~= dec(x) + dec(y));
    assert((dec(x) + dec(y)).drop_last() =~= dec(x));
    assert(two.last() == dec(z)[0]);
    assert(three.last() == dec(z)[0]);
    assert((dec(x) + dec(y)).last() == dec(y)[0]);
    assert(crate::text::digits_value(two) == Some(y * 10 + z));
    assert(crate::text::digits_value(dec(x) + dec(y)) == Some(x * 10 + y));
    assert(crate::text::digits_value(three) == Some((x * 10 + y) * 10 + z));
    assert(q % 100 == y * 10 + z);
    assert(q % 1000 == (x * 10 + y) * 10 + z);
    assert(hundredths_text(q) =~= dec(q / 100) + "."@ + two);
    assert(thousandths_text(q) =~= dec(q / 1000) + "."@ + three);
}

proof fn one_digit(n: nat)
    requires
        n < 10,
    ensures
        dec(n).len() == 1,
        crate::text::digits_value(dec(n)) == Some(n),
        crate::text::digit_of(dec(n)[0]) == Some(n),
{
    crate::text::number_text_reads_back(n);
}

} // verus!
