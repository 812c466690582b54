//! The solids that the parts of a stair become in the model.
//!
//! Lengths are micrometres. A turn of a solid in space is floating point, so a chord is handed on
//! by its ends.
use vstd::prelude::*;

use crate::doc::Pt;
use crate::factory::BoolOp;
use crate::grid::{clamp64, clamp_i64};
use crate::stairs::StairRole;

verus! {

/// A place in space.
#[derive(Clone, Copy, Debug, PartialEq, Eq, Structural)]
pub struct Pt3 {
    pub x: i64,
    pub y: i64,
    pub z: i64,
}

/// A part of a half-turn stair: a box between two corners, or a flight with its profile seen from
/// the side and the two depths between which it lies.
pub enum DoglegPart {
    Block(Pt3, Pt3, StairRole),
    Flight(Vec<Pt>, i64, i64),
}

/// A part of a spiral stair: an upright cylinder about a place, of a radius, between two heights
/// and with a number of sides; a prism over an outline between two heights; or a chord of a rail
/// between two places.
pub enum SpiralPart {
    Cylinder(Pt, i64, i64, i64, u32, StairRole),
    Prism(Vec<Pt>, i64, i64, StairRole),
    Chord(Pt3, Pt3, i64, u32, StairRole),
}

/// A shape that the modeller makes: a box, a cylinder, an outline that is extruded, or a cylinder
/// along a chord. `up_is_x` says that the chord is turned about the first axis, for being too
/// steep for the third.
pub enum Shape {
    Block { w: i64, d: i64, h: i64 },
    Cylinder { r: i64, h: i64, sides: u32 },
    Extrusion { outline: Vec<Pt>, h: i64 },
    Chord { from: Pt3, to: Pt3, r: i64, sides: u32, up_is_x: bool },
}

/// The plane that a solid stands on: the ground, or an upright plane across the depth at a place.
#[derive(Clone, Copy, Debug, PartialEq, Eq, Structural)]
pub enum Ground {
    Floor,
    Across(i64),
}

/// A solid to be made: how it is joined to the model, its plane, twice the place of its middle on
/// it, its height over it, and its shape. An extruded outline is where its outline is.
pub struct Solid {
    pub op: BoolOp,
    pub on: Ground,
    pub twice_u: i64,
    pub twice_v: i64,
    pub lift: i64,
    pub shape: Shape,
}

/// The model of a [`Shape`].
pub enum ShapeView {
    Block { w: i64, d: i64, h: i64 },
    Cylinder { r: i64, h: i64, sides: u32 },
    Extrusion { outline: Seq<Pt>, h: i64 },
    Chord { from: Pt3, to: Pt3, r: i64, sides: u32, up_is_x: bool },
}

/// The model of a [`Solid`].
pub struct SolidView {
    pub op: BoolOp,
    pub on: Ground,
    pub twice_u: i64,
    pub twice_v: i64,
    pub lift: i64,
    pub shape: ShapeView,
}

impl View for Shape {
    type V = ShapeView;

    open spec fn view(&self) -> ShapeView {
        match self {
            Shape::Block { w, d, h } => ShapeView::Block { w: *w, d: *d, h: *h },
            Shape::Cylinder { r, h, sides } => ShapeView::Cylinder { r: *r, h: *h, sides: *sides },
            Shape::Extrusion { outline, h } => ShapeView::Extrusion { outline: outline@, h: *h },
            Shape::Chord { from, to, r, sides, up_is_x } => ShapeView::Chord {
                from: *from,
                to: *to,
                r: *r,
                sides: *sides,
                up_is_x: *up_is_x,
            },
        }
    }
}

impl View for Solid {
    type V = SolidView;

    open spec fn view(&self) -> SolidView {
        SolidView {
            op: self.op,
            on: self.on,
            twice_u: self.twice_u,
            twice_v: self.twice_v,
            lift: self.lift,
            shape: self.shape@,
        }
    }
}

fn gap(from: i64, to: i64) -> (r: i64)
    ensures
        r == clamp64(to - from),
{
    clamp_i64(to as i128 - from as i128)
}

fn twice_middle(a: i64, b: i64) -> (r: i64)
    ensures
        r == clamp64(a + b),
{
    clamp_i64(a as i128 + b as i128)
}

/// The solid of a part of a half-turn stair. A flight hangs from the plane at its far depth.
pub open spec fn dogleg_solid_of(p: DoglegPart) -> SolidView {
    match p {
        DoglegPart::Block(min, max, _) => SolidView {
            op: BoolOp::Union,
            on: Ground::Floor,
            twice_u: clamp64(min.x + max.x),
            twice_v: clamp64(min.y + max.y),
            lift: min.z,
            shape: ShapeView::Block {
                w: clamp64(max.x - min.x),
                d: clamp64(max.y - min.y),
                h: clamp64(max.z - min.z),
            },
        },
        DoglegPart::Flight(profile, y0, y1) => SolidView {
            op: BoolOp::Union,
            on: Ground::Across(y1),
            twice_u: 0,
            twice_v: 0,
            lift: 0,
            shape: ShapeView::Extrusion { outline: profile@, h: clamp64(y1 - y0) },
        },
    }
}

/// The solid of a part of a half-turn stair, and what the part is.
pub fn dogleg_solid(p: DoglegPart) -> (r: (Solid, StairRole))
    ensures
        r.0@ == dogleg_solid_of(p),
        r.1 == match p {
            DoglegPart::Block(_, _, role) => role,
            DoglegPart::Flight(_, _, _) => StairRole::FlightBody,
        },
{
    match p {
        DoglegPart::Block(min, max, role) => (
            Solid {
                op: BoolOp::Union,
                on: Ground::Floor,
                twice_u: twice_middle(min.x, max.x),
                twice_v: twice_middle(min.y, max.y),
                lift: min.z,
                shape: Shape::Block {
                    w: gap(min.x, max.x),
                    d: gap(min.y, max.y),
                    h: gap(min.z, max.z),
                },
            },
            role,
        ),
        DoglegPart::Flight(profile, y0, y1) => (
            Solid {
                op: BoolOp::Union,
                on: Ground::Across(y1),
                twice_u: 0,
                twice_v: 0,
                lift: 0,
                shape: Shape::Extrusion { outline: profile, h: gap(y0, y1) },
            },
            StairRole::FlightBody,
        ),
    }
}

/// The square of a number.
pub open spec fn square(x: int) -> int {
    x * x
}

/// The square of the length of a chord.
pub open spec fn chord_square(a: Pt3, b: Pt3) -> int {
    square(b.x - a.x) + square(b.y - a.y) + square(b.z - a.z)
}

/// Whether a chord is too short to be made: less than a tenth of a millimetre.
pub open spec fn too_short(a: Pt3, b: Pt3) -> bool {
    chord_square(a, b) < 10_000
}

/// Whether a chord is steeper than nine in ten.
pub open spec fn steep(a: Pt3, b: Pt3) -> bool {
    100 * square(b.z - a.z) > 81 * chord_square(a, b)
}

/// Whether the ends of a chord lie within a thousand kilometres of each other on each axis.
pub open spec fn chord_in_reach(a: Pt3, b: Pt3) -> bool {
    &&& -1_000_000_000_000 <= b.x - a.x <= 1_000_000_000_000
    &&& -1_000_000_000_000 <= b.y - a.y <= 1_000_000_000_000
    &&& -1_000_000_000_000 <= b.z - a.z <= 1_000_000_000_000
}

/// The solid of a part of a spiral stair. A chord that is too short is left out.
pub open spec fn spiral_solid_of(p: SpiralPart) -> Option<SolidView> {
    match p {
        SpiralPart::Cylinder(at, r, z0, z1, sides, _) => Some(
            SolidView {
                op: BoolOp::Union,
                on: Ground::Floor,
                twice_u: clamp64(at.x + at.x),
                twice_v: clamp64(at.y + at.y),
                lift: z0,
                shape: ShapeView::Cylinder { r: r, h: clamp64(z1 - z0), sides: sides },
            },
        ),
        SpiralPart::Prism(outline, z0, z1, _) => Some(
            SolidView {
                op: BoolOp::Union,
                on: Ground::Floor,
                twice_u: 0,
                twice_v: 0,
                lift: z0,
                shape: ShapeView::Extrusion { outline: outline@, h: clamp64(z1 - z0) },
            },
        ),
        SpiralPart::Chord(a, b, r, sides, _) => if too_short(a, b) {
            None
        } else {
            Some(
                SolidView {
                    op: BoolOp::Union,
                    on: Ground::Floor,
                    twice_u: 0,
                    twice_v: 0,
                    lift: 0,
                    shape: ShapeView::Chord {
                        from: a,
                        to: b,
                        r: r,
                        sides: sides,
                        up_is_x: steep(a, b),
                    },
                },
            )
        },
    }
}

/// What a part of a spiral stair is.
pub open spec fn spiral_role(p: SpiralPart) -> StairRole {
    match p {
        SpiralPart::Cylinder(_, _, _, _, _, role) => role,
        SpiralPart::Prism(_, _, _, role) => role,
        SpiralPart::Chord(_, _, _, _, role) => role,
    }
}

fn squared(x: i128) -> (r: i128)
    requires
        -1_000_000_000_000 <= x <= 1_000_000_000_000,
    ensures
        r == square(x as int),
        0 <= r <= 1_000_000_000_000_000_000_000_000,
{
    assert(0 <= x * x <= 1_000_000_000_000_000_000_000_000) by (nonlinear_arith)
        requires
            -1_000_000_000_000 <= x <= 1_000_000_000_000,
    ;
    x * x
}

fn chord_solid(a: Pt3, b: Pt3, r: i64, sides: u32, role: StairRole) -> (s: Option<Solid>)
    requires
        chord_in_reach(a, b),
    ensures
        s is Some <==> !too_short(a, b),
        s matches Some(s) ==> Some(s@) == spiral_solid_of(SpiralPart::Chord(a, b, r, sides, role)),
{
    let dx: i128 = squared(b.x as i128 - a.x as i128);
    let dy: i128 = squared(b.y as i128 - a.y as i128);
    let dz: i128 = squared(b.z as i128 - a.z as i128);
    let all: i128 = dx + dy + dz;
    if all < 10_000 {
        return None;
    }
    Some(
        Solid {
            op: BoolOp::Union,
            on: Ground::Floor,
            twice_u: 0,
            twice_v: 0,
            lift: 0,
            shape: Shape::Chord { from: a, to: b, r: r, sides: sides, up_is_x: 100 * dz > 81 * all },
        },
    )
}

/// The solid of a part of a spiral stair, if it can be made, and what the part is.
pub fn spiral_solid(p: SpiralPart) -> (r: (Option<Solid>, StairRole))
    requires
        p matches SpiralPart::Chord(a, b, _, _, _) ==> chord_in_reach(a, b),
    ensures
        crate::copying::opt_view(r.0) == spiral_solid_of(p),
        r.1 == spiral_role(p),
{
    match p {
        SpiralPart::Cylinder(at, radius, z0, z1, sides, role) => (
            Some(
                Solid {
                    op: BoolOp::Union,
                    on: Ground::Floor,
                    twice_u: twice_middle(at.x, at.x),
                    twice_v: twice_middle(at.y, at.y),
                    lift: z0,
                    shape: Shape::Cylinder { r: radius, h: gap(z0, z1), sides: sides },
                },
            ),
            role,
        ),
        SpiralPart::Prism(outline, z0, z1, role) => (
            Some(
                Solid {
                    op: BoolOp::Union,
                    on: Ground::Floor,
                    twice_u: 0,
                    twice_v: 0,
                    lift: z0,
                    shape: Shape::Extrusion { outline: outline, h: gap(z0, z1) },
                },
            ),
            role,
        ),
        SpiralPart::Chord(a, b, radius, sides, role) => (
            chord_solid(a, b, radius, sides, role),
            role,
        ),
    }
}

/// Every part of a stair is added to the model, and cuts nothing out of it.
pub proof fn parts_are_unions(p: DoglegPart, q: SpiralPart)
    ensures
        dogleg_solid_of(p).op == BoolOp::Union,
        spiral_solid_of(q) matches Some(s) ==> s.op == BoolOp::Union,
{
}

/// A box in the model fills the part of the stair it stands for, from corner to corner.
pub proof fn blocks_fill_their_part(min: Pt3, max: Pt3, role: StairRole)
    requires
        -1_000_000_000_000 <= min.x <= max.x <= 1_000_000_000_000,
        -1_000_000_000_000 <= min.y <= max.y <= 1_000_000_000_000,
        -1_000_000_000_000 <= min.z <= max.z <= 1_000_000_000_000,
    ensures
        ({
            let s = dogleg_solid_of(DoglegPart::Block(min, max, role));
            &&& s.shape is Block
            &&& s.twice_u - s.shape->Block_w == 2 * min.x
            &&& s.twice_u + s.shape->Block_w == 2 * max.x
            &&& s.twice_v - s.shape->Block_d == 2 * min.y
            &&& s.twice_v + s.shape->Block_d == 2 * max.y
            &&& s.lift == min.z
            &&& s.lift + s.shape->Block_h == max.z
        }),
{
}

/// A flight of a straight stair is its profile, drawn across from one side to the other.
pub proof fn flights_reach_across(profile: Vec<Pt>, y0: i64, y1: i64)
    requires
        -1_000_000_000_000 <= y0 <= y1 <= 1_000_000_000_000,
    ensures
        ({
            let s = dogleg_solid_of(DoglegPart::Flight(profile, y0, y1));
            &&& s.shape is Extrusion
            &&& s.shape->outline == profile@
            &&& s.on == Ground::Across(y1)
            &&& y1 - s.shape->Extrusion_h == y0
        }),
{
}

/// The round and the flat parts of a spiral stair stand on the floor, from their lower to their
/// upper height, where and as wide as they are.
pub proof fn spiral_parts_stand_in_place(
    at: Pt,
    r: i64,
    z0: i64,
    z1: i64,
    sides: u32,
    role: StairRole,
    outline: Vec<Pt>,
)
    requires
        -1_000_000_000_000 <= at.x <= 1_000_000_000_000,
        -1_000_000_000_000 <= at.y <= 1_000_000_000_000,
        -1_000_000_000_000 <= z0 <= z1 <= 1_000_000_000_000,
    ensures
        spiral_solid_of(SpiralPart::Cylinder(at, r, z0, z1, sides, role)) matches Some(s) && {
            &&& s.on == Ground::Floor
            &&& s.twice_u == 2 * at.x && s.twice_v == 2 * at.y
            &&& s.shape is Cylinder
            &&& s.shape->Cylinder_r == r && s.shape->Cylinder_sides == sides
            &&& s.lift == z0 && s.lift + s.shape->Cylinder_h == z1
        },
        spiral_solid_of(SpiralPart::Prism(outline, z0, z1, role)) matches Some(s) && {
            &&& s.on == Ground::Floor
            &&& s.twice_u == 0 && s.twice_v == 0
            &&& s.shape is Extrusion
            &&& s.shape->outline == outline@
            &&& s.lift == z0 && s.lift + s.shape->Extrusion_h == z1
        },
{
}

/// A bar of a spiral stair runs from one of its ends to the other. One that is shorter than a tenth
/// of a millimetre is left out. It is laid out from the x axis where it rises more steeply than nine
/// tenths of its length.
pub proof fn bars_run_from_end_to_end(a: Pt3, b: Pt3, r: i64, sides: u32, role: StairRole)
    ensures
        ({
            let dx = b.x - a.x;
            let dy = b.y - a.y;
            let dz = b.z - a.z;
            let len2 = dx * dx + dy * dy + dz * dz;
            match spiral_solid_of(SpiralPart::Chord(a, b, r, sides, role)) {
                Some(s) => {
                    &&& len2 >= 100 * 100
                    &&& s.shape is Chord
                    &&& s.shape->from == a && s.shape->to == b
                    &&& s.shape->Chord_r == r && s.shape->Chord_sides == sides
                    &&& s.shape->up_is_x <==> 100 * (dz * dz) > 81 * len2
                },
                None => len2 < 100 * 100,
            }
        }),
{
}

} // verus!
