//! What the dialog of the generators says of a thing before it is built.
//!
//! Lengths are micrometres, angles millionths of a degree, and other fractions millionths.
use vstd::prelude::*;

use crate::arch::ArchTab;
use crate::builders::{
    listed, metres, millimetres, watts1, write_listed, write_metres, write_millimetres,
    write_watts1,
};
use crate::copying::views;
use crate::text::{cat2, cat3, cat4, cat5, dec, dec_text, dec_text_wide};
use crate::units::{round_to, rounded, thousandths_text, write_thousandths};

verus! {

/// A number with three decimals.
pub open spec fn decimal3(x: u64) -> Seq<char> {
    thousandths_text(rounded(x as nat, 1_000))
}

fn write_decimal3(x: u64) -> (r: String)
    ensures
        r@ == decimal3(x),
{
    write_thousandths(round_to(x as u128, 1_000))
}

/// Tenths with one decimal.
pub open spec fn tenths_text(q: nat) -> Seq<char> {
    dec(q / 10) + "."@ + dec(q % 10)
}

fn write_tenths(q: u128) -> (r: String)
    ensures
        r@ == tenths_text(q as nat),
{
    cat3(dec_text_wide(q / 10).as_str(), ".", dec_text_wide(q % 10).as_str())
}

/// A number with one decimal.
pub open spec fn decimal1(x: u64) -> Seq<char> {
    tenths_text(rounded(x as nat, 100_000))
}

fn write_decimal1(x: u64) -> (r: String)
    ensures
        r@ == decimal1(x),
{
    write_tenths(round_to(x as u128, 100_000))
}

/// A number without decimals.
pub open spec fn whole(x: u64) -> Seq<char> {
    dec(rounded(x as nat, 1_000_000))
}

fn write_whole(x: u64) -> (r: String)
    ensures
        r@ == whole(x),
{
    dec_text_wide(round_to(x as u128, 1_000_000))
}

/// How far a slope runs for one up, with one decimal; a level run never rises.
pub open spec fn one_in(slope: u32) -> Seq<char> {
    if slope == 0 {
        "inf"@
    } else {
        tenths_text(rounded(20_000_000, 2 * slope as nat))
    }
}

fn write_one_in(slope: u32) -> (r: String)
    ensures
        r@ == one_in(slope),
{
    if slope == 0 {
        String::from_str("inf")
    } else {
        write_tenths(round_to(20_000_000, 2 * slope as u128))
    }
}

/// The ending of a noun for a number of things.
pub open spec fn plural(n: u32) -> Seq<char> {
    if n == 1 {
        ""@
    } else {
        "s"@
    }
}

fn ending(n: u32) -> (r: String)
    ensures
        r@ == plural(n),
{
    if n == 1 {
        String::from_str("")
    } else {
        String::from_str("s")
    }
}

/// The landing of a staircase: its height, and the steps below and above it.
#[derive(Clone, Copy, Debug, PartialEq, Eq, Structural)]
pub struct StairLanding {
    pub height: u64,
    pub below: u32,
    pub above: u32,
}

/// A staircase before it is built: how far its flights are, and where its landing is, if it has
/// one, with the steps below and above.
#[derive(Clone, Copy, Debug, PartialEq, Eq, Structural)]
pub struct StairPlan {
    pub steps: u32,
    pub riser: u64,
    pub run: u64,
    pub landing: Option<StairLanding>,
}

/// The measures of a staircase.
pub open spec fn stair_line(p: StairPlan) -> Seq<char> {
    dec(p.steps as nat) + " steps · exact riser "@ + decimal3(p.riser) + " m · run "@
        + metres(p.run) + " m"@
}

fn write_stair_line(p: StairPlan) -> (r: String)
    ensures
        r@ == stair_line(p),
{
    let t = cat5(
        dec_text(p.steps as u64).as_str(),
        " steps · exact riser ",
        write_decimal3(p.riser).as_str(),
        " m · run ",
        write_metres(p.run).as_str(),
    );
    cat2(t.as_str(), " m")
}

/// The landing of a staircase.
pub open spec fn landing_line(p: StairLanding) -> Seq<char> {
    "landing at "@ + metres(p.height) + " m · flights "@ + dec(p.below as nat) + " + "@
        + dec(p.above as nat) + " steps"@
}

fn write_landing_line(p: StairLanding) -> (r: String)
    ensures
        r@ == landing_line(p),
{
    let t = cat5(
        "landing at ",
        write_metres(p.height).as_str(),
        " m · flights ",
        dec_text(p.below as u64).as_str(),
        " + ",
    );
    cat3(t.as_str(), dec_text(p.above as u64).as_str(), " steps")
}

/// What the dialog says of a staircase.
pub open spec fn stair_readout(p: StairPlan) -> Seq<Seq<char>> {
    match p.landing {
        Some(l) => seq![stair_line(p), landing_line(l)],
        None => seq![stair_line(p)],
    }
}

/// What the dialog says of a staircase.
pub fn stair_plan(p: StairPlan) -> (r: Vec<String>)
    ensures
        views(r@) == stair_readout(p),
{
    let mut r: Vec<String> = Vec::new();
    r.push(write_stair_line(p));
    if let Some(l) = p.landing {
        r.push(write_landing_line(l));
    }
    assert(views(r@) =~= stair_readout(p));
    r
}

/// A spiral staircase before it is built.
#[derive(Clone, Copy, Debug, PartialEq, Eq, Structural)]
pub struct SpiralPlan {
    pub steps: u32,
    pub riser: u64,
    pub rotation: u64,
}

/// The measures of a spiral staircase.
pub open spec fn spiral_line(p: SpiralPlan) -> Seq<char> {
    dec(p.steps as nat) + " steps · riser "@ + decimal3(p.riser) + " m · "@ + whole(p.rotation)
        + "° total rotation"@
}

fn write_spiral_line(p: SpiralPlan) -> (r: String)
    ensures
        r@ == spiral_line(p),
{
    let t = cat5(
        dec_text(p.steps as u64).as_str(),
        " steps · riser ",
        write_decimal3(p.riser).as_str(),
        " m · ",
        write_whole(p.rotation).as_str(),
    );
    cat2(t.as_str(), "° total rotation")
}

/// What the dialog says of a spiral staircase.
pub open spec fn spiral_readout(p: SpiralPlan) -> Seq<Seq<char>> {
    seq![spiral_line(p)]
}

/// What the dialog says of a spiral staircase.
pub fn spiral_plan(p: SpiralPlan) -> (r: Vec<String>)
    ensures
        views(r@) == spiral_readout(p),
{
    let mut r: Vec<String> = Vec::new();
    r.push(write_spiral_line(p));
    assert(views(r@) =~= spiral_readout(p));
    r
}

/// A ramp before it is built.
#[derive(Clone, Copy, Debug, PartialEq, Eq, Structural)]
pub struct RampPlan {
    pub slope: u64,
}

/// The measures of a ramp.
pub open spec fn ramp_line(p: RampPlan) -> Seq<char> {
    "slope "@ + decimal1(p.slope) + "°"@
}

fn write_ramp_line(p: RampPlan) -> (r: String)
    ensures
        r@ == ramp_line(p),
{
    cat3("slope ", write_decimal1(p.slope).as_str(), "°")
}

/// What the dialog says of a ramp.
pub open spec fn ramp_readout(p: RampPlan) -> Seq<Seq<char>> {
    seq![ramp_line(p)]
}

/// What the dialog says of a ramp.
pub fn ramp_plan(p: RampPlan) -> (r: Vec<String>)
    ensures
        views(r@) == ramp_readout(p),
{
    let mut r: Vec<String> = Vec::new();
    r.push(write_ramp_line(p));
    assert(views(r@) =~= ramp_readout(p));
    r
}

/// A half-turn staircase before it is built.
#[derive(Clone, Copy, Debug, PartialEq, Eq, Structural)]
pub struct DoglegPlan {
    pub steps: u32,
    pub lower: u32,
    pub upper: u32,
    pub riser: u64,
    pub pitch: u64,
    pub length: u64,
    pub width: u64,
    pub landing: u64,
    pub top_tread: u64,
    pub clear: u64,
}

/// The measures of a half-turn staircase.
pub open spec fn dogleg_line(p: DoglegPlan) -> Seq<char> {
    dec(p.steps as nat) + " steps ("@ + dec(p.lower as nat) + "+"@ + dec(p.upper as nat)
        + ") · riser "@ + decimal3(p.riser) + " m · pitch "@ + decimal1(p.pitch) + "° · footprint "@
        + metres(p.length) + "×"@ + metres(p.width) + " m"@
}

fn write_dogleg_line(p: DoglegPlan) -> (r: String)
    ensures
        r@ == dogleg_line(p),
{
    let t = cat5(
        dec_text(p.steps as u64).as_str(),
        " steps (",
        dec_text(p.lower as u64).as_str(),
        "+",
        dec_text(p.upper as u64).as_str(),
    );
    let t = cat5(
        t.as_str(),
        ") · riser ",
        write_decimal3(p.riser).as_str(),
        " m · pitch ",
        write_decimal1(p.pitch).as_str(),
    );
    let t = cat5(
        t.as_str(),
        "° · footprint ",
        write_metres(p.length).as_str(),
        "×",
        write_metres(p.width).as_str(),
    );
    cat2(t.as_str(), " m")
}

/// What else there is to say of a half-turn staircase.
pub open spec fn dogleg_more_line(p: DoglegPlan) -> Seq<char> {
    "landing at "@ + metres(p.landing) + " m · top tread "@ + metres(p.top_tread)
        + " m · clear width "@ + metres(p.clear) + " m"@
}

fn write_dogleg_more_line(p: DoglegPlan) -> (r: String)
    ensures
        r@ == dogleg_more_line(p),
{
    let t = cat5(
        "landing at ",
        write_metres(p.landing).as_str(),
        " m · top tread ",
        write_metres(p.top_tread).as_str(),
        " m · clear width ",
    );
    cat3(t.as_str(), write_metres(p.clear).as_str(), " m")
}

/// What the dialog says of a half-turn staircase.
pub open spec fn dogleg_readout(p: DoglegPlan) -> Seq<Seq<char>> {
    seq![dogleg_line(p), dogleg_more_line(p)]
}

/// What the dialog says of a half-turn staircase.
pub fn dogleg_plan(p: DoglegPlan) -> (r: Vec<String>)
    ensures
        views(r@) == dogleg_readout(p),
{
    let mut r: Vec<String> = Vec::new();
    r.push(write_dogleg_line(p));
    r.push(write_dogleg_more_line(p));
    assert(views(r@) =~= dogleg_readout(p));
    r
}

/// A spiral staircase of solids before it is built.
#[derive(Clone, Copy, Debug, PartialEq, Eq, Structural)]
pub struct SolidSpiralPlan {
    pub steps: u32,
    pub turns: u64,
    pub riser: u64,
    pub diameter: u64,
    pub going: u64,
    pub rise: u64,
    pub rail_top: u64,
}

/// The measures of a spiral staircase of solids.
pub open spec fn solid_spiral_line(p: SolidSpiralPlan) -> Seq<char> {
    dec(p.steps as nat) + " steps · "@ + metres(p.turns) + " turns · riser "@ + decimal3(p.riser)
        + " m · Ø "@ + metres(p.diameter) + " m"@
}

fn write_solid_spiral_line(p: SolidSpiralPlan) -> (r: String)
    ensures
        r@ == solid_spiral_line(p),
{
    let t = cat5(
        dec_text(p.steps as u64).as_str(),
        " steps · ",
        write_metres(p.turns).as_str(),
        " turns · riser ",
        write_decimal3(p.riser).as_str(),
    );
    cat4(t.as_str(), " m · Ø ", write_metres(p.diameter).as_str(), " m")
}

/// What else there is to say of a spiral staircase of solids.
pub open spec fn solid_spiral_more_line(p: SolidSpiralPlan) -> Seq<char> {
    "walk-line going "@ + decimal3(p.going) + " m · top tread "@ + metres(p.rise)
        + " m · handrail top "@ + metres(p.rail_top) + " m"@
}

fn write_solid_spiral_more_line(p: SolidSpiralPlan) -> (r: String)
    ensures
        r@ == solid_spiral_more_line(p),
{
    let t = cat5(
        "walk-line going ",
        write_decimal3(p.going).as_str(),
        " m · top tread ",
        write_metres(p.rise).as_str(),
        " m · handrail top ",
    );
    cat3(t.as_str(), write_metres(p.rail_top).as_str(), " m")
}

/// What the dialog says of a spiral staircase of solids.
pub open spec fn solid_spiral_readout(p: SolidSpiralPlan) -> Seq<Seq<char>> {
    seq![solid_spiral_line(p), solid_spiral_more_line(p)]
}

/// What the dialog says of a spiral staircase of solids.
pub fn solid_spiral_plan(p: SolidSpiralPlan) -> (r: Vec<String>)
    ensures
        views(r@) == solid_spiral_readout(p),
{
    let mut r: Vec<String> = Vec::new();
    r.push(write_solid_spiral_line(p));
    r.push(write_solid_spiral_more_line(p));
    assert(views(r@) =~= solid_spiral_readout(p));
    r
}

/// A door before it is built.
#[derive(Clone, Copy, Debug, PartialEq, Eq, Structural)]
pub struct DoorPlan {
    pub opening_w: u64,
    pub opening_h: u64,
    pub panel_w: u64,
    pub panel_h: u64,
    pub overall_w: u64,
    pub overall_h: u64,
    pub depth: u64,
}

/// The measures of a door.
pub open spec fn door_line(p: DoorPlan) -> Seq<char> {
    "structural opening "@ + millimetres(p.opening_w) + " × "@ + millimetres(p.opening_h)
        + " mm — the hole to leave in the wall"@
}

fn write_door_line(p: DoorPlan) -> (r: String)
    ensures
        r@ == door_line(p),
{
    cat5(
        "structural opening ",
        write_millimetres(p.opening_w).as_str(),
        " × ",
        write_millimetres(p.opening_h).as_str(),
        " mm — the hole to leave in the wall",
    )
}

/// What else there is to say of a door.
pub open spec fn door_more_line(p: DoorPlan) -> Seq<char> {
    "panel "@ + millimetres(p.panel_w) + " × "@ + millimetres(p.panel_h) + " mm · casing "@
        + millimetres(p.overall_w) + " × "@ + millimetres(p.overall_h) + " mm · depth "@
        + millimetres(p.depth) + " mm"@
}

fn write_door_more_line(p: DoorPlan) -> (r: String)
    ensures
        r@ == door_more_line(p),
{
    let t = cat5(
        "panel ",
        write_millimetres(p.panel_w).as_str(),
        " × ",
        write_millimetres(p.panel_h).as_str(),
        " mm · casing ",
    );
    let t = cat5(
        t.as_str(),
        write_millimetres(p.overall_w).as_str(),
        " × ",
        write_millimetres(p.overall_h).as_str(),
        " mm · depth ",
    );
    cat3(t.as_str(), write_millimetres(p.depth).as_str(), " mm")
}

/// What the dialog says of a door.
pub open spec fn door_readout(p: DoorPlan) -> Seq<Seq<char>> {
    seq![door_line(p), door_more_line(p)]
}

/// What the dialog says of a door.
pub fn door_plan(p: DoorPlan) -> (r: Vec<String>)
    ensures
        views(r@) == door_readout(p),
{
    let mut r: Vec<String> = Vec::new();
    r.push(write_door_line(p));
    r.push(write_door_more_line(p));
    assert(views(r@) =~= door_readout(p));
    r
}

/// A helical ramp before it is built. Slopes are millionths.
#[derive(Clone, Copy, Debug, PartialEq, Eq, Structural)]
pub struct HelicalPlan {
    pub deck: u64,
    pub slope_mean: u32,
    pub slope_inner: u32,
    pub top: u64,
    pub headroom: u64,
    pub per_turn: u64,
    pub posts_outer: u32,
    pub posts_inner: u32,
}

/// The measures of a helical ramp.
pub open spec fn helical_line(p: HelicalPlan) -> Seq<char> {
    "deck "@ + metres(p.deck) + " m wide · slope 1:"@ + one_in(p.slope_mean) + " mean, 1:"@
        + one_in(p.slope_inner) + " inner · top "@ + metres(p.top) + " m"@
}

fn write_helical_line(p: HelicalPlan) -> (r: String)
    ensures
        r@ == helical_line(p),
{
    let t = cat5(
        "deck ",
        write_metres(p.deck).as_str(),
        " m wide · slope 1:",
        write_one_in(p.slope_mean).as_str(),
        " mean, 1:",
    );
    cat5(
        t.as_str(),
        write_one_in(p.slope_inner).as_str(),
        " inner · top ",
        write_metres(p.top).as_str(),
        " m",
    )
}

/// What else there is to say of a helical ramp.
pub open spec fn helical_more_line(p: HelicalPlan) -> Seq<char> {
    "headroom "@ + metres(p.headroom) + " m · rise/turn "@ + metres(p.per_turn) + " m · posts "@
        + dec(p.posts_outer as nat) + "/"@ + dec(p.posts_inner as nat) + " (outer/inner)"@
}

fn write_helical_more_line(p: HelicalPlan) -> (r: String)
    ensures
        r@ == helical_more_line(p),
{
    let t = cat5(
        "headroom ",
        write_metres(p.headroom).as_str(),
        " m · rise/turn ",
        write_metres(p.per_turn).as_str(),
        " m · posts ",
    );
    cat5(
        t.as_str(),
        dec_text(p.posts_outer as u64).as_str(),
        "/",
        dec_text(p.posts_inner as u64).as_str(),
        " (outer/inner)",
    )
}

/// What the dialog says of a helical ramp.
pub open spec fn helical_readout(p: HelicalPlan) -> Seq<Seq<char>> {
    seq![helical_line(p), helical_more_line(p)]
}

/// What the dialog says of a helical ramp.
pub fn helical_plan(p: HelicalPlan) -> (r: Vec<String>)
    ensures
        views(r@) == helical_readout(p),
{
    let mut r: Vec<String> = Vec::new();
    r.push(write_helical_line(p));
    r.push(write_helical_more_line(p));
    assert(views(r@) =~= helical_readout(p));
    r
}

/// A cupboard before it is built.
#[derive(Clone, Copy, Debug, PartialEq, Eq, Structural)]
pub struct CupboardPlan {
    pub cols: u32,
    pub rows: u32,
    pub width: u64,
    pub height: u64,
    pub aspect: u64,
    pub doors: u32,
    pub glazed: u32,
    pub drawers: u32,
    pub niches: u32,
    pub handles: u32,
}

/// The measures of a cupboard.
pub open spec fn cupboard_line(p: CupboardPlan) -> Seq<char> {
    dec(p.cols as nat) + " bays × "@ + dec(p.rows as nat) + " tiers · "@ + millimetres(p.width)
        + " × "@ + millimetres(p.height) + " mm overall · aspect "@ + decimal3(p.aspect)
}

fn write_cupboard_line(p: CupboardPlan) -> (r: String)
    ensures
        r@ == cupboard_line(p),
{
    let t = cat5(
        dec_text(p.cols as u64).as_str(),
        " bays × ",
        dec_text(p.rows as u64).as_str(),
        " tiers · ",
        write_millimetres(p.width).as_str(),
    );
    cat5(
        t.as_str(),
        " × ",
        write_millimetres(p.height).as_str(),
        " mm overall · aspect ",
        write_decimal3(p.aspect).as_str(),
    )
}

/// What else there is to say of a cupboard.
pub open spec fn cupboard_more_line(p: CupboardPlan) -> Seq<char> {
    dec(p.doors as nat) + " doors · "@ + dec(p.glazed as nat) + " glazed · "@
        + dec(p.drawers as nat) + " drawers · "@ + dec(p.niches as nat) + " niches · "@
        + dec(p.handles as nat) + " handles"@
}

fn write_cupboard_more_line(p: CupboardPlan) -> (r: String)
    ensures
        r@ == cupboard_more_line(p),
{
    let t = cat5(
        dec_text(p.doors as u64).as_str(),
        " doors · ",
        dec_text(p.glazed as u64).as_str(),
        " glazed · ",
        dec_text(p.drawers as u64).as_str(),
    );
    let t = cat5(
        t.as_str(),
        " drawers · ",
        dec_text(p.niches as u64).as_str(),
        " niches · ",
        dec_text(p.handles as u64).as_str(),
    );
    cat2(t.as_str(), " handles")
}

/// What the dialog says of a cupboard.
pub open spec fn cupboard_readout(p: CupboardPlan) -> Seq<Seq<char>> {
    seq![cupboard_line(p), cupboard_more_line(p)]
}

/// What the dialog says of a cupboard.
pub fn cupboard_plan(p: CupboardPlan) -> (r: Vec<String>)
    ensures
        views(r@) == cupboard_readout(p),
{
    let mut r: Vec<String> = Vec::new();
    r.push(write_cupboard_line(p));
    r.push(write_cupboard_more_line(p));
    assert(views(r@) =~= cupboard_readout(p));
    r
}

/// A kitchen run before it is built.
#[derive(Clone, Copy, Debug, PartialEq, Eq, Structural)]
pub struct KitchenPlan {
    pub base: u32,
    pub wall: u32,
    pub worktop: u64,
    pub top: u64,
    pub doors: u32,
    pub drawers: u32,
    pub voids: u32,
    pub talls: u32,
    pub shelves: u32,
    pub corners: u32,
    pub legs: u32,
}

/// The measures of a kitchen run.
pub open spec fn kitchen_line(p: KitchenPlan) -> Seq<char> {
    dec(p.base as nat) + " base · "@ + dec(p.wall as nat) + " wall cabinets · worktop "@
        + metres(p.worktop) + " m · top "@ + millimetres(p.top) + " mm"@
}

fn write_kitchen_line(p: KitchenPlan) -> (r: String)
    ensures
        r@ == kitchen_line(p),
{
    let t = cat5(
        dec_text(p.base as u64).as_str(),
        " base · ",
        dec_text(p.wall as u64).as_str(),
        " wall cabinets · worktop ",
        write_metres(p.worktop).as_str(),
    );
    cat4(t.as_str(), " m · top ", write_millimetres(p.top).as_str(), " mm")
}

/// What else there is to say of a kitchen run.
pub open spec fn kitchen_more_line(p: KitchenPlan) -> Seq<char> {
    dec(p.doors as nat) + " doors · "@ + dec(p.drawers as nat) + " drawers · "@
        + dec(p.voids as nat) + " voids · "@ + dec(p.talls as nat) + " tall · "@
        + dec(p.shelves as nat) + " shelves · "@ + dec(p.corners as nat) + " corners · "@
        + dec(p.legs as nat) + " legs"@
}

fn write_kitchen_more_line(p: KitchenPlan) -> (r: String)
    ensures
        r@ == kitchen_more_line(p),
{
    let t = cat5(
        dec_text(p.doors as u64).as_str(),
        " doors · ",
        dec_text(p.drawers as u64).as_str(),
        " drawers · ",
        dec_text(p.voids as u64).as_str(),
    );
    let t = cat5(
        t.as_str(),
        " voids · ",
        dec_text(p.talls as u64).as_str(),
        " tall · ",
        dec_text(p.shelves as u64).as_str(),
    );
    let t = cat5(
        t.as_str(),
        " shelves · ",
        dec_text(p.corners as u64).as_str(),
        " corners · ",
        dec_text(p.legs as u64).as_str(),
    );
    cat2(t.as_str(), " legs")
}

/// What the dialog says of a kitchen run.
pub open spec fn kitchen_readout(p: KitchenPlan) -> Seq<Seq<char>> {
    seq![kitchen_line(p), kitchen_more_line(p)]
}

/// What the dialog says of a kitchen run.
pub fn kitchen_plan(p: KitchenPlan) -> (r: Vec<String>)
    ensures
        views(r@) == kitchen_readout(p),
{
    let mut r: Vec<String> = Vec::new();
    r.push(write_kitchen_line(p));
    r.push(write_kitchen_more_line(p));
    assert(views(r@) =~= kitchen_readout(p));
    r
}

/// A cabinet unit before it is built.
#[derive(Clone, Copy, Debug, PartialEq, Eq, Structural)]
pub struct CabinPlan {
    pub cols: u32,
    pub rows: u32,
    pub width: u64,
    pub height: u64,
    pub depth: u64,
    pub carcass: u64,
    pub leaves: u32,
    pub drawers: u32,
    pub opens: u32,
    pub panels: u32,
    pub shelves: u32,
    pub pins: u32,
}

/// The measures of a cabinet unit.
pub open spec fn cabin_line(p: CabinPlan) -> Seq<char> {
    dec(p.cols as nat) + " × "@ + dec(p.rows as nat) + " cells · "@ + millimetres(p.width) + " × "@
        + millimetres(p.height) + " × "@ + millimetres(p.depth) + " mm · carcass depth "@
        + millimetres(p.carcass) + " mm"@
}

fn write_cabin_line(p: CabinPlan) -> (r: String)
    ensures
        r@ == cabin_line(p),
{
    let t = cat5(
        dec_text(p.cols as u64).as_str(),
        " × ",
        dec_text(p.rows as u64).as_str(),
        " cells · ",
        write_millimetres(p.width).as_str(),
    );
    let t = cat5(
        t.as_str(),
        " × ",
        write_millimetres(p.height).as_str(),
        " × ",
        write_millimetres(p.depth).as_str(),
    );
    cat4(t.as_str(), " mm · carcass depth ", write_millimetres(p.carcass).as_str(), " mm")
}

/// What else there is to say of a cabinet unit.
pub open spec fn cabin_more_line(p: CabinPlan) -> Seq<char> {
    dec(p.leaves as nat) + " door leaves · "@ + dec(p.drawers as nat) + " drawers · "@
        + dec(p.opens as nat) + " open · "@ + dec(p.panels as nat) + " panels · "@
        + dec(p.shelves as nat) + " shelves · "@ + dec(p.pins as nat) + " pins"@
}

fn write_cabin_more_line(p: CabinPlan) -> (r: String)
    ensures
        r@ == cabin_more_line(p),
{
    let t = cat5(
        dec_text(p.leaves as u64).as_str(),
        " door leaves · ",
        dec_text(p.drawers as u64).as_str(),
        " drawers · ",
        dec_text(p.opens as u64).as_str(),
    );
    let t = cat5(
        t.as_str(),
        " open · ",
        dec_text(p.panels as u64).as_str(),
        " panels · ",
        dec_text(p.shelves as u64).as_str(),
    );
    cat4(t.as_str(), " shelves · ", dec_text(p.pins as u64).as_str(), " pins")
}

/// What the dialog says of a cabinet unit.
pub open spec fn cabin_readout(p: CabinPlan) -> Seq<Seq<char>> {
    seq![cabin_line(p), cabin_more_line(p)]
}

/// What the dialog says of a cabinet unit.
pub fn cabin_plan(p: CabinPlan) -> (r: Vec<String>)
    ensures
        views(r@) == cabin_readout(p),
{
    let mut r: Vec<String> = Vec::new();
    r.push(write_cabin_line(p));
    r.push(write_cabin_more_line(p));
    assert(views(r@) =~= cabin_readout(p));
    r
}

/// A sofa before it is built.
#[derive(Clone, Copy, Debug, PartialEq, Eq, Structural)]
pub struct CouchPlan {
    pub runs: u32,
    pub corners: u32,
    pub overall: u64,
    pub seats: u32,
    pub pitch: u64,
    pub tris: usize,
}

/// The measures of a sofa.
pub open spec fn couch_line(p: CouchPlan) -> Seq<char> {
    dec(p.runs as nat) + " run"@ + plural(p.runs) + " + "@ + dec(p.corners as nat) + " corner"@
        + plural(p.corners) + " · "@ + metres(p.overall) + " m overall · "@ + dec(p.seats as nat)
        + " seats at "@ + millimetres(p.pitch) + " mm pitch · "@ + dec(p.tris as nat) + " tris"@
}

fn write_couch_line(p: CouchPlan) -> (r: String)
    ensures
        r@ == couch_line(p),
{
    let t = cat5(
        dec_text(p.runs as u64).as_str(),
        " run",
        ending(p.runs).as_str(),
        " + ",
        dec_text(p.corners as u64).as_str(),
    );
    let t = cat5(
        t.as_str(),
        " corner",
        ending(p.corners).as_str(),
        " · ",
        write_metres(p.overall).as_str(),
    );
    let t = cat5(
        t.as_str(),
        " m overall · ",
        dec_text(p.seats as u64).as_str(),
        " seats at ",
        write_millimetres(p.pitch).as_str(),
    );
    cat4(t.as_str(), " mm pitch · ", dec_text(p.tris as u64).as_str(), " tris")
}

/// What the dialog says of a sofa.
pub open spec fn couch_readout(p: CouchPlan) -> Seq<Seq<char>> {
    seq![couch_line(p)]
}

/// What the dialog says of a sofa.
pub fn couch_plan(p: CouchPlan) -> (r: Vec<String>)
    ensures
        views(r@) == couch_readout(p),
{
    let mut r: Vec<String> = Vec::new();
    r.push(write_couch_line(p));
    assert(views(r@) =~= couch_readout(p));
    r
}

/// A curved light before it is built: the hangers asked for and got, its output in thousandths, and
/// how closely the run is sampled for the calculation, beside how closely a short run is.
#[derive(Clone, Copy, Debug, PartialEq, Eq, Structural)]
pub struct LightPlan {
    pub path: u64,
    pub hangers: u32,
    pub spacing: u64,
    pub asked: u64,
    pub min_radius: u64,
    pub tris: usize,
    pub lumens: u64,
    pub watts: u64,
    pub emitters: usize,
    pub sampled: u64,
    pub usual: u64,
}

/// The measures of a curved light.
pub open spec fn light_line(p: LightPlan) -> Seq<char> {
    "path "@ + metres(p.path) + " m · "@ + dec(p.hangers as nat) + " hangers at "@
        + metres(p.spacing) + " m (asked "@ + metres(p.asked) + ") · min radius "@
        + millimetres(p.min_radius) + " mm · "@ + dec(p.tris as nat) + " tris"@
}

fn write_light_line(p: LightPlan) -> (r: String)
    ensures
        r@ == light_line(p),
{
    let t = cat5(
        "path ",
        write_metres(p.path).as_str(),
        " m · ",
        dec_text(p.hangers as u64).as_str(),
        " hangers at ",
    );
    let t = cat5(
        t.as_str(),
        write_metres(p.spacing).as_str(),
        " m (asked ",
        write_metres(p.asked).as_str(),
        ") · min radius ",
    );
    cat5(
        t.as_str(),
        write_millimetres(p.min_radius).as_str(),
        " mm · ",
        dec_text(p.tris as u64).as_str(),
        " tris",
    )
}

/// The output of a curved light.
pub open spec fn output_line(p: LightPlan) -> Seq<char> {
    dec(rounded(p.lumens as nat, 1_000)) + " lm · "@ + watts1(p.watts) + " W · "@
        + dec(p.emitters as nat) + " emitting points at "@ + metres(p.sampled) + " m"@
}

fn write_output_line(p: LightPlan) -> (r: String)
    ensures
        r@ == output_line(p),
{
    let t = cat5(
        dec_text_wide(round_to(p.lumens as u128, 1_000)).as_str(),
        " lm · ",
        write_watts1(p.watts).as_str(),
        " W · ",
        dec_text(p.emitters as u64).as_str(),
    );
    cat4(t.as_str(), " emitting points at ", write_metres(p.sampled).as_str(), " m")
}

/// How a long run is sampled for the calculation.
pub open spec fn sampling_line(p: LightPlan) -> Seq<char> {
    "  ⓘ "@ + whole(p.path) + " m of run — sampled every "@ + metres(p.sampled) + " m instead of "@
        + metres(p.usual)
        + " m to keep the calculation finite. Total output is unchanged; only the field within ~"@
        + decimal1(p.sampled) + " m of the fitting is coarser."@
}

fn write_sampling_line(p: LightPlan) -> (r: String)
    ensures
        r@ == sampling_line(p),
{
    let t = cat5(
        "  ⓘ ",
        write_whole(p.path).as_str(),
        " m of run — sampled every ",
        write_metres(p.sampled).as_str(),
        " m instead of ",
    );
    cat5(
        t.as_str(),
        write_metres(p.usual).as_str(),
        " m to keep the calculation finite. Total output is unchanged; only the field within ~",
        write_decimal1(p.sampled).as_str(),
        " m of the fitting is coarser.",
    )
}

/// Whether a run is sampled further apart than usual, by more than a thousandth.
pub open spec fn coarsely_sampled(p: LightPlan) -> bool {
    p.sampled * 1_000 > p.usual * 1_001
}

/// What the dialog says of a curved light: also where it gives no light, and where a long run is
/// sampled further apart than usual.
pub open spec fn light_readout(p: LightPlan) -> Seq<Seq<char>> {
    seq![
        light_line(p),
        if p.emitters == 0 {
            "no light output — set a load and an efficacy above zero"@
        } else {
            output_line(p)
        },
    ] + if coarsely_sampled(p) {
        seq![sampling_line(p)]
    } else {
        Seq::empty()
    }
}

/// What the dialog says of a curved light.
pub fn light_plan(p: LightPlan) -> (r: Vec<String>)
    ensures
        views(r@) == light_readout(p),
{
    let mut r: Vec<String> = Vec::new();
    r.push(write_light_line(p));
    if p.emitters == 0 {
        r.push(String::from_str("no light output — set a load and an efficacy above zero"));
    } else {
        r.push(write_output_line(p));
    }
    if p.sampled as u128 * 1_000 > p.usual as u128 * 1_001 {
        r.push(write_sampling_line(p));
    }
    assert(views(r@) =~= light_readout(p));
    r
}

/// A desk before it is built.
pub struct DeskPlan {
    pub length: u64,
    pub width: u64,
    pub height: u64,
    pub features: Vec<String>,
    pub tris: usize,
}

/// What the dialog says of a desk.
pub open spec fn desk_readout(p: DeskPlan) -> Seq<char> {
    millimetres(p.length) + "×"@ + millimetres(p.width) + " mm at "@ + millimetres(p.height)
        + " mm · "@ + listed(views(p.features@), p.features@.len() as int) + " · "@
        + dec(p.tris as nat) + " tris"@
}

/// What the dialog says of a desk.
pub fn desk_plan(p: &DeskPlan) -> (r: String)
    ensures
        r@ == desk_readout(*p),
{
    let t = cat5(
        write_millimetres(p.length).as_str(),
        "×",
        write_millimetres(p.width).as_str(),
        " mm at ",
        write_millimetres(p.height).as_str(),
    );
    let t = cat5(
        t.as_str(),
        " mm · ",
        write_listed(&p.features).as_str(),
        " · ",
        dec_text(p.tris as u64).as_str(),
    );
    cat2(t.as_str(), " tris")
}

/// How many warnings the dialog leaves out at the start of the list, and how many it shows at
/// most. The first warning on a door says what its first line says already.
pub open spec fn warnings_window(tab: ArchTab) -> (nat, nat) {
    match tab {
        ArchTab::Dogleg => (0, 2),
        ArchTab::SpiralCsg => (0, 2),
        ArchTab::Door => (1, 2),
        _ => (0, 3),
    }
}

/// The warnings that the dialog shows, of those on the thing that it would build.
pub open spec fn shown_warnings(tab: ArchTab, w: Seq<Seq<char>>) -> Seq<Seq<char>> {
    let (skip, most) = warnings_window(tab);
    let left = if w.len() > skip {
        (w.len() - skip) as nat
    } else {
        0
    };
    Seq::new(
        if left < most {
            left
        } else {
            most
        },
        |i: int| "  ⚠ "@ + w[i + skip],
    )
}

/// The warnings that the dialog shows, of those on the thing that it would build.
pub fn plan_warnings(tab: ArchTab, w: &Vec<String>) -> (r: Vec<String>)
    ensures
        views(r@) == shown_warnings(tab, views(w@)),
{
    let (skip, most): (usize, usize) = match tab {
        ArchTab::Dogleg => (0, 2),
        ArchTab::SpiralCsg => (0, 2),
        ArchTab::Door => (1, 2),
        _ => (0, 3),
    };
    let mut r: Vec<String> = Vec::new();
    let mut i: usize = 0;
    while i < most && skip + i < w.len()
        invariant
            i <= most <= 3,
            skip <= 1,
            (skip as nat, most as nat) == warnings_window(tab),
            r@.len() == i,
            i == 0 || skip + i <= w@.len(),
            forall|k: int| 0 <= k < i ==> (#[trigger] r@[k])@ == "  ⚠ "@ + w@[k + skip]@,
        decreases most - i,
    {
        r.push(cat2("  ⚠ ", w[skip + i].as_str()));
        i += 1;
    }
    assert(views(r@) =~= shown_warnings(tab, views(w@)));
    r
}

/// What the dialog says where nothing can be built.
pub fn plan_error(e: &str) -> (r: String)
    ensures
        r@ == "⚠ "@ + e@,
{
    cat2("⚠ ", e)
}

/// No more than three warnings are shown, in their order.
pub proof fn few_warnings_are_shown(tab: ArchTab, w: Seq<Seq<char>>)
    ensures
        shown_warnings(tab, w).len() <= 3,
        shown_warnings(tab, w).len() <= w.len(),
        forall|i: int|
            0 <= i < shown_warnings(tab, w).len() ==> #[trigger] shown_warnings(tab, w)[i] == "  ⚠ "@
                + w[i + warnings_window(tab).0],
{
}

} // verus!
