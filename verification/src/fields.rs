//! The numbers that the generators ask for: what each is called, its range, and when it is asked.
//!
//! Lengths are micrometres; turns, shares, degrees and loads are millionths; counts and kelvins are
//! whole.
use vstd::prelude::*;

use crate::app::CadApp;
use crate::arch::{ArchTab, SweepPath};
use crate::copying::opt_view;
use crate::text::cat3;
use crate::units::{hundredths_text, round_to, rounded, write_hundredths};

verus! {

/// A number that a generator asks for.
#[derive(Clone, Copy, Debug, PartialEq, Eq, Structural)]
pub enum Field {
    StaircaseHeight,
    StaircaseWidth,
    StaircaseGoing,
    StaircaseRiser,
    StaircaseTread,
    StaircaseRiserThickness,
    StaircaseHandrail,
    StaircaseLanding,
    StaircaseSplit,
    SpiralHeight,
    SpiralWidth,
    SpiralRadius,
    SpiralTread,
    SpiralStepsPerTurn,
    SpiralTurns,
    SpiralHandrail,
    RampHeight,
    RampLength,
    RampWidth,
    RampThickness,
    DoglegLower,
    DoglegUpper,
    DoglegGoing,
    DoglegWidth,
    DoglegWell,
    DoglegRise,
    SpiralCsgSteps,
    SpiralCsgTurns,
    SpiralCsgHeight,
    SpiralCsgRadius,
    SpiralCsgHandrail,
    SpiralCsgInfill,
    DoorWidth,
    DoorHeight,
    DoorThickness,
    DoorDepth,
    DoorReveal,
    DoorRebate,
    DoorSide,
    DoorHead,
    DoorProjection,
    DoorBackset,
    DoorHandle,
    HelicalRampHeight,
    HelicalRampInner,
    HelicalRampOuter,
    HelicalRampTurns,
    HelicalRampSlab,
    HelicalRampRail,
    HelicalRampRails,
    CupboardWidth,
    CupboardHeight,
    CupboardDepth,
    CupboardDrawers,
    KitchenLength,
    KitchenLegB,
    KitchenLegC,
    KitchenCabinet,
    KitchenCount,
    CabinWidth,
    CabinHeight,
    CabinDepth,
    CabinShelves,
    CabinLeaves,
    CabinDrawers,
    CabinOpenPose,
    CabinDrawerOut,
    SweepLightRing,
    SweepLightLength,
    SweepLightDepth,
    SweepLightFillet,
    SweepLightRun,
    SweepLightSwing,
    SweepLightDrawnFillet,
    SweepLightWidth,
    SweepLightHeight,
    SweepLightLens,
    SweepLightDrop,
    SweepLightDropEnd,
    SweepLightSpacing,
    SweepLightLoad,
    SweepLightEfficacy,
    SweepLightKelvin,
    DeskLength,
    DeskDepth,
    DeskHeight,
    DeskScreenSpan,
    DeskScreenHeight,
    DeskPedestal,
    DeskDrawers,
    CouchRun,
    CouchCushions,
    CouchDepth,
    CouchSeat,
    CouchBack,
    CouchArm,
    CouchCushion,
}

/// What else has to be chosen for a number to be asked for.
#[derive(Clone, Copy, Debug, PartialEq, Eq, Structural)]
pub enum When {
    Always,
    StairRails,
    UShape,
    SpiralRail,
    CsgRail,
    ReturnB,
    ReturnC,
    RingPath,
    RacetrackPath,
    SCurvePath,
    DrawnPath,
    Screen,
    Pedestal,
}

/// The shape of a kitchen.
#[derive(Clone, Copy, Debug, PartialEq, Eq, Structural)]
pub enum KitchenShape {
    Straight,
    L,
    U,
}

/// What is chosen in the dialog of the generators, besides numbers.
#[derive(Clone, Copy, Debug, PartialEq, Eq, Structural)]
pub struct Choices {
    pub stair_rails: bool,
    pub u_shape: bool,
    pub spiral_rail: bool,
    pub csg_rail: bool,
    pub kitchen: KitchenShape,
    pub path: SweepPath,
    pub screen: bool,
    pub left_drawers: bool,
    pub right_drawers: bool,
}

/// What a number is called.
pub open spec fn label_of(f: Field) -> Seq<char> {
    match f {
        Field::StaircaseHeight => "Floor-to-floor height"@,
        Field::StaircaseWidth => "Stair width"@,
        Field::StaircaseGoing => "Tread going (run)"@,
        Field::StaircaseRiser => "Target riser height"@,
        Field::StaircaseTread => "Tread thickness"@,
        Field::StaircaseRiserThickness => "Riser thickness"@,
        Field::StaircaseHandrail => "Handrail height"@,
        Field::StaircaseLanding => "Landing depth"@,
        Field::StaircaseSplit => "First-flight split"@,
        Field::SpiralHeight => "Total height"@,
        Field::SpiralWidth => "Tread length (radial)"@,
        Field::SpiralRadius => "Inner radius"@,
        Field::SpiralTread => "Tread thickness"@,
        Field::SpiralStepsPerTurn => "Steps per turn"@,
        Field::SpiralTurns => "Total turns"@,
        Field::SpiralHandrail => "Handrail height"@,
        Field::RampHeight => "Vertical height"@,
        Field::RampLength => "Horizontal length"@,
        Field::RampWidth => "Width"@,
        Field::RampThickness => "Deck thickness"@,
        Field::DoglegLower => "Lower-flight steps"@,
        Field::DoglegUpper => "Upper-flight steps"@,
        Field::DoglegGoing => "Going (tread depth)"@,
        Field::DoglegWidth => "Stair width"@,
        Field::DoglegWell => "Well (gap)"@,
        Field::DoglegRise => "Floor-to-floor rise"@,
        Field::SpiralCsgSteps => "Number of steps"@,
        Field::SpiralCsgTurns => "Number of turns"@,
        Field::SpiralCsgHeight => "Overall height"@,
        Field::SpiralCsgRadius => "Outer radius (width)"@,
        Field::SpiralCsgHandrail => "Handrail height"@,
        Field::SpiralCsgInfill => "Infill rails"@,
        Field::DoorWidth => "Leaf width"@,
        Field::DoorHeight => "Leaf height"@,
        Field::DoorThickness => "Leaf thickness"@,
        Field::DoorDepth => "Wall thickness (depth)"@,
        Field::DoorReveal => "Lining reveal (face)"@,
        Field::DoorRebate => "Stop / rebate depth"@,
        Field::DoorSide => "Side width"@,
        Field::DoorHead => "Head height"@,
        Field::DoorProjection => "Projection"@,
        Field::DoorBackset => "Handle backset"@,
        Field::DoorHandle => "Handle height"@,
        Field::HelicalRampHeight => "Ramp height (rise)"@,
        Field::HelicalRampInner => "Inner radius"@,
        Field::HelicalRampOuter => "Outer radius"@,
        Field::HelicalRampTurns => "Turns"@,
        Field::HelicalRampSlab => "Slab thickness"@,
        Field::HelicalRampRail => "Rail height"@,
        Field::HelicalRampRails => "Rails per edge"@,
        Field::CupboardWidth => "Carcass width"@,
        Field::CupboardHeight => "Carcass height"@,
        Field::CupboardDepth => "Depth"@,
        Field::CupboardDrawers => "Drawers"@,
        Field::KitchenLength => "Main run length"@,
        Field::KitchenLegB => "Return leg B length"@,
        Field::KitchenLegC => "Return leg C length"@,
        Field::KitchenCabinet => "Cabinet width"@,
        Field::KitchenCount => "Leaves, drawers or shelves"@,
        Field::CabinWidth => "Width"@,
        Field::CabinHeight => "Height"@,
        Field::CabinDepth => "Depth (nominal, incl. leaf)"@,
        Field::CabinShelves => "shelves"@,
        Field::CabinLeaves => "leaves"@,
        Field::CabinDrawers => "drawers"@,
        Field::CabinOpenPose => "Open pose"@,
        Field::CabinDrawerOut => "Drawer pulled out"@,
        Field::SweepLightRing => "Ring radius"@,
        Field::SweepLightLength => "Length"@,
        Field::SweepLightDepth => "Depth"@,
        Field::SweepLightFillet => "Corner fillet"@,
        Field::SweepLightRun => "Run length"@,
        Field::SweepLightSwing => "Swing (±)"@,
        Field::SweepLightDrawnFillet => "Corner fillet"@,
        Field::SweepLightWidth => "Profile width"@,
        Field::SweepLightHeight => "Profile height"@,
        Field::SweepLightLens => "Lens size"@,
        Field::SweepLightDrop => "Drop (ceiling→top)"@,
        Field::SweepLightDropEnd => "Drop at far end"@,
        Field::SweepLightSpacing => "Hanger spacing"@,
        Field::SweepLightLoad => "Load"@,
        Field::SweepLightEfficacy => "Efficacy"@,
        Field::SweepLightKelvin => "Colour temperature"@,
        Field::DeskLength => "Length"@,
        Field::DeskDepth => "Depth"@,
        Field::DeskHeight => "Surface height"@,
        Field::DeskScreenSpan => "Screen span"@,
        Field::DeskScreenHeight => "Screen height"@,
        Field::DeskPedestal => "Pedestal width"@,
        Field::DeskDrawers => "Drawers"@,
        Field::CouchRun => "Run length"@,
        Field::CouchCushions => "Cushions"@,
        Field::CouchDepth => "Depth"@,
        Field::CouchSeat => "Seat height"@,
        Field::CouchBack => "Back height"@,
        Field::CouchArm => "Arm height"@,
        Field::CouchCushion => "Cushion thickness"@,
    }
}

/// What a number is called.
pub fn field_label(f: Field) -> (r: &'static str)
    ensures
        r@ == label_of(f),
{
    match f {
        Field::StaircaseHeight => "Floor-to-floor height",
        Field::StaircaseWidth => "Stair width",
        Field::StaircaseGoing => "Tread going (run)",
        Field::StaircaseRiser => "Target riser height",
        Field::StaircaseTread => "Tread thickness",
        Field::StaircaseRiserThickness => "Riser thickness",
        Field::StaircaseHandrail => "Handrail height",
        Field::StaircaseLanding => "Landing depth",
        Field::StaircaseSplit => "First-flight split",
        Field::SpiralHeight => "Total height",
        Field::SpiralWidth => "Tread length (radial)",
        Field::SpiralRadius => "Inner radius",
        Field::SpiralTread => "Tread thickness",
        Field::SpiralStepsPerTurn => "Steps per turn",
        Field::SpiralTurns => "Total turns",
        Field::SpiralHandrail => "Handrail height",
        Field::RampHeight => "Vertical height",
        Field::RampLength => "Horizontal length",
        Field::RampWidth => "Width",
        Field::RampThickness => "Deck thickness",
        Field::DoglegLower => "Lower-flight steps",
        Field::DoglegUpper => "Upper-flight steps",
        Field::DoglegGoing => "Going (tread depth)",
        Field::DoglegWidth => "Stair width",
        Field::DoglegWell => "Well (gap)",
        Field::DoglegRise => "Floor-to-floor rise",
        Field::SpiralCsgSteps => "Number of steps",
        Field::SpiralCsgTurns => "Number of turns",
        Field::SpiralCsgHeight => "Overall height",
        Field::SpiralCsgRadius => "Outer radius (width)",
        Field::SpiralCsgHandrail => "Handrail height",
        Field::SpiralCsgInfill => "Infill rails",
        Field::DoorWidth => "Leaf width",
        Field::DoorHeight => "Leaf height",
        Field::DoorThickness => "Leaf thickness",
        Field::DoorDepth => "Wall thickness (depth)",
        Field::DoorReveal => "Lining reveal (face)",
        Field::DoorRebate => "Stop / rebate depth",
        Field::DoorSide => "Side width",
        Field::DoorHead => "Head height",
        Field::DoorProjection => "Projection",
        Field::DoorBackset => "Handle backset",
        Field::DoorHandle => "Handle height",
        Field::HelicalRampHeight => "Ramp height (rise)",
        Field::HelicalRampInner => "Inner radius",
        Field::HelicalRampOuter => "Outer radius",
        Field::HelicalRampTurns => "Turns",
        Field::HelicalRampSlab => "Slab thickness",
        Field::HelicalRampRail => "Rail height",
        Field::HelicalRampRails => "Rails per edge",
        Field::CupboardWidth => "Carcass width",
        Field::CupboardHeight => "Carcass height",
        Field::CupboardDepth => "Depth",
        Field::CupboardDrawers => "Drawers",
        Field::KitchenLength => "Main run length",
        Field::KitchenLegB => "Return leg B length",
        Field::KitchenLegC => "Return leg C length",
        Field::KitchenCabinet => "Cabinet width",
        Field::KitchenCount => "Leaves, drawers or shelves",
        Field::CabinWidth => "Width",
        Field::CabinHeight => "Height",
        Field::CabinDepth => "Depth (nominal, incl. leaf)",
        Field::CabinShelves => "shelves",
        Field::CabinLeaves => "leaves",
        Field::CabinDrawers => "drawers",
        Field::CabinOpenPose => "Open pose",
        Field::CabinDrawerOut => "Drawer pulled out",
        Field::SweepLightRing => "Ring radius",
        Field::SweepLightLength => "Length",
        Field::SweepLightDepth => "Depth",
        Field::SweepLightFillet => "Corner fillet",
        Field::SweepLightRun => "Run length",
        Field::SweepLightSwing => "Swing (±)",
        Field::SweepLightDrawnFillet => "Corner fillet",
        Field::SweepLightWidth => "Profile width",
        Field::SweepLightHeight => "Profile height",
        Field::SweepLightLens => "Lens size",
        Field::SweepLightDrop => "Drop (ceiling→top)",
        Field::SweepLightDropEnd => "Drop at far end",
        Field::SweepLightSpacing => "Hanger spacing",
        Field::SweepLightLoad => "Load",
        Field::SweepLightEfficacy => "Efficacy",
        Field::SweepLightKelvin => "Colour temperature",
        Field::DeskLength => "Length",
        Field::DeskDepth => "Depth",
        Field::DeskHeight => "Surface height",
        Field::DeskScreenSpan => "Screen span",
        Field::DeskScreenHeight => "Screen height",
        Field::DeskPedestal => "Pedestal width",
        Field::DeskDrawers => "Drawers",
        Field::CouchRun => "Run length",
        Field::CouchCushions => "Cushions",
        Field::CouchDepth => "Depth",
        Field::CouchSeat => "Seat height",
        Field::CouchBack => "Back height",
        Field::CouchArm => "Arm height",
        Field::CouchCushion => "Cushion thickness",
    }
}

/// The generator that asks for a number.
pub open spec fn tab_of(f: Field) -> ArchTab {
    match f {
        Field::StaircaseHeight => ArchTab::Staircase,
        Field::StaircaseWidth => ArchTab::Staircase,
        Field::StaircaseGoing => ArchTab::Staircase,
        Field::StaircaseRiser => ArchTab::Staircase,
        Field::StaircaseTread => ArchTab::Staircase,
        Field::StaircaseRiserThickness => ArchTab::Staircase,
        Field::StaircaseHandrail => ArchTab::Staircase,
        Field::StaircaseLanding => ArchTab::Staircase,
        Field::StaircaseSplit => ArchTab::Staircase,
        Field::SpiralHeight => ArchTab::Spiral,
        Field::SpiralWidth => ArchTab::Spiral,
        Field::SpiralRadius => ArchTab::Spiral,
        Field::SpiralTread => ArchTab::Spiral,
        Field::SpiralStepsPerTurn => ArchTab::Spiral,
        Field::SpiralTurns => ArchTab::Spiral,
        Field::SpiralHandrail => ArchTab::Spiral,
        Field::RampHeight => ArchTab::Ramp,
        Field::RampLength => ArchTab::Ramp,
        Field::RampWidth => ArchTab::Ramp,
        Field::RampThickness => ArchTab::Ramp,
        Field::DoglegLower => ArchTab::Dogleg,
        Field::DoglegUpper => ArchTab::Dogleg,
        Field::DoglegGoing => ArchTab::Dogleg,
        Field::DoglegWidth => ArchTab::Dogleg,
        Field::DoglegWell => ArchTab::Dogleg,
        Field::DoglegRise => ArchTab::Dogleg,
        Field::SpiralCsgSteps => ArchTab::SpiralCsg,
        Field::SpiralCsgTurns => ArchTab::SpiralCsg,
        Field::SpiralCsgHeight => ArchTab::SpiralCsg,
        Field::SpiralCsgRadius => ArchTab::SpiralCsg,
        Field::SpiralCsgHandrail => ArchTab::SpiralCsg,
        Field::SpiralCsgInfill => ArchTab::SpiralCsg,
        Field::DoorWidth => ArchTab::Door,
        Field::DoorHeight => ArchTab::Door,
        Field::DoorThickness => ArchTab::Door,
        Field::DoorDepth => ArchTab::Door,
        Field::DoorReveal => ArchTab::Door,
        Field::DoorRebate => ArchTab::Door,
        Field::DoorSide => ArchTab::Door,
        Field::DoorHead => ArchTab::Door,
        Field::DoorProjection => ArchTab::Door,
        Field::DoorBackset => ArchTab::Door,
        Field::DoorHandle => ArchTab::Door,
        Field::HelicalRampHeight => ArchTab::HelicalRamp,
        Field::HelicalRampInner => ArchTab::HelicalRamp,
        Field::HelicalRampOuter => ArchTab::HelicalRamp,
        Field::HelicalRampTurns => ArchTab::HelicalRamp,
        Field::HelicalRampSlab => ArchTab::HelicalRamp,
        Field::HelicalRampRail => ArchTab::HelicalRamp,
        Field::HelicalRampRails => ArchTab::HelicalRamp,
        Field::CupboardWidth => ArchTab::Cupboard,
        Field::CupboardHeight => ArchTab::Cupboard,
        Field::CupboardDepth => ArchTab::Cupboard,
        Field::CupboardDrawers => ArchTab::Cupboard,
        Field::KitchenLength => ArchTab::Kitchen,
        Field::KitchenLegB => ArchTab::Kitchen,
        Field::KitchenLegC => ArchTab::Kitchen,
        Field::KitchenCabinet => ArchTab::Kitchen,
        Field::KitchenCount => ArchTab::Kitchen,
        Field::CabinWidth => ArchTab::Cabin,
        Field::CabinHeight => ArchTab::Cabin,
        Field::CabinDepth => ArchTab::Cabin,
        Field::CabinShelves => ArchTab::Cabin,
        Field::CabinLeaves => ArchTab::Cabin,
        Field::CabinDrawers => ArchTab::Cabin,
        Field::CabinOpenPose => ArchTab::Cabin,
        Field::CabinDrawerOut => ArchTab::Cabin,
        Field::SweepLightRing => ArchTab::SweepLight,
        Field::SweepLightLength => ArchTab::SweepLight,
        Field::SweepLightDepth => ArchTab::SweepLight,
        Field::SweepLightFillet => ArchTab::SweepLight,
        Field::SweepLightRun => ArchTab::SweepLight,
        Field::SweepLightSwing => ArchTab::SweepLight,
        Field::SweepLightDrawnFillet => ArchTab::SweepLight,
        Field::SweepLightWidth => ArchTab::SweepLight,
        Field::SweepLightHeight => ArchTab::SweepLight,
        Field::SweepLightLens => ArchTab::SweepLight,
        Field::SweepLightDrop => ArchTab::SweepLight,
        Field::SweepLightDropEnd => ArchTab::SweepLight,
        Field::SweepLightSpacing => ArchTab::SweepLight,
        Field::SweepLightLoad => ArchTab::SweepLight,
        Field::SweepLightEfficacy => ArchTab::SweepLight,
        Field::SweepLightKelvin => ArchTab::SweepLight,
        Field::DeskLength => ArchTab::Desk,
        Field::DeskDepth => ArchTab::Desk,
        Field::DeskHeight => ArchTab::Desk,
        Field::DeskScreenSpan => ArchTab::Desk,
        Field::DeskScreenHeight => ArchTab::Desk,
        Field::DeskPedestal => ArchTab::Desk,
        Field::DeskDrawers => ArchTab::Desk,
        Field::CouchRun => ArchTab::Couch,
        Field::CouchCushions => ArchTab::Couch,
        Field::CouchDepth => ArchTab::Couch,
        Field::CouchSeat => ArchTab::Couch,
        Field::CouchBack => ArchTab::Couch,
        Field::CouchArm => ArchTab::Couch,
        Field::CouchCushion => ArchTab::Couch,
    }
}

/// The generator that asks for a number.
pub fn field_tab(f: Field) -> (r: ArchTab)
    ensures
        r == tab_of(f),
{
    match f {
        Field::StaircaseHeight => ArchTab::Staircase,
        Field::StaircaseWidth => ArchTab::Staircase,
        Field::StaircaseGoing => ArchTab::Staircase,
        Field::StaircaseRiser => ArchTab::Staircase,
        Field::StaircaseTread => ArchTab::Staircase,
        Field::StaircaseRiserThickness => ArchTab::Staircase,
        Field::StaircaseHandrail => ArchTab::Staircase,
        Field::StaircaseLanding => ArchTab::Staircase,
        Field::StaircaseSplit => ArchTab::Staircase,
        Field::SpiralHeight => ArchTab::Spiral,
        Field::SpiralWidth => ArchTab::Spiral,
        Field::SpiralRadius => ArchTab::Spiral,
        Field::SpiralTread => ArchTab::Spiral,
        Field::SpiralStepsPerTurn => ArchTab::Spiral,
        Field::SpiralTurns => ArchTab::Spiral,
        Field::SpiralHandrail => ArchTab::Spiral,
        Field::RampHeight => ArchTab::Ramp,
        Field::RampLength => ArchTab::Ramp,
        Field::RampWidth => ArchTab::Ramp,
        Field::RampThickness => ArchTab::Ramp,
        Field::DoglegLower => ArchTab::Dogleg,
        Field::DoglegUpper => ArchTab::Dogleg,
        Field::DoglegGoing => ArchTab::Dogleg,
        Field::DoglegWidth => ArchTab::Dogleg,
        Field::DoglegWell => ArchTab::Dogleg,
        Field::DoglegRise => ArchTab::Dogleg,
        Field::SpiralCsgSteps => ArchTab::SpiralCsg,
        Field::SpiralCsgTurns => ArchTab::SpiralCsg,
        Field::SpiralCsgHeight => ArchTab::SpiralCsg,
        Field::SpiralCsgRadius => ArchTab::SpiralCsg,
        Field::SpiralCsgHandrail => ArchTab::SpiralCsg,
        Field::SpiralCsgInfill => ArchTab::SpiralCsg,
        Field::DoorWidth => ArchTab::Door,
        Field::DoorHeight => ArchTab::Door,
        Field::DoorThickness => ArchTab::Door,
        Field::DoorDepth => ArchTab::Door,
        Field::DoorReveal => ArchTab::Door,
        Field::DoorRebate => ArchTab::Door,
        Field::DoorSide => ArchTab::Door,
        Field::DoorHead => ArchTab::Door,
        Field::DoorProjection => ArchTab::Door,
        Field::DoorBackset => ArchTab::Door,
        Field::DoorHandle => ArchTab::Door,
        Field::HelicalRampHeight => ArchTab::HelicalRamp,
        Field::HelicalRampInner => ArchTab::HelicalRamp,
        Field::HelicalRampOuter => ArchTab::HelicalRamp,
        Field::HelicalRampTurns => ArchTab::HelicalRamp,
        Field::HelicalRampSlab => ArchTab::HelicalRamp,
        Field::HelicalRampRail => ArchTab::HelicalRamp,
        Field::HelicalRampRails => ArchTab::HelicalRamp,
        Field::CupboardWidth => ArchTab::Cupboard,
        Field::CupboardHeight => ArchTab::Cupboard,
        Field::CupboardDepth => ArchTab::Cupboard,
        Field::CupboardDrawers => ArchTab::Cupboard,
        Field::KitchenLength => ArchTab::Kitchen,
        Field::KitchenLegB => ArchTab::Kitchen,
        Field::KitchenLegC => ArchTab::Kitchen,
        Field::KitchenCabinet => ArchTab::Kitchen,
        Field::KitchenCount => ArchTab::Kitchen,
        Field::CabinWidth => ArchTab::Cabin,
        Field::CabinHeight => ArchTab::Cabin,
        Field::CabinDepth => ArchTab::Cabin,
        Field::CabinShelves => ArchTab::Cabin,
        Field::CabinLeaves => ArchTab::Cabin,
        Field::CabinDrawers => ArchTab::Cabin,
        Field::CabinOpenPose => ArchTab::Cabin,
        Field::CabinDrawerOut => ArchTab::Cabin,
        Field::SweepLightRing => ArchTab::SweepLight,
        Field::SweepLightLength => ArchTab::SweepLight,
        Field::SweepLightDepth => ArchTab::SweepLight,
        Field::SweepLightFillet => ArchTab::SweepLight,
        Field::SweepLightRun => ArchTab::SweepLight,
        Field::SweepLightSwing => ArchTab::SweepLight,
        Field::SweepLightDrawnFillet => ArchTab::SweepLight,
        Field::SweepLightWidth => ArchTab::SweepLight,
        Field::SweepLightHeight => ArchTab::SweepLight,
        Field::SweepLightLens => ArchTab::SweepLight,
        Field::SweepLightDrop => ArchTab::SweepLight,
        Field::SweepLightDropEnd => ArchTab::SweepLight,
        Field::SweepLightSpacing => ArchTab::SweepLight,
        Field::SweepLightLoad => ArchTab::SweepLight,
        Field::SweepLightEfficacy => ArchTab::SweepLight,
        Field::SweepLightKelvin => ArchTab::SweepLight,
        Field::DeskLength => ArchTab::Desk,
        Field::DeskDepth => ArchTab::Desk,
        Field::DeskHeight => ArchTab::Desk,
        Field::DeskScreenSpan => ArchTab::Desk,
        Field::DeskScreenHeight => ArchTab::Desk,
        Field::DeskPedestal => ArchTab::Desk,
        Field::DeskDrawers => ArchTab::Desk,
        Field::CouchRun => ArchTab::Couch,
        Field::CouchCushions => ArchTab::Couch,
        Field::CouchDepth => ArchTab::Couch,
        Field::CouchSeat => ArchTab::Couch,
        Field::CouchBack => ArchTab::Couch,
        Field::CouchArm => ArchTab::Couch,
        Field::CouchCushion => ArchTab::Couch,
    }
}

/// The least and the greatest that a number can be.
pub open spec fn range_of(f: Field) -> (i64, i64) {
    match f {
        Field::StaircaseHeight => (100_000, 100_000_000),
        Field::StaircaseWidth => (300_000, 20_000_000),
        Field::StaircaseGoing => (100_000, 2_000_000),
        Field::StaircaseRiser => (50_000, 500_000),
        Field::StaircaseTread => (10_000, 300_000),
        Field::StaircaseRiserThickness => (10_000, 300_000),
        Field::StaircaseHandrail => (400_000, 1_500_000),
        Field::StaircaseLanding => (100_000, 20_000_000),
        Field::StaircaseSplit => (100_000, 900_000),
        Field::SpiralHeight => (100_000, 100_000_000),
        Field::SpiralWidth => (300_000, 10_000_000),
        Field::SpiralRadius => (0, 10_000_000),
        Field::SpiralTread => (10_000, 300_000),
        Field::SpiralStepsPerTurn => (3, 64),
        Field::SpiralTurns => (100_000, 20_000_000),
        Field::SpiralHandrail => (400_000, 1_500_000),
        Field::RampHeight => (50_000, 50_000_000),
        Field::RampLength => (100_000, 100_000_000),
        Field::RampWidth => (200_000, 20_000_000),
        Field::RampThickness => (20_000, 1_000_000),
        Field::DoglegLower => (1, 100),
        Field::DoglegUpper => (1, 100),
        Field::DoglegGoing => (100_000, 1_000_000),
        Field::DoglegWidth => (300_000, 4_000_000),
        Field::DoglegWell => (0, 2_000_000),
        Field::DoglegRise => (200_000, 12_000_000),
        Field::SpiralCsgSteps => (3, 200),
        Field::SpiralCsgTurns => (250_000, 6_000_000),
        Field::SpiralCsgHeight => (200_000, 20_000_000),
        Field::SpiralCsgRadius => (300_000, 4_000_000),
        Field::SpiralCsgHandrail => (300_000, 1_300_000),
        Field::SpiralCsgInfill => (0, 10),
        Field::DoorWidth => (400_000, 1_600_000),
        Field::DoorHeight => (1_200_000, 3_200_000),
        Field::DoorThickness => (20_000, 100_000),
        Field::DoorDepth => (50_000, 600_000),
        Field::DoorReveal => (5_000, 100_000),
        Field::DoorRebate => (5_000, 50_000),
        Field::DoorSide => (20_000, 300_000),
        Field::DoorHead => (20_000, 400_000),
        Field::DoorProjection => (4_000, 60_000),
        Field::DoorBackset => (50_000, 150_000),
        Field::DoorHandle => (750_000, 1_300_000),
        Field::HelicalRampHeight => (200_000, 40_000_000),
        Field::HelicalRampInner => (0, 20_000_000),
        Field::HelicalRampOuter => (300_000, 30_000_000),
        Field::HelicalRampTurns => (100_000, 20_000_000),
        Field::HelicalRampSlab => (20_000, 1_000_000),
        Field::HelicalRampRail => (300_000, 1_500_000),
        Field::HelicalRampRails => (1, 8),
        Field::CupboardWidth => (300_000, 6_000_000),
        Field::CupboardHeight => (300_000, 3_000_000),
        Field::CupboardDepth => (100_000, 1_000_000),
        Field::CupboardDrawers => (1, 8),
        Field::KitchenLength => (300_000, 12_000_000),
        Field::KitchenLegB => (300_000, 12_000_000),
        Field::KitchenLegC => (300_000, 12_000_000),
        Field::KitchenCabinet => (0, 3_000_000),
        Field::KitchenCount => (1, 6),
        Field::CabinWidth => (200_000, 3_000_000),
        Field::CabinHeight => (200_000, 3_000_000),
        Field::CabinDepth => (100_000, 1_000_000),
        Field::CabinShelves => (0, 6),
        Field::CabinLeaves => (1, 3),
        Field::CabinDrawers => (1, 8),
        Field::CabinOpenPose => (0, 110_000_000),
        Field::CabinDrawerOut => (0, 600_000),
        Field::SweepLightRing => (50_000, 5_000_000),
        Field::SweepLightLength => (300_000, 8_000_000),
        Field::SweepLightDepth => (300_000, 8_000_000),
        Field::SweepLightFillet => (30_000, 1_000_000),
        Field::SweepLightRun => (500_000, 15_000_000),
        Field::SweepLightSwing => (0, 3_000_000),
        Field::SweepLightDrawnFillet => (0, 1_000_000),
        Field::SweepLightWidth => (20_000, 300_000),
        Field::SweepLightHeight => (20_000, 400_000),
        Field::SweepLightLens => (10_000, 300_000),
        Field::SweepLightDrop => (100_000, 4_000_000),
        Field::SweepLightDropEnd => (100_000, 4_000_000),
        Field::SweepLightSpacing => (300_000, 3_000_000),
        Field::SweepLightLoad => (0, 100_000_000),
        Field::SweepLightEfficacy => (0, 250_000_000),
        Field::SweepLightKelvin => (1_800, 8_000),
        Field::DeskLength => (1_000_000, 3_000_000),
        Field::DeskDepth => (500_000, 1_400_000),
        Field::DeskHeight => (600_000, 900_000),
        Field::DeskScreenSpan => (300_000, 3_000_000),
        Field::DeskScreenHeight => (100_000, 1_000_000),
        Field::DeskPedestal => (250_000, 800_000),
        Field::DeskDrawers => (1, 6),
        Field::CouchRun => (400_000, 6_000_000),
        Field::CouchCushions => (0, 8),
        Field::CouchDepth => (500_000, 1_200_000),
        Field::CouchSeat => (250_000, 600_000),
        Field::CouchBack => (300_000, 1_100_000),
        Field::CouchArm => (200_000, 900_000),
        Field::CouchCushion => (50_000, 350_000),
    }
}

/// The least and the greatest that a number can be.
pub fn field_range(f: Field) -> (r: (i64, i64))
    ensures
        r == range_of(f),
{
    match f {
        Field::StaircaseHeight => (100_000, 100_000_000),
        Field::StaircaseWidth => (300_000, 20_000_000),
        Field::StaircaseGoing => (100_000, 2_000_000),
        Field::StaircaseRiser => (50_000, 500_000),
        Field::StaircaseTread => (10_000, 300_000),
        Field::StaircaseRiserThickness => (10_000, 300_000),
        Field::StaircaseHandrail => (400_000, 1_500_000),
        Field::StaircaseLanding => (100_000, 20_000_000),
        Field::StaircaseSplit => (100_000, 900_000),
        Field::SpiralHeight => (100_000, 100_000_000),
        Field::SpiralWidth => (300_000, 10_000_000),
        Field::SpiralRadius => (0, 10_000_000),
        Field::SpiralTread => (10_000, 300_000),
        Field::SpiralStepsPerTurn => (3, 64),
        Field::SpiralTurns => (100_000, 20_000_000),
        Field::SpiralHandrail => (400_000, 1_500_000),
        Field::RampHeight => (50_000, 50_000_000),
        Field::RampLength => (100_000, 100_000_000),
        Field::RampWidth => (200_000, 20_000_000),
        Field::RampThickness => (20_000, 1_000_000),
        Field::DoglegLower => (1, 100),
        Field::DoglegUpper => (1, 100),
        Field::DoglegGoing => (100_000, 1_000_000),
        Field::DoglegWidth => (300_000, 4_000_000),
        Field::DoglegWell => (0, 2_000_000),
        Field::DoglegRise => (200_000, 12_000_000),
        Field::SpiralCsgSteps => (3, 200),
        Field::SpiralCsgTurns => (250_000, 6_000_000),
        Field::SpiralCsgHeight => (200_000, 20_000_000),
        Field::SpiralCsgRadius => (300_000, 4_000_000),
        Field::SpiralCsgHandrail => (300_000, 1_300_000),
        Field::SpiralCsgInfill => (0, 10),
        Field::DoorWidth => (400_000, 1_600_000),
        Field::DoorHeight => (1_200_000, 3_200_000),
        Field::DoorThickness => (20_000, 100_000),
        Field::DoorDepth => (50_000, 600_000),
        Field::DoorReveal => (5_000, 100_000),
        Field::DoorRebate => (5_000, 50_000),
        Field::DoorSide => (20_000, 300_000),
        Field::DoorHead => (20_000, 400_000),
        Field::DoorProjection => (4_000, 60_000),
        Field::DoorBackset => (50_000, 150_000),
        Field::DoorHandle => (750_000, 1_300_000),
        Field::HelicalRampHeight => (200_000, 40_000_000),
        Field::HelicalRampInner => (0, 20_000_000),
        Field::HelicalRampOuter => (300_000, 30_000_000),
        Field::HelicalRampTurns => (100_000, 20_000_000),
        Field::HelicalRampSlab => (20_000, 1_000_000),
        Field::HelicalRampRail => (300_000, 1_500_000),
        Field::HelicalRampRails => (1, 8),
        Field::CupboardWidth => (300_000, 6_000_000),
        Field::CupboardHeight => (300_000, 3_000_000),
        Field::CupboardDepth => (100_000, 1_000_000),
        Field::CupboardDrawers => (1, 8),
        Field::KitchenLength => (300_000, 12_000_000),
        Field::KitchenLegB => (300_000, 12_000_000),
        Field::KitchenLegC => (300_000, 12_000_000),
        Field::KitchenCabinet => (0, 3_000_000),
        Field::KitchenCount => (1, 6),
        Field::CabinWidth => (200_000, 3_000_000),
        Field::CabinHeight => (200_000, 3_000_000),
        Field::CabinDepth => (100_000, 1_000_000),
        Field::CabinShelves => (0, 6),
        Field::CabinLeaves => (1, 3),
        Field::CabinDrawers => (1, 8),
        Field::CabinOpenPose => (0, 110_000_000),
        Field::CabinDrawerOut => (0, 600_000),
        Field::SweepLightRing => (50_000, 5_000_000),
        Field::SweepLightLength => (300_000, 8_000_000),
        Field::SweepLightDepth => (300_000, 8_000_000),
        Field::SweepLightFillet => (30_000, 1_000_000),
        Field::SweepLightRun => (500_000, 15_000_000),
        Field::SweepLightSwing => (0, 3_000_000),
        Field::SweepLightDrawnFillet => (0, 1_000_000),
        Field::SweepLightWidth => (20_000, 300_000),
        Field::SweepLightHeight => (20_000, 400_000),
        Field::SweepLightLens => (10_000, 300_000),
        Field::SweepLightDrop => (100_000, 4_000_000),
        Field::SweepLightDropEnd => (100_000, 4_000_000),
        Field::SweepLightSpacing => (300_000, 3_000_000),
        Field::SweepLightLoad => (0, 100_000_000),
        Field::SweepLightEfficacy => (0, 250_000_000),
        Field::SweepLightKelvin => (1_800, 8_000),
        Field::DeskLength => (1_000_000, 3_000_000),
        Field::DeskDepth => (500_000, 1_400_000),
        Field::DeskHeight => (600_000, 900_000),
        Field::DeskScreenSpan => (300_000, 3_000_000),
        Field::DeskScreenHeight => (100_000, 1_000_000),
        Field::DeskPedestal => (250_000, 800_000),
        Field::DeskDrawers => (1, 6),
        Field::CouchRun => (400_000, 6_000_000),
        Field::CouchCushions => (0, 8),
        Field::CouchDepth => (500_000, 1_200_000),
        Field::CouchSeat => (250_000, 600_000),
        Field::CouchBack => (300_000, 1_100_000),
        Field::CouchArm => (200_000, 900_000),
        Field::CouchCushion => (50_000, 350_000),
    }
}

/// When a number is asked for.
pub open spec fn asked_when(f: Field) -> When {
    match f {
        Field::StaircaseHeight => When::Always,
        Field::StaircaseWidth => When::Always,
        Field::StaircaseGoing => When::Always,
        Field::StaircaseRiser => When::Always,
        Field::StaircaseTread => When::Always,
        Field::StaircaseRiserThickness => When::Always,
        Field::StaircaseHandrail => When::StairRails,
        Field::StaircaseLanding => When::UShape,
        Field::StaircaseSplit => When::UShape,
        Field::SpiralHeight => When::Always,
        Field::SpiralWidth => When::Always,
        Field::SpiralRadius => When::Always,
        Field::SpiralTread => When::Always,
        Field::SpiralStepsPerTurn => When::Always,
        Field::SpiralTurns => When::Always,
        Field::SpiralHandrail => When::SpiralRail,
        Field::RampHeight => When::Always,
        Field::RampLength => When::Always,
        Field::RampWidth => When::Always,
        Field::RampThickness => When::Always,
        Field::DoglegLower => When::Always,
        Field::DoglegUpper => When::Always,
        Field::DoglegGoing => When::Always,
        Field::DoglegWidth => When::Always,
        Field::DoglegWell => When::Always,
        Field::DoglegRise => When::Always,
        Field::SpiralCsgSteps => When::Always,
        Field::SpiralCsgTurns => When::Always,
        Field::SpiralCsgHeight => When::Always,
        Field::SpiralCsgRadius => When::Always,
        Field::SpiralCsgHandrail => When::CsgRail,
        Field::SpiralCsgInfill => When::CsgRail,
        Field::DoorWidth => When::Always,
        Field::DoorHeight => When::Always,
        Field::DoorThickness => When::Always,
        Field::DoorDepth => When::Always,
        Field::DoorReveal => When::Always,
        Field::DoorRebate => When::Always,
        Field::DoorSide => When::Always,
        Field::DoorHead => When::Always,
        Field::DoorProjection => When::Always,
        Field::DoorBackset => When::Always,
        Field::DoorHandle => When::Always,
        Field::HelicalRampHeight => When::Always,
        Field::HelicalRampInner => When::Always,
        Field::HelicalRampOuter => When::Always,
        Field::HelicalRampTurns => When::Always,
        Field::HelicalRampSlab => When::Always,
        Field::HelicalRampRail => When::Always,
        Field::HelicalRampRails => When::Always,
        Field::CupboardWidth => When::Always,
        Field::CupboardHeight => When::Always,
        Field::CupboardDepth => When::Always,
        Field::CupboardDrawers => When::Always,
        Field::KitchenLength => When::Always,
        Field::KitchenLegB => When::ReturnB,
        Field::KitchenLegC => When::ReturnC,
        Field::KitchenCabinet => When::Always,
        Field::KitchenCount => When::Always,
        Field::CabinWidth => When::Always,
        Field::CabinHeight => When::Always,
        Field::CabinDepth => When::Always,
        Field::CabinShelves => When::Always,
        Field::CabinLeaves => When::Always,
        Field::CabinDrawers => When::Always,
        Field::CabinOpenPose => When::Always,
        Field::CabinDrawerOut => When::Always,
        Field::SweepLightRing => When::RingPath,
        Field::SweepLightLength => When::RacetrackPath,
        Field::SweepLightDepth => When::RacetrackPath,
        Field::SweepLightFillet => When::RacetrackPath,
        Field::SweepLightRun => When::SCurvePath,
        Field::SweepLightSwing => When::SCurvePath,
        Field::SweepLightDrawnFillet => When::DrawnPath,
        Field::SweepLightWidth => When::Always,
        Field::SweepLightHeight => When::Always,
        Field::SweepLightLens => When::Always,
        Field::SweepLightDrop => When::Always,
        Field::SweepLightDropEnd => When::SCurvePath,
        Field::SweepLightSpacing => When::Always,
        Field::SweepLightLoad => When::Always,
        Field::SweepLightEfficacy => When::Always,
        Field::SweepLightKelvin => When::Always,
        Field::DeskLength => When::Always,
        Field::DeskDepth => When::Always,
        Field::DeskHeight => When::Always,
        Field::DeskScreenSpan => When::Screen,
        Field::DeskScreenHeight => When::Screen,
        Field::DeskPedestal => When::Pedestal,
        Field::DeskDrawers => When::Pedestal,
        Field::CouchRun => When::Always,
        Field::CouchCushions => When::Always,
        Field::CouchDepth => When::Always,
        Field::CouchSeat => When::Always,
        Field::CouchBack => When::Always,
        Field::CouchArm => When::Always,
        Field::CouchCushion => When::Always,
    }
}

/// When a number is asked for.
pub fn field_when(f: Field) -> (r: When)
    ensures
        r == asked_when(f),
{
    match f {
        Field::StaircaseHeight => When::Always,
        Field::StaircaseWidth => When::Always,
        Field::StaircaseGoing => When::Always,
        Field::StaircaseRiser => When::Always,
        Field::StaircaseTread => When::Always,
        Field::StaircaseRiserThickness => When::Always,
        Field::StaircaseHandrail => When::StairRails,
        Field::StaircaseLanding => When::UShape,
        Field::StaircaseSplit => When::UShape,
        Field::SpiralHeight => When::Always,
        Field::SpiralWidth => When::Always,
        Field::SpiralRadius => When::Always,
        Field::SpiralTread => When::Always,
        Field::SpiralStepsPerTurn => When::Always,
        Field::SpiralTurns => When::Always,
        Field::SpiralHandrail => When::SpiralRail,
        Field::RampHeight => When::Always,
        Field::RampLength => When::Always,
        Field::RampWidth => When::Always,
        Field::RampThickness => When::Always,
        Field::DoglegLower => When::Always,
        Field::DoglegUpper => When::Always,
        Field::DoglegGoing => When::Always,
        Field::DoglegWidth => When::Always,
        Field::DoglegWell => When::Always,
        Field::DoglegRise => When::Always,
        Field::SpiralCsgSteps => When::Always,
        Field::SpiralCsgTurns => When::Always,
        Field::SpiralCsgHeight => When::Always,
        Field::SpiralCsgRadius => When::Always,
        Field::SpiralCsgHandrail => When::CsgRail,
        Field::SpiralCsgInfill => When::CsgRail,
        Field::DoorWidth => When::Always,
        Field::DoorHeight => When::Always,
        Field::DoorThickness => When::Always,
        Field::DoorDepth => When::Always,
        Field::DoorReveal => When::Always,
        Field::DoorRebate => When::Always,
        Field::DoorSide => When::Always,
        Field::DoorHead => When::Always,
        Field::DoorProjection => When::Always,
        Field::DoorBackset => When::Always,
        Field::DoorHandle => When::Always,
        Field::HelicalRampHeight => When::Always,
        Field::HelicalRampInner => When::Always,
        Field::HelicalRampOuter => When::Always,
        Field::HelicalRampTurns => When::Always,
        Field::HelicalRampSlab => When::Always,
        Field::HelicalRampRail => When::Always,
        Field::HelicalRampRails => When::Always,
        Field::CupboardWidth => When::Always,
        Field::CupboardHeight => When::Always,
        Field::CupboardDepth => When::Always,
        Field::CupboardDrawers => When::Always,
        Field::KitchenLength => When::Always,
        Field::KitchenLegB => When::ReturnB,
        Field::KitchenLegC => When::ReturnC,
        Field::KitchenCabinet => When::Always,
        Field::KitchenCount => When::Always,
        Field::CabinWidth => When::Always,
        Field::CabinHeight => When::Always,
        Field::CabinDepth => When::Always,
        Field::CabinShelves => When::Always,
        Field::CabinLeaves => When::Always,
        Field::CabinDrawers => When::Always,
        Field::CabinOpenPose => When::Always,
        Field::CabinDrawerOut => When::Always,
        Field::SweepLightRing => When::RingPath,
        Field::SweepLightLength => When::RacetrackPath,
        Field::SweepLightDepth => When::RacetrackPath,
        Field::SweepLightFillet => When::RacetrackPath,
        Field::SweepLightRun => When::SCurvePath,
        Field::SweepLightSwing => When::SCurvePath,
        Field::SweepLightDrawnFillet => When::DrawnPath,
        Field::SweepLightWidth => When::Always,
        Field::SweepLightHeight => When::Always,
        Field::SweepLightLens => When::Always,
        Field::SweepLightDrop => When::Always,
        Field::SweepLightDropEnd => When::SCurvePath,
        Field::SweepLightSpacing => When::Always,
        Field::SweepLightLoad => When::Always,
        Field::SweepLightEfficacy => When::Always,
        Field::SweepLightKelvin => When::Always,
        Field::DeskLength => When::Always,
        Field::DeskDepth => When::Always,
        Field::DeskHeight => When::Always,
        Field::DeskScreenSpan => When::Screen,
        Field::DeskScreenHeight => When::Screen,
        Field::DeskPedestal => When::Pedestal,
        Field::DeskDrawers => When::Pedestal,
        Field::CouchRun => When::Always,
        Field::CouchCushions => When::Always,
        Field::CouchDepth => When::Always,
        Field::CouchSeat => When::Always,
        Field::CouchBack => When::Always,
        Field::CouchArm => When::Always,
        Field::CouchCushion => When::Always,
    }
}

/// Whether what has been chosen asks for more.
pub open spec fn holds_for(w: When, c: Choices) -> bool {
    match w {
        When::Always => true,
        When::StairRails => c.stair_rails,
        When::UShape => c.u_shape,
        When::SpiralRail => c.spiral_rail,
        When::CsgRail => c.csg_rail,
        When::ReturnB => c.kitchen != KitchenShape::Straight,
        When::ReturnC => c.kitchen == KitchenShape::U,
        When::RingPath => c.path == SweepPath::Ring,
        When::RacetrackPath => c.path == SweepPath::Racetrack,
        When::SCurvePath => c.path == SweepPath::SCurve,
        When::DrawnPath => c.path == SweepPath::Custom,
        When::Screen => c.screen,
        When::Pedestal => c.left_drawers || c.right_drawers,
    }
}

fn is_asked(w: When, c: Choices) -> (r: bool)
    ensures
        r == holds_for(w, c),
{
    match w {
        When::Always => true,
        When::StairRails => c.stair_rails,
        When::UShape => c.u_shape,
        When::SpiralRail => c.spiral_rail,
        When::CsgRail => c.csg_rail,
        When::ReturnB => c.kitchen != KitchenShape::Straight,
        When::ReturnC => c.kitchen == KitchenShape::U,
        When::RingPath => c.path == SweepPath::Ring,
        When::RacetrackPath => c.path == SweepPath::Racetrack,
        When::SCurvePath => c.path == SweepPath::SCurve,
        When::DrawnPath => c.path == SweepPath::Custom,
        When::Screen => c.screen,
        When::Pedestal => c.left_drawers || c.right_drawers,
    }
}

/// A number kept within the range of a field.
pub open spec fn in_range(f: Field, v: i64) -> i64 {
    let (lo, hi) = range_of(f);
    if v < lo {
        lo
    } else if v > hi {
        hi
    } else {
        v
    }
}

/// Keeps a number that was typed within the range of its field.
pub fn keep_in_range(f: Field, v: i64) -> (r: i64)
    ensures
        r == in_range(f, v),
{
    let (lo, hi) = field_range(f);
    if v < lo {
        lo
    } else if v > hi {
        hi
    } else {
        v
    }
}

/// No field has an empty range, and what is kept of a number lies in it.
pub proof fn ranges_hold_something(f: Field, v: i64)
    ensures
        range_of(f).0 < range_of(f).1,
        range_of(f).0 <= in_range(f, v) <= range_of(f).1,
        in_range(f, in_range(f, v)) == in_range(f, v),
{
}

impl CadApp {
    /// Whether the open generator asks for a number, with what has been chosen.
    pub fn field_shown(&self, f: Field, c: Choices) -> (r: bool)
        ensures
            r == (tab_of(f) == self@.arch.tab && holds_for(asked_when(f), c)),
    {
        field_tab(f) == self.arch.tab && is_asked(field_when(f), c)
    }
}

/// Why a stair cannot turn: its landing is shallower than the stair is wide.
pub fn landing_error(u_shape: bool, landing: u64, width: u64) -> (r: Option<String>)
    ensures
        opt_view(r) == if u_shape && landing < width {
            Some(
                "landing depth must be ≥ stair width ("@ + hundredths_text(
                    rounded(width as nat, 10_000),
                ) + " m) to turn"@,
            )
        } else {
            None
        },
{
    if u_shape && landing < width {
        Some(
            cat3(
                "landing depth must be ≥ stair width (",
                write_hundredths(round_to(width as u128, 10_000)).as_str(),
                " m) to turn",
            ),
        )
    } else {
        None
    }
}

/// What a plain generated mesh is called in the scene; other generators name their own.
pub open spec fn mesh_name(t: ArchTab, u_shape: bool) -> Option<Seq<char>> {
    match t {
        ArchTab::Staircase => Some(
            if u_shape {
                "U-Stair"@
            } else {
                "Staircase"@
            },
        ),
        ArchTab::Spiral => Some("Spiral Stair"@),
        ArchTab::Ramp => Some("Ramp"@),
        ArchTab::HelicalRamp => Some("Helical Ramp"@),
        _ => None,
    }
}

impl CadApp {
    /// What the mesh that the open generator makes is called in the scene, where it makes a plain
    /// one.
    pub fn arch_mesh_name(&self, u_shape: bool) -> (r: Option<&'static str>)
        ensures
            match r {
                Some(n) => mesh_name(self@.arch.tab, u_shape) == Some(n@),
                None => mesh_name(self@.arch.tab, u_shape) is None,
            },
    {
        match self.arch.tab {
            ArchTab::Staircase => Some(
                if u_shape {
                    "U-Stair"
                } else {
                    "Staircase"
                },
            ),
            ArchTab::Spiral => Some("Spiral Stair"),
            ArchTab::Ramp => Some("Ramp"),
            ArchTab::HelicalRamp => Some("Helical Ramp"),
            _ => None,
        }
    }
}

/// A number in its range is kept as it is, and one outside becomes the nearer end.
pub proof fn numbers_in_range_are_kept(f: Field, v: i64)
    ensures
        range_of(f).0 <= v <= range_of(f).1 ==> in_range(f, v) == v,
        v < range_of(f).0 ==> in_range(f, v) == range_of(f).0,
        v > range_of(f).1 ==> in_range(f, v) == range_of(f).1,
{
}

/// A field that goes with a choice is asked for exactly while the choice is made.
pub proof fn fields_follow_the_choices(c: Choices)
    ensures
        holds_for(When::Always, c),
        holds_for(When::StairRails, c) == c.stair_rails,
        holds_for(When::UShape, c) == c.u_shape,
        holds_for(When::ReturnC, c) ==> holds_for(When::ReturnB, c),
        holds_for(When::ReturnB, c) <==> c.kitchen != KitchenShape::Straight,
        holds_for(When::Pedestal, c) <==> c.left_drawers || c.right_drawers,
        holds_for(When::RingPath, c) || holds_for(When::RacetrackPath, c) || holds_for(
            When::SCurvePath,
            c,
        ) || holds_for(When::DrawnPath, c),
        holds_for(When::RingPath, c) ==> !holds_for(When::RacetrackPath, c) && !holds_for(
            When::SCurvePath,
            c,
        ) && !holds_for(When::DrawnPath, c),
        holds_for(When::RacetrackPath, c) ==> !holds_for(When::SCurvePath, c) && !holds_for(
            When::DrawnPath,
            c,
        ),
        holds_for(When::SCurvePath, c) ==> !holds_for(When::DrawnPath, c),
{
}

} // verus!
