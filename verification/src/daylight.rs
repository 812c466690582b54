//! The numbers of the daylight window: what each is called, its range, and when it can be set.
//!
//! Numbers are millionths of their unit; months, days and samples are whole.
use vstd::prelude::*;

use crate::text::{cat2, dec, dec_text_wide};
use crate::units::{round_to, rounded};

verus! {

/// A number of the daylight window.
#[derive(Clone, Copy, Debug, PartialEq, Eq, Structural)]
pub enum SunField {
    SunDisc,
    HazeDensity,
    HazeBase,
    HazeFalloff,
    Exposure,
    Look,
    Bloom,
    BloomThreshold,
    StillSamples,
    Turbidity,
    Reflections,
    EnvironmentStrength,
    EnvironmentRotation,
    OcclusionRadius,
    OcclusionStrength,
    BounceRadius,
    BounceStrength,
    GlassIor,
    GlassThickness,
    MirrorReach,
    MirrorThickness,
    NorthOffset,
    Latitude,
    Longitude,
    UtcOffset,
    Month,
    Day,
    Hour,
    Brightness,
}

/// What has to be on for a number to be set.
#[derive(Clone, Copy, Debug, PartialEq, Eq, Structural)]
pub enum Needs {
    Always,
    Sun,
    Shadows,
    Haze,
    Environment,
    Occlusion,
    Bounce,
    Glass,
    Mirror,
}

/// What is on in the daylight window.
#[derive(Clone, Copy, Debug, PartialEq, Eq, Structural)]
pub struct Switches {
    pub sun: bool,
    pub shadows: bool,
    pub haze: bool,
    pub environment: bool,
    pub occlusion: bool,
    pub bounce: bool,
    pub glass: bool,
    pub mirror: bool,
}

/// What a number is called.
pub open spec fn sun_label_of(f: SunField) -> Seq<char> {
    match f {
        SunField::SunDisc => "Sun disc"@,
        SunField::HazeDensity => "Density"@,
        SunField::HazeBase => "Thins above"@,
        SunField::HazeFalloff => "Thinning"@,
        SunField::Exposure => "Exposure"@,
        SunField::Look => "Look"@,
        SunField::Bloom => "Bloom"@,
        SunField::BloomThreshold => "above"@,
        SunField::StillSamples => "Refine still frame"@,
        SunField::Turbidity => "Turbidity"@,
        SunField::Reflections => "Reflections"@,
        SunField::EnvironmentStrength => "Strength"@,
        SunField::EnvironmentRotation => "Rotation"@,
        SunField::OcclusionRadius => "radius"@,
        SunField::OcclusionStrength => "strength"@,
        SunField::BounceRadius => "radius"@,
        SunField::BounceStrength => "strength"@,
        SunField::GlassIor => "IOR"@,
        SunField::GlassThickness => "thickness"@,
        SunField::MirrorReach => "reach"@,
        SunField::MirrorThickness => "thickness"@,
        SunField::NorthOffset => "building faces N+"@,
        SunField::Latitude => "lat"@,
        SunField::Longitude => "lon"@,
        SunField::UtcOffset => "UTC"@,
        SunField::Month => "mo"@,
        SunField::Day => "day"@,
        SunField::Hour => "hour"@,
        SunField::Brightness => "brightness"@,
    }
}

/// What a number is called.
pub fn sun_label(f: SunField) -> (r: &'static str)
    ensures
        r@ == sun_label_of(f),
{
    match f {
        SunField::SunDisc => "Sun disc",
        SunField::HazeDensity => "Density",
        SunField::HazeBase => "Thins above",
        SunField::HazeFalloff => "Thinning",
        SunField::Exposure => "Exposure",
        SunField::Look => "Look",
        SunField::Bloom => "Bloom",
        SunField::BloomThreshold => "above",
        SunField::StillSamples => "Refine still frame",
        SunField::Turbidity => "Turbidity",
        SunField::Reflections => "Reflections",
        SunField::EnvironmentStrength => "Strength",
        SunField::EnvironmentRotation => "Rotation",
        SunField::OcclusionRadius => "radius",
        SunField::OcclusionStrength => "strength",
        SunField::BounceRadius => "radius",
        SunField::BounceStrength => "strength",
        SunField::GlassIor => "IOR",
        SunField::GlassThickness => "thickness",
        SunField::MirrorReach => "reach",
        SunField::MirrorThickness => "thickness",
        SunField::NorthOffset => "building faces N+",
        SunField::Latitude => "lat",
        SunField::Longitude => "lon",
        SunField::UtcOffset => "UTC",
        SunField::Month => "mo",
        SunField::Day => "day",
        SunField::Hour => "hour",
        SunField::Brightness => "brightness",
    }
}

/// The least and the greatest that a number can be.
pub open spec fn sun_range_of(f: SunField) -> (int, int) {
    match f {
        SunField::SunDisc => (0, 8_000_000),
        SunField::HazeDensity => (0, 20_000),
        SunField::HazeBase => (-100_000_000_000, 100_000_000_000),
        SunField::HazeFalloff => (0, 200_000),
        SunField::Exposure => (-8_000_000, 8_000_000),
        SunField::Look => (-1_000_000, 1_000_000),
        SunField::Bloom => (0, 500_000),
        SunField::BloomThreshold => (50_000, 8_000_000),
        SunField::StillSamples => (0, 64),
        SunField::Turbidity => (1_800_000, 10_000_000),
        SunField::Reflections => (0, 1_000_000),
        SunField::EnvironmentStrength => (0, 4_000_000),
        SunField::EnvironmentRotation => (-180_000_000, 180_000_000),
        SunField::OcclusionRadius => (50_000, 3_000_000),
        SunField::OcclusionStrength => (0, 2_000_000),
        SunField::BounceRadius => (100_000, 8_000_000),
        SunField::BounceStrength => (0, 4_000_000),
        SunField::GlassIor => (1_000_000, 2_500_000),
        SunField::GlassThickness => (0, 500_000),
        SunField::MirrorReach => (1_000_000, 200_000_000),
        SunField::MirrorThickness => (50_000, 5_000_000),
        SunField::NorthOffset => (-180_000_000, 180_000_000),
        SunField::Latitude => (-90_000_000, 90_000_000),
        SunField::Longitude => (-180_000_000, 180_000_000),
        SunField::UtcOffset => (-12_000_000, 14_000_000),
        SunField::Month => (1, 12),
        SunField::Day => (1, 31),
        SunField::Hour => (0, 24_000_000),
        SunField::Brightness => (200_000, 2_000_000),
    }
}

/// The least and the greatest that a number can be.
pub fn sun_range(f: SunField) -> (r: (i64, i64))
    ensures
        r.0 == sun_range_of(f).0,
        r.1 == sun_range_of(f).1,
{
    match f {
        SunField::SunDisc => (0, 8_000_000),
        SunField::HazeDensity => (0, 20_000),
        SunField::HazeBase => (-100_000_000_000, 100_000_000_000),
        SunField::HazeFalloff => (0, 200_000),
        SunField::Exposure => (-8_000_000, 8_000_000),
        SunField::Look => (-1_000_000, 1_000_000),
        SunField::Bloom => (0, 500_000),
        SunField::BloomThreshold => (50_000, 8_000_000),
        SunField::StillSamples => (0, 64),
        SunField::Turbidity => (1_800_000, 10_000_000),
        SunField::Reflections => (0, 1_000_000),
        SunField::EnvironmentStrength => (0, 4_000_000),
        SunField::EnvironmentRotation => (-180_000_000, 180_000_000),
        SunField::OcclusionRadius => (50_000, 3_000_000),
        SunField::OcclusionStrength => (0, 2_000_000),
        SunField::BounceRadius => (100_000, 8_000_000),
        SunField::BounceStrength => (0, 4_000_000),
        SunField::GlassIor => (1_000_000, 2_500_000),
        SunField::GlassThickness => (0, 500_000),
        SunField::MirrorReach => (1_000_000, 200_000_000),
        SunField::MirrorThickness => (50_000, 5_000_000),
        SunField::NorthOffset => (-180_000_000, 180_000_000),
        SunField::Latitude => (-90_000_000, 90_000_000),
        SunField::Longitude => (-180_000_000, 180_000_000),
        SunField::UtcOffset => (-12_000_000, 14_000_000),
        SunField::Month => (1, 12),
        SunField::Day => (1, 31),
        SunField::Hour => (0, 24_000_000),
        SunField::Brightness => (200_000, 2_000_000),
    }
}

/// What has to be on for a number to be set.
pub open spec fn sun_needs(f: SunField) -> Needs {
    match f {
        SunField::SunDisc => Needs::Shadows,
        SunField::HazeDensity => Needs::Haze,
        SunField::HazeBase => Needs::Haze,
        SunField::HazeFalloff => Needs::Haze,
        SunField::Exposure => Needs::Always,
        SunField::Look => Needs::Always,
        SunField::Bloom => Needs::Always,
        SunField::BloomThreshold => Needs::Always,
        SunField::StillSamples => Needs::Always,
        SunField::Turbidity => Needs::Sun,
        SunField::Reflections => Needs::Sun,
        SunField::EnvironmentStrength => Needs::Environment,
        SunField::EnvironmentRotation => Needs::Environment,
        SunField::OcclusionRadius => Needs::Occlusion,
        SunField::OcclusionStrength => Needs::Occlusion,
        SunField::BounceRadius => Needs::Bounce,
        SunField::BounceStrength => Needs::Bounce,
        SunField::GlassIor => Needs::Glass,
        SunField::GlassThickness => Needs::Glass,
        SunField::MirrorReach => Needs::Mirror,
        SunField::MirrorThickness => Needs::Mirror,
        SunField::NorthOffset => Needs::Always,
        SunField::Latitude => Needs::Always,
        SunField::Longitude => Needs::Always,
        SunField::UtcOffset => Needs::Always,
        SunField::Month => Needs::Always,
        SunField::Day => Needs::Always,
        SunField::Hour => Needs::Always,
        SunField::Brightness => Needs::Always,
    }
}

/// What has to be on for a number to be set.
pub fn field_needs(f: SunField) -> (r: Needs)
    ensures
        r == sun_needs(f),
{
    match f {
        SunField::SunDisc => Needs::Shadows,
        SunField::HazeDensity => Needs::Haze,
        SunField::HazeBase => Needs::Haze,
        SunField::HazeFalloff => Needs::Haze,
        SunField::Exposure => Needs::Always,
        SunField::Look => Needs::Always,
        SunField::Bloom => Needs::Always,
        SunField::BloomThreshold => Needs::Always,
        SunField::StillSamples => Needs::Always,
        SunField::Turbidity => Needs::Sun,
        SunField::Reflections => Needs::Sun,
        SunField::EnvironmentStrength => Needs::Environment,
        SunField::EnvironmentRotation => Needs::Environment,
        SunField::OcclusionRadius => Needs::Occlusion,
        SunField::OcclusionStrength => Needs::Occlusion,
        SunField::BounceRadius => Needs::Bounce,
        SunField::BounceStrength => Needs::Bounce,
        SunField::GlassIor => Needs::Glass,
        SunField::GlassThickness => Needs::Glass,
        SunField::MirrorReach => Needs::Mirror,
        SunField::MirrorThickness => Needs::Mirror,
        SunField::NorthOffset => Needs::Always,
        SunField::Latitude => Needs::Always,
        SunField::Longitude => Needs::Always,
        SunField::UtcOffset => Needs::Always,
        SunField::Month => Needs::Always,
        SunField::Day => Needs::Always,
        SunField::Hour => Needs::Always,
        SunField::Brightness => Needs::Always,
    }
}

/// Whether a number can be set. Shadows need the sun.
pub open spec fn can_set(f: SunField, s: Switches) -> bool {
    match sun_needs(f) {
        Needs::Always => true,
        Needs::Sun => s.sun,
        Needs::Shadows => s.sun && s.shadows,
        Needs::Haze => s.haze,
        Needs::Environment => s.environment,
        Needs::Occlusion => s.occlusion,
        Needs::Bounce => s.bounce,
        Needs::Glass => s.glass,
        Needs::Mirror => s.mirror,
    }
}

/// Whether a number can be set, with what is on.
pub fn sun_settable(f: SunField, s: Switches) -> (r: bool)
    ensures
        r == can_set(f, s),
{
    match field_needs(f) {
        Needs::Always => true,
        Needs::Sun => s.sun,
        Needs::Shadows => s.sun && s.shadows,
        Needs::Haze => s.haze,
        Needs::Environment => s.environment,
        Needs::Occlusion => s.occlusion,
        Needs::Bounce => s.bounce,
        Needs::Glass => s.glass,
        Needs::Mirror => s.mirror,
    }
}

/// A number kept within its range.
pub open spec fn sun_in_range(f: SunField, v: int) -> int {
    let (lo, hi) = sun_range_of(f);
    if v < lo {
        lo
    } else if v > hi {
        hi
    } else {
        v
    }
}

/// Keeps a number within its range.
pub fn sun_keep(f: SunField, v: i64) -> (r: i64)
    ensures
        r == sun_in_range(f, v as int),
{
    let (lo, hi) = sun_range(f);
    if v < lo {
        lo
    } else if v > hi {
        hi
    } else {
        v
    }
}

/// Metres after which half is gone, at a loss in millionths for each metre.
pub open spec fn half_metres(loss: i64) -> Seq<char> {
    dec(rounded(693_000, loss as nat)) + " m"@
}

/// What is shown of the density of haze: how far half of the light gets.
pub open spec fn haze_density_shown(loss: i64) -> Seq<char> {
    if loss <= 1 {
        "off"@
    } else {
        half_metres(loss)
    }
}

/// What is shown of how haze thins with height.
pub open spec fn haze_falloff_shown(loss: i64) -> Seq<char> {
    if loss <= 1 {
        "never"@
    } else {
        "½ per "@ + half_metres(loss)
    }
}

fn write_half_metres(loss: i64) -> (r: String)
    requires
        loss > 1,
    ensures
        r@ == half_metres(loss),
{
    cat2(dec_text_wide(round_to(693_000, loss as u128)).as_str(), " m")
}

/// What is shown of the density of haze.
pub fn haze_density_text(loss: i64) -> (r: String)
    ensures
        r@ == haze_density_shown(loss),
{
    if loss <= 1 {
        String::from_str("off")
    } else {
        write_half_metres(loss)
    }
}

/// What is shown of how haze thins with height.
pub fn haze_falloff_text(loss: i64) -> (r: String)
    ensures
        r@ == haze_falloff_shown(loss),
{
    if loss <= 1 {
        String::from_str("never")
    } else {
        cat2("½ per ", write_half_metres(loss).as_str())
    }
}

/// What is kept of a number lies in its range, and is kept as it is from then on.
pub proof fn sun_ranges_hold(f: SunField, v: int)
    ensures
        sun_range_of(f).0 <= sun_in_range(f, v) <= sun_range_of(f).1,
        sun_in_range(f, sun_in_range(f, v)) == sun_in_range(f, v),
{
}

/// A number in its range is kept as it is, and one outside becomes the nearer end.
pub proof fn sun_numbers_in_range_are_kept(f: SunField, v: int)
    ensures
        sun_range_of(f).0 < sun_range_of(f).1,
        sun_range_of(f).0 <= v <= sun_range_of(f).1 ==> sun_in_range(f, v) == v,
        v < sun_range_of(f).0 ==> sun_in_range(f, v) == sun_range_of(f).0,
        v > sun_range_of(f).1 ==> sun_in_range(f, v) == sun_range_of(f).1,
{
}

/// With everything switched on every number can be set, and one that goes with a switch cannot while
/// that is off.
pub proof fn switches_rule_the_fields(f: SunField, s: Switches)
    ensures
        s.sun && s.shadows && s.haze && s.environment && s.occlusion && s.bounce && s.glass && s.mirror
            ==> can_set(f, s),
        can_set(SunField::SunDisc, s) <==> s.sun && s.shadows,
        can_set(SunField::HazeDensity, s) == s.haze,
        can_set(SunField::Turbidity, s) == s.sun,
        can_set(SunField::EnvironmentStrength, s) == s.environment,
        can_set(SunField::EnvironmentRotation, s) == s.environment,
        can_set(SunField::OcclusionRadius, s) == s.occlusion,
        can_set(SunField::BounceStrength, s) == s.bounce,
        can_set(SunField::GlassIor, s) == s.glass,
        can_set(SunField::MirrorReach, s) == s.mirror,
        can_set(SunField::Latitude, s) && can_set(SunField::Longitude, s) && can_set(
            SunField::Hour,
            s,
        ) && can_set(SunField::Day, s) && can_set(SunField::Month, s),
{
}

} // verus!
