//! The state of the lighting panel: the fixtures, what was calculated for them, and the gestures
//! that move them.
//!
//! Positions are micrometres in the model's space; angles are millionths of a degree.
use vstd::prelude::*;

use crate::copying::{duplicate_all, group_views, opt_views, views, Duplicate};
use crate::table::Table;

verus! {

/// A fixture: where it hangs, how it is turned and tilted, and the photometric profile it uses.
pub struct Luminaire {
    pub id: u32,
    pub x: i64,
    pub y: i64,
    pub z: i64,
    pub turn: i64,
    pub tilt: i64,
    pub profile: String,
}

/// The model of a [`Luminaire`].
#[verifier::ext_equal]
pub struct LuminaireView {
    pub id: u32,
    pub x: i64,
    pub y: i64,
    pub z: i64,
    pub turn: i64,
    pub tilt: i64,
    pub profile: Seq<char>,
}

impl View for Luminaire {
    type V = LuminaireView;

    open spec fn view(&self) -> LuminaireView {
        LuminaireView {
            id: self.id,
            x: self.x,
            y: self.y,
            z: self.z,
            turn: self.turn,
            tilt: self.tilt,
            profile: self.profile@,
        }
    }
}

impl Duplicate for Luminaire {
    fn duplicate(&self) -> (r: Self) {
        Luminaire {
            id: self.id,
            x: self.x,
            y: self.y,
            z: self.z,
            turn: self.turn,
            tilt: self.tilt,
            profile: self.profile.clone(),
        }
    }
}

/// How a calculation was run.
#[derive(Clone, Copy, Debug, PartialEq, Eq, Structural)]
pub enum CalcMode {
    Full,
    Express,
}

/// What a photometric file says of a fitting. Power is in milliwatts, flux in millilumens, sizes
/// in micrometres.
pub struct Profile {
    pub name: String,
    pub manufacturer: String,
    pub catalogue: String,
    pub lamp: String,
    pub watts: u64,
    pub lumens: u64,
    pub length: u64,
    pub width: u64,
    pub height: u64,
}

/// The model of a [`Profile`].
#[verifier::ext_equal]
pub struct ProfileView {
    pub name: Seq<char>,
    pub manufacturer: Seq<char>,
    pub catalogue: Seq<char>,
    pub lamp: Seq<char>,
    pub watts: u64,
    pub lumens: u64,
    pub length: u64,
    pub width: u64,
    pub height: u64,
}

impl View for Profile {
    type V = ProfileView;

    open spec fn view(&self) -> ProfileView {
        ProfileView {
            name: self.name@,
            manufacturer: self.manufacturer@,
            catalogue: self.catalogue@,
            lamp: self.lamp@,
            watts: self.watts,
            lumens: self.lumens,
            length: self.length,
            width: self.width,
            height: self.height,
        }
    }
}

/// A room that was calculated: its name, the fixtures in it, the record of its grids, and whether
/// the grid that the standard asks for holds any value.
pub struct LitRoom {
    pub name: String,
    pub fixtures: Vec<Luminaire>,
    pub record: u64,
    pub has_standard_grid: bool,
}

/// The model of a [`LitRoom`].
#[verifier::ext_equal]
pub struct LitRoomView {
    pub name: Seq<char>,
    pub fixtures: Seq<LuminaireView>,
    pub record: u64,
    pub has_standard_grid: bool,
}

impl View for LitRoom {
    type V = LitRoomView;

    open spec fn view(&self) -> LitRoomView {
        LitRoomView {
            name: self.name@,
            fixtures: views(self.fixtures@),
            record: self.record,
            has_standard_grid: self.has_standard_grid,
        }
    }
}

impl Duplicate for LitRoom {
    fn duplicate(&self) -> (r: Self) {
        LitRoom {
            name: self.name.clone(),
            fixtures: duplicate_all(&self.fixtures),
            record: self.record,
            has_standard_grid: self.has_standard_grid,
        }
    }
}

/// A material of the calculation: its name, and how much light it throws back, in millionths.
pub struct LightMaterial {
    pub name: String,
    pub reflectance: u32,
}

/// The model of a [`LightMaterial`].
#[verifier::ext_equal]
pub struct LightMaterialView {
    pub name: Seq<char>,
    pub reflectance: u32,
}

impl View for LightMaterial {
    type V = LightMaterialView;

    open spec fn view(&self) -> LightMaterialView {
        LightMaterialView { name: self.name@, reflectance: self.reflectance }
    }
}

impl Duplicate for LightMaterial {
    fn duplicate(&self) -> (r: Self) {
        LightMaterial { name: self.name.clone(), reflectance: self.reflectance }
    }
}

/// The state of the lighting panel.
///
/// `undo_pending` holds the fixtures as they were before an edit that the panel has made and the
/// undo history has not taken yet. `symbol_of` maps a fixture to the handle of the block that
/// stands for it on the plan. `surfaces` and `last_timings` are the records of what the last
/// calculation found on the surfaces and of how long its parts took. `results_fingerprint` names the
/// scene that the results belong to; `stale_checked` and `calc_started` are in milliseconds. The
/// maintenance factor is in millionths.
pub struct LightState {
    pub luminaires: Vec<Luminaire>,
    pub selected: Vec<u32>,
    pub drag: Option<u32>,
    pub hover: Option<u32>,
    pub undo_pending: Option<Vec<Luminaire>>,
    pub symbol_of: Table<u64>,
    pub drag_symbols: Vec<(u32, usize)>,
    pub aim_pick: Option<u32>,
    pub plane_height: i64,
    pub eye_height: i64,
    pub room_height: i64,
    pub maintenance: u32,
    pub materials: Vec<LightMaterial>,
    pub last_msg: String,
    pub rooms: Vec<LitRoom>,
    pub surfaces: Vec<u64>,
    pub last_timings: Vec<u64>,
    pub has_grid: bool,
    pub has_plane: bool,
    pub show_overlay: bool,
    pub profiles: Vec<Profile>,
    pub results_fingerprint: Option<u64>,
    pub results_stale: bool,
    pub results_mode: Option<CalcMode>,
    pub stale_checked: Option<u64>,
    pub calc_running: bool,
    pub calc_selected: Option<usize>,
    pub calc_started: Option<u64>,
    pub lib_folder: String,
    pub lib_scanned: Vec<String>,
}

/// The model of a [`LightState`].
pub struct LightView {
    pub luminaires: Seq<LuminaireView>,
    pub selected: Seq<u32>,
    pub drag: Option<u32>,
    pub hover: Option<u32>,
    pub undo_pending: Option<Seq<LuminaireView>>,
    pub symbol_of: Map<u64, u64>,
    pub drag_symbols: Seq<(u32, usize)>,
    pub aim_pick: Option<u32>,
    pub plane_height: i64,
    pub eye_height: i64,
    pub room_height: i64,
    pub maintenance: u32,
    pub materials: Seq<LightMaterialView>,
    pub last_msg: Seq<char>,
    pub rooms: Seq<LitRoomView>,
    pub surfaces: Seq<u64>,
    pub last_timings: Seq<u64>,
    pub has_grid: bool,
    pub has_plane: bool,
    pub show_overlay: bool,
    pub profiles: Seq<ProfileView>,
    pub results_fingerprint: Option<u64>,
    pub results_stale: bool,
    pub results_mode: Option<CalcMode>,
    pub stale_checked: Option<u64>,
    pub calc_running: bool,
    pub calc_selected: Option<usize>,
    pub calc_started: Option<u64>,
    pub lib_folder: Seq<char>,
    pub lib_scanned: Seq<Seq<char>>,
}

impl View for LightState {
    type V = LightView;

    open spec fn view(&self) -> LightView {
        LightView {
            luminaires: views(self.luminaires@),
            selected: self.selected@,
            drag: self.drag,
            hover: self.hover,
            undo_pending: opt_views(self.undo_pending),
            symbol_of: self.symbol_of@,
            drag_symbols: self.drag_symbols@,
            aim_pick: self.aim_pick,
            plane_height: self.plane_height,
            eye_height: self.eye_height,
            room_height: self.room_height,
            maintenance: self.maintenance,
            materials: views(self.materials@),
            last_msg: self.last_msg@,
            rooms: views(self.rooms@),
            surfaces: self.surfaces@,
            last_timings: self.last_timings@,
            has_grid: self.has_grid,
            has_plane: self.has_plane,
            show_overlay: self.show_overlay,
            profiles: views(self.profiles@),
            results_fingerprint: self.results_fingerprint,
            results_stale: self.results_stale,
            results_mode: self.results_mode,
            stale_checked: self.stale_checked,
            calc_running: self.calc_running,
            calc_selected: self.calc_selected,
            calc_started: self.calc_started,
            lib_folder: self.lib_folder@,
            lib_scanned: views(self.lib_scanned@),
        }
    }
}

impl LightView {
    /// The lighting panel as the application starts with it.
    pub open spec fn fresh() -> LightView {
        LightView {
            luminaires: Seq::empty(),
            selected: Seq::empty(),
            drag: None,
            hover: None,
            undo_pending: None,
            symbol_of: Map::empty(),
            drag_symbols: Seq::empty(),
            aim_pick: None,
            plane_height: 850_000,
            eye_height: 0,
            room_height: 0,
            maintenance: 0,
            materials: Seq::empty(),
            last_msg: Seq::empty(),
            rooms: Seq::empty(),
            surfaces: Seq::empty(),
            last_timings: Seq::empty(),
            has_grid: false,
            has_plane: false,
            show_overlay: false,
            profiles: Seq::empty(),
            results_fingerprint: None,
            results_stale: false,
            results_mode: None,
            stale_checked: None,
            calc_running: false,
            calc_selected: None,
            calc_started: None,
            lib_folder: Seq::empty(),
            lib_scanned: Seq::empty(),
        }
    }
}

impl LightState {
    /// The lighting panel as the application starts with it.
    pub fn new() -> (r: LightState)
        ensures
            r@ == LightView::fresh(),
    {
        broadcast use group_views;

        LightState {
            luminaires: Vec::new(),
            selected: Vec::new(),
            drag: None,
            hover: None,
            undo_pending: None,
            symbol_of: Table::new(),
            drag_symbols: Vec::new(),
            aim_pick: None,
            plane_height: 850_000,
            eye_height: 0,
            room_height: 0,
            maintenance: 0,
            materials: Vec::new(),
            last_msg: String::new(),
            rooms: Vec::new(),
            surfaces: Vec::new(),
            last_timings: Vec::new(),
            has_grid: false,
            has_plane: false,
            show_overlay: false,
            profiles: Vec::new(),
            results_fingerprint: None,
            results_stale: false,
            results_mode: None,
            stale_checked: None,
            calc_running: false,
            calc_selected: None,
            calc_started: None,
            lib_folder: String::new(),
            lib_scanned: Vec::new(),
        }
    }
}

} // verus!
