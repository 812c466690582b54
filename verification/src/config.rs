//! The project data that is kept with a drawing: the 3D model, the fixtures, the calculator's
//! variables, and the results of the last calculation.
use vstd::prelude::*;

use crate::copying::{opt_views, views, Duplicate};
use crate::doc::Pt;
use crate::factory::{Asset, AssetView, FactoryData, FactoryDataView, Texture, TextureView};
use crate::light::{LitRoom, LitRoomView, Luminaire, LuminaireView};

verus! {

/// A sketch as it is kept in a file: the drawing is the native format's bytes in base 64.
pub struct SketchRec {
    pub id: u32,
    pub name: String,
    pub rsm_b64: String,
}

/// The model of a [`SketchRec`].
#[verifier::ext_equal]
pub struct SketchRecView {
    pub id: u32,
    pub name: Seq<char>,
    pub rsm_b64: Seq<char>,
}

impl View for SketchRec {
    type V = SketchRecView;

    open spec fn view(&self) -> SketchRecView {
        SketchRecView { id: self.id, name: self.name@, rsm_b64: self.rsm_b64@ }
    }
}

/// The 3D model as it is kept in a file. The meshes of the furniture are kept in it, or left for
/// the writer to add.
pub struct FactoryRec {
    pub features: Vec<u64>,
    pub walls: Vec<u64>,
    pub furniture: usize,
    pub sketches: Vec<SketchRec>,
    pub with_geometry: bool,
}

/// The model of a [`FactoryRec`].
#[verifier::ext_equal]
pub struct FactoryRecView {
    pub features: Seq<u64>,
    pub walls: Seq<u64>,
    pub furniture: usize,
    pub sketches: Seq<SketchRecView>,
    pub with_geometry: bool,
}

impl View for FactoryRec {
    type V = FactoryRecView;

    open spec fn view(&self) -> FactoryRecView {
        FactoryRecView {
            features: self.features@,
            walls: self.walls@,
            furniture: self.furniture,
            sketches: views(self.sketches@),
            with_geometry: self.with_geometry,
        }
    }
}

/// A pair of texts.
pub struct Pair {
    pub key: String,
    pub value: String,
}

/// The model of a [`Pair`].
#[verifier::ext_equal]
pub struct PairView {
    pub key: Seq<char>,
    pub value: Seq<char>,
}

impl View for Pair {
    type V = PairView;

    open spec fn view(&self) -> PairView {
        PairView { key: self.key@, value: self.value@ }
    }
}

impl Duplicate for Pair {
    fn duplicate(&self) -> (r: Self) {
        Pair { key: self.key.clone(), value: self.value.clone() }
    }
}

/// A room as older files kept it: an outline on the plan, in micrometres.
pub struct PlanRoomRec {
    pub name: String,
    pub footprint: Vec<Pt>,
}

/// The model of a [`PlanRoomRec`].
#[verifier::ext_equal]
pub struct PlanRoomRecView {
    pub name: Seq<char>,
    pub footprint: Seq<Pt>,
}

impl View for PlanRoomRec {
    type V = PlanRoomRecView;

    open spec fn view(&self) -> PlanRoomRecView {
        PlanRoomRecView { name: self.name@, footprint: self.footprint@ }
    }
}

/// A layer that older files took for a room, with the room's height in micrometres.
pub struct LayerRoomRec {
    pub layer: String,
    pub height: i64,
}

/// The model of a [`LayerRoomRec`].
#[verifier::ext_equal]
pub struct LayerRoomRecView {
    pub layer: Seq<char>,
    pub height: i64,
}

impl View for LayerRoomRec {
    type V = LayerRoomRecView;

    open spec fn view(&self) -> LayerRoomRecView {
        LayerRoomRecView { layer: self.layer@, height: self.height }
    }
}

/// The project data of a drawing.
pub struct SimluxConfig {
    pub vars: Vec<Pair>,
    pub wall_centerline: Vec<Pair>,
    pub luminaires: Vec<Luminaire>,
    pub plan_rooms: Vec<PlanRoomRec>,
    pub layers_3d: Vec<LayerRoomRec>,
    pub factory: FactoryRec,
}

/// The model of a [`SimluxConfig`].
#[verifier::ext_equal]
pub struct ConfigView {
    pub vars: Seq<PairView>,
    pub wall_centerline: Seq<PairView>,
    pub luminaires: Seq<LuminaireView>,
    pub plan_rooms: Seq<PlanRoomRecView>,
    pub layers_3d: Seq<LayerRoomRecView>,
    pub factory: FactoryRecView,
}

impl View for SimluxConfig {
    type V = ConfigView;

    open spec fn view(&self) -> ConfigView {
        ConfigView {
            vars: views(self.vars@),
            wall_centerline: views(self.wall_centerline@),
            luminaires: views(self.luminaires@),
            plan_rooms: views(self.plan_rooms@),
            layers_3d: views(self.layers_3d@),
            factory: self.factory@,
        }
    }
}

/// Project data that has been read and decoded: the record, the model and the assets it names,
/// the materials where the file carries them, and how many of its walls were of no use.
pub struct Project {
    pub cfg: SimluxConfig,
    pub data: FactoryData,
    pub furniture_lib: Vec<Asset>,
    pub textures: Option<Vec<Texture>>,
    pub dropped: usize,
}

/// The model of a [`Project`].
#[verifier::ext_equal]
pub struct ProjectView {
    pub cfg: ConfigView,
    pub data: FactoryDataView,
    pub furniture_lib: Seq<AssetView>,
    pub textures: Option<Seq<TextureView>>,
    pub dropped: usize,
}

impl View for Project {
    type V = ProjectView;

    open spec fn view(&self) -> ProjectView {
        ProjectView {
            cfg: self.cfg@,
            data: self.data@,
            furniture_lib: views(self.furniture_lib@),
            textures: opt_views(self.textures),
            dropped: self.dropped,
        }
    }
}

/// The results of a calculation as they are kept: the rooms, the records of its surfaces and of how
/// long its parts took, the scene they belong to, the build that computed them, and whether it was an
/// express calculation.
pub struct StoredResults {
    pub rooms: Vec<LitRoom>,
    pub surfaces: Vec<u64>,
    pub timings: Vec<u64>,
    pub fingerprint: u64,
    pub build: String,
    pub express: bool,
}

/// The model of a [`StoredResults`].
#[verifier::ext_equal]
pub struct StoredView {
    pub rooms: Seq<LitRoomView>,
    pub surfaces: Seq<u64>,
    pub timings: Seq<u64>,
    pub fingerprint: u64,
    pub build: Seq<char>,
    pub express: bool,
}

impl View for StoredResults {
    type V = StoredView;

    open spec fn view(&self) -> StoredView {
        StoredView {
            rooms: views(self.rooms@),
            surfaces: self.surfaces@,
            timings: self.timings@,
            fingerprint: self.fingerprint,
            build: self.build@,
            express: self.express,
        }
    }
}

} // verus!
