//! The 3D side of a project: its solids, sketches, walls, furniture, materials and rooms.
//!
//! Fractions (colour channels, roughness, opacity and the like) are whole numbers of millionths.
use vstd::prelude::*;

use crate::copying::{copy_all, duplicate_all, group_views, opt_view, views, Duplicate};
use crate::doc::{DocView, Document, Pt, UnitSource, Units};
use crate::table::Table;

verus! {

/// A colour whose channels are millionths.
#[derive(Clone, Copy, Debug, PartialEq, Eq, Structural)]
pub struct Rgb {
    pub r: u32,
    pub g: u32,
    pub b: u32,
}

/// A colour pattern that is evaluated where it is drawn: which pattern, the record of its
/// parameters, and the colour it averages to.
#[derive(Clone, Copy, Debug, PartialEq, Eq, Structural)]
pub struct ProcDef {
    pub pattern: u32,
    pub params: u64,
    pub avg: Rgb,
}

/// The pattern that is one colour everywhere.
pub const PATTERN_SOLID: u32 = 0;

/// How an image lies on a surface, and how much of what is behind it shows.
#[derive(Clone, Copy, Debug, PartialEq, Eq, Structural)]
pub struct Xform {
    pub scale: i64,
    pub offset_u: i64,
    pub offset_v: i64,
    pub rot: i64,
    pub opacity: u32,
    pub reflect: u32,
}

/// What lies over a material: a varnish and its roughness, and the fuzz of a fabric and its tint.
#[derive(Clone, Copy, Debug, PartialEq, Eq, Structural)]
pub struct Coat {
    pub clearcoat: u32,
    pub rough: u32,
    pub sheen: u32,
    pub tint: Rgb,
}

/// The numbers of a material, other than its pixels, name and placement.
#[derive(Clone, Copy, Debug, PartialEq, Eq, Structural)]
pub struct Finish {
    pub avg: Rgb,
    pub proc: Option<ProcDef>,
    pub roughness: u32,
    pub metallic: u32,
    pub ior: u32,
    pub emission: Rgb,
    pub emission_strength: u32,
    pub normal_map: Option<usize>,
    pub rough_map: Option<usize>,
    pub metal_map: Option<usize>,
    pub ao_map: Option<usize>,
    pub triplanar: bool,
    pub tiles_per_m: u32,
    pub coat: Coat,
    pub png_cached: bool,
}

/// A material: its name, its pixels (four bytes each), its placement and its finish.
pub struct Texture {
    pub name: String,
    pub w: u32,
    pub h: u32,
    pub rgba: Vec<u8>,
    pub xform: Xform,
    pub finish: Finish,
}

/// The model of a [`Texture`].
#[verifier::ext_equal]
pub struct TextureView {
    pub name: Seq<char>,
    pub w: u32,
    pub h: u32,
    pub rgba: Seq<u8>,
    pub xform: Xform,
    pub finish: Finish,
}

impl View for Texture {
    type V = TextureView;

    open spec fn view(&self) -> TextureView {
        TextureView {
            name: self.name@,
            w: self.w,
            h: self.h,
            rgba: self.rgba@,
            xform: self.xform,
            finish: self.finish,
        }
    }
}

impl Duplicate for Texture {
    fn duplicate(&self) -> (r: Self) {
        Texture {
            name: self.name.clone(),
            w: self.w,
            h: self.h,
            rgba: copy_all(&self.rgba),
            xform: self.xform,
            finish: self.finish,
        }
    }
}

/// The placement that a new material has.
pub open spec fn plain_xform() -> Xform {
    Xform {
        scale: 1_000_000,
        offset_u: 0,
        offset_v: 0,
        rot: 0,
        opacity: 1_000_000,
        reflect: 0,
    }
}

/// The finish that a new material of a given average colour and pattern has.
pub open spec fn plain_finish(avg: Rgb, proc: Option<ProcDef>) -> Finish {
    Finish {
        avg: avg,
        proc: proc,
        roughness: 500_000,
        metallic: 0,
        ior: 1_450_000,
        emission: (Rgb { r: 0, g: 0, b: 0 }),
        emission_strength: 0,
        normal_map: None,
        rough_map: None,
        metal_map: None,
        ao_map: None,
        triplanar: false,
        tiles_per_m: 1_000_000,
        coat: plain_coat(),
        png_cached: false,
    }
}

/// The coat that a new material has: none.
pub open spec fn plain_coat() -> Coat {
    Coat {
        clearcoat: 0,
        rough: 100_000,
        sheen: 0,
        tint: (Rgb { r: 1_000_000, g: 1_000_000, b: 1_000_000 }),
    }
}

/// One channel of a colour as a byte: its fraction of 255, cut off, and at most 255.
pub open spec fn channel_byte(c: u32) -> u8 {
    if c >= 1_000_000 {
        255
    } else {
        (c * 255 / 1_000_000) as u8
    }
}

/// One channel of a colour as a byte.
pub fn to_byte(c: u32) -> (r: u8)
    ensures
        r == channel_byte(c),
{
    if c >= 1_000_000 {
        255
    } else {
        let k: u64 = c as u64 * 255 / 1_000_000;
        k as u8
    }
}

/// The one pixel of a plain swatch, opaque.
pub open spec fn swatch(c: Rgb) -> Seq<u8> {
    seq![channel_byte(c.r), channel_byte(c.g), channel_byte(c.b), 255u8]
}

/// The one pixel of a plain swatch.
pub fn swatch_pixel(c: Rgb) -> (r: Vec<u8>)
    ensures
        r@ == swatch(c),
{
    let mut v: Vec<u8> = Vec::new();
    v.push(to_byte(c.r));
    v.push(to_byte(c.g));
    v.push(to_byte(c.b));
    v.push(255);
    assert(v@ =~= swatch(c));
    v
}

/// A new material that shows a pattern.
pub open spec fn pattern_texture(name: Seq<char>, def: ProcDef) -> TextureView {
    TextureView {
        name: name,
        w: 1,
        h: 1,
        rgba: swatch(def.avg),
        xform: plain_xform(),
        finish: plain_finish(def.avg, Some(def)),
    }
}

/// A new material that shows pixels of a given average colour.
pub open spec fn image_texture(name: Seq<char>, w: u32, h: u32, rgba: Seq<u8>, avg: Rgb) -> TextureView {
    TextureView {
        name: name,
        w: w,
        h: h,
        rgba: rgba,
        xform: plain_xform(),
        finish: plain_finish(avg, None),
    }
}

/// Makes a material that shows a pattern.
pub fn new_pattern_texture(name: String, def: ProcDef) -> (r: Texture)
    ensures
        r@ == pattern_texture(name@, def),
{
    Texture {
        name: name,
        w: 1,
        h: 1,
        rgba: swatch_pixel(def.avg),
        xform: Xform {
            scale: 1_000_000,
            offset_u: 0,
            offset_v: 0,
            rot: 0,
            opacity: 1_000_000,
            reflect: 0,
        },
        finish: new_finish(def.avg, Some(def)),
    }
}

/// Makes a material that shows pixels.
pub fn new_image_texture(name: String, w: u32, h: u32, rgba: Vec<u8>, avg: Rgb) -> (r: Texture)
    ensures
        r@ == image_texture(name@, w, h, rgba@, avg),
{
    Texture {
        name: name,
        w: w,
        h: h,
        rgba: rgba,
        xform: Xform {
            scale: 1_000_000,
            offset_u: 0,
            offset_v: 0,
            rot: 0,
            opacity: 1_000_000,
            reflect: 0,
        },
        finish: new_finish(avg, None),
    }
}

fn new_finish(avg: Rgb, proc: Option<ProcDef>) -> (r: Finish)
    ensures
        r == plain_finish(avg, proc),
{
    Finish {
        avg: avg,
        proc: proc,
        roughness: 500_000,
        metallic: 0,
        ior: 1_450_000,
        emission: Rgb { r: 0, g: 0, b: 0 },
        emission_strength: 0,
        normal_map: None,
        rough_map: None,
        metal_map: None,
        ao_map: None,
        triplanar: false,
        tiles_per_m: 1_000_000,
        coat: Coat {
            clearcoat: 0,
            rough: 100_000,
            sheen: 0,
            tint: Rgb { r: 1_000_000, g: 1_000_000, b: 1_000_000 },
        },
        png_cached: false,
    }
}

/// A piece of furniture in the scene: the asset it shows, a material over the whole of it, and
/// materials on single groups of its faces.
pub struct Furniture {
    pub asset: usize,
    pub texture: Option<usize>,
    pub surface_texture: Table<usize>,
}

/// The model of a [`Furniture`].
#[verifier::ext_equal]
pub struct FurnitureView {
    pub asset: usize,
    pub texture: Option<usize>,
    pub surface_texture: Map<u64, usize>,
}

impl View for Furniture {
    type V = FurnitureView;

    open spec fn view(&self) -> FurnitureView {
        FurnitureView {
            asset: self.asset,
            texture: self.texture,
            surface_texture: self.surface_texture@,
        }
    }
}

impl Duplicate for Furniture {
    fn duplicate(&self) -> (r: Self) {
        Furniture {
            asset: self.asset,
            texture: self.texture,
            surface_texture: self.surface_texture.duplicate(),
        }
    }
}

/// A mesh that furniture can show: its name, its triangles, the part and the group of faces that
/// each triangle belongs to, and its base colour.
pub struct Asset {
    pub name: String,
    pub tris: usize,
    pub part_ids: Vec<u32>,
    pub face_group: Vec<u32>,
    pub color: Option<Rgb>,
    pub alpha_resolved: bool,
}

/// The model of an [`Asset`].
#[verifier::ext_equal]
pub struct AssetView {
    pub name: Seq<char>,
    pub tris: usize,
    pub part_ids: Seq<u32>,
    pub face_group: Seq<u32>,
    pub color: Option<Rgb>,
    pub alpha_resolved: bool,
}

impl View for Asset {
    type V = AssetView;

    open spec fn view(&self) -> AssetView {
        AssetView {
            name: self.name@,
            tris: self.tris,
            part_ids: self.part_ids@,
            face_group: self.face_group@,
            color: self.color,
            alpha_resolved: self.alpha_resolved,
        }
    }
}

/// A drawing on a face of the model.
pub struct Sketch {
    pub id: u32,
    pub name: String,
    pub doc: Document,
}

/// The model of a [`Sketch`].
#[verifier::ext_equal]
pub struct SketchView {
    pub id: u32,
    pub name: Seq<char>,
    pub doc: DocView,
}

impl View for Sketch {
    type V = SketchView;

    open spec fn view(&self) -> SketchView {
        SketchView { id: self.id, name: self.name@, doc: self.doc@ }
    }
}

impl Duplicate for Sketch {
    fn duplicate(&self) -> (r: Self) {
        Sketch { id: self.id, name: self.name.clone(), doc: self.doc.duplicate() }
    }
}

/// Where a room comes from.
#[derive(Clone, Copy, Debug, PartialEq, Eq, Structural)]
pub enum RoomOrigin {
    Built,
    PlanDesignated,
    ImportedLayer,
}

/// A room: its outline in micrometres, its height in micrometres, and for a room that a layer was
/// imported as, the layer's name.
pub struct Room {
    pub id: u32,
    pub name: String,
    pub layer: String,
    pub origin: RoomOrigin,
    pub height: i64,
    pub outline: Vec<Pt>,
}

/// The model of a [`Room`].
#[verifier::ext_equal]
pub struct RoomView {
    pub id: u32,
    pub name: Seq<char>,
    pub layer: Seq<char>,
    pub origin: RoomOrigin,
    pub height: i64,
    pub outline: Seq<Pt>,
}

impl View for Room {
    type V = RoomView;

    open spec fn view(&self) -> RoomView {
        RoomView {
            id: self.id,
            name: self.name@,
            layer: self.layer@,
            origin: self.origin,
            height: self.height,
            outline: self.outline@,
        }
    }
}

impl Duplicate for Room {
    fn duplicate(&self) -> (r: Self) {
        Room {
            id: self.id,
            name: self.name.clone(),
            layer: self.layer.clone(),
            origin: self.origin,
            height: self.height,
            outline: copy_all(&self.outline),
        }
    }
}

/// How a solid is joined to the model: added to it, or cut out of it.
#[derive(Clone, Copy, Debug, PartialEq, Eq, Structural)]
pub enum BoolOp {
    Union,
    Cut,
}

/// The part of the 3D project that an undo step takes along: solids by id, sketches, records of
/// walls, storeys and ceilings, furniture, colours and materials of features and surfaces, groups
/// and rooms.
pub struct FactoryData {
    pub features: Vec<u64>,
    pub sketches: Vec<Sketch>,
    pub walls: Vec<u64>,
    pub storeys: Vec<u64>,
    pub active_storey: usize,
    pub ceilings: Vec<u64>,
    pub furniture: Vec<Furniture>,
    pub feature_op: Table<BoolOp>,
    pub feature_color: Table<Rgb>,
    pub surface_color: Table<Rgb>,
    pub feature_texture: Table<usize>,
    pub surface_texture: Table<usize>,
    pub feature_group: Table<u64>,
    pub rooms: Vec<Room>,
    pub next_room_id: u32,
}

/// The model of a [`FactoryData`].
pub struct FactoryDataView {
    pub features: Seq<u64>,
    pub sketches: Seq<SketchView>,
    pub walls: Seq<u64>,
    pub storeys: Seq<u64>,
    pub active_storey: usize,
    pub ceilings: Seq<u64>,
    pub furniture: Seq<FurnitureView>,
    pub feature_op: Map<u64, BoolOp>,
    pub feature_color: Map<u64, Rgb>,
    pub surface_color: Map<u64, Rgb>,
    pub feature_texture: Map<u64, usize>,
    pub surface_texture: Map<u64, usize>,
    pub feature_group: Map<u64, u64>,
    pub rooms: Seq<RoomView>,
    pub next_room_id: u32,
}

impl View for FactoryData {
    type V = FactoryDataView;

    open spec fn view(&self) -> FactoryDataView {
        FactoryDataView {
            features: self.features@,
            sketches: views(self.sketches@),
            walls: self.walls@,
            storeys: self.storeys@,
            active_storey: self.active_storey,
            ceilings: self.ceilings@,
            furniture: views(self.furniture@),
            feature_op: self.feature_op@,
            feature_color: self.feature_color@,
            surface_color: self.surface_color@,
            feature_texture: self.feature_texture@,
            surface_texture: self.surface_texture@,
            feature_group: self.feature_group@,
            rooms: views(self.rooms@),
            next_room_id: self.next_room_id,
        }
    }
}

impl Duplicate for FactoryData {
    fn duplicate(&self) -> (r: Self) {
        FactoryData {
            features: copy_all(&self.features),
            sketches: duplicate_all(&self.sketches),
            walls: copy_all(&self.walls),
            storeys: copy_all(&self.storeys),
            active_storey: self.active_storey,
            ceilings: copy_all(&self.ceilings),
            furniture: duplicate_all(&self.furniture),
            feature_op: self.feature_op.duplicate(),
            feature_color: self.feature_color.duplicate(),
            surface_color: self.surface_color.duplicate(),
            feature_texture: self.feature_texture.duplicate(),
            surface_texture: self.surface_texture.duplicate(),
            feature_group: self.feature_group.duplicate(),
            rooms: duplicate_all(&self.rooms),
            next_room_id: self.next_room_id,
        }
    }
}

/// A sketch that is open for editing: the face it lies on, and the plan that waits meanwhile.
pub struct Session {
    pub plane: u32,
    pub saved_doc: Document,
}

/// The model of a [`Session`].
#[verifier::ext_equal]
pub struct SessionView {
    pub plane: u32,
    pub saved_doc: DocView,
}

impl View for Session {
    type V = SessionView;

    open spec fn view(&self) -> SessionView {
        SessionView { plane: self.plane, saved_doc: self.saved_doc@ }
    }
}

/// What a click with a material paints.
#[derive(Clone, Copy, Debug, PartialEq, Eq, Structural)]
pub enum FurnPaintMode {
    WholeObject,
    Face,
    Piece,
}

/// The state of the 3D window. `default_room_height` is in micrometres.
pub struct FactoryState {
    pub data: FactoryData,
    pub textures: Vec<Texture>,
    pub furniture_lib: Vec<Asset>,
    pub session: Option<Session>,
    pub selection: Vec<u64>,
    pub sel_furniture: Vec<usize>,
    pub modify: Option<u64>,
    pub dirty: bool,
    pub recompute_due: bool,
    pub fit_due: bool,
    pub open: bool,
    pub status: String,
    pub furn_paint_mode: FurnPaintMode,
    pub furn_face_sel: Option<(usize, u32)>,
    pub furn_tex_brush: Option<usize>,
    pub surface_tex_brush: Option<usize>,
    pub rename_plane: Option<(u32, String)>,
    pub units: Units,
    pub unit_asked: bool,
    pub ask_unit: bool,
    pub default_room_height: i64,
}

/// The model of a [`FactoryState`].
pub struct FactoryView {
    pub data: FactoryDataView,
    pub textures: Seq<TextureView>,
    pub furniture_lib: Seq<AssetView>,
    pub session: Option<SessionView>,
    pub selection: Seq<u64>,
    pub sel_furniture: Seq<usize>,
    pub modify: Option<u64>,
    pub dirty: bool,
    pub recompute_due: bool,
    pub fit_due: bool,
    pub open: bool,
    pub status: Seq<char>,
    pub furn_paint_mode: FurnPaintMode,
    pub furn_face_sel: Option<(usize, u32)>,
    pub furn_tex_brush: Option<usize>,
    pub surface_tex_brush: Option<usize>,
    pub rename_plane: Option<(u32, Seq<char>)>,
    pub units: Units,
    pub unit_asked: bool,
    pub ask_unit: bool,
    pub default_room_height: i64,
}

impl View for FactoryState {
    type V = FactoryView;

    open spec fn view(&self) -> FactoryView {
        FactoryView {
            data: self.data@,
            textures: views(self.textures@),
            furniture_lib: views(self.furniture_lib@),
            session: opt_view(self.session),
            selection: self.selection@,
            sel_furniture: self.sel_furniture@,
            modify: self.modify,
            dirty: self.dirty,
            recompute_due: self.recompute_due,
            fit_due: self.fit_due,
            open: self.open,
            status: self.status@,
            furn_paint_mode: self.furn_paint_mode,
            furn_face_sel: self.furn_face_sel,
            furn_tex_brush: self.furn_tex_brush,
            surface_tex_brush: self.surface_tex_brush,
            rename_plane: match self.rename_plane {
                Some(p) => Some((p.0, p.1@)),
                None => None,
            },
            units: self.units,
            unit_asked: self.unit_asked,
            ask_unit: self.ask_unit,
            default_room_height: self.default_room_height,
        }
    }
}

impl FactoryDataView {
    /// A project with nothing in it.
    pub open spec fn empty() -> FactoryDataView {
        FactoryDataView {
            features: Seq::empty(),
            sketches: Seq::empty(),
            walls: Seq::empty(),
            storeys: Seq::empty(),
            active_storey: 0,
            ceilings: Seq::empty(),
            furniture: Seq::empty(),
            feature_op: Map::empty(),
            feature_color: Map::empty(),
            surface_color: Map::empty(),
            feature_texture: Map::empty(),
            surface_texture: Map::empty(),
            feature_group: Map::empty(),
            rooms: Seq::empty(),
            next_room_id: 1,
        }
    }
}

impl FactoryView {
    /// The 3D window as the application starts with it.
    pub open spec fn fresh() -> FactoryView {
        FactoryView {
            data: FactoryDataView::empty(),
            textures: Seq::empty(),
            furniture_lib: Seq::empty(),
            session: None,
            selection: Seq::empty(),
            sel_furniture: Seq::empty(),
            modify: None,
            dirty: false,
            recompute_due: false,
            fit_due: false,
            open: false,
            status: Seq::empty(),
            furn_paint_mode: FurnPaintMode::WholeObject,
            furn_face_sel: None,
            furn_tex_brush: None,
            surface_tex_brush: None,
            rename_plane: None,
            units: (Units { nm_per_unit: 1_000_000_000, source: UnitSource::Assumed }),
            unit_asked: false,
            ask_unit: false,
            default_room_height: 3_000_000,
        }
    }
}

impl FactoryData {
    /// A project with nothing in it.
    pub fn new() -> (r: FactoryData)
        ensures
            r@ == FactoryDataView::empty(),
    {
        broadcast use group_views;

        FactoryData {
            features: Vec::new(),
            sketches: Vec::new(),
            walls: Vec::new(),
            storeys: Vec::new(),
            active_storey: 0,
            ceilings: Vec::new(),
            furniture: Vec::new(),
            feature_op: Table::new(),
            feature_color: Table::new(),
            surface_color: Table::new(),
            feature_texture: Table::new(),
            surface_texture: Table::new(),
            feature_group: Table::new(),
            rooms: Vec::new(),
            next_room_id: 1,
        }
    }
}

impl FactoryState {
    /// The 3D window as the application starts with it.
    pub fn new() -> (r: FactoryState)
        ensures
            r@ == FactoryView::fresh(),
    {
        broadcast use group_views;

        FactoryState {
            data: FactoryData::new(),
            textures: Vec::new(),
            furniture_lib: Vec::new(),
            session: None,
            selection: Vec::new(),
            sel_furniture: Vec::new(),
            modify: None,
            dirty: false,
            recompute_due: false,
            fit_due: false,
            open: false,
            status: String::new(),
            furn_paint_mode: FurnPaintMode::WholeObject,
            furn_face_sel: None,
            furn_tex_brush: None,
            surface_tex_brush: None,
            rename_plane: None,
            units: Units { nm_per_unit: 1_000_000_000, source: UnitSource::Assumed },
            unit_asked: false,
            ask_unit: false,
            default_room_height: 3_000_000,
        }
    }
}

/// The piece of furniture that the panels speak of: the last one selected.
pub open spec fn primary(sel: Seq<usize>) -> Option<usize> {
    if sel.len() == 0 {
        None
    } else {
        Some(sel.last())
    }
}

/// A channel of a colour is the byte that is as near below it as a byte can be; whole is 255.
pub proof fn channels_become_bytes(c: u32)
    ensures
        c < 1_000_000 ==> channel_byte(c) * 1_000_000 <= c * 255 < (channel_byte(c) + 1) * 1_000_000,
        c >= 1_000_000 ==> channel_byte(c) == 255,
{
}

/// A new material is plain, opaque and of its colour: one that shows a pattern has a single pixel of
/// the pattern's colour, and one that shows an image the image's.
pub proof fn new_materials_are_plain(
    name: Seq<char>,
    def: ProcDef,
    w: u32,
    h: u32,
    rgba: Seq<u8>,
    avg: Rgb,
)
    ensures
        ({
            let a = pattern_texture(name, def);
            let b = image_texture(name, w, h, rgba, avg);
            &&& a.name == name && b.name == name
            &&& a.w == 1 && a.h == 1 && a.rgba.len() == 4 && a.rgba[3] == 255
            &&& a.finish.proc == Some(def) && a.finish.avg == def.avg
            &&& b.w == w && b.h == h && b.rgba == rgba && b.finish.proc is None && b.finish.avg == avg
            &&& a.xform.opacity == 1_000_000 && b.xform.opacity == 1_000_000
            &&& a.finish.emission_strength == 0 && b.finish.emission_strength == 0
            &&& a.finish.normal_map is None && b.finish.normal_map is None
            &&& a.xform == b.xform && a.xform.scale == 1_000_000 && a.xform.rot == 0
                && a.xform.offset_u == 0 && a.xform.offset_v == 0 && a.xform.reflect == 0
            &&& !a.finish.triplanar && !b.finish.triplanar && !a.finish.png_cached
            &&& a.finish.coat.clearcoat == 0 && a.finish.coat.sheen == 0
        }),
{
}

} // verus!
