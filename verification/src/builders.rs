//! The generators of furniture and stairs: what comes with each piece, and what is said of it.
//!
//! Lengths are micrometres, flux is millilumens, power is milliwatts.
use vstd::prelude::*;

use crate::app::{AppView, CadApp};
use crate::copying::views;
use crate::factory::{
    new_pattern_texture, pattern_texture, AssetView, Finish, ProcDef, Rgb, Texture, TextureView,
};
use crate::furnish::{
    finished, finished_texture, first_two, flat, flat_texture, part_materials, Mesh, MeshView,
    PartKind,
};
use crate::text::{
    begins_with, cat2, cat3, cat4, cat5, cat7, dec, dec_text, dec_text_wide, starts_with,
};
use crate::units::{hundredths_text, round_to, rounded, write_hundredths};

verus! {

/// A part of a sofa, by its material.
#[derive(Clone, Copy, Debug, PartialEq, Eq, Structural)]
pub enum CouchPart {
    Oak,
    Fabric,
}

impl PartKind for CouchPart {
    open spec fn shows(self) -> Option<nat> {
        match self {
            CouchPart::Oak => Some(0),
            CouchPart::Fabric => Some(1),
        }
    }

    fn shown(self) -> (r: Option<usize>) {
        match self {
            CouchPart::Oak => Some(0),
            CouchPart::Fabric => Some(1),
        }
    }
}

/// A part of an office desk, by its material.
#[derive(Clone, Copy, Debug, PartialEq, Eq, Structural)]
pub enum DeskPart {
    White,
    Oak,
    Fabric,
    Metal,
    Alu,
    Dark,
    Cap,
}

impl PartKind for DeskPart {
    open spec fn shows(self) -> Option<nat> {
        match self {
            DeskPart::White => None,
            DeskPart::Oak => Some(0),
            DeskPart::Fabric => Some(1),
            DeskPart::Metal => Some(2),
            DeskPart::Alu => Some(3),
            DeskPart::Dark => Some(4),
            DeskPart::Cap => Some(5),
        }
    }

    fn shown(self) -> (r: Option<usize>) {
        match self {
            DeskPart::White => None,
            DeskPart::Oak => Some(0),
            DeskPart::Fabric => Some(1),
            DeskPart::Metal => Some(2),
            DeskPart::Alu => Some(3),
            DeskPart::Dark => Some(4),
            DeskPart::Cap => Some(5),
        }
    }
}

/// A part of a cupboard, by its material.
#[derive(Clone, Copy, Debug, PartialEq, Eq, Structural)]
pub enum CupboardPart {
    Wood,
    Glass,
    Chrome,
}

impl PartKind for CupboardPart {
    open spec fn shows(self) -> Option<nat> {
        match self {
            CupboardPart::Wood => None,
            CupboardPart::Glass => Some(0),
            CupboardPart::Chrome => Some(1),
        }
    }

    fn shown(self) -> (r: Option<usize>) {
        match self {
            CupboardPart::Wood => None,
            CupboardPart::Glass => Some(0),
            CupboardPart::Chrome => Some(1),
        }
    }
}

/// A part of a kitchen, by its material.
#[derive(Clone, Copy, Debug, PartialEq, Eq, Structural)]
pub enum KitchenPart {
    Carcass,
    Front,
    Stone,
    Edge,
    Plinth,
    Metal,
}

impl PartKind for KitchenPart {
    open spec fn shows(self) -> Option<nat> {
        match self {
            KitchenPart::Carcass => None,
            KitchenPart::Front => Some(0),
            KitchenPart::Stone => Some(1),
            KitchenPart::Edge => Some(2),
            KitchenPart::Plinth => Some(3),
            KitchenPart::Metal => Some(4),
        }
    }

    fn shown(self) -> (r: Option<usize>) {
        match self {
            KitchenPart::Carcass => None,
            KitchenPart::Front => Some(0),
            KitchenPart::Stone => Some(1),
            KitchenPart::Edge => Some(2),
            KitchenPart::Plinth => Some(3),
            KitchenPart::Metal => Some(4),
        }
    }
}

/// A part of a curved light, by its material.
#[derive(Clone, Copy, Debug, PartialEq, Eq, Structural)]
pub enum LightPart {
    Body,
    Lens,
    Rod,
}

impl PartKind for LightPart {
    open spec fn shows(self) -> Option<nat> {
        match self {
            LightPart::Body => None,
            LightPart::Lens => Some(0),
            LightPart::Rod => Some(1),
        }
    }

    fn shown(self) -> (r: Option<usize>) {
        match self {
            LightPart::Body => None,
            LightPart::Lens => Some(0),
            LightPart::Rod => Some(1),
        }
    }
}

/// A part of a cabinet unit, by its material.
#[derive(Clone, Copy, Debug, PartialEq, Eq, Structural)]
pub enum CabinPart {
    Carcass,
    Front,
    Edge,
    Metal,
}

impl PartKind for CabinPart {
    open spec fn shows(self) -> Option<nat> {
        match self {
            CabinPart::Carcass => None,
            CabinPart::Front => Some(0),
            CabinPart::Edge => Some(1),
            CabinPart::Metal => Some(2),
        }
    }

    fn shown(self) -> (r: Option<usize>) {
        match self {
            CabinPart::Carcass => None,
            CabinPart::Front => Some(0),
            CabinPart::Edge => Some(1),
            CabinPart::Metal => Some(2),
        }
    }
}

/// The materials that come with a sofa.
pub open spec fn couch_swatches(oak: ProcDef) -> Seq<TextureView> {
    seq![
        pattern_texture("Sofa oak frame"@, oak),
        finished(flat("Sofa upholstery"@, 194, 176, 145), 900_000, 0),
    ]
}

fn couch_textures(oak: ProcDef) -> (r: Vec<Texture>)
    ensures
        views(r@) == couch_swatches(oak),
        r@.len() == 2,
{
    let mut r: Vec<Texture> = Vec::new();
    r.push(new_pattern_texture(String::from_str("Sofa oak frame"), oak));
    r.push(finished_texture("Sofa upholstery", 194, 176, 145, 900_000, 0));
    assert(views(r@) =~= couch_swatches(oak));
    r
}

/// The materials that come with an office desk.
pub open spec fn desk_swatches(oak: ProcDef) -> Seq<TextureView> {
    seq![
        pattern_texture("Desk oak veneer"@, oak),
        finished(flat("Desk screen fabric"@, 143, 146, 158), 920_000, 0),
        finished(flat("Desk legs / rail"@, 198, 200, 204), 350_000, 850_000),
        finished(flat("Desk trim (alu)"@, 204, 204, 209), 300_000, 1_000_000),
        flat("Desk dark detail"@, 26, 26, 28),
        flat("Desk foot caps"@, 219, 219, 219),
    ]
}

fn desk_textures(oak: ProcDef) -> (r: Vec<Texture>)
    ensures
        views(r@) == desk_swatches(oak),
        r@.len() == 6,
{
    let mut r: Vec<Texture> = Vec::new();
    r.push(new_pattern_texture(String::from_str("Desk oak veneer"), oak));
    r.push(finished_texture("Desk screen fabric", 143, 146, 158, 920_000, 0));
    r.push(finished_texture("Desk legs / rail", 198, 200, 204, 350_000, 850_000));
    r.push(finished_texture("Desk trim (alu)", 204, 204, 209, 300_000, 1_000_000));
    r.push(flat_texture("Desk dark detail", 26, 26, 28));
    r.push(flat_texture("Desk foot caps", 219, 219, 219));
    assert(views(r@) =~= desk_swatches(oak));
    r
}

/// The materials that come with a cupboard.
pub open spec fn cupboard_swatches() -> Seq<TextureView> {
    seq![
        flat("Cupboard glass"@, 194, 202, 205),
        flat("Cupboard chrome"@, 196, 200, 205),
    ]
}

fn cupboard_textures() -> (r: Vec<Texture>)
    ensures
        views(r@) == cupboard_swatches(),
        r@.len() == 2,
{
    let mut r: Vec<Texture> = Vec::new();
    r.push(flat_texture("Cupboard glass", 194, 202, 205));
    r.push(flat_texture("Cupboard chrome", 196, 200, 205));
    assert(views(r@) =~= cupboard_swatches());
    r
}

/// The materials that come with a kitchen.
pub open spec fn kitchen_swatches() -> Seq<TextureView> {
    seq![
        flat("Kitchen front"@, 120, 22, 20),
        flat("Kitchen worktop"@, 179, 173, 156),
        flat("Kitchen edge"@, 31, 31, 32),
        flat("Kitchen plinth"@, 60, 61, 64),
        flat("Kitchen chrome"@, 189, 192, 196),
    ]
}

fn kitchen_textures() -> (r: Vec<Texture>)
    ensures
        views(r@) == kitchen_swatches(),
        r@.len() == 5,
{
    let mut r: Vec<Texture> = Vec::new();
    r.push(flat_texture("Kitchen front", 120, 22, 20));
    r.push(flat_texture("Kitchen worktop", 179, 173, 156));
    r.push(flat_texture("Kitchen edge", 31, 31, 32));
    r.push(flat_texture("Kitchen plinth", 60, 61, 64));
    r.push(flat_texture("Kitchen chrome", 189, 192, 196));
    assert(views(r@) =~= kitchen_swatches());
    r
}

/// The materials that come with a cabinet unit.
pub open spec fn cabin_swatches(oak: ProcDef) -> Seq<TextureView> {
    seq![
        pattern_texture("Cabinet oak veneer"@, oak),
        flat("Cabinet edge/pins"@, 40, 40, 42),
        flat("Cabinet metal"@, 190, 192, 196),
    ]
}

fn cabin_textures(oak: ProcDef) -> (r: Vec<Texture>)
    ensures
        views(r@) == cabin_swatches(oak),
        r@.len() == 3,
{
    let mut r: Vec<Texture> = Vec::new();
    r.push(new_pattern_texture(String::from_str("Cabinet oak veneer"), oak));
    r.push(flat_texture("Cabinet edge/pins", 40, 40, 42));
    r.push(flat_texture("Cabinet metal", 190, 192, 196));
    assert(views(r@) =~= cabin_swatches(oak));
    r
}

/// A mesh in a given base colour.
pub open spec fn painted(m: MeshView, r: u32, g: u32, b: u32) -> MeshView {
    MeshView { color: Some(Rgb { r: r, g: g, b: b }), ..m }
}

fn paint(m: Mesh, r: u32, g: u32, b: u32) -> (p: Mesh)
    ensures
        p@ == painted(m@, r, g, b),
{
    Mesh { color: Some(Rgb { r: r, g: g, b: b }), ..m }
}

/// A length with two decimals of a metre.
pub open spec fn metres(x: u64) -> Seq<char> {
    hundredths_text(rounded(x as nat, 10_000))
}

/// A length in whole millimetres.
pub open spec fn millimetres(x: u64) -> Seq<char> {
    dec(rounded(x as nat, 1_000))
}

pub(crate) fn write_metres(x: u64) -> (r: String)
    ensures
        r@ == metres(x),
{
    write_hundredths(round_to(x as u128, 10_000))
}

pub(crate) fn write_millimetres(x: u64) -> (r: String)
    ensures
        r@ == millimetres(x),
{
    dec_text_wide(round_to(x as u128, 1_000))
}

/// Texts with commas between.
pub open spec fn listed(s: Seq<Seq<char>>, n: int) -> Seq<char>
    decreases n,
{
    if n <= 0 {
        Seq::empty()
    } else if n == 1 {
        s[0]
    } else {
        listed(s, n - 1) + ", "@ + s[n - 1]
    }
}

pub(crate) fn write_listed(s: &Vec<String>) -> (r: String)
    ensures
        r@ == listed(views(s@), s@.len() as int),
{
    let ghost all = views(s@);
    let mut out = String::new();
    let mut n: usize = 0;
    assert(out@ =~= listed(all, 0));
    while n < s.len()
        invariant
            n <= s.len(),
            all == views(s@),
            out@ == listed(all, n as int),
        decreases s.len() - n,
    {
        assert(all[n as int] == s@[n as int]@);
        if n == 0 {
            out = s[0].clone();
        } else {
            out = cat3(out.as_str(), ", ", s[n].as_str());
        }
        n += 1;
    }
    out
}

fn count(n: u32) -> (r: String)
    ensures
        r@ == dec(n as nat),
{
    dec_text(n as u64)
}

fn count_tris(m: &Mesh) -> (r: String)
    ensures
        r@ == dec(m@.tris as nat),
{
    dec_text(m.tris as u64)
}

/// A sofa that was generated.
pub struct CouchBuilt {
    pub mesh: Mesh,
    pub parts: Vec<CouchPart>,
    pub runs: u32,
    pub corners: u32,
    pub overall: u64,
    pub seats: u32,
    pub features: Vec<String>,
    pub warnings: Vec<String>,
}

/// What is said of a sofa.
pub open spec fn couch_status(m: CouchBuilt) -> Seq<char> {
    ("Sofa: "@ + dec(m.runs as nat) + " run(s) + "@ + dec(m.corners as nat) + " corner(s), "@
        + metres(m.overall) + " m overall, "@) + (dec(m.seats as nat) + " seats — "@ + listed(
        views(m.features@),
        m.features@.len() as int,
    ) + " ("@ + dec(m.mesh@.tris as nat) + " tris)"@)
}

/// What the command history keeps of a sofa.
pub open spec fn couch_line(m: CouchBuilt) -> Seq<char> {
    "  furniture: sofa ("@ + dec(m.runs as nat) + " runs, "@ + dec(m.seats as nat) + " seats, "@
        + dec(m.mesh@.tris as nat) + " tris) and placed"@
}

fn write_couch_status(m: &CouchBuilt) -> (r: String)
    ensures
        r@ == couch_status(*m),
{
    let head = cat7(
        "Sofa: ",
        count(m.runs).as_str(),
        " run(s) + ",
        count(m.corners).as_str(),
        " corner(s), ",
        write_metres(m.overall).as_str(),
        " m overall, ",
    );
    let tail = cat5(
        count(m.seats).as_str(),
        " seats — ",
        write_listed(&m.features).as_str(),
        " (",
        cat2(count_tris(&m.mesh).as_str(), " tris)").as_str(),
    );
    proof {
        let a = dec(m.seats as nat) + " seats — "@ + listed(
            views(m.features@),
            m.features@.len() as int,
        ) + " ("@;
        assert(a + (dec(m.mesh@.tris as nat) + " tris)"@) =~= a + dec(m.mesh@.tris as nat)
            + " tris)"@);
    }
    cat2(head.as_str(), tail.as_str())
}

fn write_couch_line(m: &CouchBuilt) -> (r: String)
    ensures
        r@ == couch_line(*m),
{
    cat7(
        "  furniture: sofa (",
        count(m.runs).as_str(),
        " runs, ",
        count(m.seats).as_str(),
        " seats, ",
        count_tris(&m.mesh).as_str(),
        " tris) and placed",
    )
}

impl AppView {
    /// After a sofa has been generated, or not.
    pub open spec fn couch_built(self, built: Result<CouchBuilt, String>, oak: ProcDef) -> AppView {
        match built {
            Err(e) => self.with_status("Sofa: "@ + e@),
            Ok(m) => self.furniture_put(
                "Sofa"@,
                painted(m.mesh@, 760_000, 690_000, 570_000),
                couch_swatches(oak),
                part_materials(m.parts@, self.factory.textures.len() as int),
            ).in_three_d().with_status(couch_status(m)).warned(
                "  ⚠ sofa: "@,
                views(m.warnings@),
                first_two(m.warnings@.len()),
            ).said(couch_line(m)),
        }
    }
}

impl CadApp {
    /// Puts a generated sofa into the scene, or says why there is none; `oak` is the veneer of its
    /// frame.
    pub fn factory_build_couch(&mut self, built: Result<CouchBuilt, String>, oak: ProcDef)
        requires
            built matches Ok(m) ==> m.mesh@.wf(),
        ensures
            final(self)@ == old(self)@.couch_built(built, oak),
    {
        match built {
            Err(e) => self.set_status(cat2("Sofa: ", e.as_str())),
            Ok(m) => {
                let status = write_couch_status(&m);
                let line = write_couch_line(&m);
                self.put_furniture(
                    String::from_str("Sofa"),
                    paint(m.mesh, 760_000, 690_000, 570_000),
                    couch_textures(oak),
                    &m.parts,
                );
                self.show_three_d();
                self.set_status(status);
                self.warn_first("  ⚠ sofa: ", &m.warnings);
                self.say(line);
            },
        }
    }
}

/// An office desk that was generated.
pub struct DeskBuilt {
    pub mesh: Mesh,
    pub parts: Vec<DeskPart>,
    pub length: u64,
    pub width: u64,
    pub height: u64,
    pub features: Vec<String>,
    pub warnings: Vec<String>,
}

/// What is said of an office desk.
pub open spec fn desk_status(m: DeskBuilt) -> Seq<char> {
    ("Office desk: "@ + millimetres(m.length) + "×"@ + millimetres(m.width) + " mm at "@
        + millimetres(m.height) + " mm — "@) + (listed(views(m.features@), m.features@.len() as int)
        + " ("@ + dec(m.mesh@.tris as nat) + " tris)"@)
}

/// What the command history keeps of an office desk.
pub open spec fn desk_line(m: DeskBuilt) -> Seq<char> {
    "  furniture: office desk ("@ + listed(views(m.features@), m.features@.len() as int) + ", "@
        + dec(m.mesh@.tris as nat) + " tris) and placed"@
}

fn write_desk_status(m: &DeskBuilt) -> (r: String)
    ensures
        r@ == desk_status(*m),
{
    let head = cat7(
        "Office desk: ",
        write_millimetres(m.length).as_str(),
        "×",
        write_millimetres(m.width).as_str(),
        " mm at ",
        write_millimetres(m.height).as_str(),
        " mm — ",
    );
    let tail = cat4(
        write_listed(&m.features).as_str(),
        " (",
        count_tris(&m.mesh).as_str(),
        " tris)",
    );
    cat2(head.as_str(), tail.as_str())
}

fn write_desk_line(m: &DeskBuilt) -> (r: String)
    ensures
        r@ == desk_line(*m),
{
    cat5(
        "  furniture: office desk (",
        write_listed(&m.features).as_str(),
        ", ",
        count_tris(&m.mesh).as_str(),
        " tris) and placed",
    )
}

impl AppView {
    /// After an office desk has been generated, or not.
    pub open spec fn desk_built(self, built: Result<DeskBuilt, String>, oak: ProcDef) -> AppView {
        match built {
            Err(e) => self.with_status("Office desk: "@ + e@),
            Ok(m) => self.furniture_put(
                "Office desk"@,
                painted(m.mesh@, 900_000, 900_000, 890_000),
                desk_swatches(oak),
                part_materials(m.parts@, self.factory.textures.len() as int),
            ).in_three_d().with_status(desk_status(m)).warned(
                "  ⚠ desk: "@,
                views(m.warnings@),
                first_two(m.warnings@.len()),
            ).said(desk_line(m)),
        }
    }
}

impl CadApp {
    /// Puts a generated office desk into the scene, or says why there is none; `oak` is the veneer
    /// of its drawers.
    pub fn factory_build_desk(&mut self, built: Result<DeskBuilt, String>, oak: ProcDef)
        requires
            built matches Ok(m) ==> m.mesh@.wf(),
        ensures
            final(self)@ == old(self)@.desk_built(built, oak),
    {
        match built {
            Err(e) => self.set_status(cat2("Office desk: ", e.as_str())),
            Ok(m) => {
                let status = write_desk_status(&m);
                let line = write_desk_line(&m);
                self.put_furniture(
                    String::from_str("Office desk"),
                    paint(m.mesh, 900_000, 900_000, 890_000),
                    desk_textures(oak),
                    &m.parts,
                );
                self.show_three_d();
                self.set_status(status);
                self.warn_first("  ⚠ desk: ", &m.warnings);
                self.say(line);
            },
        }
    }
}

/// A cupboard that was generated.
pub struct CupboardBuilt {
    pub mesh: Mesh,
    pub parts: Vec<CupboardPart>,
    pub cols: u32,
    pub rows: u32,
    pub doors: u32,
    pub glazed: u32,
    pub drawers: u32,
    pub niches: u32,
    pub fronts: u32,
}

/// What is said of a cupboard.
pub open spec fn cupboard_status(m: CupboardBuilt) -> Seq<char> {
    ("Cupboard built — "@ + dec(m.doors as nat) + " doors · "@ + dec(m.glazed as nat)
        + " glazed · "@ + dec(m.drawers as nat) + " drawers · "@) + (dec(m.niches as nat)
        + " niches ("@ + dec(m.mesh@.tris as nat) + " tris)"@)
}

/// What the command history keeps of a cupboard.
pub open spec fn cupboard_line(m: CupboardBuilt) -> Seq<char> {
    ("  architecture: cupboard ("@ + dec(m.cols as nat) + " bays × "@ + dec(m.rows as nat)
        + " tiers, "@ + dec(m.fronts as nat) + " fronts, "@) + (dec(m.mesh@.tris as nat)
        + " tris) and placed"@)
}

fn write_cupboard_status(m: &CupboardBuilt) -> (r: String)
    ensures
        r@ == cupboard_status(*m),
{
    let head = cat7(
        "Cupboard built — ",
        count(m.doors).as_str(),
        " doors · ",
        count(m.glazed).as_str(),
        " glazed · ",
        count(m.drawers).as_str(),
        " drawers · ",
    );
    let tail = cat4(
        count(m.niches).as_str(),
        " niches (",
        count_tris(&m.mesh).as_str(),
        " tris)",
    );
    cat2(head.as_str(), tail.as_str())
}

fn write_cupboard_line(m: &CupboardBuilt) -> (r: String)
    ensures
        r@ == cupboard_line(*m),
{
    let head = cat7(
        "  architecture: cupboard (",
        count(m.cols).as_str(),
        " bays × ",
        count(m.rows).as_str(),
        " tiers, ",
        count(m.fronts).as_str(),
        " fronts, ",
    );
    let tail = cat2(count_tris(&m.mesh).as_str(), " tris) and placed");
    cat2(head.as_str(), tail.as_str())
}

impl AppView {
    /// After a cupboard has been generated, or not.
    pub open spec fn cupboard_built(self, built: Result<CupboardBuilt, String>) -> AppView {
        match built {
            Err(e) => self.with_status("Cupboard: "@ + e@),
            Ok(m) => self.furniture_put(
                "Cupboard"@,
                painted(m.mesh@, 620_000, 512_000, 348_000),
                cupboard_swatches(),
                part_materials(m.parts@, self.factory.textures.len() as int),
            ).with_status(cupboard_status(m)).said(cupboard_line(m)),
        }
    }
}

impl CadApp {
    /// Puts a generated cupboard into the scene, or says why there is none.
    pub fn factory_build_cupboard(&mut self, built: Result<CupboardBuilt, String>)
        requires
            built matches Ok(m) ==> m.mesh@.wf(),
        ensures
            final(self)@ == old(self)@.cupboard_built(built),
    {
        match built {
            Err(e) => self.set_status(cat2("Cupboard: ", e.as_str())),
            Ok(m) => {
                let status = write_cupboard_status(&m);
                let line = write_cupboard_line(&m);
                self.put_furniture(
                    String::from_str("Cupboard"),
                    paint(m.mesh, 620_000, 512_000, 348_000),
                    cupboard_textures(),
                    &m.parts,
                );
                self.set_status(status);
                self.say(line);
            },
        }
    }
}

/// A kitchen that was generated; `upper` says that it has wall cabinets.
pub struct KitchenBuilt {
    pub mesh: Mesh,
    pub parts: Vec<KitchenPart>,
    pub base: u32,
    pub wall: u32,
    pub doors: u32,
    pub drawers: u32,
    pub upper: bool,
}

/// A yes or no, as a word.
pub open spec fn truth(b: bool) -> Seq<char> {
    if b {
        "true"@
    } else {
        "false"@
    }
}

/// What is said of a kitchen.
pub open spec fn kitchen_status(m: KitchenBuilt) -> Seq<char> {
    ("Kitchen built — "@ + dec(m.base as nat) + " base + "@ + dec(m.wall as nat)
        + " wall cabinets, "@ + dec(m.doors as nat) + " doors, "@) + (dec(m.drawers as nat)
        + " drawers ("@ + dec(m.mesh@.tris as nat) + " tris)"@)
}

/// What the command history keeps of a kitchen.
pub open spec fn kitchen_line(m: KitchenBuilt) -> Seq<char> {
    ("  architecture: kitchen run ("@ + dec(m.base as nat) + " base, "@ + dec(m.wall as nat)
        + " wall, upper="@ + truth(m.upper) + ", "@) + (dec(m.mesh@.tris as nat)
        + " tris) and placed"@)
}

fn write_kitchen_status(m: &KitchenBuilt) -> (r: String)
    ensures
        r@ == kitchen_status(*m),
{
    let head = cat7(
        "Kitchen built — ",
        count(m.base).as_str(),
        " base + ",
        count(m.wall).as_str(),
        " wall cabinets, ",
        count(m.doors).as_str(),
        " doors, ",
    );
    let tail = cat4(
        count(m.drawers).as_str(),
        " drawers (",
        count_tris(&m.mesh).as_str(),
        " tris)",
    );
    cat2(head.as_str(), tail.as_str())
}

fn write_kitchen_line(m: &KitchenBuilt) -> (r: String)
    ensures
        r@ == kitchen_line(*m),
{
    let head = cat7(
        "  architecture: kitchen run (",
        count(m.base).as_str(),
        " base, ",
        count(m.wall).as_str(),
        " wall, upper=",
        if m.upper {
            "true"
        } else {
            "false"
        },
        ", ",
    );
    let tail = cat2(count_tris(&m.mesh).as_str(), " tris) and placed");
    cat2(head.as_str(), tail.as_str())
}

impl AppView {
    /// After a kitchen has been generated, or not.
    pub open spec fn kitchen_built(self, built: Result<KitchenBuilt, String>) -> AppView {
        match built {
            Err(e) => self.with_status("Kitchen: "@ + e@),
            Ok(m) => self.furniture_put(
                "Kitchen"@,
                painted(m.mesh@, 760_000, 758_000, 750_000),
                kitchen_swatches(),
                part_materials(m.parts@, self.factory.textures.len() as int),
            ).with_status(kitchen_status(m)).said(kitchen_line(m)),
        }
    }
}

impl CadApp {
    /// Puts a generated kitchen into the scene, or says why there is none.
    pub fn factory_build_kitchen(&mut self, built: Result<KitchenBuilt, String>)
        requires
            built matches Ok(m) ==> m.mesh@.wf(),
        ensures
            final(self)@ == old(self)@.kitchen_built(built),
    {
        match built {
            Err(e) => self.set_status(cat2("Kitchen: ", e.as_str())),
            Ok(m) => {
                let status = write_kitchen_status(&m);
                let line = write_kitchen_line(&m);
                self.put_furniture(
                    String::from_str("Kitchen"),
                    paint(m.mesh, 760_000, 758_000, 750_000),
                    kitchen_textures(),
                    &m.parts,
                );
                self.set_status(status);
                self.say(line);
            },
        }
    }
}

/// A cabinet unit that was generated; `grip` names how its fronts are gripped.
pub struct CabinBuilt {
    pub mesh: Mesh,
    pub parts: Vec<CabinPart>,
    pub cols: u32,
    pub rows: u32,
    pub leaves: u32,
    pub drawers: u32,
    pub grip: String,
}

/// What is said of a cabinet unit.
pub open spec fn cabin_status(m: CabinBuilt) -> Seq<char> {
    ("Cabinet unit built — "@ + dec(m.cols as nat) + "×"@ + dec(m.rows as nat) + " cells, "@ + dec(
        m.leaves as nat,
    ) + " door leaves, "@) + (dec(m.drawers as nat) + " drawers, grip "@ + m.grip@ + " ("@ + dec(
        m.mesh@.tris as nat,
    ) + " tris)"@)
}

/// What the command history keeps of a cabinet unit.
pub open spec fn cabin_line(m: CabinBuilt) -> Seq<char> {
    ("  furniture: cabinet unit ("@ + dec(m.cols as nat) + "×"@ + dec(m.rows as nat) + " cells, "@
        + dec(m.leaves as nat) + " leaves, "@) + (dec(m.drawers as nat) + " drawers, "@ + dec(
        m.mesh@.tris as nat,
    ) + " tris) and placed"@)
}

fn write_cabin_status(m: &CabinBuilt) -> (r: String)
    ensures
        r@ == cabin_status(*m),
{
    let head = cat7(
        "Cabinet unit built — ",
        count(m.cols).as_str(),
        "×",
        count(m.rows).as_str(),
        " cells, ",
        count(m.leaves).as_str(),
        " door leaves, ",
    );
    let tail = cat5(
        count(m.drawers).as_str(),
        " drawers, grip ",
        m.grip.as_str(),
        " (",
        cat2(count_tris(&m.mesh).as_str(), " tris)").as_str(),
    );
    proof {
        let a = dec(m.drawers as nat) + " drawers, grip "@ + m.grip@ + " ("@;
        assert(a + (dec(m.mesh@.tris as nat) + " tris)"@) =~= a + dec(m.mesh@.tris as nat)
            + " tris)"@);
    }
    cat2(head.as_str(), tail.as_str())
}

fn write_cabin_line(m: &CabinBuilt) -> (r: String)
    ensures
        r@ == cabin_line(*m),
{
    let head = cat7(
        "  furniture: cabinet unit (",
        count(m.cols).as_str(),
        "×",
        count(m.rows).as_str(),
        " cells, ",
        count(m.leaves).as_str(),
        " leaves, ",
    );
    let tail = cat4(
        count(m.drawers).as_str(),
        " drawers, ",
        count_tris(&m.mesh).as_str(),
        " tris) and placed",
    );
    cat2(head.as_str(), tail.as_str())
}

impl AppView {
    /// After a cabinet unit has been generated, or not.
    pub open spec fn cabin_built(self, built: Result<CabinBuilt, String>, oak: ProcDef) -> AppView {
        match built {
            Err(e) => self.with_status("Cabinet unit: "@ + e@),
            Ok(m) => self.furniture_put(
                "Cabinet unit"@,
                painted(m.mesh@, 920_000, 910_000, 885_000),
                cabin_swatches(oak),
                part_materials(m.parts@, self.factory.textures.len() as int),
            ).with_status(cabin_status(m)).said(cabin_line(m)),
        }
    }
}

impl CadApp {
    /// Puts a generated cabinet unit into the scene, or says why there is none; `oak` is the veneer
    /// of its fronts.
    pub fn factory_build_cabin(&mut self, built: Result<CabinBuilt, String>, oak: ProcDef)
        requires
            built matches Ok(m) ==> m.mesh@.wf(),
        ensures
            final(self)@ == old(self)@.cabin_built(built, oak),
    {
        match built {
            Err(e) => self.set_status(cat2("Cabinet unit: ", e.as_str())),
            Ok(m) => {
                let status = write_cabin_status(&m);
                let line = write_cabin_line(&m);
                self.put_furniture(
                    String::from_str("Cabinet unit"),
                    paint(m.mesh, 920_000, 910_000, 885_000),
                    cabin_textures(oak),
                    &m.parts,
                );
                self.set_status(status);
                self.say(line);
            },
        }
    }
}

/// A curved light that was generated. `tint` is the colour that its colour temperature, in kelvins,
/// gives, and the bytes show that colour. Its output is that of `emitters` points together.
pub struct LightBuilt {
    pub mesh: Mesh,
    pub parts: Vec<LightPart>,
    pub path: u64,
    pub hangers: u32,
    pub spacing: u64,
    pub emitters: usize,
    pub lumens: u64,
    pub watts: u64,
    pub cct: u32,
    pub tint: Rgb,
    pub red: u8,
    pub green: u8,
    pub blue: u8,
}

/// The materials that come with a curved light: a lens that glows, and the rods.
pub open spec fn light_swatches(m: LightBuilt) -> Seq<TextureView> {
    let lens = flat("Light lens "@ + dec(m.cct as nat) + "K (emissive)"@, m.red, m.green, m.blue);
    seq![
        TextureView {
            finish: Finish {
                emission: m.tint,
                emission_strength: 6_000_000,
                roughness: 350_000,
                ..lens.finish
            },
            ..lens
        },
        finished(flat("Light suspension"@, 120, 122, 126), 350_000, 800_000),
    ]
}

fn light_textures(m: &LightBuilt) -> (r: Vec<Texture>)
    ensures
        views(r@) == light_swatches(*m),
        r@.len() == 2,
{
    let name = cat3("Light lens ", count(m.cct).as_str(), "K (emissive)");
    let mut lens = flat_texture(name.as_str(), m.red, m.green, m.blue);
    lens.finish.emission = m.tint;
    lens.finish.emission_strength = 6_000_000;
    lens.finish.roughness = 350_000;
    let mut r: Vec<Texture> = Vec::new();
    r.push(lens);
    r.push(finished_texture("Light suspension", 120, 122, 126, 350_000, 800_000));
    assert(views(r@) =~= light_swatches(*m));
    r
}

/// How many assets have a name that begins like that of a curved light.
pub open spec fn lights_named(lib: Seq<AssetView>, n: int) -> nat
    decreases n,
{
    if n <= 0 {
        0
    } else {
        lights_named(lib, n - 1) + if begins_with(lib[n - 1].name, "Curved light"@) {
            1nat
        } else {
            0nat
        }
    }
}

/// Power with one decimal of a watt.
pub open spec fn watts1(p: u64) -> Seq<char> {
    let q = rounded(p as nat, 100);
    dec(q / 10) + "."@ + dec(q % 10)
}

pub(crate) fn write_watts1(p: u64) -> (r: String)
    ensures
        r@ == watts1(p),
{
    let q: u128 = round_to(p as u128, 100);
    cat3(dec_text_wide(q / 10).as_str(), ".", dec_text_wide(q % 10).as_str())
}

/// What is said of a curved light: its path and hangers, and its output, or that it has none.
pub open spec fn light_status(m: LightBuilt) -> Seq<char> {
    let head = ("Curved light: "@ + metres(m.path) + " m path · "@ + dec(m.hangers as nat)
        + " hangers at "@ + metres(m.spacing) + " m · "@) + (dec(m.mesh@.tris as nat) + " tris"@);
    if m.emitters == 0 {
        head + " — NO LIGHT OUTPUT (set a load and an efficacy above zero)"@
    } else {
        head + ((" · "@ + dec(rounded(m.lumens as nat, 1_000)) + " lm / "@ + watts1(m.watts)
            + " W over "@ + dec(m.emitters as nat) + " emitters at "@) + (dec(m.cct as nat)
            + " K — counted in ⚡ Calculate"@))
    }
}

fn write_light_status(m: &LightBuilt) -> (r: String)
    ensures
        r@ == light_status(*m),
{
    let a = cat7(
        "Curved light: ",
        write_metres(m.path).as_str(),
        " m path · ",
        count(m.hangers).as_str(),
        " hangers at ",
        write_metres(m.spacing).as_str(),
        " m · ",
    );
    let b = cat2(count_tris(&m.mesh).as_str(), " tris");
    let head = cat2(a.as_str(), b.as_str());
    if m.emitters == 0 {
        cat2(head.as_str(), " — NO LIGHT OUTPUT (set a load and an efficacy above zero)")
    } else {
        let c = cat7(
            " · ",
            dec_text_wide(round_to(m.lumens as u128, 1_000)).as_str(),
            " lm / ",
            write_watts1(m.watts).as_str(),
            " W over ",
            dec_text(m.emitters as u64).as_str(),
            " emitters at ",
        );
        let d = cat2(count(m.cct).as_str(), " K — counted in ⚡ Calculate");
        let tail = cat2(c.as_str(), d.as_str());
        cat2(head.as_str(), tail.as_str())
    }
}

impl AppView {
    /// The name of the next curved light.
    pub open spec fn next_light_name(self) -> Seq<char> {
        "Curved light "@ + dec(
            lights_named(
                self.factory.furniture_lib,
                self.factory.furniture_lib.len() as int,
            ) + 1,
        )
    }

    /// After a curved light has been generated, or not.
    pub open spec fn light_built(self, built: Result<LightBuilt, String>) -> AppView {
        match built {
            Err(e) => self.with_status("Curved light: "@ + e@),
            Ok(m) => self.furniture_put(
                self.next_light_name(),
                painted(m.mesh@, 130_000, 130_000, 140_000),
                light_swatches(m),
                part_materials(m.parts@, self.factory.textures.len() as int),
            ).with_status(light_status(m)).said(
                "  built curved light ("@ + metres(m.path) + " m, "@ + dec(m.hangers as nat)
                    + " hangers)"@,
            ).in_three_d(),
        }
    }
}

impl CadApp {
    fn light_name(&self) -> (r: String)
        ensures
            r@ == self@.next_light_name(),
    {
        let ghost lib = self@.factory.furniture_lib;
        let mut c: u128 = 0;
        let mut i: usize = 0;
        while i < self.factory.furniture_lib.len()
            invariant
                i <= self.factory.furniture_lib.len(),
                lib == views(self.factory.furniture_lib@),
                c == lights_named(lib, i as int),
                c <= i,
            decreases self.factory.furniture_lib.len() - i,
        {
            assert(lib[i as int] == self.factory.furniture_lib@[i as int]@);
            if starts_with(self.factory.furniture_lib[i].name.as_str(), "Curved light") {
                c += 1;
            }
            i += 1;
        }
        cat2("Curved light ", dec_text_wide(c + 1).as_str())
    }

    /// Puts a generated curved light into the scene, or says why there is none. Each has a name of
    /// its own.
    pub fn factory_build_sweeplight(&mut self, built: Result<LightBuilt, String>)
        requires
            built matches Ok(m) ==> m.mesh@.wf(),
        ensures
            final(self)@ == old(self)@.light_built(built),
    {
        match built {
            Err(e) => self.set_status(cat2("Curved light: ", e.as_str())),
            Ok(m) => {
                let status = write_light_status(&m);
                let line = cat5(
                    "  built curved light (",
                    write_metres(m.path).as_str(),
                    " m, ",
                    count(m.hangers).as_str(),
                    " hangers)",
                );
                let name = self.light_name();
                let swatches = light_textures(&m);
                self.put_furniture(
                    name,
                    paint(m.mesh, 130_000, 130_000, 140_000),
                    swatches,
                    &m.parts,
                );
                self.set_status(status);
                self.say(line);
                self.show_three_d();
            },
        }
    }
}

/// The oak parts of generated furniture show the oak that they were made with, and every other part
/// a material that came with it, or the base colour.
pub proof fn oak_parts_show_the_oak(oak: ProcDef, c: CouchPart, d: DeskPart, k: CabinPart)
    ensures
        c.shows() matches Some(n) && n < couch_swatches(oak).len() && (couch_swatches(
            oak,
        )[n as int].finish.proc == Some(oak) <==> c == CouchPart::Oak),
        d.shows() is None <==> d == DeskPart::White,
        d.shows() matches Some(n) ==> n < desk_swatches(oak).len() && (desk_swatches(
            oak,
        )[n as int].finish.proc == Some(oak) <==> d == DeskPart::Oak),
        k.shows() is None <==> k == CabinPart::Carcass,
        k.shows() matches Some(n) ==> n < cabin_swatches(oak).len() && (cabin_swatches(
            oak,
        )[n as int].finish.proc == Some(oak) <==> k == CabinPart::Front),
{
}

/// Two different parts of one piece of furniture show different materials.
pub proof fn parts_have_materials_of_their_own(
    d: (DeskPart, DeskPart),
    u: (CupboardPart, CupboardPart),
    k: (KitchenPart, KitchenPart),
    c: (CabinPart, CabinPart),
    l: (LightPart, LightPart),
)
    ensures
        d.0 != d.1 ==> d.0.shows() != d.1.shows(),
        u.0 != u.1 ==> u.0.shows() != u.1.shows(),
        k.0 != k.1 ==> k.0.shows() != k.1.shows(),
        c.0 != c.1 ==> c.0.shows() != c.1.shows(),
        l.0 != l.1 ==> l.0.shows() != l.1.shows(),
        u.0.shows() matches Some(n) ==> n < cupboard_swatches().len(),
        k.0.shows() matches Some(n) ==> n < kitchen_swatches().len(),
{
}

/// The lens of a curved light, and it alone of its parts, gives light, in the light's own tint.
pub proof fn lens_gives_the_light(m: LightBuilt, p: LightPart)
    ensures
        p.shows() matches Some(n) ==> n < light_swatches(m).len(),
        p == LightPart::Lens ==> (p.shows() matches Some(n) && light_swatches(
            m,
        )[n as int].finish.emission == m.tint && light_swatches(m)[n as int].finish.emission_strength
            > 0),
        p == LightPart::Body ==> p.shows() is None,
        p == LightPart::Rod ==> (p.shows() matches Some(n) && light_swatches(
            m,
        )[n as int].finish.emission_strength == 0),
{
}

/// A sofa that was built is the last piece of furniture, of the mesh that was made; one that
/// could not be built leaves the model and its history.
pub proof fn built_sofa_is_placed(s: AppView, built: Result<CouchBuilt, String>, oak: ProcDef)
    ensures
        built is Err ==> s.couch_built(built, oak).factory.data == s.factory.data && s.couch_built(
            built, oak,
        ).undo == s.undo,
        built matches Ok(m) ==> {
            let t = s.couch_built(built, oak);
            &&& t.factory.data.furniture.len() == s.factory.data.furniture.len() + 1
            &&& t.factory.furniture_lib.last().tris == m.mesh@.tris
            &&& t.factory.textures == s.factory.textures + couch_swatches(oak)
            &&& t.canvas.three_d
        },
{
    reveal(AppView::said);
    if let Ok(m) = built {
        let a = s.furniture_put(
            "Sofa"@,
            painted(m.mesh@, 760_000, 690_000, 570_000),
            couch_swatches(oak),
            part_materials(m.parts@, s.factory.textures.len() as int),
        ).in_three_d().with_status(couch_status(m));
        warnings_leave_the_model(a, "  ⚠ sofa: "@, views(m.warnings@), first_two(m.warnings@.len()));
    }
}

/// A desk that was built is the last piece of furniture, of the mesh that was made; one that
/// could not be built leaves the model and its history.
pub proof fn built_desk_is_placed(s: AppView, built: Result<DeskBuilt, String>, oak: ProcDef)
    ensures
        built is Err ==> s.desk_built(built, oak).factory.data == s.factory.data && s.desk_built(
            built, oak,
        ).undo == s.undo,
        built matches Ok(m) ==> {
            let t = s.desk_built(built, oak);
            &&& t.factory.data.furniture.len() == s.factory.data.furniture.len() + 1
            &&& t.factory.furniture_lib.last().tris == m.mesh@.tris
            &&& t.factory.textures == s.factory.textures + desk_swatches(oak)
            &&& t.canvas.three_d
        },
{
    reveal(AppView::said);
    if let Ok(m) = built {
        let a = s.furniture_put(
            "Office desk"@,
            painted(m.mesh@, 900_000, 900_000, 890_000),
            desk_swatches(oak),
            part_materials(m.parts@, s.factory.textures.len() as int),
        ).in_three_d().with_status(desk_status(m));
        warnings_leave_the_model(a, "  ⚠ desk: "@, views(m.warnings@), first_two(m.warnings@.len()));
    }
}

/// A curved light that was built is the last piece of furniture, of the mesh that was made; one that
/// could not be built leaves the model and its history.
pub proof fn built_light_is_placed(s: AppView, built: Result<LightBuilt, String>)
    ensures
        built is Err ==> s.light_built(built).factory.data == s.factory.data && s.light_built(
            built,
        ).undo == s.undo,
        built matches Ok(m) ==> {
            let t = s.light_built(built);
            &&& t.factory.data.furniture.len() == s.factory.data.furniture.len() + 1
            &&& t.factory.furniture_lib.last().tris == m.mesh@.tris
            &&& t.factory.furniture_lib.last().name == s.next_light_name()
            &&& t.factory.textures == s.factory.textures + light_swatches(m)
            &&& t.canvas.three_d
        },
{
    reveal(AppView::said);
}

proof fn warnings_leave_the_model(s: AppView, head: Seq<char>, warnings: Seq<Seq<char>>, n: int)
    ensures
        s.warned(head, warnings, n).factory == s.factory,
        s.warned(head, warnings, n).canvas == s.canvas,
    decreases n,
{
    reveal(AppView::said);
    if n > 0 {
        warnings_leave_the_model(s, head, warnings, n - 1);
    }
}

/// A cupboard, a kitchen or a cabinet that was built is the last piece of furniture, of the mesh that
/// was made; what could not be built leaves the model and its history.
pub proof fn built_cabinets_are_placed(
    s: AppView,
    cupboard: Result<CupboardBuilt, String>,
    kitchen: Result<KitchenBuilt, String>,
    cabin: Result<CabinBuilt, String>,
    oak: ProcDef,
)
    ensures
        cupboard is Err ==> s.cupboard_built(cupboard).factory.data == s.factory.data
            && s.cupboard_built(cupboard).undo == s.undo,
        kitchen is Err ==> s.kitchen_built(kitchen).factory.data == s.factory.data
            && s.kitchen_built(kitchen).undo == s.undo,
        cabin is Err ==> s.cabin_built(cabin, oak).factory.data == s.factory.data && s.cabin_built(
            cabin,
            oak,
        ).undo == s.undo,
        cupboard matches Ok(m) ==> {
            let t = s.cupboard_built(cupboard);
            &&& t.factory.data.furniture.len() == s.factory.data.furniture.len() + 1
            &&& t.factory.furniture_lib.last().tris == m.mesh@.tris
            &&& t.factory.textures == s.factory.textures + cupboard_swatches()
        },
        kitchen matches Ok(m) ==> {
            let t = s.kitchen_built(kitchen);
            &&& t.factory.data.furniture.len() == s.factory.data.furniture.len() + 1
            &&& t.factory.furniture_lib.last().tris == m.mesh@.tris
            &&& t.factory.textures == s.factory.textures + kitchen_swatches()
        },
        cabin matches Ok(m) ==> {
            let t = s.cabin_built(cabin, oak);
            &&& t.factory.data.furniture.len() == s.factory.data.furniture.len() + 1
            &&& t.factory.furniture_lib.last().tris == m.mesh@.tris
            &&& t.factory.textures == s.factory.textures + cabin_swatches(oak)
        },
{
    reveal(AppView::said);
}

} // verus!
