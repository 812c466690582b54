//! The materials window: which material and node is edited, where materials go, and what is put on
//! them.
use vstd::prelude::*;

use crate::app::{AppView, CadApp};
use crate::copying::{group_views, opt_view, views};
use crate::factory::{
    new_pattern_texture, pattern_texture, primary, swatch, swatch_pixel, FactoryData,
    FactoryDataView, FactoryState, FactoryView, Finish, FurnPaintMode, Furniture, ProcDef, Rgb,
    Texture, TextureView, Xform, PATTERN_SOLID,
};
use crate::text::{cat2, cat3, cat4, cat5, dec, dec_text, dec_text_wide};

verus! {

/// The state of the materials window: the material and the node that are edited, the wire and the
/// node that are dragged, how far the canvas is moved, in thousandths of a pixel, and the materials
/// that have a node graph.
pub struct MaterialsState {
    pub open: bool,
    pub sel: Option<usize>,
    pub sel_node: Option<u32>,
    pub drag_from: Option<(u32, u8)>,
    pub drag_node: Option<u32>,
    pub pan_x: i64,
    pub pan_y: i64,
    pub graphs: Vec<usize>,
}

/// The model of a [`MaterialsState`].
pub struct MaterialsView {
    pub open: bool,
    pub sel: Option<usize>,
    pub sel_node: Option<u32>,
    pub drag_from: Option<(u32, u8)>,
    pub drag_node: Option<u32>,
    pub pan_x: i64,
    pub pan_y: i64,
    pub graphs: Seq<usize>,
}

impl View for MaterialsState {
    type V = MaterialsView;

    open spec fn view(&self) -> MaterialsView {
        MaterialsView {
            open: self.open,
            sel: self.sel,
            sel_node: self.sel_node,
            drag_from: self.drag_from,
            drag_node: self.drag_node,
            pan_x: self.pan_x,
            pan_y: self.pan_y,
            graphs: self.graphs@,
        }
    }
}

/// Numbers without one of them.
pub open spec fn without(s: Seq<usize>, i: usize) -> Seq<usize>
    decreases s.len(),
{
    if s.len() == 0 {
        Seq::empty()
    } else {
        let rest = without(s.drop_last(), i);
        if s.last() == i {
            rest
        } else {
            rest.push(s.last())
        }
    }
}

impl MaterialsView {
    /// The materials window as the application starts with it.
    pub open spec fn fresh() -> MaterialsView {
        MaterialsView {
            open: false,
            sel: None,
            sel_node: None,
            drag_from: None,
            drag_node: None,
            pan_x: 0,
            pan_y: 0,
            graphs: Seq::empty(),
        }
    }

    /// With a material picked, and none of its nodes.
    pub open spec fn material_picked(self, i: usize) -> MaterialsView {
        MaterialsView { sel: Some(i), sel_node: None, ..self }
    }

    /// With a material picked, and the node kept.
    pub open spec fn aimed_at(self, i: usize) -> MaterialsView {
        MaterialsView { sel: Some(i), ..self }
    }

    /// Without the graph of a material.
    pub open spec fn graph_dropped(self, i: usize) -> MaterialsView {
        MaterialsView { graphs: without(self.graphs, i), ..self }
    }

    /// At the start of a frame: a selection that names no material is dropped, and one that does
    /// gets a graph.
    pub open spec fn seeded(self, n: nat) -> MaterialsView {
        match self.sel {
            Some(i) => if i >= n {
                MaterialsView { sel: None, ..self }
            } else if self.graphs.contains(i) {
                self
            } else {
                MaterialsView { graphs: self.graphs.push(i), ..self }
            },
            None => self,
        }
    }
}

impl MaterialsState {
    /// The materials window as the application starts with it.
    pub fn new() -> (r: MaterialsState)
        ensures
            r@ == MaterialsView::fresh(),
    {
        MaterialsState {
            open: false,
            sel: None,
            sel_node: None,
            drag_from: None,
            drag_node: None,
            pan_x: 0,
            pan_y: 0,
            graphs: Vec::new(),
        }
    }

    pub(crate) fn holds_graph(&self, i: usize) -> (r: bool)
        ensures
            r == self@.graphs.contains(i),
    {
        let mut k: usize = 0;
        while k < self.graphs.len()
            invariant
                k <= self.graphs.len(),
                forall|j: int| 0 <= j < k ==> self.graphs@[j] != i,
            decreases self.graphs.len() - k,
        {
            if self.graphs[k] == i {
                return true;
            }
            k += 1;
        }
        false
    }

    fn seed(&mut self, n: usize) -> (r: Option<usize>)
        ensures
            final(self)@ == old(self)@.seeded(n as nat),
            r == match old(self)@.sel {
                Some(i) => if i < n && !old(self)@.graphs.contains(i) {
                    Some(i)
                } else {
                    None
                },
                None => None,
            },
    {
        if let Some(i) = self.sel {
            if i >= n {
                self.sel = None;
            } else if !self.holds_graph(i) {
                self.graphs.push(i);
                return Some(i);
            }
        }
        None
    }

    pub(crate) fn drop_graph(&mut self, i: usize)
        ensures
            final(self)@ == old(self)@.graph_dropped(i),
    {
        let ghost all = self.graphs@;
        let mut out: Vec<usize> = Vec::new();
        let mut k: usize = 0;
        while k < self.graphs.len()
            invariant
                k <= self.graphs.len(),
                all == self.graphs@,
                out@ == without(all.subrange(0, k as int), i),
            decreases self.graphs.len() - k,
        {
            assert(all.subrange(0, k + 1).drop_last() =~= all.subrange(0, k as int));
            if self.graphs[k] != i {
                out.push(self.graphs[k]);
            }
            k += 1;
        }
        assert(all.subrange(0, k as int) =~= all);
        self.graphs = out;
    }
}

/// The colour that a face has where nothing gives it one.
pub open spec fn neutral() -> Rgb {
    Rgb { r: 820_000, g: 820_000, b: 840_000 }
}

/// The pattern that is one colour everywhere.
pub open spec fn solid_pattern(c: Rgb) -> ProcDef {
    ProcDef { pattern: PATTERN_SOLID, params: 0, avg: c }
}

fn solid(c: Rgb) -> (r: ProcDef)
    ensures
        r == solid_pattern(c),
{
    ProcDef { pattern: PATTERN_SOLID, params: 0, avg: c }
}

/// What a table has under a key.
pub open spec fn looked_up<V>(m: Map<u64, V>, k: u64) -> Option<V> {
    if m.dom().contains(k) {
        Some(m[k])
    } else {
        None
    }
}

impl FactoryView {
    /// The colour that a face shows: its own, else that of its solid, else the neutral one.
    pub open spec fn face_color(self, feature: u64, surface: u64) -> Rgb {
        match looked_up(self.data.surface_color, surface) {
            Some(c) => c,
            None => match looked_up(self.data.feature_color, feature) {
                Some(c) => c,
                None => neutral(),
            },
        }
    }

    /// With one more material.
    pub open spec fn material_added(self, t: TextureView) -> FactoryView {
        FactoryView { textures: self.textures.push(t), ..self }
    }

    /// With a face given the next material for its own, in the colour it shows.
    pub open spec fn surface_given(self, feature: u64, surface: u64) -> FactoryView {
        let n = self.textures.len() + 1;
        FactoryView {
            textures: self.textures.push(
                pattern_texture(
                    "Surface "@ + dec(n),
                    solid_pattern(self.face_color(feature, surface)),
                ),
            ),
            data: FactoryDataView {
                surface_texture: self.data.surface_texture.insert(
                    surface,
                    self.textures.len() as usize,
                ),
                ..self.data
            },
            recompute_due: true,
            status: "Materials Factory: this face now has its own material, 'Surface "@ + dec(n)
                + "'"@,
            ..self
        }
    }

    /// The name of a material, or a word for it.
    pub open spec fn material_name(self, i: usize) -> Seq<char> {
        if i < self.textures.len() {
            self.textures[i as int].name
        } else {
            "material"@
        }
    }

    /// With a line of status.
    pub open spec fn with_status(self, s: Seq<char>) -> FactoryView {
        FactoryView { status: s, ..self }
    }
}

impl AppView {
    /// With a given state of the 3D window.
    pub open spec fn with_factory(self, f: FactoryView) -> AppView {
        AppView { factory: f, ..self }
    }

    /// With a given state of the materials window.
    pub open spec fn with_materials(self, m: MaterialsView) -> AppView {
        AppView { materials: m, ..self }
    }

    /// After a face has been clicked for its material. One that has a material of its own is
    /// edited; one that has none gets its own, so that an edit does not repaint the others.
    pub open spec fn surface_selected(self, feature: u64, surface: u64) -> AppView {
        match looked_up(self.factory.data.surface_texture, surface) {
            Some(ti) => {
                let s = self.with_materials(self.materials.aimed_at(ti));
                s.with_factory(
                    s.factory.with_status(
                        "Materials Factory: editing '"@ + s.factory.material_name(ti) + "'"@,
                    ),
                )
            },
            None => self.factory_recorded().own_material_given(feature, surface),
        }
    }

    /// After a face has been given a material of its own, which is then edited.
    pub open spec fn own_material_given(self, feature: u64, surface: u64) -> AppView {
        let n = self.factory.textures.len();
        let t = self.with_factory(self.factory.surface_given(feature, surface));
        t.with_materials(t.materials.aimed_at(n as usize)).said(
            "  surface given its own material 'Surface "@ + dec(n + 1) + "'"@,
        )
    }
}

impl FactoryState {
    fn shown_color(&self, feature: u64, surface: u64) -> (r: Rgb)
        ensures
            r == self@.face_color(feature, surface),
    {
        match self.data.surface_color.get(surface) {
            Some(c) => c,
            None => match self.data.feature_color.get(feature) {
                Some(c) => c,
                None => Rgb { r: 820_000, g: 820_000, b: 840_000 },
            },
        }
    }

    fn give_surface(&mut self, feature: u64, surface: u64)
        ensures
            final(self)@ == old(self)@.surface_given(feature, surface),
    {
        broadcast use group_views;

        let n = dec_text_wide(self.textures.len() as u128 + 1);
        let idx: usize = self.textures.len();
        let base = self.shown_color(feature, surface);
        self.textures.push(
            new_pattern_texture(cat2("Surface ", n.as_str()), solid(base)),
        );
        self.data.surface_texture.insert(surface, idx);
        self.recompute_due = true;
        self.status = cat3(
            "Materials Factory: this face now has its own material, 'Surface ",
            n.as_str(),
            "'",
        );
    }

    fn name_of_material(&self, i: usize) -> (r: String)
        ensures
            r@ == self@.material_name(i),
    {
        if i < self.textures.len() {
            assert(self@.textures[i as int] == self.textures@[i as int]@);
            self.textures[i].name.clone()
        } else {
            String::from_str("material")
        }
    }
}

impl CadApp {
    fn aim_materials(&mut self, i: usize)
        ensures
            final(self)@ == old(self)@.with_materials(old(self)@.materials.aimed_at(i)),
    {
        self.materials.sel = Some(i);
    }

    fn pick_material(&mut self, i: usize)
        ensures
            final(self)@ == old(self)@.with_materials(old(self)@.materials.material_picked(i)),
    {
        self.materials.sel = Some(i);
        self.materials.sel_node = None;
    }

    fn give_face(&mut self, feature: u64, surface: u64)
        ensures
            final(self)@ == old(self)@.with_factory(
                old(self)@.factory.surface_given(feature, surface),
            ),
    {
        self.factory.give_surface(feature, surface);
    }

    /// Points the materials window at a face that was clicked; `feature` is the solid that the
    /// face belongs to.
    pub fn materials_select_surface(&mut self, feature: u64, surface: u64)
        ensures
            final(self)@ == old(self)@.surface_selected(feature, surface),
    {
        match self.factory.data.surface_texture.get(surface) {
            Some(ti) => {
                let name = self.factory.name_of_material(ti);
                self.aim_materials(ti);
                self.set_status(
                    cat3("Materials Factory: editing '", name.as_str(), "'"),
                );
            },
            None => {
                self.snapshot_factory();
                self.give_own_material(feature, surface);
            },
        }
    }

    fn give_own_material(&mut self, feature: u64, surface: u64)
        ensures
            final(self)@ == old(self)@.own_material_given(feature, surface),
    {
        let idx: usize = self.factory.textures.len();
        let line = cat3(
            "  surface given its own material 'Surface ",
            dec_text_wide(idx as u128 + 1).as_str(),
            "'",
        );
        self.give_face(feature, surface);
        self.aim_materials(idx);
        self.say(line);
    }
}

/// A face that was given its own material keeps it: clicking it again adds none.
pub proof fn surface_keeps_its_material(s: AppView, feature: u64, surface: u64)
    requires
        s.factory.textures.len() <= usize::MAX,
    ensures
        ({
            let t = s.surface_selected(feature, surface);
            &&& looked_up(t.factory.data.surface_texture, surface) is Some
            &&& t.surface_selected(feature, surface).factory.textures == t.factory.textures
            &&& t.surface_selected(feature, surface).factory.data == t.factory.data
            &&& t.surface_selected(feature, surface).materials.sel == t.materials.sel
        }),
{
    reveal(AppView::said);
}

/// Giving a face its own material leaves the materials of all other faces as they are.
pub proof fn surface_alone_changes(s: AppView, feature: u64, surface: u64, other: u64)
    requires
        other != surface,
    ensures
        looked_up(s.surface_selected(feature, surface).factory.data.surface_texture, other)
            == looked_up(s.factory.data.surface_texture, other),
        s.surface_selected(feature, surface).factory.data.feature_texture
            == s.factory.data.feature_texture,
        forall|i: int|
            0 <= i < s.factory.textures.len() ==> #[trigger] s.surface_selected(
                feature,
                surface,
            ).factory.textures[i] == s.factory.textures[i],
{
    reveal(AppView::said);
}

impl AppView {
    /// After a frame of the materials window has begun.
    pub open spec fn materials_begun(self) -> AppView {
        self.with_materials(self.materials.seeded(self.factory.textures.len()))
    }

    /// After a frame of the materials window has ended. Closing the window puts the brush down.
    pub open spec fn materials_ended(self, open: bool) -> AppView {
        let s = if self.materials.open && !open {
            self.with_factory(FactoryView { surface_tex_brush: None, ..self.factory })
        } else {
            self
        };
        s.with_materials(MaterialsView { open: open, ..s.materials })
    }

    /// After a grey material has been made, and picked.
    pub open spec fn material_made(self) -> AppView {
        let n = self.factory.textures.len();
        let s = self.with_factory(
            self.factory.material_added(
                pattern_texture(
                    "Material "@ + dec(n + 1),
                    solid_pattern((Rgb { r: 750_000, g: 750_000, b: 750_000 })),
                ),
            ),
        );
        s.with_materials(s.materials.material_picked(n as usize))
    }

    /// After a ready-made material has been added, and picked.
    pub open spec fn preset_added(self, t: TextureView) -> AppView {
        let n = self.factory.textures.len();
        let s = self.with_factory(
            self.factory.material_added(t).with_status(
                "material '"@ + t.name + "' added — tune it, set Apply-to, then ✓ Apply"@,
            ),
        );
        s.with_materials(s.materials.material_picked(n as usize))
    }
}

impl CadApp {
    fn add_material(&mut self, t: Texture)
        ensures
            final(self)@ == old(self)@.with_factory(old(self)@.factory.material_added(t@)),
    {
        broadcast use group_views;

        self.factory.textures.push(t);
    }

    /// Begins a frame of the materials window. It returns the material that needs a graph made from
    /// it, if one does.
    pub fn begin_materials(&mut self) -> (r: Option<usize>)
        ensures
            final(self)@ == old(self)@.materials_begun(),
            r == match old(self)@.materials.sel {
                Some(i) => if i < old(self)@.factory.textures.len()
                    && !old(self)@.materials.graphs.contains(i) {
                    Some(i)
                } else {
                    None
                },
                None => None,
            },
    {
        self.materials.seed(self.factory.textures.len())
    }

    fn drop_brush(&mut self)
        ensures
            final(self)@ == old(self)@.with_factory(
                FactoryView { surface_tex_brush: None, ..old(self)@.factory },
            ),
    {
        self.factory.surface_tex_brush = None;
    }

    fn set_materials_open(&mut self, open: bool)
        ensures
            final(self)@ == old(self)@.with_materials(
                MaterialsView { open: open, ..old(self)@.materials },
            ),
    {
        self.materials.open = open;
    }

    /// Ends a frame of the materials window.
    pub fn end_materials(&mut self, open: bool)
        ensures
            final(self)@ == old(self)@.materials_ended(open),
    {
        if self.materials.open && !open {
            self.drop_brush();
        }
        self.set_materials_open(open);
    }

    /// Makes a grey material, and picks it.
    pub fn new_material(&mut self)
        ensures
            final(self)@ == old(self)@.material_made(),
    {
        let n: usize = self.factory.textures.len();
        let name = cat2("Material ", dec_text_wide(n as u128 + 1).as_str());
        self.add_material(
            new_pattern_texture(name, solid(Rgb { r: 750_000, g: 750_000, b: 750_000 })),
        );
        self.pick_material(n);
    }

    /// Adds a ready-made material, and picks it.
    pub fn add_library_material(&mut self, t: Texture)
        ensures
            final(self)@ == old(self)@.preset_added(t@),
    {
        let n: usize = self.factory.textures.len();
        let status = cat3(
            "material '",
            t.name.as_str(),
            "' added — tune it, set Apply-to, then ✓ Apply",
        );
        self.add_material(t);
        self.set_status(status);
        self.pick_material(n);
    }

    /// Picks a material in the list.
    pub fn choose_material(&mut self, i: usize)
        ensures
            final(self)@ == old(self)@.with_materials(old(self)@.materials.material_picked(i)),
    {
        self.pick_material(i);
    }
}

/// A selected material is one that exists, and has a graph, once a frame has begun.
pub proof fn begun_selection_exists(s: AppView)
    ensures
        s.materials_begun().materials.sel matches Some(i) ==> i < s.factory.textures.len()
            && s.materials_begun().materials.graphs.contains(i),
{
    if let Some(i) = s.materials.sel {
        if i < s.factory.textures.len() && !s.materials.graphs.contains(i) {
            let g = s.materials.graphs.push(i);
            assert(g[s.materials.graphs.len() as int] == i);
        }
    }
}

impl FactoryView {
    /// With another way of painting furniture. Painting whole objects drops the face and the brush.
    pub open spec fn paint_mode_set(self, mode: FurnPaintMode) -> FactoryView {
        if mode == self.furn_paint_mode {
            self
        } else if mode == FurnPaintMode::WholeObject {
            FactoryView {
                furn_paint_mode: mode,
                furn_face_sel: None,
                furn_tex_brush: None,
                ..self
            }
        } else {
            FactoryView { furn_paint_mode: mode, ..self }
        }
    }

    /// The name of the selected piece of furniture.
    pub open spec fn furniture_name(self) -> Option<Seq<char>> {
        match primary(self.sel_furniture) {
            Some(fi) => if fi < self.data.furniture.len()
                && self.data.furniture[fi as int].asset < self.furniture_lib.len() {
                Some(self.furniture_lib[self.data.furniture[fi as int].asset as int].name)
            } else {
                None
            },
            None => None,
        }
    }

    /// Whether a face of the selected piece of furniture has been clicked.
    pub open spec fn face_ready(self) -> bool {
        match self.furn_face_sel {
            Some((f, _)) => primary(self.sel_furniture) == Some(f),
            None => false,
        }
    }

    /// What a material would be applied to.
    pub open spec fn apply_target(self) -> Seq<char> {
        let part = if self.furn_paint_mode == FurnPaintMode::Piece {
            "piece"@
        } else {
            "face"@
        };
        match self.furniture_name() {
            Some(n) => if self.furn_paint_mode == FurnPaintMode::WholeObject {
                "→ "@ + n + " (whole object)"@
            } else if self.face_ready() {
                "→ the clicked "@ + part + " on "@ + n
            } else {
                "→ click a "@ + part + " on "@ + n
                    + " in the 3D view first (or Apply to arm the brush)"@
            },
            None => if self.selection.len() > 0 {
                "→ "@ + dec(self.selection.len()) + " selected solid(s)"@
            } else {
                "→ nothing selected — click an object in the 3D view"@
            },
        }
    }

    /// Whether applying a material paints at once, or arms the brush for the faces clicked next.
    pub open spec fn applies_at_once(self) -> bool {
        self.furn_paint_mode == FurnPaintMode::WholeObject || self.face_ready()
    }
}

impl FactoryState {
    fn set_mode(&mut self, mode: FurnPaintMode)
        ensures
            final(self)@ == old(self)@.paint_mode_set(mode),
    {
        if mode != self.furn_paint_mode {
            self.furn_paint_mode = mode;
            if mode == FurnPaintMode::WholeObject {
                self.furn_face_sel = None;
                self.furn_tex_brush = None;
            }
        }
    }

    fn main_furniture(&self) -> (r: Option<usize>)
        ensures
            r == primary(self@.sel_furniture),
    {
        let n: usize = self.sel_furniture.len();
        if n == 0 {
            None
        } else {
            Some(self.sel_furniture[n - 1])
        }
    }

    fn name_of_furniture(&self) -> (r: Option<String>)
        ensures
            opt_view(r) == self@.furniture_name(),
    {
        match self.main_furniture() {
            Some(fi) => {
                if fi < self.data.furniture.len() {
                    assert(self@.data.furniture[fi as int] == self.data.furniture@[fi as int]@);
                    let a: usize = self.data.furniture[fi].asset;
                    if a < self.furniture_lib.len() {
                        assert(self@.furniture_lib[a as int] == self.furniture_lib@[a as int]@);
                        return Some(self.furniture_lib[a].name.clone());
                    }
                }
                None
            },
            None => None,
        }
    }

    fn face_is_ready(&self) -> (r: bool)
        ensures
            r == self@.face_ready(),
    {
        match self.furn_face_sel {
            Some((f, _)) => match self.main_furniture() {
                Some(fi) => fi == f,
                None => false,
            },
            None => false,
        }
    }

    fn target_text(&self) -> (r: String)
        ensures
            r@ == self@.apply_target(),
    {
        let part = if self.furn_paint_mode == FurnPaintMode::Piece {
            "piece"
        } else {
            "face"
        };
        match self.name_of_furniture() {
            Some(n) => {
                if self.furn_paint_mode == FurnPaintMode::WholeObject {
                    cat3("→ ", n.as_str(), " (whole object)")
                } else if self.face_is_ready() {
                    cat4("→ the clicked ", part, " on ", n.as_str())
                } else {
                    cat5(
                        "→ click a ",
                        part,
                        " on ",
                        n.as_str(),
                        " in the 3D view first (or Apply to arm the brush)",
                    )
                }
            },
            None => {
                if self.selection.len() > 0 {
                    cat3("→ ", dec_text(self.selection.len() as u64).as_str(), " selected solid(s)")
                } else {
                    String::from_str("→ nothing selected — click an object in the 3D view")
                }
            },
        }
    }
}

impl CadApp {
    /// Chooses how furniture is painted.
    pub fn set_paint_mode(&mut self, mode: FurnPaintMode)
        ensures
            final(self)@ == old(self)@.with_factory(old(self)@.factory.paint_mode_set(mode)),
    {
        self.factory.set_mode(mode);
    }

    /// What a material would be applied to, in words.
    pub fn material_target(&self) -> (r: String)
        ensures
            r@ == self@.factory.apply_target(),
    {
        self.factory.target_text()
    }

    /// What the button that applies a material says.
    pub fn material_button(&self) -> (r: &'static str)
        ensures
            r@ == if self@.factory.applies_at_once() {
                "✓  Apply material"@
            } else {
                "🖌  Arm face brush"@
            },
    {
        if self.factory.furn_paint_mode == FurnPaintMode::WholeObject
            || self.factory.face_is_ready() {
            "✓  Apply material"
        } else {
            "🖌  Arm face brush"
        }
    }
}

/// How often a material is named in the rows of a table.
pub open spec fn rows_naming(rows: Seq<(u64, usize)>, t: usize) -> nat
    decreases rows.len(),
{
    if rows.len() == 0 {
        0
    } else {
        rows_naming(rows.drop_last(), t) + if rows.last().1 == t {
            1nat
        } else {
            0nat
        }
    }
}

/// How often furniture shows a material, as a whole or on single faces.
pub open spec fn furniture_naming(f: Seq<Furniture>, t: usize) -> nat
    decreases f.len(),
{
    if f.len() == 0 {
        0
    } else {
        furniture_naming(f.drop_last(), t) + (if f.last().texture == Some(t) {
            1nat
        } else {
            0nat
        }) + rows_naming(f.last().surface_texture.rows@, t)
    }
}

/// A count as far as it is counted.
pub open spec fn counted(n: nat) -> nat {
    if n < u64::MAX {
        n
    } else {
        u64::MAX as nat
    }
}

/// How often a material is used: on solids, on single faces, and on furniture.
pub open spec fn uses_of(d: FactoryData, t: usize) -> nat {
    rows_naming(d.feature_texture.rows@, t) + rows_naming(d.surface_texture.rows@, t)
        + furniture_naming(d.furniture@, t)
}

fn count_rows(rows: &Vec<(u64, usize)>, t: usize) -> (r: usize)
    ensures
        r == rows_naming(rows@, t),
{
    let mut c: usize = 0;
    let mut i: usize = 0;
    while i < rows.len()
        invariant
            i <= rows.len(),
            c == rows_naming(rows@.subrange(0, i as int), t),
            c <= i,
        decreases rows.len() - i,
    {
        assert(rows@.subrange(0, i + 1).drop_last() =~= rows@.subrange(0, i as int));
        if rows[i].1 == t {
            c += 1;
        }
        i += 1;
    }
    assert(rows@.subrange(0, i as int) =~= rows@);
    c
}

fn count_furniture(f: &Vec<Furniture>, t: usize) -> (r: u64)
    ensures
        r == counted(furniture_naming(f@, t)),
{
    let mut c: u64 = 0;
    let mut i: usize = 0;
    while i < f.len()
        invariant
            i <= f.len(),
            c == counted(furniture_naming(f@.subrange(0, i as int), t)),
        decreases f.len() - i,
    {
        assert(f@.subrange(0, i + 1).drop_last() =~= f@.subrange(0, i as int));
        let own: u64 = match f[i].texture {
            Some(k) => if k == t {
                1
            } else {
                0
            },
            None => 0,
        };
        let faces: usize = count_rows(&f[i].surface_texture.rows, t);
        c = c.saturating_add(own).saturating_add(faces as u64);
        i += 1;
    }
    assert(f@.subrange(0, i as int) =~= f@);
    c
}

/// What the list says of a material that is used a number of times.
pub open spec fn use_note(uses: nat, selected: bool) -> Option<Seq<char>> {
    if uses == 0 {
        Some("unused"@)
    } else if selected {
        Some(
            dec(uses) + " use"@ + if uses == 1 {
                ""@
            } else {
                "s"@
            },
        )
    } else {
        None
    }
}

impl CadApp {
    /// How often a material is used in the scene.
    pub fn material_uses(&self, t: usize) -> (r: u64)
        ensures
            r == counted(uses_of(self.factory.data, t)),
    {
        let a: usize = count_rows(&self.factory.data.feature_texture.rows, t);
        let b: usize = count_rows(&self.factory.data.surface_texture.rows, t);
        let c: u64 = count_furniture(&self.factory.data.furniture, t);
        (a as u64).saturating_add(b as u64).saturating_add(c)
    }

    /// What the list says beside a material: that it is unused, or how often the selected one is
    /// used.
    pub fn material_note(&self, t: usize) -> (r: Option<String>)
        ensures
            opt_view(r) == use_note(
                counted(uses_of(self.factory.data, t)),
                self@.materials.sel == Some(t),
            ),
    {
        let n: u64 = self.material_uses(t);
        let picked = match self.materials.sel {
            Some(i) => i == t,
            None => false,
        };
        if n == 0 {
            Some(String::from_str("unused"))
        } else if picked {
            Some(
                cat3(
                    dec_text(n).as_str(),
                    " use",
                    if n == 1 {
                        ""
                    } else {
                        "s"
                    },
                ),
            )
        } else {
            None
        }
    }
}

/// What a node graph says of its material once it is compiled.
#[derive(Clone, Copy, Debug)]
pub struct CompiledMaterial {
    pub roughness: u32,
    pub metallic: u32,
    pub ior: u32,
    pub opacity: u32,
    pub reflect: u32,
    pub normal_map: Option<usize>,
    pub emission: Rgb,
    pub emission_strength: u32,
    pub use_image: bool,
    pub proc: Option<ProcDef>,
}

/// An opacity between a hundredth and all of it.
pub open spec fn kept_opacity(o: u32) -> u32 {
    if o < 10_000 {
        10_000
    } else if o > 1_000_000 {
        1_000_000
    } else {
        o
    }
}

/// A material after a compiled graph has been written onto it. One that uses its image keeps its
/// pixels; one that shows a pattern shows its average colour in them.
pub open spec fn compiled_onto(t: TextureView, c: CompiledMaterial) -> TextureView {
    let f = Finish {
        roughness: c.roughness,
        metallic: c.metallic,
        ior: c.ior,
        normal_map: c.normal_map,
        emission: c.emission,
        emission_strength: c.emission_strength,
        ..t.finish
    };
    let x = Xform { opacity: kept_opacity(c.opacity), reflect: c.reflect, ..t.xform };
    if c.use_image {
        TextureView { xform: x, finish: Finish { proc: None, ..f }, ..t }
    } else {
        match c.proc {
            Some(def) => TextureView {
                w: 1,
                h: 1,
                rgba: swatch(def.avg),
                xform: x,
                finish: Finish { proc: Some(def), avg: def.avg, png_cached: false, ..f },
                ..t
            },
            None => TextureView { xform: x, finish: f, ..t },
        }
    }
}

fn compile_onto(t: &mut Texture, c: &CompiledMaterial)
    ensures
        final(t)@ == compiled_onto(old(t)@, *c),
{
    t.finish.roughness = c.roughness;
    t.finish.metallic = c.metallic;
    t.finish.ior = c.ior;
    t.xform.opacity = if c.opacity < 10_000 {
        10_000
    } else if c.opacity > 1_000_000 {
        1_000_000
    } else {
        c.opacity
    };
    t.xform.reflect = c.reflect;
    t.finish.normal_map = c.normal_map;
    t.finish.emission = c.emission;
    t.finish.emission_strength = c.emission_strength;
    if c.use_image {
        t.finish.proc = None;
    } else if let Some(def) = c.proc {
        t.finish.proc = Some(def);
        t.finish.avg = def.avg;
        t.w = 1;
        t.h = 1;
        t.rgba = swatch_pixel(def.avg);
        t.finish.png_cached = false;
    }
}

impl AppView {
    /// After a compiled graph has been written onto a material.
    pub open spec fn material_compiled(self, i: usize, c: CompiledMaterial) -> AppView {
        if i < self.factory.textures.len() {
            self.with_factory(
                FactoryView {
                    textures: self.factory.textures.update(
                        i as int,
                        compiled_onto(self.factory.textures[i as int], c),
                    ),
                    ..self.factory
                },
            )
        } else {
            self
        }
    }
}

impl CadApp {
    /// Writes a compiled graph onto a material.
    pub fn apply_compiled_material(&mut self, i: usize, c: &CompiledMaterial)
        ensures
            final(self)@ == old(self)@.material_compiled(i, *c),
    {
        broadcast use group_views;

        if i < self.factory.textures.len() {
            let ghost before = self.factory.textures@;
            compile_onto(&mut self.factory.textures[i], c);
            assert(self.factory.textures@ =~= before.update(
                i as int,
                self.factory.textures@[i as int],
            ));
            assert(views(before)[i as int] == before[i as int]@);
        }
    }
}

/// Writing the same compiled graph onto a material every frame changes it once.
pub proof fn compiling_settles(s: AppView, i: usize, c: CompiledMaterial)
    ensures
        s.material_compiled(i, c).material_compiled(i, c) == s.material_compiled(i, c),
{
    if i < s.factory.textures.len() {
        let t = s.factory.textures[i as int];
        assert(compiled_onto(compiled_onto(t, c), c) == compiled_onto(t, c));
        let once = s.material_compiled(i, c).factory.textures;
        assert(once.update(i as int, compiled_onto(once[i as int], c)) =~= once);
    }
}

/// A face that had no material of its own gets a new one, of the colour that the face showed: its
/// own colour, or else its solid's. It is what the window then edits, and undo takes it off the face.
pub proof fn own_material_shows_the_face(s: AppView, feature: u64, surface: u64)
    requires
        !s.factory.data.surface_texture.dom().contains(surface),
        s.factory.textures.len() <= usize::MAX,
    ensures
        ({
            let t = s.surface_selected(feature, surface);
            let n = s.factory.textures.len();
            let c = s.factory.face_color(feature, surface);
            &&& t.factory.textures.len() == n + 1
            &&& t.factory.textures[n as int].finish.avg == c
            &&& t.factory.textures[n as int].finish.proc matches Some(d) && d.avg == c
            &&& t.factory.data.surface_texture.dom().contains(surface)
            &&& t.factory.data.surface_texture[surface] == n
            &&& t.materials.sel == Some(n as usize)
            &&& t.factory.recompute_due
            &&& s.factory.data.surface_color.dom().contains(surface) ==> c
                == s.factory.data.surface_color[surface]
            &&& !s.factory.data.surface_color.dom().contains(surface)
                && s.factory.data.feature_color.dom().contains(feature) ==> c
                == s.factory.data.feature_color[feature]
            &&& s.undo.undo_min_steps >= 1 ==> t.undone().factory.data == s.factory_filled()
        }),
{
    reveal(AppView::said);
    if s.undo.undo_min_steps >= 1 {
        crate::undo::undo_takes_back_factory_edit(
            s,
            s.surface_selected(feature, surface).factory.data,
        );
        crate::undo::pushed_step_stays(
            s.undo.undo_stack,
            crate::undo::StepView::Factory(s.factory_snap()),
            s.undo.undo_budget_bytes as nat,
            s.undo.undo_min_steps as nat,
        );
    }
}

/// A face that has its own material is edited as it is: the window takes up that material, and
/// nothing is added or recorded.
pub proof fn clicked_face_is_edited(s: AppView, feature: u64, surface: u64)
    requires
        s.factory.data.surface_texture.dom().contains(surface),
    ensures
        s.surface_selected(feature, surface).materials.sel == Some(
            s.factory.data.surface_texture[surface],
        ),
        s.surface_selected(feature, surface).factory.data == s.factory.data,
        s.surface_selected(feature, surface).factory.textures == s.factory.textures,
        s.surface_selected(feature, surface).undo == s.undo,
{
}

/// A new material, or one of the library, is the last one, is picked, and leaves the others and all
/// that is painted.
pub proof fn new_material_is_the_last(s: AppView, t: TextureView)
    requires
        s.factory.textures.len() <= usize::MAX,
    ensures
        ({
            let a = s.material_made();
            let b = s.preset_added(t);
            let n = s.factory.textures.len();
            &&& a.factory.textures.len() == n + 1 && b.factory.textures.len() == n + 1
            &&& a.factory.textures.drop_last() == s.factory.textures
            &&& b.factory.textures.drop_last() == s.factory.textures
            &&& b.factory.textures.last() == t
            &&& a.materials.sel == Some(n as usize) && a.materials.sel_node is None
            &&& b.materials.sel == Some(n as usize) && b.materials.sel_node is None
            &&& a.factory.data == s.factory.data && b.factory.data == s.factory.data
            &&& a.undo == s.undo && b.undo == s.undo
        }),
{
    assert(s.material_made().factory.textures.drop_last() =~= s.factory.textures);
    assert(s.preset_added(t).factory.textures.drop_last() =~= s.factory.textures);
}

/// Dropping the graph of a material drops that one and keeps the others.
pub proof fn dropped_graph_is_gone(s: Seq<usize>, i: usize, j: usize)
    ensures
        without(s, i).contains(j) <==> s.contains(j) && j != i,
    decreases s.len(),
{
    if s.len() > 0 {
        let front = s.drop_last();
        let rest = without(front, i);
        let all = without(s, i);
        dropped_graph_is_gone(front, i, j);
        if all.contains(j) {
            let k = choose|k: int| 0 <= k < all.len() && all[k] == j;
            if k < rest.len() {
                assert(rest[k] == j);
                let m = choose|m: int| 0 <= m < front.len() && front[m] == j;
                assert(s[m] == j);
            } else {
                assert(s[s.len() - 1] == j);
            }
        }
        if s.contains(j) && j != i {
            let m = choose|m: int| 0 <= m < s.len() && s[m] == j;
            if m < front.len() {
                assert(front[m] == j);
                let k = choose|k: int| 0 <= k < rest.len() && rest[k] == j;
                assert(all[k] == j);
            } else {
                assert(all.last() == j);
            }
        }
    }
}

/// Closing the materials window puts its brush down; keeping it open keeps the brush. Nothing of the
/// model changes.
pub proof fn closing_puts_the_brush_down(s: AppView, open: bool)
    ensures
        s.materials_ended(open).materials.open == open,
        s.materials.open && !open ==> s.materials_ended(open).factory.surface_tex_brush is None,
        open || !s.materials.open ==> s.materials_ended(open).factory == s.factory,
        s.materials_ended(open).factory.data == s.factory.data,
        s.materials_ended(open).factory.textures == s.factory.textures,
{
}

/// The mode of painting is the one that was chosen. Painting whole objects forgets the face and the
/// brush for single faces; any other choice keeps both.
pub proof fn chosen_paint_mode_is_set(f: FactoryView, mode: FurnPaintMode)
    ensures
        f.paint_mode_set(mode).furn_paint_mode == mode,
        mode == FurnPaintMode::WholeObject && mode != f.furn_paint_mode ==> f.paint_mode_set(
            mode,
        ).furn_face_sel is None && f.paint_mode_set(mode).furn_tex_brush is None,
        mode != FurnPaintMode::WholeObject || mode == f.furn_paint_mode ==> f.paint_mode_set(
            mode,
        ).furn_face_sel == f.furn_face_sel && f.paint_mode_set(mode).furn_tex_brush
            == f.furn_tex_brush,
        f.paint_mode_set(mode).data == f.data,
        mode == FurnPaintMode::WholeObject ==> f.paint_mode_set(mode).applies_at_once(),
{
}

/// A face is ready to be painted exactly if it is one of the piece of furniture that is selected
/// last.
pub proof fn ready_face_is_of_the_selection(f: FactoryView)
    ensures
        f.face_ready() <==> f.furn_face_sel is Some && f.sel_furniture.len() > 0
            && (f.furn_face_sel->0).0 == f.sel_furniture.last(),
{
}

proof fn named_rows_are_counted(rows: Seq<(u64, usize)>, t: usize)
    ensures
        rows_naming(rows, t) == 0 <==> forall|i: int|
            0 <= i < rows.len() ==> (#[trigger] rows[i]).1 != t,
        rows_naming(rows, t) <= rows.len(),
    decreases rows.len(),
{
    if rows.len() > 0 {
        let front = rows.drop_last();
        named_rows_are_counted(front, t);
        assert(forall|i: int| 0 <= i < front.len() ==> front[i] == #[trigger] rows[i]);
        if forall|i: int| 0 <= i < rows.len() ==> (#[trigger] rows[i]).1 != t {
            assert(rows[rows.len() - 1].1 != t);
            assert(forall|i: int| 0 <= i < front.len() ==> (#[trigger] front[i]).1 != t);
        }
    }
}

proof fn named_furniture_is_counted(f: Seq<Furniture>, t: usize)
    ensures
        furniture_naming(f, t) == 0 <==> forall|i: int|
            0 <= i < f.len() ==> (#[trigger] f[i]).texture != Some(t) && forall|j: int|
                0 <= j < f[i].surface_texture.rows@.len()
                    ==> (#[trigger] f[i].surface_texture.rows@[j]).1 != t,
    decreases f.len(),
{
    if f.len() > 0 {
        let front = f.drop_last();
        named_furniture_is_counted(front, t);
        named_rows_are_counted(f.last().surface_texture.rows@, t);
        assert(forall|i: int| 0 <= i < front.len() ==> front[i] == #[trigger] f[i]);
        let clear = |p: Furniture|
            p.texture != Some(t) && forall|j: int|
                0 <= j < p.surface_texture.rows@.len() ==> (#[trigger] p.surface_texture.rows@[j]).1
                    != t;
        if forall|i: int| 0 <= i < f.len() ==> clear(#[trigger] f[i]) {
            assert(clear(f[f.len() - 1]));
            assert(forall|i: int| 0 <= i < front.len() ==> clear(#[trigger] front[i]));
        }
        if forall|i: int| 0 <= i < front.len() ==> clear(#[trigger] front[i]) {
            if clear(f.last()) {
                assert forall|i: int| 0 <= i < f.len() implies clear(#[trigger] f[i]) by {
                    if i < front.len() {
                        assert(clear(front[i]));
                    }
                }
            }
        }
    }
}

/// A material is said to be unused exactly if no solid, no face and no piece of furniture names it.
pub proof fn unused_material_is_named_nowhere(d: FactoryData, t: usize)
    ensures
        uses_of(d, t) == 0 <==> {
            &&& forall|i: int|
                0 <= i < d.feature_texture.rows@.len() ==> (#[trigger] d.feature_texture.rows@[i]).1
                    != t
            &&& forall|i: int|
                0 <= i < d.surface_texture.rows@.len() ==> (#[trigger] d.surface_texture.rows@[i]).1
                    != t
            &&& forall|i: int|
                0 <= i < d.furniture@.len() ==> (#[trigger] d.furniture@[i]).texture != Some(t)
                    && forall|j: int|
                    0 <= j < d.furniture@[i].surface_texture.rows@.len()
                        ==> (#[trigger] d.furniture@[i].surface_texture.rows@[j]).1 != t
        },
{
    named_rows_are_counted(d.feature_texture.rows@, t);
    named_rows_are_counted(d.surface_texture.rows@, t);
    named_furniture_is_counted(d.furniture@, t);
}

/// A compiled graph gives its material what it says: the finish, and an opacity that is at least a
/// hundredth and at most whole. The material keeps its name, its placement and its pixels, unless a
/// pattern takes their place. No other material changes.
pub proof fn compiled_material_shows_the_graph(s: AppView, i: usize, c: CompiledMaterial, j: int)
    requires
        i < s.factory.textures.len(),
        0 <= j < s.factory.textures.len(),
    ensures
        ({
            let a = s.factory.textures[i as int];
            let t = s.material_compiled(i, c).factory;
            let b = t.textures[i as int];
            &&& t.textures.len() == s.factory.textures.len()
            &&& j != i ==> t.textures[j] == s.factory.textures[j]
            &&& t.data == s.factory.data
            &&& b.name == a.name
            &&& b.finish.roughness == c.roughness && b.finish.metallic == c.metallic && b.finish.ior
                == c.ior && b.finish.normal_map == c.normal_map && b.finish.emission == c.emission
                && b.finish.emission_strength == c.emission_strength
            &&& b.xform.reflect == c.reflect
            &&& 10_000 <= b.xform.opacity <= 1_000_000
            &&& 10_000 <= c.opacity <= 1_000_000 ==> b.xform.opacity == c.opacity
            &&& c.opacity < 10_000 ==> b.xform.opacity == 10_000
            &&& b.xform.scale == a.xform.scale && b.xform.rot == a.xform.rot && b.xform.offset_u
                == a.xform.offset_u && b.xform.offset_v == a.xform.offset_v
            &&& b.finish.triplanar == a.finish.triplanar && b.finish.tiles_per_m
                == a.finish.tiles_per_m
            &&& c.use_image ==> b.finish.proc is None && b.rgba == a.rgba && b.w == a.w && b.h == a.h
            &&& !c.use_image && c.proc is Some ==> b.finish.proc == c.proc && b.finish.avg == (
            c.proc->0).avg
            &&& !c.use_image && c.proc is None ==> b.finish.proc == a.finish.proc && b.rgba == a.rgba
        }),
{
}

/// How often a material is used is noted of one that is not used at all, and of the selected one.
pub proof fn uses_are_noted(uses: nat, selected: bool)
    ensures
        use_note(uses, selected) is None <==> uses > 0 && !selected,
        use_note(0, selected) == use_note(0, !selected),
{
}

/// The furniture that is named is the piece that is selected last, by the name of its asset.
pub proof fn last_selected_furniture_is_named(f: FactoryView, i: usize)
    requires
        f.sel_furniture.len() > 0,
        f.sel_furniture.last() == i,
        i < f.data.furniture.len(),
        f.data.furniture[i as int].asset < f.furniture_lib.len(),
    ensures
        f.furniture_name() == Some(f.furniture_lib[f.data.furniture[i as int].asset as int].name),
{
}

/// A frame of the materials window keeps the material that is selected as long as there is such a one,
/// and the graphs that there are.
pub proof fn selection_stays_while_it_exists(s: AppView, i: usize)
    ensures
        s.materials.sel matches Some(k) ==> k < s.factory.textures.len()
            ==> s.materials_begun().materials.sel == Some(k),
        s.materials.sel is None ==> s.materials_begun().materials == s.materials,
        s.materials.graphs.contains(i) ==> s.materials_begun().materials.graphs.contains(i),
        s.materials_begun().materials.open == s.materials.open,
        s.materials_begun().factory == s.factory,
{
    if s.materials.graphs.contains(i) {
        let k = choose|k: int| 0 <= k < s.materials.graphs.len() && s.materials.graphs[k] == i;
        assert(s.materials_begun().materials.graphs[k] == i);
    }
}

} // verus!
