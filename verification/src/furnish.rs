//! Generated furniture and stairs: putting them into the scene, with the materials of their parts.
use vstd::prelude::*;

use crate::app::{AppView, CadApp, CanvasView};
use crate::copying::{group_views, views};
use crate::factory::{
    image_texture, new_image_texture, Asset, AssetView, FactoryDataView, FactoryState, FactoryView,
    Finish, Furniture, FurnitureView, Rgb, Texture, TextureView,
};
use crate::table::Table;
use crate::text::{cat2, cat3, cat4, cat5, dec, dec_text};

verus! {

/// A generated mesh: how many triangles it has, the part and the group of faces that each belongs
/// to, and its base colour.
pub struct Mesh {
    pub tris: usize,
    pub part_ids: Vec<u32>,
    pub faces: Vec<u32>,
    pub color: Option<Rgb>,
}

/// The model of a [`Mesh`].
pub struct MeshView {
    pub tris: usize,
    pub part_ids: Seq<u32>,
    pub faces: Seq<u32>,
    pub color: Option<Rgb>,
}

impl View for Mesh {
    type V = MeshView;

    open spec fn view(&self) -> MeshView {
        MeshView {
            tris: self.tris,
            part_ids: self.part_ids@,
            faces: self.faces@,
            color: self.color,
        }
    }
}

impl MeshView {
    /// Every triangle belongs to a group of faces.
    pub open spec fn wf(self) -> bool {
        self.faces.len() == self.tris
    }

    /// The asset that the library keeps of a mesh. Parts are only taken over where every triangle
    /// has one.
    pub open spec fn asset(self, name: Seq<char>) -> AssetView {
        AssetView {
            name: name,
            tris: self.tris,
            part_ids: if self.part_ids.len() == self.tris {
                self.part_ids
            } else {
                Seq::empty()
            },
            face_group: self.faces,
            color: self.color,
            alpha_resolved: true,
        }
    }
}

fn make_asset(mesh: Mesh, name: String) -> (r: Asset)
    ensures
        r@ == mesh@.asset(name@),
{
    let parts = if mesh.part_ids.len() == mesh.tris {
        mesh.part_ids
    } else {
        Vec::new()
    };
    Asset {
        name: name,
        tris: mesh.tris,
        part_ids: parts,
        face_group: mesh.faces,
        color: mesh.color,
        alpha_resolved: true,
    }
}

/// The part that a triangle belongs to.
pub open spec fn part_of(part_ids: Seq<u32>, t: int) -> int {
    if 0 <= t < part_ids.len() {
        part_ids[t] as int
    } else {
        0
    }
}

/// The materials of the groups of faces that the first `n` triangles belong to, given the materials
/// of the parts.
pub open spec fn bound_faces(a: AssetView, per_part: Seq<Option<usize>>, n: int) -> Map<u64, usize>
    decreases n,
{
    if n <= 0 {
        Map::empty()
    } else {
        let rest = bound_faces(a, per_part, n - 1);
        let p = part_of(a.part_ids, n - 1);
        if p < per_part.len() && per_part[p] is Some {
            rest.insert(a.face_group[n - 1] as u64, per_part[p]->0)
        } else {
            rest
        }
    }
}

fn bind_faces(a: &Asset, per_part: &Vec<Option<usize>>) -> (r: Table<usize>)
    requires
        a.face_group@.len() == a.tris,
    ensures
        r@ == bound_faces(a@, per_part@, a.tris as int),
{
    let mut r: Table<usize> = Table::new();
    let mut t: usize = 0;
    while t < a.tris
        invariant
            t <= a.tris,
            a.face_group@.len() == a.tris,
            r@ == bound_faces(a@, per_part@, t as int),
        decreases a.tris - t,
    {
        let p: u32 = if t < a.part_ids.len() {
            a.part_ids[t]
        } else {
            0
        };
        if (p as u64) < per_part.len() as u64 {
            if let Some(tex) = per_part[p as usize] {
                r.insert(a.face_group[t] as u64, tex);
            }
        }
        t += 1;
    }
    r
}

/// A kind of part of generated furniture.
pub trait PartKind: Copy {
    /// Which of the materials that come with the furniture a part shows; none where it shows the
    /// base colour.
    spec fn shows(self) -> Option<nat>;

    /// Which of the materials that come with the furniture a part shows.
    fn shown(self) -> (r: Option<usize>)
        ensures
            match r {
                Some(k) => self.shows() == Some(k as nat),
                None => self.shows() is None,
            },
    ;
}

/// A part that shows the base colour.
#[derive(Clone, Copy, Debug, PartialEq, Eq, Structural)]
pub struct PlainPart;

impl PartKind for PlainPart {
    open spec fn shows(self) -> Option<nat> {
        None
    }

    fn shown(self) -> (r: Option<usize>) {
        None
    }
}

/// The materials of the parts, where the first material that comes with the furniture is at `base`.
pub open spec fn part_materials<M: PartKind>(mats: Seq<M>, base: int) -> Seq<Option<usize>> {
    mats.map_values(
        |m: M|
            match m.shows() {
                Some(k) => Some((base + k) as usize),
                None => None,
            },
    )
}

fn materials_of<M: PartKind>(mats: &Vec<M>, base: usize, count: usize) -> (r: Vec<Option<usize>>)
    requires
        base + count <= usize::MAX,
        forall|m: M| (#[trigger] m.shows()) matches Some(k) ==> k < count,
    ensures
        r@ == part_materials(mats@, base as int),
{
    let mut out: Vec<Option<usize>> = Vec::new();
    let mut i: usize = 0;
    while i < mats.len()
        invariant
            i <= mats.len(),
            base + count <= usize::MAX,
            forall|m: M| (#[trigger] m.shows()) matches Some(k) ==> k < count,
            out@ == part_materials(mats@.subrange(0, i as int), base as int),
        decreases mats.len() - i,
    {
        let m = mats[i];
        let ghost next = mats@.subrange(0, i + 1);
        let s: Option<usize> = m.shown();
        let v: Option<usize> = match s {
            Some(k) => {
                assert(m.shows() == Some(k as nat));
                Some(base + k)
            },
            None => None,
        };
        out.push(v);
        assert(out@ =~= part_materials(next, base as int));
        i += 1;
    }
    assert(mats@.subrange(0, i as int) =~= mats@);
    out
}

impl FactoryView {
    /// With a piece of furniture in the scene, selected, that shows a new asset in the materials
    /// that come with it.
    pub open spec fn furnished(
        self,
        name: Seq<char>,
        mesh: MeshView,
        swatches: Seq<TextureView>,
        per_part: Seq<Option<usize>>,
    ) -> FactoryView {
        let a = mesh.asset(name);
        FactoryView {
            furniture_lib: self.furniture_lib.push(a),
            textures: self.textures + swatches,
            data: FactoryDataView {
                furniture: self.data.furniture.push(
                    FurnitureView {
                        asset: self.furniture_lib.len() as usize,
                        texture: None,
                        surface_texture: bound_faces(a, per_part, mesh.tris as int),
                    },
                ),
                ..self.data
            },
            sel_furniture: seq![self.data.furniture.len() as usize],
            open: true,
            ..self
        }
    }
}

fn append_textures(t: &mut Vec<Texture>, more: Vec<Texture>)
    ensures
        views(final(t)@) == views(old(t)@) + views(more@),
        final(t)@.len() == old(t)@.len() + more@.len(),
{
    let ghost was = t@;
    let ghost add = more@;
    let mut more = more;
    t.append(&mut more);
    assert(views(t@) =~= views(was) + views(add));
}

impl FactoryState {
    fn furnish<M: PartKind>(
        &mut self,
        name: String,
        mesh: Mesh,
        swatches: Vec<Texture>,
        mats: &Vec<M>,
    )
        requires
            mesh@.wf(),
            forall|m: M| (#[trigger] m.shows()) matches Some(k) ==> k < swatches@.len(),
        ensures
            final(self)@ == old(self)@.furnished(
                name@,
                mesh@,
                views(swatches@),
                part_materials(mats@, old(self)@.textures.len() as int),
            ),
    {
        broadcast use group_views;

        let idx: usize = self.furniture_lib.len();
        let at: usize = self.data.furniture.len();
        let base: usize = self.textures.len();
        let count: usize = swatches.len();
        append_textures(&mut self.textures, swatches);
        let all: usize = self.textures.len();
        assert(base + count == all);
        let per_part = materials_of(mats, base, count);
        let a = make_asset(mesh, name);
        let faces = bind_faces(&a, &per_part);
        self.furniture_lib.push(a);
        self.data.furniture.push(
            Furniture { asset: idx, texture: None, surface_texture: faces },
        );
        let mut sel: Vec<usize> = Vec::new();
        sel.push(at);
        assert(sel@ =~= seq![at]);
        self.sel_furniture = sel;
        self.open = true;
    }
}

impl AppView {
    /// After generated furniture has been put into the scene, as a step of the undo history.
    pub open spec fn furniture_put(
        self,
        name: Seq<char>,
        mesh: MeshView,
        swatches: Seq<TextureView>,
        per_part: Seq<Option<usize>>,
    ) -> AppView {
        self.factory_recorded().with_factory(
            self.factory.furnished(name, mesh, swatches, per_part),
        )
    }

    /// With the 3D view for the active one.
    pub open spec fn in_three_d(self) -> AppView {
        AppView { canvas: CanvasView { three_d: true, ..self.canvas }, ..self }
    }

    /// With the first `n` of some warnings in the command history.
    pub open spec fn warned(self, head: Seq<char>, warnings: Seq<Seq<char>>, n: int) -> AppView
        decreases n,
    {
        if n <= 0 {
            self
        } else {
            self.warned(head, warnings, n - 1).said(head + warnings[n - 1])
        }
    }
}

/// At most two.
pub open spec fn first_two(n: nat) -> int {
    if n > 2 {
        2
    } else {
        n as int
    }
}

impl CadApp {
    fn put_furnished<M: PartKind>(
        &mut self,
        name: String,
        mesh: Mesh,
        swatches: Vec<Texture>,
        mats: &Vec<M>,
    )
        requires
            mesh@.wf(),
            forall|m: M| (#[trigger] m.shows()) matches Some(k) ==> k < swatches@.len(),
        ensures
            final(self)@ == old(self)@.with_factory(
                old(self)@.factory.furnished(
                    name@,
                    mesh@,
                    views(swatches@),
                    part_materials(mats@, old(self)@.factory.textures.len() as int),
                ),
            ),
    {
        self.factory.furnish(name, mesh, swatches, mats);
    }

    /// Puts a piece of generated furniture into the scene, as a step of the undo history.
    pub(crate) fn put_furniture<M: PartKind>(
        &mut self,
        name: String,
        mesh: Mesh,
        swatches: Vec<Texture>,
        mats: &Vec<M>,
    )
        requires
            mesh@.wf(),
            forall|m: M| (#[trigger] m.shows()) matches Some(k) ==> k < swatches@.len(),
        ensures
            final(self)@ == old(self)@.furniture_put(
                name@,
                mesh@,
                views(swatches@),
                part_materials(mats@, old(self)@.factory.textures.len() as int),
            ),
    {
        self.snapshot_factory();
        self.put_furnished(name, mesh, swatches, mats);
    }

    pub(crate) fn show_three_d(&mut self)
        ensures
            final(self)@ == old(self)@.in_three_d(),
    {
        self.canvas.three_d = true;
    }

    pub(crate) fn warn_first(&mut self, head: &str, warnings: &Vec<String>)
        ensures
            final(self)@ == old(self)@.warned(
                head@,
                views(warnings@),
                first_two(views(warnings@).len()),
            ),
    {
        let ghost was = self@;
        let ghost all = views(warnings@);
        let most: usize = if warnings.len() > 2 {
            2
        } else {
            warnings.len()
        };
        let mut n: usize = 0;
        while n < most
            invariant
                n <= most <= warnings.len(),
                all == views(warnings@),
                self@ == was.warned(head@, all, n as int),
            decreases most - n,
        {
            assert(all[n as int] == warnings@[n as int]@);
            self.say(cat2(head, warnings[n].as_str()));
            n += 1;
        }
    }
}

impl AppView {
    /// After a plain mesh has been put into the scene, or found to have nothing in it.
    pub open spec fn mesh_placed(self, mesh: MeshView, name: Seq<char>, verb: Seq<char>) -> AppView {
        if mesh.tris == 0 {
            self.with_factory(self.factory.with_status(name + ": no geometry"@))
        } else {
            let s = self.furniture_put(name, mesh, Seq::empty(), Seq::empty());
            s.with_factory(
                s.factory.with_status(
                    name + " "@ + verb + " ("@ + dec(mesh.tris as nat)
                        + " tris) — placed at model centre"@,
                ),
            ).said(
                "  architecture: "@ + name + " "@ + verb + " ("@ + dec(mesh.tris as nat)
                    + " tris) and placed"@,
            )
        }
    }
}

impl CadApp {
    /// Puts a mesh into the scene at the model's centre; `verb` says how it came about.
    pub fn factory_place_furniture_mesh(&mut self, mesh: Mesh, name: &str, verb: &str)
        requires
            mesh@.wf(),
        ensures
            final(self)@ == old(self)@.mesh_placed(mesh@, name@, verb@),
    {
        if mesh.tris == 0 {
            self.set_status(cat2(name, ": no geometry"));
            return;
        }
        let n = dec_text(mesh.tris as u64);
        let none: Vec<Texture> = Vec::new();
        let parts: Vec<PlainPart> = Vec::new();
        proof {
            assert(views(none@) =~= Seq::<TextureView>::empty());
            assert(part_materials(parts@, self@.factory.textures.len() as int) =~= Seq::<
                Option<usize>,
            >::empty());
        }
        self.put_furniture(String::from_str(name), mesh, none, &parts);
        let tail = cat3(" (", n.as_str(), " tris) — placed at model centre");
        let status = cat4(name, " ", verb, tail.as_str());
        let line_tail = cat3(" (", n.as_str(), " tris) and placed");
        let line = cat5("  architecture: ", name, " ", verb, line_tail.as_str());
        proof {
            let m = dec(mesh.tris as nat);
            assert(name@ + " "@ + verb@ + (" ("@ + m + " tris) — placed at model centre"@)
                =~= name@ + " "@ + verb@ + " ("@ + m + " tris) — placed at model centre"@);
            assert("  architecture: "@ + name@ + " "@ + verb@ + (" ("@ + m + " tris) and placed"@)
                =~= "  architecture: "@ + name@ + " "@ + verb@ + " ("@ + m + " tris) and placed"@);
        }
        self.set_status(status);
        self.say(line);
    }

    /// Puts what a generator of stairs and ramps made into the scene, or says why it made nothing.
    pub fn arch_build_and_place(&mut self, built: Result<Mesh, String>, name: &str)
        requires
            built matches Ok(m) ==> m@.wf(),
        ensures
            final(self)@ == match built {
                Ok(m) => old(self)@.mesh_placed(m@, name@, "generated"@),
                Err(e) => old(self)@.with_factory(
                    old(self)@.factory.with_status(name@ + ": "@ + e@),
                ),
            },
    {
        match built {
            Ok(m) => self.factory_place_furniture_mesh(m, name, "generated"),
            Err(e) => self.set_status(cat3(name, ": ", e.as_str())),
        }
    }
}

/// A channel of a colour, from a byte.
pub open spec fn byte_part(b: u8) -> u32 {
    (b * 1_000_000 / 255) as u32
}

/// A material of one flat colour.
pub open spec fn flat(name: Seq<char>, r: u8, g: u8, b: u8) -> TextureView {
    image_texture(
        name,
        1,
        1,
        seq![r, g, b, 255u8],
        Rgb { r: byte_part(r), g: byte_part(g), b: byte_part(b) },
    )
}

/// A material with a given roughness and metalness.
pub open spec fn finished(t: TextureView, roughness: u32, metallic: u32) -> TextureView {
    TextureView { finish: Finish { roughness: roughness, metallic: metallic, ..t.finish }, ..t }
}

pub(crate) fn flat_texture(name: &str, r: u8, g: u8, b: u8) -> (t: Texture)
    ensures
        t@ == flat(name@, r, g, b),
{
    let mut rgba: Vec<u8> = Vec::new();
    rgba.push(r);
    rgba.push(g);
    rgba.push(b);
    rgba.push(255);
    assert(rgba@ =~= seq![r, g, b, 255u8]);
    new_image_texture(
        String::from_str(name),
        1,
        1,
        rgba,
        Rgb {
            r: (r as u32 * 1_000_000 / 255) as u32,
            g: (g as u32 * 1_000_000 / 255) as u32,
            b: (b as u32 * 1_000_000 / 255) as u32,
        },
    )
}

pub(crate) fn finished_texture(name: &str, r: u8, g: u8, b: u8, roughness: u32, metallic: u32) -> (t: Texture)
    ensures
        t@ == finished(flat(name@, r, g, b), roughness, metallic),
{
    let mut t = flat_texture(name, r, g, b);
    t.finish.roughness = roughness;
    t.finish.metallic = metallic;
    t
}

/// Furniture that is put into the model is the last piece, of an asset that is the last of the
/// library and has the mesh's name and triangles. It alone is selected, its materials come behind
/// those there were, and everything that was there stays. Undo takes it out of the model.
pub proof fn put_furniture_is_the_last(
    s: AppView,
    name: Seq<char>,
    mesh: MeshView,
    swatches: Seq<TextureView>,
    per_part: Seq<Option<usize>>,
)
    requires
        s.factory.furniture_lib.len() <= usize::MAX,
        s.factory.data.furniture.len() <= usize::MAX,
    ensures
        ({
            let t = s.furniture_put(name, mesh, swatches, per_part);
            let a = s.factory;
            let b = t.factory;
            let n = a.data.furniture.len();
            &&& b.data.furniture.len() == n + 1
            &&& b.data.furniture.drop_last() == a.data.furniture
            &&& b.data.furniture[n as int].asset == a.furniture_lib.len()
            &&& b.data.furniture[n as int].texture is None
            &&& b.furniture_lib.len() == a.furniture_lib.len() + 1
            &&& b.furniture_lib.drop_last() == a.furniture_lib
            &&& b.furniture_lib.last().name == name
            &&& b.furniture_lib.last().tris == mesh.tris
            &&& b.furniture_lib.last().face_group == mesh.faces
            &&& b.furniture_lib.last().color == mesh.color
            &&& b.sel_furniture == seq![n as usize]
            &&& b.textures == a.textures + swatches
            &&& b.data.features == a.data.features && b.data.rooms == a.data.rooms
            &&& b.open
            &&& t.files.unsaved
            &&& t.doc == s.doc && t.light == s.light
            &&& s.undo.undo_min_steps >= 1 ==> t.undone().factory.data == s.factory_filled()
        }),
{
    reveal(AppView::said);
    let t = s.furniture_put(name, mesh, swatches, per_part);
    assert(t.factory.data.furniture.drop_last() =~= s.factory.data.furniture);
    assert(t.factory.furniture_lib.drop_last() =~= s.factory.furniture_lib);
    if s.undo.undo_min_steps >= 1 {
        crate::undo::undo_takes_back_factory_edit(s, t.factory.data);
        crate::undo::pushed_step_stays(
            s.undo.undo_stack,
            crate::undo::StepView::Factory(s.factory_snap()),
            s.undo.undo_budget_bytes as nat,
            s.undo.undo_min_steps as nat,
        );
    }
}

/// A face shows the material of the part that its last triangle is of, as far as parts of that face
/// have one. A face is named only by the triangles it has.
pub proof fn faces_show_their_part(a: AssetView, per_part: Seq<Option<usize>>, n: int, face: u64)
    requires
        0 <= n <= a.face_group.len(),
    ensures
        ({
            let m = bound_faces(a, per_part, n);
            let of = |t: int|
                if t < a.part_ids.len() {
                    a.part_ids[t] as int
                } else {
                    0
                };
            let bound = |t: int|
                a.face_group[t] as u64 == face && of(t) < per_part.len() && per_part[of(t)] is Some;
            &&& m.dom().contains(face) <==> exists|t: int| 0 <= t < n && #[trigger] bound(t)
            &&& m.dom().contains(face) ==> exists|t: int|
                0 <= t < n && #[trigger] bound(t) && m[face] == per_part[of(t)]->0 && forall|u: int|
                    t < u < n ==> !#[trigger] bound(u)
        }),
    decreases n,
{
    if n > 0 {
        faces_show_their_part(a, per_part, n - 1, face);
        let rest = bound_faces(a, per_part, n - 1);
        let of = |t: int|
            if t < a.part_ids.len() {
                a.part_ids[t] as int
            } else {
                0
            };
        let bound = |t: int|
            a.face_group[t] as u64 == face && of(t) < per_part.len() && per_part[of(t)] is Some;
        if bound(n - 1) {
            assert(bound_faces(a, per_part, n)[face] == per_part[of(n - 1)]->0);
        } else if rest.dom().contains(face) {
            let t = choose|t: int|
                0 <= t < n - 1 && #[trigger] bound(t) && rest[face] == per_part[of(t)]->0 && forall|
                    u: int,
                | t < u < n - 1 ==> !#[trigger] bound(u);
            assert(bound(t));
            assert forall|u: int| t < u < n implies !#[trigger] bound(u) by {}
        }
    }
}

/// A part that comes with its own material shows that one of those that were added with it.
pub proof fn parts_show_the_added_materials<M: PartKind>(
    mats: Seq<M>,
    textures: Seq<TextureView>,
    swatches: Seq<TextureView>,
    i: int,
)
    requires
        0 <= i < mats.len(),
        textures.len() + swatches.len() <= usize::MAX,
        mats[i].shows() matches Some(k) ==> k < swatches.len(),
    ensures
        part_materials(mats, textures.len() as int).len() == mats.len(),
        match part_materials(mats, textures.len() as int)[i] {
            Some(t) => mats[i].shows() is Some && (textures + swatches)[t as int]
                == swatches[mats[i].shows()->0 as int],
            None => mats[i].shows() is None,
        },
{
}

/// A byte of a colour is kept as near as a millionth allows, and black and white are exact.
pub proof fn bytes_are_kept_as_fractions(b: u8)
    ensures
        b * 1_000_000 - 255 < byte_part(b) * 255 <= b * 1_000_000,
        byte_part(0) == 0,
        byte_part(255) == 1_000_000,
        byte_part(b) <= 1_000_000,
{
}

/// The warnings are said in their order, behind everything that was said before.
pub proof fn warnings_are_said_in_order(s: AppView, head: Seq<char>, warnings: Seq<Seq<char>>, n: int, i: int)
    requires
        0 <= i < n <= warnings.len(),
    ensures
        ({
            let t = s.warned(head, warnings, n);
            &&& t.history.len() == s.history.len() + n
            &&& t.history[s.history.len() + i] == head + warnings[i]
            &&& t.factory == s.factory && t.doc == s.doc && t.undo == s.undo && t.canvas == s.canvas
        }),
    decreases n,
{
    reveal(AppView::said);
    if i < n - 1 {
        warnings_are_said_in_order(s, head, warnings, n - 1, i);
    } else if n > 1 {
        warnings_are_said_in_order(s, head, warnings, n - 1, 0);
    } else {
        assert(s.warned(head, warnings, 0) == s);
    }
}

/// A mesh without triangles is not placed: only the status tells of it.
pub proof fn empty_mesh_is_not_placed(s: AppView, mesh: MeshView, name: Seq<char>, verb: Seq<char>)
    ensures
        mesh.tris == 0 ==> {
            let t = s.mesh_placed(mesh, name, verb);
            t.factory.data == s.factory.data && t.factory.furniture_lib == s.factory.furniture_lib
                && t.undo == s.undo && t.history == s.history
        },
        mesh.tris > 0 ==> {
            let t = s.mesh_placed(mesh, name, verb);
            t.factory.data.furniture.len() == s.factory.data.furniture.len() + 1
                && t.factory.furniture_lib.last().name == name && t.factory.textures
                == s.factory.textures && t.history.len() == s.history.len() + 1
        },
{
    reveal(AppView::said);
}

/// An asset tells its parts apart where the mesh has one for each triangle, and not at all otherwise.
pub proof fn assets_keep_whole_parts(m: MeshView, name: Seq<char>)
    ensures
        m.part_ids.len() == m.tris ==> m.asset(name).part_ids == m.part_ids,
        m.part_ids.len() != m.tris ==> m.asset(name).part_ids.len() == 0,
        m.asset(name).face_group == m.faces,
        m.asset(name).tris == m.tris,
        m.asset(name).alpha_resolved,
{
}

/// A plain colour is one opaque pixel of it, and a finish is what it is given.
pub proof fn plain_colors_are_one_pixel(name: Seq<char>, r: u8, g: u8, b: u8, rough: u32, metal: u32)
    ensures
        ({
            let t = finished(flat(name, r, g, b), rough, metal);
            &&& t.name == name
            &&& t.w == 1 && t.h == 1
            &&& t.rgba == seq![r, g, b, 255u8]
            &&& t.finish.roughness == rough && t.finish.metallic == metal
            &&& t.finish.proc is None
            &&& t.finish.avg.r * 255 <= r * 1_000_000 < t.finish.avg.r * 255 + 255
            &&& t.finish.avg.g * 255 <= g * 1_000_000 < t.finish.avg.g * 255 + 255
            &&& t.finish.avg.b * 255 <= b * 1_000_000 < t.finish.avg.b * 255 + 255
        }),
{
}

} // verus!
