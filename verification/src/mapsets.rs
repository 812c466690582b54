//! Folders of image maps that make up one material.
use vstd::prelude::*;

use crate::app::{AppView, CadApp};
use crate::copying::{copy_all, group_views, views};
use crate::dialog::{DialogView, FileDialogMode};
use crate::factory::{
    image_texture, new_image_texture, FactoryState, FactoryView, Finish, Rgb, Texture, TextureView,
};
use crate::text::{cat2, cat3, cat4};

verus! {

/// What an image of a set says of a surface. Height and opacity are told from the others, and then
/// left aside.
#[derive(Clone, Copy, Debug, PartialEq, Eq, Structural)]
pub enum MapKind {
    BaseColor,
    Normal,
    Roughness,
    Metallic,
    AmbientOcclusion,
    Height,
    Opacity,
}

/// An image of a set: what it says, how that is called, its pixels and their average colour.
pub struct SetMap {
    pub kind: MapKind,
    pub label: String,
    pub w: u32,
    pub h: u32,
    pub rgba: Vec<u8>,
    pub avg: Rgb,
}

/// The model of a [`SetMap`].
pub struct SetMapView {
    pub kind: MapKind,
    pub label: Seq<char>,
    pub w: u32,
    pub h: u32,
    pub rgba: Seq<u8>,
    pub avg: Rgb,
}

impl View for SetMap {
    type V = SetMapView;

    open spec fn view(&self) -> SetMapView {
        SetMapView {
            kind: self.kind,
            label: self.label@,
            w: self.w,
            h: self.h,
            rgba: self.rgba@,
            avg: self.avg,
        }
    }
}

/// The material that keeps an image of a set. It is laid out in the model's space, at one tile a
/// metre.
pub open spec fn map_texture(set: Seq<char>, m: SetMapView) -> TextureView {
    let t = image_texture(set + " · "@ + m.label, m.w, m.h, m.rgba, m.avg);
    TextureView { finish: Finish { triplanar: true, tiles_per_m: 1_000_000, ..t.finish }, ..t }
}

/// A material with the pixels of an image of a set for its own.
pub open spec fn based_on(t: TextureView, m: SetMapView) -> TextureView {
    TextureView {
        w: m.w,
        h: m.h,
        rgba: m.rgba,
        finish: Finish {
            avg: m.avg,
            proc: None,
            triplanar: true,
            tiles_per_m: 1_000_000,
            png_cached: false,
            ..t.finish
        },
        ..t
    }
}

/// A material with an image of a set bound to it, where that image is not its base.
pub open spec fn map_bound(t: TextureView, kind: MapKind, idx: usize) -> TextureView {
    match kind {
        MapKind::Normal => TextureView {
            finish: Finish { normal_map: Some(idx), ..t.finish },
            ..t
        },
        MapKind::Roughness => TextureView {
            finish: Finish { rough_map: Some(idx), ..t.finish },
            ..t
        },
        MapKind::Metallic => TextureView {
            finish: Finish { metal_map: Some(idx), metallic: 1_000_000, ..t.finish },
            ..t
        },
        MapKind::AmbientOcclusion => TextureView {
            finish: Finish { ao_map: Some(idx), ..t.finish },
            ..t
        },
        _ => t,
    }
}

/// Whether an image of a set is kept as a material of its own.
pub open spec fn is_kept(kind: MapKind) -> bool {
    kind == MapKind::Normal || kind == MapKind::Roughness || kind == MapKind::Metallic || kind
        == MapKind::AmbientOcclusion
}

/// What the status says of an image that was used.
pub open spec fn used_as(kind: MapKind) -> Option<Seq<char>> {
    match kind {
        MapKind::BaseColor => Some("base colour"@),
        MapKind::Normal => Some("normal"@),
        MapKind::Roughness => Some("roughness"@),
        MapKind::Metallic => Some("metallic"@),
        MapKind::AmbientOcclusion => Some("occlusion"@),
        _ => None,
    }
}

/// Materials after one image of a set has gone to a material. The base replaces its pixels, so the
/// material keeps its place and everything that is painted with it.
pub open spec fn map_taken(t: Seq<TextureView>, i: usize, set: Seq<char>, m: SetMapView) -> Seq<
    TextureView,
> {
    if is_kept(m.kind) {
        let more = t.push(map_texture(set, m));
        if i < more.len() {
            more.update(i as int, map_bound(more[i as int], m.kind, t.len() as usize))
        } else {
            more
        }
    } else if m.kind == MapKind::BaseColor && i < t.len() {
        t.update(i as int, based_on(t[i as int], m))
    } else {
        t
    }
}

/// Materials after the first `n` images of a set have gone to a material.
pub open spec fn maps_taken(
    t: Seq<TextureView>,
    i: usize,
    set: Seq<char>,
    maps: Seq<SetMapView>,
    n: int,
) -> Seq<TextureView>
    decreases n,
{
    if n <= 0 {
        t
    } else {
        map_taken(maps_taken(t, i, set, maps, n - 1), i, set, maps[n - 1])
    }
}

/// What the first `n` images of a set were used as, with commas between.
pub open spec fn uses_text(maps: Seq<SetMapView>, n: int) -> Seq<char>
    decreases n,
{
    if n <= 0 {
        Seq::empty()
    } else {
        let head = uses_text(maps, n - 1);
        match used_as(maps[n - 1].kind) {
            Some(w) => if head.len() == 0 {
                w
            } else {
                head + ", "@ + w
            },
            None => head,
        }
    }
}

/// Materials with one of them renamed.
pub open spec fn renamed(t: Seq<TextureView>, i: usize, name: Seq<char>) -> Seq<TextureView> {
    if i < t.len() {
        t.update(i as int, TextureView { name: name, ..t[i as int] })
    } else {
        t
    }
}

impl FactoryView {
    /// After a set of images has gone to a material.
    pub open spec fn set_loaded(self, i: usize, set: Seq<char>, maps: Seq<SetMapView>)
        -> FactoryView {
        let n = maps.len() as int;
        let used = uses_text(maps, n);
        FactoryView {
            textures: renamed(maps_taken(self.textures, i, set, maps, n), i, set),
            status: if used.len() == 0 {
                "Texture set '"@ + set + "': nothing usable found"@
            } else {
                "Texture set '"@ + set + "' → "@ + used
            },
            ..self
        }
    }
}

/// The name that a set of images goes by: that of its folder.
pub open spec fn set_name(folder: Option<Seq<char>>) -> Seq<char> {
    match folder {
        Some(n) => n,
        None => "Texture set"@,
    }
}

fn keep_map(set: &str, m: &SetMap) -> (r: Texture)
    ensures
        r@ == map_texture(set@, m@),
{
    let mut t = new_image_texture(
        cat3(set, " · ", m.label.as_str()),
        m.w,
        m.h,
        copy_all(&m.rgba),
        m.avg,
    );
    t.finish.triplanar = true;
    t.finish.tiles_per_m = 1_000_000;
    t
}

fn base_on(t: &mut Texture, m: &SetMap)
    ensures
        final(t)@ == based_on(old(t)@, m@),
{
    t.w = m.w;
    t.h = m.h;
    t.rgba = copy_all(&m.rgba);
    t.finish.avg = m.avg;
    t.finish.proc = None;
    t.finish.triplanar = true;
    t.finish.tiles_per_m = 1_000_000;
    t.finish.png_cached = false;
}

fn bind_map(t: &mut Texture, kind: MapKind, idx: usize)
    ensures
        final(t)@ == map_bound(old(t)@, kind, idx),
{
    match kind {
        MapKind::Normal => {
            t.finish.normal_map = Some(idx);
        },
        MapKind::Roughness => {
            t.finish.rough_map = Some(idx);
        },
        MapKind::Metallic => {
            t.finish.metal_map = Some(idx);
            t.finish.metallic = 1_000_000;
        },
        MapKind::AmbientOcclusion => {
            t.finish.ao_map = Some(idx);
        },
        _ => {},
    }
}

fn take_map(t: &mut Vec<Texture>, i: usize, set: &str, m: &SetMap)
    ensures
        views(final(t)@) == map_taken(views(old(t)@), i, set@, m@),
{
    broadcast use group_views;

    let kept = m.kind == MapKind::Normal || m.kind == MapKind::Roughness || m.kind
        == MapKind::Metallic || m.kind == MapKind::AmbientOcclusion;
    if kept {
        let idx: usize = t.len();
        t.push(keep_map(set, m));
        if i < t.len() {
            let ghost before = t@;
            bind_map(&mut t[i], m.kind, idx);
            assert(t@ =~= before.update(i as int, t@[i as int]));
            assert(views(before)[i as int] == before[i as int]@);
        }
    } else if m.kind == MapKind::BaseColor && i < t.len() {
        let ghost before = t@;
        base_on(&mut t[i], m);
        assert(t@ =~= before.update(i as int, t@[i as int]));
        assert(views(before)[i as int] == before[i as int]@);
    }
}

fn use_word(kind: MapKind) -> (r: Option<&'static str>)
    ensures
        match r {
            Some(w) => used_as(kind) == Some(w@),
            None => used_as(kind) is None,
        },
{
    match kind {
        MapKind::BaseColor => Some("base colour"),
        MapKind::Normal => Some("normal"),
        MapKind::Roughness => Some("roughness"),
        MapKind::Metallic => Some("metallic"),
        MapKind::AmbientOcclusion => Some("occlusion"),
        _ => None,
    }
}

fn write_uses(maps: &Vec<SetMap>) -> (r: String)
    ensures
        r@ == uses_text(views(maps@), maps@.len() as int),
{
    let ghost all = views(maps@);
    let mut out = String::new();
    let mut n: usize = 0;
    while n < maps.len()
        invariant
            n <= maps.len(),
            all == views(maps@),
            out@ == uses_text(all, n as int),
        decreases maps.len() - n,
    {
        assert(all[n as int] == maps@[n as int]@);
        if let Some(w) = use_word(maps[n].kind) {
            if out.as_str().unicode_len() == 0 {
                out = String::from_str(w);
            } else {
                out = cat3(out.as_str(), ", ", w);
            }
        }
        n += 1;
    }
    out
}

fn rename_at(t: &mut Vec<Texture>, i: usize, name: &str)
    ensures
        views(final(t)@) == renamed(views(old(t)@), i, name@),
{
    broadcast use group_views;

    if i < t.len() {
        let ghost before = t@;
        t[i].name = String::from_str(name);
        assert(t@ =~= before.update(i as int, t@[i as int]));
        assert(views(before)[i as int] == before[i as int]@);
    }
}

fn take_maps(t: &mut Vec<Texture>, i: usize, set: &str, maps: &Vec<SetMap>)
    ensures
        views(final(t)@) == maps_taken(views(old(t)@), i, set@, views(maps@), maps@.len() as int),
{
    let ghost was = views(t@);
    let ghost all = views(maps@);
    let mut n: usize = 0;
    while n < maps.len()
        invariant
            n <= maps.len(),
            all == views(maps@),
            views(t@) == maps_taken(was, i, set@, all, n as int),
        decreases maps.len() - n,
    {
        assert(all[n as int] == maps@[n as int]@);
        take_map(t, i, set, &maps[n]);
        n += 1;
    }
}

impl FactoryState {
    fn load_set(&mut self, i: usize, set: &str, maps: &Vec<SetMap>)
        ensures
            final(self)@ == old(self)@.set_loaded(i, set@, views(maps@)),
    {
        take_maps(&mut self.textures, i, set, maps);
        rename_at(&mut self.textures, i, set);
        let used = write_uses(maps);
        self.status = if used.as_str().unicode_len() == 0 {
            cat3("Texture set '", set, "': nothing usable found")
        } else {
            cat4("Texture set '", set, "' → ", used.as_str())
        };
    }
}

impl AppView {
    /// After a folder has been asked for, for a material.
    pub open spec fn set_asked(self, i: usize) -> AppView {
        AppView {
            dialog: DialogView { texset_target: Some(i), ..self.dialog },
            ..self
        }.dialog_opened(FileDialogMode::PickFolder, Seq::empty())
    }

    /// After the images of a folder have been read, or not.
    pub open spec fn set_read(
        self,
        i: usize,
        folder: Option<Seq<char>>,
        maps: Result<Vec<SetMap>, String>,
    ) -> AppView {
        match maps {
            Ok(m) => {
                let s = self.with_factory(
                    self.factory.set_loaded(i, set_name(folder), views(m@)),
                );
                s.with_materials(s.materials.graph_dropped(i))
            },
            Err(e) => self.with_factory(self.factory.with_status("Texture set: "@ + e@)),
        }
    }
}

impl CadApp {
    fn aim_set(&mut self, i: usize)
        ensures
            final(self)@ == (AppView {
                dialog: DialogView { texset_target: Some(i), ..old(self)@.dialog },
                ..old(self)@
            }),
    {
        self.dialog.texset_target = Some(i);
    }

    /// Asks for the folder of a set of images for a material.
    pub fn mf_pick_texture_set(&mut self, i: usize)
        ensures
            final(self)@ == old(self)@.set_asked(i),
    {
        self.aim_set(i);
        let none = "";
        proof {
            reveal_strlit("");
            assert(none@ =~= Seq::<char>::empty());
        }
        self.open_file_dialog(FileDialogMode::PickFolder, none);
    }

    fn take_set(&mut self, i: usize, set: &str, maps: &Vec<SetMap>)
        ensures
            final(self)@ == old(self)@.with_factory(
                old(self)@.factory.set_loaded(i, set@, views(maps@)),
            ),
    {
        self.factory.load_set(i, set, maps);
    }

    fn forget_graph(&mut self, i: usize)
        ensures
            final(self)@ == old(self)@.with_materials(old(self)@.materials.graph_dropped(i)),
    {
        self.materials.drop_graph(i);
    }

    /// Takes the images of a folder for a material; `folder` is the name of the folder, where it
    /// has one.
    pub fn mf_load_texture_set(
        &mut self,
        i: usize,
        folder: Option<String>,
        maps: Result<Vec<SetMap>, String>,
    )
        ensures
            final(self)@ == old(self)@.set_read(i, crate::copying::opt_view(folder), maps),
    {
        match maps {
            Ok(m) => {
                let set = match folder {
                    Some(n) => n,
                    None => String::from_str("Texture set"),
                };
                self.take_set(i, set.as_str(), &m);
                self.forget_graph(i);
            },
            Err(e) => self.set_status(cat2("Texture set: ", e.as_str())),
        }
    }
}

proof fn maps_keep_others(
    t: Seq<TextureView>,
    i: usize,
    set: Seq<char>,
    maps: Seq<SetMapView>,
    n: int,
    j: int,
)
    requires
        i < t.len(),
        0 <= j < t.len(),
    ensures
        maps_taken(t, i, set, maps, n).len() >= t.len(),
        j != i ==> maps_taken(t, i, set, maps, n)[j] == t[j],
    decreases n,
{
    if n > 0 {
        maps_keep_others(t, i, set, maps, n - 1, j);
    }
}

/// Loading a set of images into a material changes that material and no other one, and leaves
/// everything that is painted with materials as it is.
pub proof fn set_changes_one_material(s: FactoryView, i: usize, set: Seq<char>, maps: Seq<SetMapView>, j: int)
    requires
        i < s.textures.len(),
        0 <= j < s.textures.len(),
        j != i,
    ensures
        s.set_loaded(i, set, maps).textures[j] == s.textures[j],
        s.set_loaded(i, set, maps).textures[i as int].name == set,
        s.set_loaded(i, set, maps).data == s.data,
{
    maps_keep_others(s.textures, i, set, maps, maps.len() as int, j);
    maps_keep_others(s.textures, i, set, maps, maps.len() as int, i as int);
}

/// An image of a set becomes what its kind says of the material: the base colour its pixels, and the
/// others a material of their own, with the image's pixels, that this one points to. The other
/// images that it points to stay.
pub proof fn map_is_used_for_its_kind(t: Seq<TextureView>, i: usize, set: Seq<char>, m: SetMapView)
    requires
        i < t.len(),
        t.len() <= usize::MAX,
    ensures
        ({
            let r = map_taken(t, i, set, m);
            let a = t[i as int];
            let b = r[i as int];
            let n = t.len();
            let own = m.kind == MapKind::Normal || m.kind == MapKind::Roughness || m.kind
                == MapKind::Metallic || m.kind == MapKind::AmbientOcclusion;
            &&& r.len() == n + if own {
                1nat
            } else {
                0nat
            }
            &&& own ==> r[n as int].w == m.w && r[n as int].h == m.h && r[n as int].rgba == m.rgba
                && r[n as int].finish.avg == m.avg && b.rgba == a.rgba
            &&& b.finish.normal_map == if m.kind == MapKind::Normal {
                Some(n as usize)
            } else {
                a.finish.normal_map
            }
            &&& b.finish.rough_map == if m.kind == MapKind::Roughness {
                Some(n as usize)
            } else {
                a.finish.rough_map
            }
            &&& b.finish.metal_map == if m.kind == MapKind::Metallic {
                Some(n as usize)
            } else {
                a.finish.metal_map
            }
            &&& b.finish.ao_map == if m.kind == MapKind::AmbientOcclusion {
                Some(n as usize)
            } else {
                a.finish.ao_map
            }
            &&& m.kind == MapKind::Metallic ==> b.finish.metallic == 1_000_000
            &&& m.kind != MapKind::Metallic ==> b.finish.metallic == a.finish.metallic
            &&& m.kind == MapKind::BaseColor ==> b.w == m.w && b.h == m.h && b.rgba == m.rgba
                && b.finish.avg == m.avg && b.finish.proc is None
            &&& !own && m.kind != MapKind::BaseColor ==> r == t
            &&& b.name == a.name && b.finish.roughness == a.finish.roughness && b.xform == a.xform
            &&& forall|j: int| 0 <= j < n && j != i ==> r[j] == #[trigger] t[j]
        }),
{
}

/// A set that was read becomes the material it was asked for, whose graph is dropped; one that could
/// not be read leaves all materials.
pub proof fn read_set_becomes_the_material(
    s: AppView,
    i: usize,
    folder: Option<Seq<char>>,
    maps: Result<Vec<SetMap>, String>,
)
    requires
        i < s.factory.textures.len(),
    ensures
        ({
            let t = s.set_read(i, folder, maps);
            &&& maps is Err ==> t.factory.textures == s.factory.textures && t.materials == s.materials
            &&& maps is Ok && folder is Some ==> t.factory.textures[i as int].name == folder->0
            &&& maps is Ok ==> !t.materials.graphs.contains(i)
            &&& t.factory.data == s.factory.data
        }),
{
    if let Ok(m) = maps {
        set_changes_name(s.factory, i, set_name(folder), views(m@));
        crate::materials::dropped_graph_is_gone(s.materials.graphs, i, i);
    }
}

proof fn set_changes_name(s: FactoryView, i: usize, set: Seq<char>, maps: Seq<SetMapView>)
    requires
        i < s.textures.len(),
    ensures
        s.set_loaded(i, set, maps).textures[i as int].name == set,
{
    maps_keep_others(s.textures, i, set, maps, maps.len() as int, i as int);
}

/// Asking for the folder of a set opens the dialog for it, and remembers the material.
pub proof fn asked_set_is_remembered(s: AppView, i: usize)
    ensures
        s.set_asked(i).dialog.texset_target == Some(i),
        s.set_asked(i).dialog.file_dialog matches Some(d) && d.mode == FileDialogMode::PickFolder,
        s.set_asked(i).factory == s.factory,
{
}

/// The images of a set are laid out in the world, one to the metre.
pub proof fn set_images_lie_in_the_world(t: TextureView, set: Seq<char>, m: SetMapView)
    ensures
        map_texture(set, m).finish.triplanar,
        map_texture(set, m).finish.tiles_per_m == 1_000_000,
        based_on(t, m).finish.triplanar,
        based_on(t, m).finish.tiles_per_m == 1_000_000,
        !based_on(t, m).finish.png_cached,
{
}

} // verus!
