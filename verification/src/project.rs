//! The project data of a drawing: gathering it for a save, and installing it after a load.
use base64::Engine;
use vstd::prelude::*;

use crate::app::{AppView, CadApp};
use crate::config::{
    ConfigView, FactoryRec, FactoryRecView, LayerRoomRec, LayerRoomRecView, Pair, PairView,
    PlanRoomRec, PlanRoomRecView, Project, ProjectView, SimluxConfig, SketchRec, SketchRecView,
};
use crate::copying::{copy_all, duplicate_all, group_views, views, Duplicate};
use crate::doc::{find_name, first_named, DocView, Document};
use crate::factory::{
    FactoryData, FactoryDataView, FactoryState, FactoryView, Room, RoomOrigin, RoomView, Session,
};
use crate::text::{cat3, cat5, dec, dec_text, same};
use crate::undo::{find_sketch, sketch_index};

verus! {

/// The character that stands for six bits in base 64.
pub open spec fn base64_char(v: int) -> char {
    if v < 26 {
        ('A' as int + v) as char
    } else if v < 52 {
        ('a' as int + v - 26) as char
    } else if v < 62 {
        ('0' as int + v - 52) as char
    } else if v == 62 {
        '+'
    } else {
        '/'
    }
}

/// Bytes written in base 64 with the usual alphabet: four characters for every three bytes, the
/// last four filled up with `=`.
pub open spec fn base64_text(s: Seq<u8>) -> Seq<char>
    decreases s.len(),
{
    if s.len() == 0 {
        Seq::empty()
    } else if s.len() == 1 {
        seq![base64_char((s[0] / 4) as int), base64_char((s[0] % 4) * 16), '=', '=']
    } else if s.len() == 2 {
        seq![
            base64_char((s[0] / 4) as int),
            base64_char((s[0] % 4) * 16 + s[1] / 16),
            base64_char((s[1] % 16) * 4),
            '=',
        ]
    } else {
        seq![
            base64_char((s[0] / 4) as int),
            base64_char((s[0] % 4) * 16 + s[1] / 16),
            base64_char((s[1] % 16) * 4 + s[2] / 64),
            base64_char((s[2] % 64) as int),
        ] + base64_text(s.subrange(3, s.len() as int))
    }
}

/// Whether the base 64 text of so many bytes fits into memory.
pub open spec fn base64_fits(n: nat) -> bool {
    n / 3 * 4 + 4 <= isize::MAX
}

/// Calls `encode` of the `base64` crate's `STANDARD` engine. It is trusted to write the bytes with
/// the standard alphabet and with padding; it panics where the text would not fit into memory.
#[verifier::external_body]
fn encode_standard(bytes: &Vec<u8>) -> (r: String)
    requires
        base64_fits(bytes@.len()),
    ensures
        r@ == base64_text(bytes@),
{
    base64::engine::general_purpose::STANDARD.encode(bytes)
}

/// The calculator's variables and the line types of wall centre lines, as rows of a wall style and
/// a line type, both by their place in the drawing's tables.
pub struct ProjectState {
    pub vars: Vec<Pair>,
    pub centerlines: Vec<(u64, u64)>,
}

/// The model of a [`ProjectState`].
pub struct ProjectStateView {
    pub vars: Seq<PairView>,
    pub centerlines: Seq<(u64, u64)>,
}

impl View for ProjectState {
    type V = ProjectStateView;

    open spec fn view(&self) -> ProjectStateView {
        ProjectStateView { vars: views(self.vars@), centerlines: self.centerlines@ }
    }
}

/// The calculator's variables that are kept: all but the last answer, which is the session's.
pub open spec fn kept_vars(v: Seq<PairView>) -> Seq<PairView> {
    v.filter(|p: PairView| p.key != "ans"@)
}

/// Rows of places as pairs of names; a place that the drawing does not have gives none.
pub open spec fn named_rows(
    rows: Seq<(u64, u64)>,
    styles: Seq<Seq<char>>,
    ltypes: Seq<Seq<char>>,
) -> Seq<PairView>
    decreases rows.len(),
{
    if rows.len() == 0 {
        Seq::empty()
    } else {
        let rest = named_rows(rows.drop_last(), styles, ltypes);
        let (s, l) = rows.last();
        if s < styles.len() && l < ltypes.len() {
            rest.push(PairView { key: styles[s as int], value: ltypes[l as int] })
        } else {
            rest
        }
    }
}

/// The first row of a key.
pub open spec fn row_of(rows: Seq<(u64, u64)>, k: u64) -> Option<int>
    decreases rows.len(),
{
    if rows.len() == 0 {
        None
    } else if rows[0].0 == k {
        Some(0)
    } else {
        match row_of(rows.drop_first(), k) {
            Some(i) => Some(i + 1),
            None => None,
        }
    }
}

/// `row_of` is the least place of that key.
pub proof fn row_of_is_least(rows: Seq<(u64, u64)>, k: u64)
    ensures
        match row_of(rows, k) {
            Some(i) => 0 <= i < rows.len() && rows[i].0 == k && forall|j: int|
                0 <= j < i ==> (#[trigger] rows[j]).0 != k,
            None => forall|j: int| 0 <= j < rows.len() ==> (#[trigger] rows[j]).0 != k,
        },
    decreases rows.len(),
{
    if rows.len() > 0 && rows[0].0 != k {
        let rest = rows.drop_first();
        row_of_is_least(rest, k);
        assert forall|j: int| 0 < j < rows.len() implies (#[trigger] rows[j]) == rest[j - 1] by {}
    }
}

/// Rows with a key's value set: in its row, or in a new one.
pub open spec fn row_put(rows: Seq<(u64, u64)>, k: u64, v: u64) -> Seq<(u64, u64)> {
    match row_of(rows, k) {
        Some(i) => rows.update(i, (k, v)),
        None => rows.push((k, v)),
    }
}

/// Pairs of names as rows of places in the drawing's tables; a name that the drawing does not have
/// gives none.
pub open spec fn placed_rows(
    pairs: Seq<PairView>,
    styles: Seq<Seq<char>>,
    ltypes: Seq<Seq<char>>,
) -> Seq<(u64, u64)>
    decreases pairs.len(),
{
    if pairs.len() == 0 {
        Seq::empty()
    } else {
        let rest = placed_rows(pairs.drop_last(), styles, ltypes);
        match (
            first_named(styles, pairs.last().key),
            first_named(ltypes, pairs.last().value),
        ) {
            (Some(s), Some(l)) => row_put(rest, s as u64, l as u64),
            _ => rest,
        }
    }
}

impl AppView {
    /// The drawing itself: the document that waits while a sketch is open, else the active one.
    pub open spec fn plan(self) -> DocView {
        match self.factory.session {
            Some(s) => s.saved_doc,
            None => self.doc,
        }
    }

    /// The sketches as records, with the bytes of the open one's live drawing in base 64.
    pub open spec fn sketch_recs(self, saved: Seq<SketchRecView>, open_rsm: Seq<u8>) -> Seq<
        SketchRecView,
    > {
        match self.factory.session {
            None => saved,
            Some(s) => match sketch_index(self.factory.data.sketches, s.plane) {
                Some(i) if i < saved.len() => saved.update(
                    i,
                    SketchRecView { rsm_b64: base64_text(open_rsm), ..saved[i] },
                ),
                _ => saved,
            },
        }
    }

    /// The project data but for the 3D model.
    pub open spec fn config_common(self) -> ConfigView {
        ConfigView {
            vars: kept_vars(self.project.vars),
            wall_centerline: named_rows(
                self.project.centerlines,
                self.plan().wall_styles,
                self.plan().linetypes,
            ),
            luminaires: self.light.luminaires,
            plan_rooms: Seq::empty(),
            layers_3d: Seq::empty(),
            factory: FactoryRecView {
                features: Seq::empty(),
                walls: Seq::empty(),
                furniture: 0,
                sketches: Seq::empty(),
                with_geometry: false,
            },
        }
    }

    /// The project data, with the furniture's meshes in it or left out.
    pub open spec fn config(
        self,
        saved: Seq<SketchRecView>,
        open_rsm: Seq<u8>,
        with_geometry: bool,
    ) -> ConfigView {
        ConfigView {
            factory: FactoryRecView {
                features: self.factory.data.features,
                walls: self.factory.data.walls,
                furniture: self.factory.data.furniture.len() as usize,
                sketches: self.sketch_recs(saved, open_rsm),
                with_geometry: with_geometry,
            },
            ..self.config_common()
        }
    }
}

fn keep_vars(v: &Vec<Pair>) -> (r: Vec<Pair>)
    ensures
        views(r@) == kept_vars(views(v@)),
{
    broadcast use group_views;

    let ghost all = views(v@);
    let ghost keep = |p: PairView| p.key != "ans"@;
    let mut r: Vec<Pair> = Vec::new();
    let mut i: usize = 0;
    proof {
        reveal(Seq::filter);
        assert(all.subrange(0, 0).filter(keep) =~= Seq::empty());
    }
    while i < v.len()
        invariant
            i <= v.len(),
            all == views(v@),
            keep == (|p: PairView| p.key != "ans"@),
            views(r@) == all.subrange(0, i as int).filter(keep),
        decreases v.len() - i,
    {
        proof {
            reveal(Seq::filter);
            assert(all.subrange(0, i + 1).drop_last() =~= all.subrange(0, i as int));
            assert(all.subrange(0, i + 1).last() == v@[i as int]@);
        }
        if !same(v[i].key.as_str(), "ans") {
            r.push(v[i].duplicate());
        }
        i += 1;
    }
    assert(all.subrange(0, i as int) =~= all);
    r
}

fn name_rows(rows: &Vec<(u64, u64)>, doc: &Document) -> (r: Vec<Pair>)
    ensures
        views(r@) == named_rows(rows@, doc@.wall_styles, doc@.linetypes),
{
    broadcast use group_views;

    let mut r: Vec<Pair> = Vec::new();
    let mut i: usize = 0;
    while i < rows.len()
        invariant
            i <= rows.len(),
            views(r@) == named_rows(
                rows@.subrange(0, i as int),
                doc@.wall_styles,
                doc@.linetypes,
            ),
        decreases rows.len() - i,
    {
        assert(rows@.subrange(0, i + 1).drop_last() =~= rows@.subrange(0, i as int));
        let (s, l): (u64, u64) = rows[i];
        if s < doc.wall_styles.len() as u64 && l < doc.linetypes.len() as u64 {
            r.push(
                Pair {
                    key: doc.wall_styles[s as usize].clone(),
                    value: doc.linetypes[l as usize].clone(),
                },
            );
        }
        i += 1;
    }
    assert(rows@.subrange(0, i as int) =~= rows@);
    r
}

fn put_row(rows: &mut Vec<(u64, u64)>, k: u64, v: u64)
    ensures
        final(rows)@ == row_put(old(rows)@, k, v),
{
    let mut i: usize = 0;
    while i < rows.len()
        invariant
            i <= rows.len(),
            rows@ == old(rows)@,
            forall|j: int| 0 <= j < i ==> (#[trigger] rows@[j]).0 != k,
        decreases rows.len() - i,
    {
        if rows[i].0 == k {
            proof {
                row_of_is_least(rows@, k);
            }
            assert(rows@[i as int].0 == k);
            rows.set(i, (k, v));
            return;
        }
        i += 1;
    }
    proof {
        row_of_is_least(rows@, k);
    }
    rows.push((k, v));
}

fn place_rows(pairs: &Vec<Pair>, doc: &Document) -> (r: Vec<(u64, u64)>)
    ensures
        r@ == placed_rows(views(pairs@), doc@.wall_styles, doc@.linetypes),
{
    let ghost all = views(pairs@);
    let mut r: Vec<(u64, u64)> = Vec::new();
    let mut i: usize = 0;
    while i < pairs.len()
        invariant
            i <= pairs.len(),
            all == views(pairs@),
            r@ == placed_rows(all.subrange(0, i as int), doc@.wall_styles, doc@.linetypes),
        decreases pairs.len() - i,
    {
        assert(all.subrange(0, i + 1).drop_last() =~= all.subrange(0, i as int));
        assert(all.subrange(0, i + 1).last() == pairs@[i as int]@);
        let s = find_name(&doc.wall_styles, pairs[i].key.as_str());
        let l = find_name(&doc.linetypes, pairs[i].value.as_str());
        if let Some(s) = s {
            if let Some(l) = l {
                put_row(&mut r, s as u64, l as u64);
            }
        }
        i += 1;
    }
    assert(all.subrange(0, i as int) =~= all);
    r
}

impl CadApp {
    /// The drawing itself, also while a sketch is open. Everything that saves goes through here.
    pub fn plan_doc(&self) -> (r: &Document)
        ensures
            r@ == self@.plan(),
    {
        CadApp::plan_doc_of(&self.factory.session, &self.doc)
    }

    /// The same choice, from the open sketch and the active document.
    pub fn plan_doc_of<'a>(session: &'a Option<Session>, doc: &'a Document) -> (r: &'a Document)
        ensures
            r@ == match *session {
                Some(s) => s@.saved_doc,
                None => doc@,
            },
    {
        match session {
            Some(s) => &s.saved_doc,
            None => doc,
        }
    }

    /// The project data but for the 3D model. Names are looked up in the drawing itself, also
    /// while a sketch is open.
    pub fn build_simlux_config_common(&self) -> (r: SimluxConfig)
        ensures
            r@ == self@.config_common(),
    {
        broadcast use group_views;

        let plan = self.plan_doc();
        SimluxConfig {
            vars: keep_vars(&self.project.vars),
            wall_centerline: name_rows(&self.project.centerlines, plan),
            luminaires: duplicate_all(&self.light.luminaires),
            plan_rooms: Vec::new(),
            layers_3d: Vec::new(),
            factory: FactoryRec {
                features: Vec::new(),
                walls: Vec::new(),
                furniture: 0,
                sketches: Vec::new(),
                with_geometry: false,
            },
        }
    }

    /// Puts the live drawing of the open sketch into the records of the sketches, whose own copy of
    /// it is empty meanwhile. `open_rsm` is the active document in the native format.
    pub fn patch_open_sketch_into(&self, recs: &mut Vec<SketchRec>, open_rsm: &Vec<u8>)
        requires
            base64_fits(open_rsm@.len()),
        ensures
            views(final(recs)@) == self@.sketch_recs(views(old(recs)@), open_rsm@),
    {
        if let Some(s) = &self.factory.session {
            if let Some(i) = find_sketch(&self.factory.data.sketches, s.plane) {
                if i < recs.len() {
                    let text = encode_standard(open_rsm);
                    let ghost before = views(recs@);
                    recs[i].rsm_b64 = text;
                    assert(views(recs@) =~= before.update(
                        i as int,
                        SketchRecView {
                            rsm_b64: base64_text(open_rsm@),
                            ..before[i as int]
                        },
                    ));
                }
            }
        }
    }

    fn config_with(
        &self,
        saved: Vec<SketchRec>,
        open_rsm: &Vec<u8>,
        with_geometry: bool,
    ) -> (r: SimluxConfig)
        requires
            base64_fits(open_rsm@.len()),
        ensures
            r@ == self@.config(views(saved@), open_rsm@, with_geometry),
    {
        let mut cfg = self.build_simlux_config_common();
        let mut recs = saved;
        self.patch_open_sketch_into(&mut recs, open_rsm);
        cfg.factory = FactoryRec {
            features: copy_all(&self.factory.data.features),
            walls: copy_all(&self.factory.data.walls),
            furniture: self.factory.data.furniture.len(),
            sketches: recs,
            with_geometry: with_geometry,
        };
        assert(cfg.factory@.furniture == self@.factory.data.furniture.len() as usize);
        cfg
    }

    /// The project data with the meshes of the furniture in it. `saved` are the sketches as the
    /// native format's writer gave them, in the order of the model.
    pub fn build_simlux_config(&self, saved: Vec<SketchRec>, open_rsm: &Vec<u8>) -> (r: SimluxConfig)
        requires
            base64_fits(open_rsm@.len()),
        ensures
            r@ == self@.config(views(saved@), open_rsm@, true),
    {
        self.config_with(saved, open_rsm, true)
    }

    /// The project data with the meshes of the furniture left for the writer to add.
    pub fn build_simlux_config_lite(
        &self,
        saved: Vec<SketchRec>,
        open_rsm: &Vec<u8>,
    ) -> (r: SimluxConfig)
        requires
            base64_fits(open_rsm@.len()),
        ensures
            r@ == self@.config(views(saved@), open_rsm@, false),
    {
        self.config_with(saved, open_rsm, false)
    }
}

/// The next room id.
pub open spec fn next_id(n: u32) -> u32 {
    if n == u32::MAX {
        n
    } else {
        (n + 1) as u32
    }
}

/// The lowest a room of an old file can be, in micrometres.
pub const MIN_ROOM_HEIGHT: i64 = 50_000;

/// The first room that a layer was imported as.
pub open spec fn room_of_layer(rooms: Seq<RoomView>, layer: Seq<char>) -> Option<int>
    decreases rooms.len(),
{
    if rooms.len() == 0 {
        None
    } else if rooms[0].origin == RoomOrigin::ImportedLayer && rooms[0].layer == layer {
        Some(0)
    } else {
        match room_of_layer(rooms.drop_first(), layer) {
            Some(i) => Some(i + 1),
            None => None,
        }
    }
}

proof fn room_of_layer_is_least(rooms: Seq<RoomView>, layer: Seq<char>)
    ensures
        match room_of_layer(rooms, layer) {
            Some(i) => 0 <= i < rooms.len() && rooms[i].origin == RoomOrigin::ImportedLayer
                && rooms[i].layer == layer && forall|j: int|
                0 <= j < i ==> !((#[trigger] rooms[j]).origin == RoomOrigin::ImportedLayer
                    && rooms[j].layer == layer),
            None => forall|j: int|
                0 <= j < rooms.len() ==> !((#[trigger] rooms[j]).origin
                    == RoomOrigin::ImportedLayer && rooms[j].layer == layer),
        },
    decreases rooms.len(),
{
    if rooms.len() > 0 && !(rooms[0].origin == RoomOrigin::ImportedLayer && rooms[0].layer
        == layer) {
        let rest = rooms.drop_first();
        room_of_layer_is_least(rest, layer);
        assert forall|j: int| 0 < j < rooms.len() implies (#[trigger] rooms[j]) == rest[j - 1] by {}
    }
}

impl FactoryDataView {
    /// The model with one more room.
    pub open spec fn with_room(
        self,
        name: Seq<char>,
        layer: Seq<char>,
        origin: RoomOrigin,
        height: i64,
        outline: Seq<crate::doc::Pt>,
    ) -> FactoryDataView {
        FactoryDataView {
            rooms: self.rooms.push(
                RoomView {
                    id: self.next_room_id,
                    name: name,
                    layer: layer,
                    origin: origin,
                    height: height,
                    outline: outline,
                },
            ),
            next_room_id: next_id(self.next_room_id),
            ..self
        }
    }

    /// The model with a layer taken for a room, once. Its outline is traced from the layer when
    /// the model is computed.
    pub open spec fn layer_imported(self, layer: Seq<char>, height: i64) -> FactoryDataView {
        if room_of_layer(self.rooms, layer) is Some {
            self
        } else {
            self.with_room(layer, layer, RoomOrigin::ImportedLayer, height, Seq::empty())
        }
    }

    /// The model with the room of a layer at a given height.
    pub open spec fn layer_height_set(self, layer: Seq<char>, height: i64) -> FactoryDataView {
        match room_of_layer(self.rooms, layer) {
            Some(i) => FactoryDataView {
                rooms: self.rooms.update(i, RoomView { height: height, ..self.rooms[i] }),
                ..self
            },
            None => self,
        }
    }

    /// The model with the rooms that an old file kept as outlines; an outline of fewer than three
    /// points is none.
    pub open spec fn plan_rooms_added(self, plan: Seq<PlanRoomRecView>, height: i64)
        -> FactoryDataView
        decreases plan.len(),
    {
        if plan.len() == 0 {
            self
        } else {
            let rest = self.plan_rooms_added(plan.drop_last(), height);
            let r = plan.last();
            if r.footprint.len() < 3 {
                rest
            } else {
                rest.with_room(
                    r.name,
                    Seq::empty(),
                    RoomOrigin::PlanDesignated,
                    height,
                    r.footprint,
                )
            }
        }
    }

    /// The model with the rooms that an old file kept as layers, at the heights it kept; a layer
    /// that the drawing does not have gives none.
    pub open spec fn layer_rooms_added(
        self,
        layers: Seq<LayerRoomRecView>,
        names: Seq<Seq<char>>,
        height: i64,
    ) -> FactoryDataView
        decreases layers.len(),
    {
        if layers.len() == 0 {
            self
        } else {
            let rest = self.layer_rooms_added(layers.drop_last(), names, height);
            let r = layers.last();
            if first_named(names, r.layer) is None {
                rest
            } else {
                rest.layer_imported(r.layer, height).layer_height_set(
                    r.layer,
                    if r.height < MIN_ROOM_HEIGHT {
                        MIN_ROOM_HEIGHT
                    } else {
                        r.height
                    },
                )
            }
        }
    }
}

/// How many outlines of an old file become rooms.
pub open spec fn plan_rooms_usable(plan: Seq<PlanRoomRecView>) -> nat
    decreases plan.len(),
{
    if plan.len() == 0 {
        0
    } else {
        plan_rooms_usable(plan.drop_last()) + if plan.last().footprint.len() < 3 {
            0nat
        } else {
            1nat
        }
    }
}

/// How many layers of an old file become rooms.
pub open spec fn layer_rooms_usable(layers: Seq<LayerRoomRecView>, names: Seq<Seq<char>>) -> nat
    decreases layers.len(),
{
    if layers.len() == 0 {
        0
    } else {
        layer_rooms_usable(layers.drop_last(), names) + if first_named(
            names,
            layers.last().layer,
        ) is None {
            0nat
        } else {
            1nat
        }
    }
}

impl FactoryData {
    fn add_room(
        &mut self,
        name: String,
        layer: String,
        origin: RoomOrigin,
        height: i64,
        outline: Vec<crate::doc::Pt>,
    )
        ensures
            final(self)@ == old(self)@.with_room(name@, layer@, origin, height, outline@),
    {
        broadcast use group_views;

        let id: u32 = self.next_room_id;
        self.rooms.push(
            Room {
                id: id,
                name: name,
                layer: layer,
                origin: origin,
                height: height,
                outline: outline,
            },
        );
        if id < u32::MAX {
            self.next_room_id = id + 1;
        }
    }

    fn room_index_of_layer(&self, layer: &str) -> (r: Option<usize>)
        ensures
            match r {
                Some(i) => room_of_layer(self@.rooms, layer@) == Some(i as int) && i
                    < self.rooms.len(),
                None => room_of_layer(self@.rooms, layer@) is None,
            },
    {
        let ghost all = views(self.rooms@);
        let mut i: usize = 0;
        while i < self.rooms.len()
            invariant
                i <= self.rooms.len(),
                all == views(self.rooms@),
                forall|j: int|
                    0 <= j < i ==> !((#[trigger] all[j]).origin == RoomOrigin::ImportedLayer
                        && all[j].layer == layer@),
            decreases self.rooms.len() - i,
        {
            if self.rooms[i].origin == RoomOrigin::ImportedLayer && same(
                self.rooms[i].layer.as_str(),
                layer,
            ) {
                proof {
                    room_of_layer_is_least(all, layer@);
                }
                assert(all[i as int].layer == layer@);
                return Some(i);
            }
            i += 1;
        }
        proof {
            room_of_layer_is_least(all, layer@);
        }
        None
    }

    /// Takes a layer for a room, once.
    pub fn import_layer(&mut self, layer: &str, height: i64)
        ensures
            final(self)@ == old(self)@.layer_imported(layer@, height),
    {
        if self.room_index_of_layer(layer).is_none() {
            let outline: Vec<crate::doc::Pt> = Vec::new();
            assert(outline@ =~= Seq::empty());
            self.add_room(
                String::from_str(layer),
                String::from_str(layer),
                RoomOrigin::ImportedLayer,
                height,
                outline,
            );
        }
    }

    fn set_layer_height(&mut self, layer: &str, height: i64)
        ensures
            final(self)@ == old(self)@.layer_height_set(layer@, height),
    {
        if let Some(i) = self.room_index_of_layer(layer) {
            let ghost before = views(self.rooms@);
            self.rooms[i].height = height;
            assert(views(self.rooms@) =~= before.update(
                i as int,
                RoomView { height: height, ..before[i as int] },
            ));
        }
    }

    fn add_plan_rooms(&mut self, plan: &Vec<PlanRoomRec>, height: i64) -> (n: usize)
        ensures
            final(self)@ == old(self)@.plan_rooms_added(views(plan@), height),
            n == plan_rooms_usable(views(plan@)),
    {
        let ghost all = views(plan@);
        let mut n: usize = 0;
        let mut i: usize = 0;
        assert(self@.plan_rooms_added(all.subrange(0, 0), height) == self@);
        while i < plan.len()
            invariant
                i <= plan.len(),
                n <= i,
                all == views(plan@),
                self@ == old(self)@.plan_rooms_added(all.subrange(0, i as int), height),
                n == plan_rooms_usable(all.subrange(0, i as int)),
            decreases plan.len() - i,
        {
            assert(all.subrange(0, i + 1).drop_last() =~= all.subrange(0, i as int));
            assert(all.subrange(0, i + 1).last() == plan@[i as int]@);
            if plan[i].footprint.len() >= 3 {
                let none = String::new();
                assert(none@ =~= Seq::<char>::empty());
                self.add_room(
                    plan[i].name.clone(),
                    none,
                    RoomOrigin::PlanDesignated,
                    height,
                    copy_all(&plan[i].footprint),
                );
                n += 1;
            }
            i += 1;
        }
        assert(all.subrange(0, i as int) =~= all);
        n
    }

    fn add_layer_rooms(&mut self, layers: &Vec<LayerRoomRec>, doc: &Document, height: i64) -> (n:
        usize)
        ensures
            final(self)@ == old(self)@.layer_rooms_added(
                views(layers@),
                doc@.layer_names(),
                height,
            ),
            n == layer_rooms_usable(views(layers@), doc@.layer_names()),
    {
        let ghost all = views(layers@);
        let ghost names = doc@.layer_names();
        let mut n: usize = 0;
        let mut i: usize = 0;
        assert(self@.layer_rooms_added(all.subrange(0, 0), names, height) == self@);
        while i < layers.len()
            invariant
                i <= layers.len(),
                n <= i,
                all == views(layers@),
                names == doc@.layer_names(),
                self@ == old(self)@.layer_rooms_added(
                    all.subrange(0, i as int),
                    names,
                    height,
                ),
                n == layer_rooms_usable(all.subrange(0, i as int), names),
            decreases layers.len() - i,
        {
            assert(all.subrange(0, i + 1).drop_last() =~= all.subrange(0, i as int));
            assert(all.subrange(0, i + 1).last() == layers@[i as int]@);
            let name: &String = &layers[i].layer;
            if doc.find_layer(name.as_str()).is_some() {
                self.import_layer(name.as_str(), height);
                let h: i64 = if layers[i].height < MIN_ROOM_HEIGHT {
                    MIN_ROOM_HEIGHT
                } else {
                    layers[i].height
                };
                self.set_layer_height(name.as_str(), h);
                n += 1;
            }
            i += 1;
        }
        assert(all.subrange(0, i as int) =~= all);
        n
    }
}

impl AppView {
    /// After the rooms of an old file have joined the one list of rooms.
    #[verifier::opaque]
    pub open spec fn legacy_migrated(
        self,
        plan: Seq<PlanRoomRecView>,
        layers: Seq<LayerRoomRecView>,
    ) -> AppView {
        let names = self.doc.layer_names();
        let height = self.factory.default_room_height;
        let n_plan = plan_rooms_usable(plan);
        let n_layers = layer_rooms_usable(layers, names);
        let s = AppView {
            factory: FactoryView {
                data: self.factory.data.plan_rooms_added(plan, height).layer_rooms_added(
                    layers,
                    names,
                    height,
                ),
                ..self.factory
            },
            ..self
        };
        if n_plan > 0 || n_layers > 0 {
            AppView {
                light: crate::light::LightView {
                    last_msg: "Legacy rooms migrated into the single room list."@,
                    ..s.light
                },
                ..s
            }.said(
                "  rooms: migrated "@ + dec(n_plan) + " plan designation(s) + "@ + dec(n_layers)
                    + " imported layer(s) into one list"@,
            )
        } else {
            s
        }
    }

    /// After decoded project data has taken the place of what was there, before it is reported.
    pub open spec fn project_taken(self, p: ProjectView) -> AppView {
        AppView {
            project: ProjectStateView {
                vars: p.cfg.vars,
                centerlines: placed_rows(
                    p.cfg.wall_centerline,
                    self.doc.wall_styles,
                    self.doc.linetypes,
                ),
            },
            factory: FactoryView {
                data: p.data,
                furniture_lib: p.furniture_lib,
                textures: match p.textures {
                    Some(t) => t,
                    None => self.factory.textures,
                },
                ..self.factory
            },
            light: crate::light::LightView { luminaires: p.cfg.luminaires, ..self.light },
            ..self
        }
    }

    /// After restored solids have been shown and reported.
    pub open spec fn solids_shown(self, solids: nat) -> AppView {
        AppView {
            factory: FactoryView {
                open: true,
                recompute_due: true,
                fit_due: true,
                ..self.factory
            },
            ..self
        }.said(
            "  3D Factory: "@ + dec(solids) + " solid(s), "@ + dec(self.factory.data.walls.len())
                + " wall(s) restored"@,
        )
    }

    /// After project data has been installed.
    #[verifier::opaque]
    pub open spec fn project_installed(self, p: ProjectView) -> AppView {
        let a = self.project_taken(p);
        let b = if p.cfg.plan_rooms.len() > 0 || p.cfg.layers_3d.len() > 0 {
            a.legacy_migrated(p.cfg.plan_rooms, p.cfg.layers_3d)
        } else {
            a
        };
        let c = b.said("  SIMLUX setup loaded"@);
        let d = if holds_solids(p) {
            c.solids_shown(p.cfg.factory.features.len())
        } else {
            c
        };
        if p.dropped > 0 {
            d.said(
                "  ! 3D Factory: "@ + dec(p.dropped as nat)
                    + " wall record(s) dropped (unusable footprint or missing feature)"@,
            )
        } else {
            d
        }
    }
}

/// Whether project data holds anything to be seen in 3D.
pub open spec fn holds_solids(p: ProjectView) -> bool {
    p.cfg.factory.features.len() > 0 || p.cfg.factory.walls.len() > 0
        || p.cfg.factory.sketches.len() > 0 || p.cfg.factory.furniture > 0
        || p.furniture_lib.len() > 0
}

impl FactoryState {
    fn take_model(
        &mut self,
        data: FactoryData,
        lib: Vec<crate::factory::Asset>,
        textures: Option<Vec<crate::factory::Texture>>,
    )
        ensures
            final(self)@ == (FactoryView {
                data: data@,
                furniture_lib: views(lib@),
                textures: match textures {
                    Some(t) => views(t@),
                    None => old(self)@.textures,
                },
                ..old(self)@
            }),
    {
        self.data = data;
        self.furniture_lib = lib;
        if let Some(t) = textures {
            self.textures = t;
        }
    }
}

impl CadApp {
    fn take_legacy_rooms(&mut self, plan: &Vec<PlanRoomRec>, layers: &Vec<LayerRoomRec>) -> (n: (
        usize,
        usize,
    ))
        ensures
            n.0 == plan_rooms_usable(views(plan@)),
            n.1 == layer_rooms_usable(views(layers@), old(self)@.doc.layer_names()),
            final(self)@ == (AppView {
                factory: FactoryView {
                    data: old(self)@.factory.data.plan_rooms_added(
                        views(plan@),
                        old(self)@.factory.default_room_height,
                    ).layer_rooms_added(
                        views(layers@),
                        old(self)@.doc.layer_names(),
                        old(self)@.factory.default_room_height,
                    ),
                    ..old(self)@.factory
                },
                ..old(self)@
            }),
    {
        let height: i64 = self.factory.default_room_height;
        let a: usize = self.factory.data.add_plan_rooms(plan, height);
        let b: usize = self.factory.data.add_layer_rooms(layers, &self.doc, height);
        (a, b)
    }

    /// Moves the rooms that older files kept in two other places into the one list of rooms.
    pub fn migrate_legacy_rooms(&mut self, plan: &Vec<PlanRoomRec>, layers: &Vec<LayerRoomRec>)
        ensures
            final(self)@ == old(self)@.legacy_migrated(views(plan@), views(layers@)),
    {
        reveal(AppView::legacy_migrated);
        let (n_plan, n_layers) = self.take_legacy_rooms(plan, layers);
        if n_plan > 0 || n_layers > 0 {
            self.tell_light(String::from_str("Legacy rooms migrated into the single room list."));
            self.say(
                cat5(
                    "  rooms: migrated ",
                    dec_text(n_plan as u64).as_str(),
                    " plan designation(s) + ",
                    dec_text(n_layers as u64).as_str(),
                    " imported layer(s) into one list",
                ),
            );
        }
    }

    fn show_solids(&mut self, solids: usize)
        ensures
            final(self)@ == old(self)@.solids_shown(solids as nat),
    {
        self.factory.open = true;
        self.factory.recompute_due = true;
        self.factory.fit_due = true;
        self.say(
            cat5(
                "  3D Factory: ",
                dec_text(solids as u64).as_str(),
                " solid(s), ",
                dec_text(self.factory.data.walls.len() as u64).as_str(),
                " wall(s) restored",
            ),
        );
    }

    /// Installs project data that has been read and decoded: the drawing's variables and line
    /// types, the 3D model, the fixtures, and the rooms of older files.
    pub fn install_simlux_config(&mut self, p: Project)
        ensures
            final(self)@ == old(self)@.project_installed(p@),
    {
        reveal(AppView::project_installed);
        let ghost pv = p@;
        let Project { cfg, data, furniture_lib, textures, dropped } = p;
        let solids = cfg.factory.features.len() > 0 || cfg.factory.walls.len() > 0
            || cfg.factory.sketches.len() > 0 || cfg.factory.furniture > 0 || furniture_lib.len()
            > 0;
        assert(solids == holds_solids(pv));
        let n_solids: usize = cfg.factory.features.len();
        let legacy = cfg.plan_rooms.len() > 0 || cfg.layers_3d.len() > 0;
        assert(legacy == (pv.cfg.plan_rooms.len() > 0 || pv.cfg.layers_3d.len() > 0));
        let SimluxConfig { vars, wall_centerline, luminaires, plan_rooms, layers_3d, factory } =
            cfg;
        self.project.centerlines = place_rows(&wall_centerline, &self.doc);
        self.project.vars = vars;
        self.factory.take_model(data, furniture_lib, textures);
        self.light.luminaires = luminaires;
        assert(self@ == old(self)@.project_taken(pv));
        if legacy {
            self.migrate_legacy_rooms(&plan_rooms, &layers_3d);
        }
        self.report_install(solids, n_solids, dropped);
    }

    fn report_install(&mut self, solids: bool, n_solids: usize, dropped: usize)
        ensures
            ({
                let c = old(self)@.said("  SIMLUX setup loaded"@);
                let d = if solids {
                    c.solids_shown(n_solids as nat)
                } else {
                    c
                };
                final(self)@ == if dropped > 0 {
                    d.said(
                        "  ! 3D Factory: "@ + dec(dropped as nat)
                            + " wall record(s) dropped (unusable footprint or missing feature)"@,
                    )
                } else {
                    d
                }
            }),
    {
        self.say(String::from_str("  SIMLUX setup loaded"));
        if solids {
            self.show_solids(n_solids);
        }
        if dropped > 0 {
            self.say(
                cat3(
                    "  ! 3D Factory: ",
                    dec_text(dropped as u64).as_str(),
                    " wall record(s) dropped (unusable footprint or missing feature)",
                ),
            );
        }
    }
}

/// Whether two models agree in everything but their rooms.
pub open spec fn same_but_rooms(a: FactoryDataView, b: FactoryDataView) -> bool {
    &&& a.features == b.features && a.sketches == b.sketches && a.walls == b.walls
    &&& a.storeys == b.storeys && a.active_storey == b.active_storey && a.ceilings == b.ceilings
    &&& a.furniture == b.furniture && a.feature_op == b.feature_op
    &&& a.feature_color == b.feature_color && a.surface_color == b.surface_color
    &&& a.feature_texture == b.feature_texture && a.surface_texture == b.surface_texture
    &&& a.feature_group == b.feature_group
}

/// The outlines of an old file join the rooms behind those that are there, each that has three
/// points or more, in order, under its name, with its points and at the height of a new room.
pub proof fn old_outlines_become_rooms(
    d: FactoryDataView,
    plan: Seq<PlanRoomRecView>,
    height: i64,
    k: int,
)
    requires
        0 <= k < plan.len(),
    ensures
        same_but_rooms(d.plan_rooms_added(plan, height), d),
        d.rooms.len() <= d.plan_rooms_added(plan, height).rooms.len() <= d.rooms.len()
            + plan.len(),
        forall|i: int|
            0 <= i < d.rooms.len() ==> (#[trigger] d.plan_rooms_added(plan, height).rooms[i])
                == d.rooms[i],
        plan[k].footprint.len() >= 3 ==> exists|i: int|
            d.rooms.len() <= i < d.plan_rooms_added(plan, height).rooms.len() && (
            #[trigger] d.plan_rooms_added(plan, height).rooms[i]).name == plan[k].name
                && d.plan_rooms_added(plan, height).rooms[i].outline == plan[k].footprint
                && d.plan_rooms_added(plan, height).rooms[i].height == height
                && d.plan_rooms_added(plan, height).rooms[i].origin == RoomOrigin::PlanDesignated,
        (forall|j: int| 0 <= j < plan.len() ==> (#[trigger] plan[j]).footprint.len() < 3)
            ==> d.plan_rooms_added(plan, height) == d,
    decreases plan.len(),
{
    let front = plan.drop_last();
    let before = d.plan_rooms_added(front, height);
    let after = d.plan_rooms_added(plan, height);
    if front.len() > 0 {
        old_outlines_become_rooms(d, front, height, if k < front.len() {
            k
        } else {
            0
        });
        if (forall|j: int| 0 <= j < plan.len() ==> (#[trigger] plan[j]).footprint.len() < 3) {
            assert forall|j: int| 0 <= j < front.len() implies (#[trigger] front[j]).footprint.len()
                < 3 by {
                assert(front[j] == plan[j]);
            }
        }
    }
    if plan[k].footprint.len() >= 3 {
        if k < front.len() {
            let i = choose|i: int|
                d.rooms.len() <= i < before.rooms.len() && (#[trigger] before.rooms[i]).name
                    == front[k].name && before.rooms[i].outline == front[k].footprint
                    && before.rooms[i].height == height && before.rooms[i].origin
                    == RoomOrigin::PlanDesignated;
            assert(after.rooms[i] == before.rooms[i]);
        } else {
            assert(after.rooms[before.rooms.len() as int].name == plan[k].name);
        }
    }
}

/// A layer that is taken for a room is one room afterwards: it carries the layer's name, and is
/// empty until it is traced. Taking it again changes nothing, and the rooms that were there stay.
pub proof fn layer_becomes_one_room(d: FactoryDataView, layer: Seq<char>, height: i64)
    ensures
        ({
            let r = d.layer_imported(layer, height);
            &&& same_but_rooms(r, d)
            &&& r.layer_imported(layer, height) == r
            &&& exists|i: int|
                0 <= i < r.rooms.len() && (#[trigger] r.rooms[i]).layer == layer
                    && r.rooms[i].origin == RoomOrigin::ImportedLayer
            &&& forall|i: int|
                0 <= i < d.rooms.len() ==> (#[trigger] r.rooms[i]) == d.rooms[i]
            &&& r.rooms.len() == d.rooms.len() || (r.rooms.len() == d.rooms.len() + 1
                && r.rooms.last().layer == layer && r.rooms.last().name == layer
                && r.rooms.last().height == height && r.rooms.last().origin
                == RoomOrigin::ImportedLayer)
        }),
{
    let r = d.layer_imported(layer, height);
    room_of_layer_is_least(d.rooms, layer);
    room_of_layer_is_least(r.rooms, layer);
    if room_of_layer(d.rooms, layer) is None {
        assert(r.rooms.last().layer == layer);
        assert(r.rooms[r.rooms.len() - 1] == r.rooms.last());
    } else {
        let i = room_of_layer(d.rooms, layer)->0;
        assert(r.rooms[i].layer == layer);
    }
}

/// The height of a layer's room is set on that room alone.
pub proof fn layer_height_is_set(d: FactoryDataView, layer: Seq<char>, height: i64, i: int)
    requires
        0 <= i < d.rooms.len(),
    ensures
        ({
            let r = d.layer_height_set(layer, height);
            &&& same_but_rooms(r, d) && r.rooms.len() == d.rooms.len()
            &&& r.rooms[i] == d.rooms[i] || (d.rooms[i].layer == layer && r.rooms[i].height
                == height && r.rooms[i].name == d.rooms[i].name)
            &&& (d.rooms[i].layer == layer && d.rooms[i].origin == RoomOrigin::ImportedLayer && (
            forall|j: int|
                0 <= j < i ==> !((#[trigger] d.rooms[j]).layer == layer && d.rooms[j].origin
                    == RoomOrigin::ImportedLayer))) ==> r.rooms[i].height == height
        }),
{
    room_of_layer_is_least(d.rooms, layer);
}

proof fn layer_rooms_keep_the_rest(
    d: FactoryDataView,
    layers: Seq<LayerRoomRecView>,
    names: Seq<Seq<char>>,
    height: i64,
)
    ensures
        same_but_rooms(d.layer_rooms_added(layers, names, height), d),
        d.layer_rooms_added(layers, names, height).rooms.len() >= d.rooms.len(),
        forall|i: int|
            0 <= i < d.rooms.len() && d.rooms[i].origin != RoomOrigin::ImportedLayer ==> (
            #[trigger] d.layer_rooms_added(layers, names, height).rooms[i]) == d.rooms[i],
    decreases layers.len(),
{
    if layers.len() > 0 {
        let before = d.layer_rooms_added(layers.drop_last(), names, height);
        let last = layers.last();
        layer_rooms_keep_the_rest(d, layers.drop_last(), names, height);
        let mid = before.layer_imported(last.layer, height);
        layer_becomes_one_room(before, last.layer, height);
        room_of_layer_is_least(mid.rooms, last.layer);
        let after = d.layer_rooms_added(layers, names, height);
        assert forall|i: int|
            0 <= i < d.rooms.len() && d.rooms[i].origin != RoomOrigin::ImportedLayer implies (
        #[trigger] after.rooms[i]) == d.rooms[i] by {
            assert(before.rooms[i] == d.rooms[i]);
            if first_named(names, last.layer) is Some {
                assert(mid.rooms[i] == before.rooms[i]);
            }
        }
    }
}

/// The layers of an old file are taken for rooms: each that the drawing has is one afterwards, and
/// one that the drawing does not have changes nothing.
pub proof fn old_layers_become_rooms(
    d: FactoryDataView,
    layers: Seq<LayerRoomRecView>,
    names: Seq<Seq<char>>,
    height: i64,
    k: int,
)
    requires
        0 <= k < layers.len(),
    ensures
        same_but_rooms(d.layer_rooms_added(layers, names, height), d),
        names.contains(layers[k].layer) ==> exists|i: int|
            0 <= i < d.layer_rooms_added(layers, names, height).rooms.len() && (
            #[trigger] d.layer_rooms_added(layers, names, height).rooms[i]).layer
                == layers[k].layer && d.layer_rooms_added(layers, names, height).rooms[i].origin
                == RoomOrigin::ImportedLayer,
        (forall|j: int| 0 <= j < layers.len() ==> !names.contains((#[trigger] layers[j]).layer))
            ==> d.layer_rooms_added(layers, names, height) == d,
    decreases layers.len(),
{
    let front = layers.drop_last();
    let before = d.layer_rooms_added(front, names, height);
    let after = d.layer_rooms_added(layers, names, height);
    let last = layers.last();
    let h = if last.height < MIN_ROOM_HEIGHT {
        MIN_ROOM_HEIGHT
    } else {
        last.height
    };
    layer_rooms_keep_the_rest(d, layers, names, height);
    crate::doc::first_named_is_least(names, last.layer);
    let mid = before.layer_imported(last.layer, height);
    layer_becomes_one_room(before, last.layer, height);
    room_of_layer_is_least(mid.rooms, last.layer);
    if front.len() > 0 {
        old_layers_become_rooms(d, front, names, height, if k < front.len() {
            k
        } else {
            0
        });
        if (forall|j: int|
            0 <= j < layers.len() ==> !names.contains((#[trigger] layers[j]).layer)) {
            assert forall|j: int| 0 <= j < front.len() implies !names.contains(
                (#[trigger] front[j]).layer,
            ) by {
                assert(front[j] == layers[j]);
            }
        }
    }
    if (forall|j: int| 0 <= j < layers.len() ==> !names.contains((#[trigger] layers[j]).layer)) {
        assert(layers[layers.len() - 1] == last);
        assert(first_named(names, last.layer) is None);
    }
    if names.contains(layers[k].layer) {
        if k < front.len() {
            assert(front[k] == layers[k]);
            let i = choose|i: int|
                0 <= i < before.rooms.len() && (#[trigger] before.rooms[i]).layer
                    == layers[k].layer && before.rooms[i].origin == RoomOrigin::ImportedLayer;
            if first_named(names, last.layer) is Some {
                assert(mid.rooms[i] == before.rooms[i]);
                layer_height_is_set(mid, last.layer, h, i);
                assert(after.rooms[i].layer == layers[k].layer);
                assert(after.rooms[i].origin == RoomOrigin::ImportedLayer);
            } else {
                assert(after.rooms[i].layer == layers[k].layer);
            }
        } else {
            assert(layers[k] == last);
            let i = choose|i: int|
                0 <= i < mid.rooms.len() && (#[trigger] mid.rooms[i]).layer == last.layer
                    && mid.rooms[i].origin == RoomOrigin::ImportedLayer;
            let at = room_of_layer(mid.rooms, last.layer)->0;
            assert(after.rooms[at].layer == last.layer);
        }
    }
}

/// Project data that is installed is there afterwards, all of it: the variables, the fixtures, the
/// model but for the rooms of older files, the furniture, and the materials where the file carries
/// them. Nothing else of the project changes.
pub proof fn installed_project_is_there(s: AppView, p: ProjectView)
    ensures
        ({
            let r = s.project_installed(p);
            &&& r.project.vars == p.cfg.vars
            &&& r.light.luminaires == p.cfg.luminaires
            &&& same_but_rooms(r.factory.data, p.data)
            &&& p.cfg.plan_rooms.len() == 0 && p.cfg.layers_3d.len() == 0 ==> r.factory.data
                == p.data
            &&& r.factory.furniture_lib == p.furniture_lib
            &&& p.textures is Some ==> r.factory.textures == p.textures->0
            &&& p.textures is None ==> r.factory.textures == s.factory.textures
            &&& p.cfg.factory.features.len() > 0 ==> r.factory.open && r.factory.recompute_due
            &&& r.doc == s.doc && r.selection == s.selection && r.undo == s.undo && r.files
                == s.files && r.groups == s.groups && r.clip == s.clip && r.canvas == s.canvas
            &&& r.factory.session == s.factory.session && r.factory.units == s.factory.units
            &&& r.light.rooms == s.light.rooms && r.light.profiles == s.light.profiles
            &&& r.history.len() > s.history.len()
        }),
{
    reveal(AppView::said);
    reveal(AppView::project_installed);
    reveal(AppView::legacy_migrated);
    let d = p.data;
    let h = s.factory.default_room_height;
    if p.cfg.plan_rooms.len() > 0 {
        old_outlines_become_rooms(d, p.cfg.plan_rooms, h, 0);
    }
    layer_rooms_keep_the_rest(
        d.plan_rooms_added(p.cfg.plan_rooms, h),
        p.cfg.layers_3d,
        s.doc.layer_names(),
        h,
    );
}

/// The rooms that older files kept are among the rooms of an installed project: the outlines with
/// their names and points.
pub proof fn installed_project_has_old_outlines(s: AppView, p: ProjectView, k: int)
    requires
        0 <= k < p.cfg.plan_rooms.len(),
        p.cfg.plan_rooms[k].footprint.len() >= 3,
    ensures
        ({
            let rooms = s.project_installed(p).factory.data.rooms;
            exists|i: int|
                0 <= i < rooms.len() && (#[trigger] rooms[i]).name == p.cfg.plan_rooms[k].name
                    && rooms[i].outline == p.cfg.plan_rooms[k].footprint
        }),
{
    reveal(AppView::said);
    reveal(AppView::project_installed);
    reveal(AppView::legacy_migrated);
    let h = s.factory.default_room_height;
    let mid = p.data.plan_rooms_added(p.cfg.plan_rooms, h);
    let all = mid.layer_rooms_added(p.cfg.layers_3d, s.doc.layer_names(), h);
    old_outlines_become_rooms(p.data, p.cfg.plan_rooms, h, k);
    layer_rooms_keep_the_rest(mid, p.cfg.layers_3d, s.doc.layer_names(), h);
    let i = choose|i: int|
        p.data.rooms.len() <= i < mid.rooms.len() && (#[trigger] mid.rooms[i]).name
            == p.cfg.plan_rooms[k].name && mid.rooms[i].outline == p.cfg.plan_rooms[k].footprint
            && mid.rooms[i].height == h && mid.rooms[i].origin == RoomOrigin::PlanDesignated;
    assert(all.rooms[i] == mid.rooms[i]);
    assert(s.project_installed(p).factory.data.rooms[i].name == p.cfg.plan_rooms[k].name);
}

/// The rooms that older files kept are among the rooms of an installed project: the layers that the
/// drawing has.
pub proof fn installed_project_has_old_layers(s: AppView, p: ProjectView, l: int)
    requires
        0 <= l < p.cfg.layers_3d.len(),
        s.doc.layer_names().contains(p.cfg.layers_3d[l].layer),
    ensures
        ({
            let rooms = s.project_installed(p).factory.data.rooms;
            exists|i: int|
                0 <= i < rooms.len() && (#[trigger] rooms[i]).layer == p.cfg.layers_3d[l].layer
                    && rooms[i].origin == RoomOrigin::ImportedLayer
        }),
{
    reveal(AppView::said);
    reveal(AppView::project_installed);
    reveal(AppView::legacy_migrated);
    let h = s.factory.default_room_height;
    let names = s.doc.layer_names();
    let mid = p.data.plan_rooms_added(p.cfg.plan_rooms, h);
    old_layers_become_rooms(mid, p.cfg.layers_3d, names, h, l);
    let all = mid.layer_rooms_added(p.cfg.layers_3d, names, h);
    let i = choose|i: int|
        0 <= i < all.rooms.len() && (#[trigger] all.rooms[i]).layer == p.cfg.layers_3d[l].layer
            && all.rooms[i].origin == RoomOrigin::ImportedLayer;
    assert(s.project_installed(p).factory.data.rooms[i].layer == p.cfg.layers_3d[l].layer);
}

/// The variables that are saved are all but the last answer.
pub proof fn last_answer_is_not_saved(v: Seq<PairView>, p: PairView)
    ensures
        kept_vars(v).contains(p) <==> v.contains(p) && p.key != "ans"@,
{
    let keep = |p: PairView| p.key != "ans"@;
    let at = crate::groups::filter_places(v, keep);
    let kept = kept_vars(v);
    if v.contains(p) && p.key != "ans"@ {
        let k = choose|k: int| 0 <= k < v.len() && v[k] == p;
        assert(keep(v[k]));
        let i = choose|i: int| 0 <= i < at.len() && #[trigger] at[i] == k;
        assert(kept[i] == p);
    }
    if kept.contains(p) {
        let i = choose|i: int| 0 <= i < kept.len() && kept[i] == p;
        assert(keep(kept[i]));
        assert(v[at[i]] == p);
    }
}

/// What is saved of the project is what there is: the fixtures, the solids, the walls and the
/// sketches, the open one with the drawing that is being edited.
pub proof fn saved_project_is_the_state(
    s: AppView,
    saved: Seq<SketchRecView>,
    open_rsm: Seq<u8>,
    with_geometry: bool,
    i: int,
)
    requires
        0 <= i < saved.len(),
    ensures
        ({
            let c = s.config(saved, open_rsm, with_geometry);
            &&& c.luminaires == s.light.luminaires
            &&& c.factory.features == s.factory.data.features
            &&& c.factory.walls == s.factory.data.walls
            &&& c.factory.with_geometry == with_geometry
            &&& c.factory.sketches.len() == saved.len()
            &&& s.factory.session is None ==> c.factory.sketches == saved
            &&& s.factory.session matches Some(e) ==> sketch_index(s.factory.data.sketches, e.plane)
                == Some(i) ==> c.factory.sketches[i].rsm_b64 == base64_text(open_rsm)
            &&& s.factory.session matches Some(e) ==> sketch_index(s.factory.data.sketches, e.plane)
                != Some(i) ==> c.factory.sketches[i] == saved[i]
            &&& c.plan_rooms.len() == 0 && c.layers_3d.len() == 0
        }),
{
    if let Some(e) = s.factory.session {
        crate::undo::sketch_index_is_least(s.factory.data.sketches, e.plane);
    }
}

/// The number that a character of base 64 stands for.
pub open spec fn base64_value(c: char) -> int {
    if 'A' <= c <= 'Z' {
        c as int - 'A' as int
    } else if 'a' <= c <= 'z' {
        c as int - 'a' as int + 26
    } else if '0' <= c <= '9' {
        c as int - '0' as int + 52
    } else if c == '+' {
        62
    } else if c == '/' {
        63
    } else {
        0
    }
}

/// Bytes in base 64 come back: there are four characters for every three bytes, and each group of
/// four holds the bits of its three bytes, as far as there are so many.
pub proof fn base64_reads_back(s: Seq<u8>, k: int)
    requires
        0 <= k,
        3 * k < s.len(),
    ensures
        ({
            let t = base64_text(s);
            let bits = base64_value(t[4 * k]) * 262_144 + base64_value(t[4 * k + 1]) * 4_096
                + base64_value(t[4 * k + 2]) * 64 + base64_value(t[4 * k + 3]);
            let b = if 3 * k + 1 < s.len() {
                s[3 * k + 1] as int
            } else {
                0
            };
            let c = if 3 * k + 2 < s.len() {
                s[3 * k + 2] as int
            } else {
                0
            };
            &&& t.len() == (s.len() + 2) / 3 * 4
            &&& bits == s[3 * k] * 65_536 + b * 256 + c
        }),
    decreases s.len(),
{
    if k > 0 {
        let rest = s.subrange(3, s.len() as int);
        base64_reads_back(rest, k - 1);
        let t = base64_text(s);
        let u = base64_text(rest);
        base64_has_four_for_three(s);
        base64_has_four_for_three(rest);
        assert(t[4 * k] == u[4 * (k - 1)]);
        assert(t[4 * k + 1] == u[4 * (k - 1) + 1]);
        assert(t[4 * k + 2] == u[4 * (k - 1) + 2]);
        assert(t[4 * k + 3] == u[4 * (k - 1) + 3]);
        assert(rest[3 * (k - 1)] == s[3 * k]);
        if 3 * k + 1 < s.len() {
            assert(rest[3 * (k - 1) + 1] == s[3 * k + 1]);
        }
        if 3 * k + 2 < s.len() {
            assert(rest[3 * (k - 1) + 2] == s[3 * k + 2]);
        }
    } else {
        base64_group_reads_back(s);
    }
}

proof fn base64_group_reads_back(s: Seq<u8>)
    requires
        s.len() > 0,
    ensures
        ({
            let t = base64_text(s);
            let bits = base64_value(t[0]) * 262_144 + base64_value(t[1]) * 4_096 + base64_value(t[2])
                * 64 + base64_value(t[3]);
            let b = if s.len() > 1 {
                s[1] as int
            } else {
                0
            };
            let c = if s.len() > 2 {
                s[2] as int
            } else {
                0
            };
            &&& t.len() == (s.len() + 2) / 3 * 4
            &&& bits == s[0] * 65_536 + b * 256 + c
        }),
{
    base64_has_four_for_three(s);
    let b: u8 = if s.len() > 1 {
        s[1]
    } else {
        0
    };
    let c: u8 = if s.len() > 2 {
        s[2]
    } else {
        0
    };
    base64_digits_read_back((s[0] / 4) as int);
    base64_digits_read_back((s[0] % 4) * 16 + b / 16);
    base64_digits_read_back((b % 16) * 4 + c / 64);
    base64_digits_read_back((c % 64) as int);
}

proof fn base64_has_four_for_three(s: Seq<u8>)
    ensures
        base64_text(s).len() == (s.len() + 2) / 3 * 4,
    decreases s.len(),
{
    if s.len() > 2 {
        base64_has_four_for_three(s.subrange(3, s.len() as int));
    }
}

proof fn base64_digits_read_back(v: int)
    requires
        0 <= v < 64,
    ensures
        base64_value(base64_char(v)) == v,
        base64_value('=') == 0,
{
}

/// What a row of wall styles and their centre lines says of a style.
pub open spec fn centre_line_of(rows: Seq<(u64, u64)>, style: u64) -> Option<u64> {
    match row_of(rows, style) {
        Some(i) => Some(rows[i].1),
        None => None,
    }
}

proof fn put_row_reads_back(rows: Seq<(u64, u64)>, k: u64, v: u64, other: u64)
    ensures
        centre_line_of(row_put(rows, k, v), k) == Some(v),
        other != k ==> centre_line_of(row_put(rows, k, v), other) == centre_line_of(rows, other),
{
    let t = row_put(rows, k, v);
    row_of_is_least(rows, k);
    row_of_is_least(rows, other);
    row_of_is_least(t, k);
    row_of_is_least(t, other);
    match row_of(rows, k) {
        Some(i) => {
            assert(t[i] == (k, v));
            match row_of(t, k) {
                Some(j) => {
                    if j < i {
                        assert(rows[j].0 == k);
                    }
                },
                None => {},
            }
            if other != k {
                match (row_of(rows, other), row_of(t, other)) {
                    (Some(a), Some(b)) => {
                        assert(a != i && b != i);
                        assert(t[a] == rows[a] && t[b] == rows[b]);
                    },
                    (Some(a), None) => {
                        assert(t[a] == rows[a]);
                    },
                    (None, Some(b)) => {
                        assert(b != i);
                        assert(t[b] == rows[b]);
                    },
                    _ => {},
                }
            }
        },
        None => {
            let n = rows.len() as int;
            assert(t[n] == (k, v));
            match row_of(t, k) {
                Some(j) => {
                    if j < n {
                        assert(rows[j].0 == k);
                    }
                },
                None => {},
            }
            if other != k {
                match (row_of(rows, other), row_of(t, other)) {
                    (Some(a), Some(b)) => {
                        assert(b != n);
                        assert(t[a] == rows[a] && t[b] == rows[b]);
                    },
                    (Some(a), None) => {
                        assert(t[a] == rows[a]);
                    },
                    (None, Some(b)) => {
                        assert(b != n);
                        assert(t[b] == rows[b]);
                    },
                    _ => {},
                }
            }
        },
    }
}

/// A centre line that is loaded is that of the wall style of its name, with the linetype of its name,
/// as far as the drawing has both; of several for one style the last holds.
pub proof fn loaded_centre_line_is_of_its_style(
    pairs: Seq<PairView>,
    styles: Seq<Seq<char>>,
    ltypes: Seq<Seq<char>>,
    k: int,
)
    requires
        0 <= k < pairs.len(),
        styles.len() <= u64::MAX,
        ltypes.len() <= u64::MAX,
        first_named(styles, pairs[k].key) is Some,
        first_named(ltypes, pairs[k].value) is Some,
        forall|j: int| k < j < pairs.len() ==> (#[trigger] pairs[j]).key != pairs[k].key,
    ensures
        ({
            let s = first_named(styles, pairs[k].key)->0;
            let l = centre_line_of(placed_rows(pairs, styles, ltypes), s as u64);
            &&& styles[s] == pairs[k].key
            &&& l is Some
            &&& (l->0) < ltypes.len() && ltypes[l->0 as int] == pairs[k].value
        }),
    decreases pairs.len(),
{
    let front = pairs.drop_last();
    let rest = placed_rows(front, styles, ltypes);
    let n = pairs.len() - 1;
    let s = first_named(styles, pairs[k].key)->0;
    crate::doc::first_named_is_least(styles, pairs[k].key);
    crate::doc::first_named_is_least(ltypes, pairs[k].value);
    crate::doc::first_named_is_least(styles, pairs[n].key);
    crate::doc::first_named_is_least(ltypes, pairs[n].value);
    if k < n {
        assert(front[k] == pairs[k]);
        assert forall|j: int| k < j < front.len() implies (#[trigger] front[j]).key != front[k].key by {
            assert(front[j] == pairs[j]);
        }
        loaded_centre_line_is_of_its_style(front, styles, ltypes, k);
        match (first_named(styles, pairs[n].key), first_named(ltypes, pairs[n].value)) {
            (Some(a), Some(b)) => {
                assert(styles[a] == pairs[n].key);
                assert(pairs[n].key != pairs[k].key);
                assert(a != s);
                put_row_reads_back(rest, a as u64, b as u64, s as u64);
            },
            _ => {},
        }
    } else {
        let b = first_named(ltypes, pairs[n].value)->0;
        put_row_reads_back(rest, s as u64, b as u64, s as u64);
    }
}

/// A new room is the last one, with the number that was next, and the number after it comes next.
pub proof fn new_room_has_the_next_number(
    d: FactoryDataView,
    name: Seq<char>,
    layer: Seq<char>,
    origin: RoomOrigin,
    height: i64,
    outline: Seq<crate::doc::Pt>,
)
    ensures
        ({
            let e = d.with_room(name, layer, origin, height, outline);
            let r = e.rooms.last();
            &&& e.rooms.len() == d.rooms.len() + 1
            &&& e.rooms.drop_last() == d.rooms
            &&& r.id == d.next_room_id && r.name == name && r.layer == layer && r.origin == origin
                && r.height == height && r.outline == outline
            &&& d.next_room_id < u32::MAX ==> e.next_room_id == d.next_room_id + 1
            &&& same_but_rooms(e, d)
        }),
{
    assert(d.with_room(name, layer, origin, height, outline).rooms.drop_last() =~= d.rooms);
}

/// The centre lines that are saved name the style and the linetype of each row that the drawing has
/// both of.
pub proof fn saved_centre_lines_are_named(
    rows: Seq<(u64, u64)>,
    styles: Seq<Seq<char>>,
    ltypes: Seq<Seq<char>>,
    p: PairView,
)
    ensures
        named_rows(rows, styles, ltypes).contains(p) <==> exists|i: int|
            0 <= i < rows.len() && (#[trigger] rows[i]).0 < styles.len() && rows[i].1 < ltypes.len()
                && styles[rows[i].0 as int] == p.key && ltypes[rows[i].1 as int] == p.value,
    decreases rows.len(),
{
    if rows.len() > 0 {
        let front = rows.drop_last();
        let n = rows.len() - 1;
        let rest = named_rows(front, styles, ltypes);
        let all = named_rows(rows, styles, ltypes);
        saved_centre_lines_are_named(front, styles, ltypes, p);
        let named = |r: (u64, u64)|
            r.0 < styles.len() && r.1 < ltypes.len() && styles[r.0 as int] == p.key
                && ltypes[r.1 as int] == p.value;
        if all.contains(p) {
            let k = choose|k: int| 0 <= k < all.len() && all[k] == p;
            if k < rest.len() {
                assert(rest[k] == p);
                let i = choose|i: int| 0 <= i < front.len() && named(#[trigger] front[i]);
                assert(rows[i] == front[i]);
            } else {
                assert(named(rows[n]));
            }
        }
        if exists|i: int| 0 <= i < rows.len() && named(#[trigger] rows[i]) {
            let i = choose|i: int| 0 <= i < rows.len() && named(#[trigger] rows[i]);
            if i < n {
                assert(front[i] == rows[i]);
                let k = choose|k: int| 0 <= k < rest.len() && rest[k] == p;
                assert(all[k] == p);
            } else {
                assert(all.last() == p);
            }
        }
    }
}

/// The centre lines and the count of furniture that are saved are those of the plan and of the model.
pub proof fn saved_project_names_the_plan(s: AppView, saved: Seq<SketchRecView>, rsm: Seq<u8>, g: bool)
    ensures
        s.config(saved, rsm, g).wall_centerline == named_rows(
            s.project.centerlines,
            (match s.factory.session {
                Some(e) => e.saved_doc,
                None => s.doc,
            }).wall_styles,
            s.plan().linetypes,
        ),
        s.config(saved, rsm, g).factory.furniture == s.factory.data.furniture.len() as usize,
        s.config(saved, rsm, g).vars == kept_vars(s.project.vars),
{
}

} // verus!
