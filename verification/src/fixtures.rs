//! Fixtures and the symbols that stand for them on the plan: placing, following, aiming, dragging.
use vstd::prelude::*;

use std::collections::HashMap;

use crate::app::{AppView, CadApp, CanvasView};
use crate::clipboard::{geom_moved, move_geom};
use crate::copying::{duplicate_all, group_views, views, Duplicate};
use crate::doc::{DObject, DObjectView, DocView, Document, GeomKind, Pt};
use crate::files::FileView;
use crate::grid::{clamp64, clamp_i64, nearest, nearest_is_near, nearest_ratio};
use crate::light::{LightState, LightView, Luminaire, LuminaireView};
use crate::table::Table;
use crate::text::{cat2, cat3, cat4, cat7, dec, dec_text, dec_text_wide};
use crate::units::{hundredths_text, round_to, rounded, write_hundredths};

verus! {

/// The fixture of an id, by its place in the list.
pub open spec fn fixture_index(l: Seq<LuminaireView>, id: u32) -> Option<int>
    decreases l.len(),
{
    if l.len() == 0 {
        None
    } else if l[0].id == id {
        Some(0)
    } else {
        match fixture_index(l.drop_first(), id) {
            Some(i) => Some(i + 1),
            None => None,
        }
    }
}

/// `fixture_index` is the least place of that id.
pub proof fn fixture_index_is_least(l: Seq<LuminaireView>, id: u32)
    ensures
        match fixture_index(l, id) {
            Some(i) => 0 <= i < l.len() && l[i].id == id && forall|j: int|
                0 <= j < i ==> (#[trigger] l[j]).id != id,
            None => forall|j: int| 0 <= j < l.len() ==> (#[trigger] l[j]).id != id,
        },
    decreases l.len(),
{
    if l.len() > 0 && l[0].id != id {
        let rest = l.drop_first();
        fixture_index_is_least(rest, id);
        assert forall|j: int| 0 < j < l.len() implies (#[trigger] l[j]) == rest[j - 1] by {}
    }
}

/// Looks a fixture up by its id.
pub fn find_fixture(l: &Vec<Luminaire>, id: u32) -> (r: Option<usize>)
    ensures
        match r {
            Some(i) => fixture_index(views(l@), id) == Some(i as int) && i < l.len(),
            None => fixture_index(views(l@), id) is None,
        },
{
    let ghost all = views(l@);
    let mut i: usize = 0;
    while i < l.len()
        invariant
            i <= l.len(),
            all == views(l@),
            forall|j: int| 0 <= j < i ==> (#[trigger] all[j]).id != id,
        decreases l.len() - i,
    {
        if l[i].id == id {
            proof {
                fixture_index_is_least(all, id);
            }
            assert(all[i as int].id == id);
            return Some(i);
        }
        i += 1;
    }
    proof {
        fixture_index_is_least(all, id);
    }
    None
}

/// What a unit measures, in nanometres; one that says nothing counts as a metre.
pub open spec fn unit_or_metre(nm: u64) -> u64 {
    if nm == 0 {
        1_000_000_000
    } else {
        nm
    }
}

fn unit_nm(nm: u64) -> (r: u64)
    ensures
        r == unit_or_metre(nm),
{
    if nm == 0 {
        1_000_000_000
    } else {
        nm
    }
}

/// A drawing coordinate, in micrometres.
pub open spec fn to_model(x: i64, nm: u64) -> i64 {
    clamp64(nearest(x * unit_or_metre(nm), 1_000_000_000))
}

/// Micrometres, as a drawing coordinate.
pub open spec fn to_drawing(x: i64, nm: u64) -> i64 {
    clamp64(nearest(x * 1_000_000_000, unit_or_metre(nm) as int))
}

fn model_length(x: i64, nm: u64) -> (r: i64)
    ensures
        r == to_model(x, nm),
{
    clamp_i64(nearest_ratio(x, unit_nm(nm), 1_000_000_000))
}

fn drawing_length(x: i64, nm: u64) -> (r: i64)
    ensures
        r == to_drawing(x, nm),
{
    clamp_i64(nearest_ratio(x, 1_000_000_000, unit_nm(nm)))
}

/// Whether an object is a block with a place.
pub open spec fn is_symbol(d: DObjectView) -> bool {
    d.geom.kind == GeomKind::BlockRef && d.geom.pts.len() > 0
}

/// Where the block of a handle stands, and how it is turned.
pub open spec fn symbol_place(d: Seq<DObjectView>, h: u64) -> Option<(Pt, i64)>
    decreases d.len(),
{
    if d.len() == 0 {
        None
    } else if d.last().handle == h && is_symbol(d.last()) {
        Some((d.last().geom.pts[0], d.last().geom.turn))
    } else {
        symbol_place(d.drop_last(), h)
    }
}

/// Where a fixture belongs by its symbol: its place in the model and its turn.
pub open spec fn symbol_pose(doc: DocView, symbol_of: Map<u64, u64>, id: u32) -> Option<
    (i64, i64, i64),
> {
    if symbol_of.dom().contains(id as u64) {
        match symbol_place(doc.dobjects, symbol_of[id as u64]) {
            Some((p, turn)) => Some(
                (
                    to_model(p.x, doc.units.nm_per_unit),
                    to_model(p.y, doc.units.nm_per_unit),
                    turn,
                ),
            ),
            None => None,
        }
    } else {
        None
    }
}

/// Whether two lengths or angles are apart by more than `by`.
pub open spec fn apart(a: i64, b: i64, by: int) -> bool {
    a - b > by || b - a > by
}

/// Whether a fixture has left its symbol: by more than a tenth of a millimetre, or turned by more
/// than a thousandth of a degree.
pub open spec fn has_left(l: LuminaireView, pose: Option<(i64, i64, i64)>) -> bool {
    match pose {
        Some((x, y, turn)) => apart(l.x, x, 100) || apart(l.y, y, 100) || apart(l.turn, turn, 1_000),
        None => false,
    }
}

/// A fixture after it has been brought back to its symbol. One without a symbol, or whose symbol
/// is gone from the drawing, stays as it is.
pub open spec fn followed(l: LuminaireView, pose: Option<(i64, i64, i64)>) -> LuminaireView {
    if has_left(l, pose) {
        let (x, y, turn) = pose->0;
        LuminaireView { x: x, y: y, turn: turn, ..l }
    } else {
        l
    }
}

impl LightView {
    /// All fixtures after they have been brought back to their symbols.
    pub open spec fn fixtures_followed(self, doc: DocView) -> Seq<LuminaireView> {
        self.luminaires.map_values(
            |l: LuminaireView| followed(l, symbol_pose(doc, self.symbol_of, l.id)),
        )
    }

    /// How many of the first `n` fixtures have left their symbols.
    pub open spec fn leavers(self, doc: DocView, n: int) -> nat
        decreases n,
    {
        if n <= 0 {
            0
        } else {
            self.leavers(doc, n - 1) + if has_left(
                self.luminaires[n - 1],
                symbol_pose(doc, self.symbol_of, self.luminaires[n - 1].id),
            ) {
                1nat
            } else {
                0nat
            }
        }
    }
}

fn lies_apart(a: i64, b: i64, by: i128) -> (r: bool)
    requires
        0 <= by < 1_000_000,
    ensures
        r == apart(a, b, by as int),
{
    let d: i128 = a as i128 - b as i128;
    d > by || -d > by
}

fn left_symbol(l: &Luminaire, x: i64, y: i64, turn: i64) -> (r: bool)
    ensures
        r == has_left(l@, Some((x, y, turn))),
{
    lies_apart(l.x, x, 100) || lies_apart(l.y, y, 100) || lies_apart(l.turn, turn, 1_000)
}

/// The blocks of a drawing, by handle.
fn symbols_by_handle(d: &Vec<DObject>) -> (r: HashMap<u64, (Pt, i64)>)
    ensures
        forall|h: u64|
            #![trigger symbol_place(views(d@), h)]
            match symbol_place(views(d@), h) {
                Some(p) => r@.dom().contains(h) && r@[h] == p,
                None => !r@.dom().contains(h),
            },
{
    broadcast use vstd::std_specs::hash::group_hash_axioms;

    let ghost all = views(d@);
    let mut r: HashMap<u64, (Pt, i64)> = HashMap::new();
    let mut i: usize = 0;
    while i < d.len()
        invariant
            i <= d.len(),
            all == views(d@),
            forall|h: u64|
                #![trigger symbol_place(all.subrange(0, i as int), h)]
                match symbol_place(all.subrange(0, i as int), h) {
                    Some(p) => r@.dom().contains(h) && r@[h] == p,
                    None => !r@.dom().contains(h),
                },
        decreases d.len() - i,
    {
        let ghost before = r@;
        let ghost head = all.subrange(0, i as int);
        let ghost next = all.subrange(0, i + 1);
        assert(next.drop_last() =~= head);
        assert(next.last() == d@[i as int]@);
        let o: &DObject = &d[i];
        if o.geom.kind == GeomKind::BlockRef && o.geom.pts.len() > 0 {
            r.insert(o.handle, (o.geom.pts[0], o.geom.turn));
        }
        assert forall|h: u64|
            #![trigger symbol_place(next, h)]
            match symbol_place(next, h) {
                Some(p) => r@.dom().contains(h) && r@[h] == p,
                None => !r@.dom().contains(h),
            } by {
            let was = symbol_place(head, h);
        }
        i += 1;
    }
    assert(all.subrange(0, i as int) =~= all);
    r
}

fn pose_by_symbol(doc: &Document, by: &HashMap<u64, (Pt, i64)>, symbol_of: &Table<u64>, id: u32)
    -> (r: Option<(i64, i64, i64)>)
    requires
        forall|h: u64|
            #![trigger symbol_place(doc@.dobjects, h)]
            match symbol_place(doc@.dobjects, h) {
                Some(p) => by@.dom().contains(h) && by@[h] == p,
                None => !by@.dom().contains(h),
            },
    ensures
        r == symbol_pose(doc@, symbol_of@, id),
{
    broadcast use vstd::std_specs::hash::group_hash_axioms;

    match symbol_of.get(id as u64) {
        None => None,
        Some(h) => {
            let ghost place = symbol_place(doc@.dobjects, h);
            match by.get(&h) {
                None => None,
                Some(p) => {
                    let nm: u64 = doc.units.nm_per_unit;
                    Some((model_length((p.0).x, nm), model_length((p.0).y, nm), p.1))
                },
            }
        },
    }
}

impl LightState {
    /// Brings every fixture back to the symbol it was placed as, and counts those that had left.
    fn follow_symbols(&mut self, doc: &Document) -> (n: usize)
        ensures
            final(self)@ == (LightView {
                luminaires: old(self)@.fixtures_followed(doc@),
                ..old(self)@
            }),
            n == old(self)@.leavers(doc@, old(self)@.luminaires.len() as int),
    {
        let ghost was = self@;
        let by = symbols_by_handle(&doc.dobjects);
        let mut out: Vec<Luminaire> = Vec::new();
        let mut n: usize = 0;
        let mut i: usize = 0;
        while i < self.luminaires.len()
            invariant
                i <= self.luminaires.len(),
                out.len() == i,
                n <= i,
                was == self@,
                n == was.leavers(doc@, i as int),
                forall|h: u64|
                    #![trigger symbol_place(doc@.dobjects, h)]
                    match symbol_place(doc@.dobjects, h) {
                        Some(p) => by@.dom().contains(h) && by@[h] == p,
                        None => !by@.dom().contains(h),
                    },
                forall|k: int|
                    0 <= k < i ==> (#[trigger] out@[k])@ == followed(
                        was.luminaires[k],
                        symbol_pose(doc@, was.symbol_of, was.luminaires[k].id),
                    ),
            decreases self.luminaires.len() - i,
        {
            assert(was.luminaires[i as int] == self.luminaires@[i as int]@);
            let mut l = self.luminaires[i].duplicate();
            let pose = pose_by_symbol(doc, &by, &self.symbol_of, l.id);
            if let Some((x, y, turn)) = pose {
                if left_symbol(&l, x, y, turn) {
                    l.x = x;
                    l.y = y;
                    l.turn = turn;
                    n += 1;
                }
            }
            out.push(l);
            i += 1;
        }
        assert(views(out@) =~= was.fixtures_followed(doc@));
        self.luminaires = out;
        n
    }
}

impl AppView {
    /// After the fixtures have been brought back to their symbols.
    pub open spec fn fixtures_synced(self) -> AppView {
        AppView {
            light: LightView {
                luminaires: self.light.fixtures_followed(self.doc),
                ..self.light
            },
            ..self
        }
    }

    /// How many fixtures have left their symbols.
    pub open spec fn leavers(self) -> nat {
        self.light.leavers(self.doc, self.light.luminaires.len() as int)
    }

    /// After the drawing has been looked at for edits. While a fixture is dragged its symbol
    /// follows it, and not the other way round.
    pub open spec fn symbols_checked(self) -> AppView {
        if self.files.symbol_sync_seq == self.files.edit_seq {
            self
        } else {
            let s = AppView {
                files: FileView { symbol_sync_seq: self.files.edit_seq, ..self.files },
                ..self
            };
            if s.light.drag is Some {
                s
            } else if s.leavers() > 0 {
                s.fixtures_synced().said(
                    "  ↻ "@ + dec(s.leavers())
                        + " fitting(s) followed their symbol — recalculate for the new layout"@,
                ).touched()
            } else {
                s.fixtures_synced()
            }
        }
    }

    /// After a fixture point has been put on the plan.
    pub open spec fn fixture_placed(self, point: LuminaireView) -> AppView {
        AppView {
            light: LightView {
                undo_pending: Some(self.lights_before()),
                luminaires: self.light.luminaires.push(point),
                ..self.light
            },
            ..self
        }.lights_recorded()
    }
}

impl CadApp {
    fn add_fixture(&mut self, point: Luminaire)
        ensures
            final(self)@ == (AppView {
                light: LightView {
                    undo_pending: Some(old(self)@.lights_before()),
                    luminaires: old(self)@.light.luminaires.push(point@),
                    ..old(self)@.light
                },
                ..old(self)@
            }),
    {
        broadcast use group_views;

        if self.light.undo_pending.is_none() {
            self.light.undo_pending = Some(duplicate_all(&self.light.luminaires));
        }
        self.light.luminaires.push(point);
    }

    /// Puts a bare fixture point on the plan, as one step of the undo history, and returns its id.
    pub fn place_fixture_point(&mut self, point: Luminaire) -> (r: u32)
        ensures
            final(self)@ == old(self)@.fixture_placed(point@),
            r == point.id,
    {
        let id: u32 = point.id;
        self.add_fixture(point);
        self.commit_light_undo();
        id
    }

    /// Brings every fixture back to the symbol it was placed as. It returns how many had left it.
    pub fn sync_fixtures_from_symbols(&mut self) -> (n: usize)
        ensures
            final(self)@ == old(self)@.fixtures_synced(),
            n == old(self)@.leavers(),
    {
        self.light.follow_symbols(&self.doc)
    }

    fn note_symbols(&mut self)
        ensures
            final(self)@ == (AppView {
                files: FileView { symbol_sync_seq: old(self)@.files.edit_seq, ..old(self)@.files },
                ..old(self)@
            }),
    {
        self.files.symbol_sync_seq = self.files.edit_seq;
    }

    /// Keeps the fixtures with their symbols, once per edit of the drawing.
    pub fn tick_symbol_sync(&mut self)
        ensures
            final(self)@ == old(self)@.symbols_checked(),
    {
        if self.files.symbol_sync_seq == self.files.edit_seq {
            return;
        }
        self.note_symbols();
        if self.light.drag.is_some() {
            return;
        }
        let n: usize = self.sync_fixtures_from_symbols();
        if n > 0 {
            self.say(
                cat3(
                    "  ↻ ",
                    dec_text(n as u64).as_str(),
                    " fitting(s) followed their symbol — recalculate for the new layout",
                ),
            );
            self.touch_view();
        }
    }
}

/// Bringing the fixtures to their symbols once is enough: a second time moves none.
pub proof fn synced_fixtures_stay(s: AppView)
    ensures
        s.fixtures_synced().leavers() == 0,
        s.fixtures_synced().fixtures_synced() == s.fixtures_synced(),
{
    let t = s.fixtures_synced();
    synced_none_left(s, t.light.luminaires.len() as int);
    assert(t.light.fixtures_followed(t.doc) =~= t.light.luminaires);
}

proof fn synced_none_left(s: AppView, n: int)
    requires
        n <= s.light.luminaires.len(),
    ensures
        s.fixtures_synced().light.leavers(s.doc, n) == 0,
    decreases n,
{
    if n > 0 {
        synced_none_left(s, n - 1);
    }
}

/// A fixture whose symbol is gone from the drawing stays where it is.
pub proof fn lost_symbol_moves_nothing(s: AppView, i: int)
    requires
        0 <= i < s.light.luminaires.len(),
        s.light.symbol_of.dom().contains(s.light.luminaires[i].id as u64) ==> symbol_place(
            s.doc.dobjects,
            s.light.symbol_of[s.light.luminaires[i].id as u64],
        ) is None,
    ensures
        s.symbols_checked().light.luminaires[i] == s.light.luminaires[i],
{
    reveal(AppView::said);
}

/// Looking at the drawing a second time, without an edit in between, changes nothing.
pub proof fn symbols_are_checked_once(s: AppView)
    ensures
        s.symbols_checked().symbols_checked() == s.symbols_checked(),
{
    reveal(AppView::said);
}

/// A length with two decimals of a metre, from micrometres.
pub open spec fn metres2(x: i64) -> Seq<char> {
    if x < 0 {
        "-"@ + hundredths_text(rounded((-x) as nat, 10_000))
    } else {
        hundredths_text(rounded(x as nat, 10_000))
    }
}

/// An angle in whole degrees, from millionths.
pub open spec fn degrees0(a: i64) -> Seq<char> {
    if a < 0 {
        "-"@ + dec(rounded((-a) as nat, 1_000_000))
    } else {
        dec(rounded(a as nat, 1_000_000))
    }
}

fn size_of_number(x: i64) -> (r: u128)
    ensures
        r == if x < 0 {
            -x
        } else {
            x as int
        },
{
    if x < 0 {
        (-(x as i128)) as u128
    } else {
        x as u128
    }
}

fn write_metres2(x: i64) -> (r: String)
    ensures
        r@ == metres2(x),
{
    let t = write_hundredths(round_to(size_of_number(x), 10_000));
    if x < 0 {
        cat2("-", t.as_str())
    } else {
        t
    }
}

pub(crate) fn write_degrees0(a: i64) -> (r: String)
    ensures
        r@ == degrees0(a),
{
    let t = dec_text_wide(round_to(size_of_number(a), 1_000_000));
    if a < 0 {
        cat2("-", t.as_str())
    } else {
        t
    }
}

/// That a fixture hangs too low to be aimed.
pub open spec fn too_low_msg(id: u32, at: i64, plane: i64) -> Seq<char> {
    ("Fitting #"@ + dec(id as nat) + " is at "@ + metres2(at)
        + " m, at or below the working plane at "@ + metres2(plane)
        + " m — nothing below it to aim at."@)
}

/// That a fixture was aimed, and how it hangs now.
pub open spec fn aimed_msg(id: u32, x: i64, y: i64, turn: i64, tilt: i64) -> Seq<char> {
    ("Fitting #"@ + dec(id as nat) + " aimed at ("@ + metres2(x) + ", "@ + metres2(y) + ") — "@)
        + (degrees0(tilt) + "° from vertical, toward "@ + degrees0(turn)
        + "°. Click another fitting, or Esc to stop."@)
}

fn write_too_low(id: u32, at: i64, plane: i64) -> (r: String)
    ensures
        r@ == too_low_msg(id, at, plane),
{
    cat7(
        "Fitting #",
        dec_text(id as u64).as_str(),
        " is at ",
        write_metres2(at).as_str(),
        " m, at or below the working plane at ",
        write_metres2(plane).as_str(),
        " m — nothing below it to aim at.",
    )
}

fn write_aimed(id: u32, x: i64, y: i64, turn: i64, tilt: i64) -> (r: String)
    ensures
        r@ == aimed_msg(id, x, y, turn, tilt),
{
    let head = cat7(
        "Fitting #",
        dec_text(id as u64).as_str(),
        " aimed at (",
        write_metres2(x).as_str(),
        ", ",
        write_metres2(y).as_str(),
        ") — ",
    );
    let tail = cat4(
        write_degrees0(tilt).as_str(),
        "° from vertical, toward ",
        write_degrees0(turn).as_str(),
        "°. Click another fitting, or Esc to stop.",
    );
    cat2(head.as_str(), tail.as_str())
}

/// A click of the aim tool: the place, the fixture under it, and the turn and tilt with which the
/// fixture being aimed would point at that place on the working plane, if it can.
#[derive(Clone, Copy, Debug)]
pub struct AimClick {
    pub x: i64,
    pub y: i64,
    pub picked: Option<u32>,
    pub pose: Option<(i64, i64)>,
}

impl LightView {
    /// With one fixture turned and tilted anew. It does not move.
    pub open spec fn posed(self, i: int, turn: i64, tilt: i64) -> LightView {
        LightView {
            luminaires: self.luminaires.update(
                i,
                LuminaireView { turn: turn, tilt: tilt, ..self.luminaires[i] },
            ),
            ..self
        }
    }

    /// With a fixture picked for aiming, which also selects it.
    pub open spec fn aim_picked(self, picked: Option<u32>) -> LightView {
        match picked {
            Some(id) => LightView {
                aim_pick: Some(id),
                selected: seq![id],
                last_msg: "Fitting #"@ + dec(id as nat) + " — now click the point it should light."@,
                ..self
            },
            None => LightView {
                last_msg: "No fitting there. Click a marker to pick the light to aim."@,
                ..self
            },
        }
    }

    /// With no fixture picked for aiming.
    pub open spec fn aim_dropped(self) -> LightView {
        LightView { aim_pick: None, ..self }
    }

    /// Whether a fixture hangs above the working plane, by more than a millimetre.
    pub open spec fn above_plane(self, i: int) -> bool {
        self.luminaires[i].z > self.plane_height + 1_000
    }
}

impl AppView {
    /// With a given state of the lighting panel.
    pub open spec fn with_light(self, l: LightView) -> AppView {
        AppView { light: l, ..self }
    }

    /// After the fixture at a place has been pointed somewhere.
    pub open spec fn fixture_aimed(self, i: int, id: u32, c: AimClick) -> AppView {
        let s = self.both_recorded();
        match c.pose {
            Some((turn, tilt)) => {
                let t = s.with_light(s.light.posed(i, turn, tilt)).light_told(
                    aimed_msg(id, c.x, c.y, turn, tilt),
                ).touched();
                t.with_light(t.light.aim_dropped())
            },
            None => s.with_light(s.light.aim_dropped()),
        }
    }

    /// After a click of the aim tool: the first picks a fixture, the second where it points.
    pub open spec fn aim_clicked(self, c: AimClick) -> AppView {
        match self.light.aim_pick {
            None => self.with_light(self.light.aim_picked(c.picked)),
            Some(id) => match fixture_index(self.light.luminaires, id) {
                None => self.with_light(self.light.aim_dropped()),
                Some(i) => if self.light.above_plane(i) {
                    self.fixture_aimed(i, id, c)
                } else {
                    let s = self.light_told(
                        too_low_msg(id, self.light.luminaires[i].z, self.light.plane_height),
                    );
                    s.with_light(s.light.aim_dropped())
                },
            },
        }
    }
}

impl LightState {
    fn pose(&mut self, i: usize, turn: i64, tilt: i64)
        requires
            i < old(self)@.luminaires.len(),
        ensures
            final(self)@ == old(self)@.posed(i as int, turn, tilt),
    {
        broadcast use group_views;

        let ghost before = self.luminaires@;
        self.luminaires[i].turn = turn;
        self.luminaires[i].tilt = tilt;
        assert(self.luminaires@ =~= before.update(i as int, self.luminaires@[i as int]));
    }

    fn pick_for_aim(&mut self, picked: Option<u32>)
        ensures
            final(self)@ == old(self)@.aim_picked(picked),
    {
        match picked {
            Some(id) => {
                self.aim_pick = Some(id);
                let mut sel: Vec<u32> = Vec::new();
                sel.push(id);
                assert(sel@ =~= seq![id]);
                self.selected = sel;
                self.last_msg = cat3(
                    "Fitting #",
                    dec_text(id as u64).as_str(),
                    " — now click the point it should light.",
                );
            },
            None => {
                self.last_msg = String::from_str(
                    "No fitting there. Click a marker to pick the light to aim.",
                );
            },
        }
    }
}

impl CadApp {
    fn drop_aim(&mut self)
        ensures
            final(self)@ == old(self)@.with_light(old(self)@.light.aim_dropped()),
    {
        self.light.aim_pick = None;
    }

    fn pick_aim(&mut self, picked: Option<u32>)
        ensures
            final(self)@ == old(self)@.with_light(old(self)@.light.aim_picked(picked)),
    {
        self.light.pick_for_aim(picked);
    }

    fn pose_fixture(&mut self, i: usize, turn: i64, tilt: i64)
        requires
            i < old(self)@.light.luminaires.len(),
        ensures
            final(self)@ == old(self)@.with_light(old(self)@.light.posed(i as int, turn, tilt)),
    {
        self.light.pose(i, turn, tilt);
    }

    fn hangs_above(&self, i: usize) -> (r: bool)
        requires
            i < self@.light.luminaires.len(),
        ensures
            r == self@.light.above_plane(i as int),
    {
        assert(self@.light.luminaires[i as int] == self.light.luminaires@[i as int]@);
        self.light.luminaires[i].z as i128 > self.light.plane_height as i128 + 1_000
    }

    fn aim_fixture(&mut self, i: usize, id: u32, c: AimClick)
        requires
            i < old(self)@.light.luminaires.len(),
        ensures
            final(self)@ == old(self)@.fixture_aimed(i as int, id, c),
    {
        self.snapshot_doc_and_lights();
        if let Some((turn, tilt)) = c.pose {
            self.pose_fixture(i, turn, tilt);
            self.tell_light(write_aimed(id, c.x, c.y, turn, tilt));
            self.touch_view();
        }
        self.drop_aim();
    }

    fn tell_too_low(&mut self, i: usize, id: u32)
        requires
            i < old(self)@.light.luminaires.len(),
        ensures
            final(self)@ == ({
                let s = old(self)@.light_told(
                    too_low_msg(
                        id,
                        old(self)@.light.luminaires[i as int].z,
                        old(self)@.light.plane_height,
                    ),
                );
                s.with_light(s.light.aim_dropped())
            }),
    {
        assert(self@.light.luminaires[i as int] == self.light.luminaires@[i as int]@);
        let msg = write_too_low(id, self.light.luminaires[i].z, self.light.plane_height);
        self.tell_light(msg);
        self.drop_aim();
    }

    /// One click of the aim tool: the first picks a fixture, the second the place on the working
    /// plane that it points at from then on. The fixture itself does not move.
    pub fn aim_click(&mut self, c: AimClick)
        ensures
            final(self)@ == old(self)@.aim_clicked(c),
    {
        let id: u32 = match self.light.aim_pick {
            None => {
                self.pick_aim(c.picked);
                return;
            },
            Some(id) => id,
        };
        match find_fixture(&self.light.luminaires, id) {
            None => self.drop_aim(),
            Some(i) => {
                if self.hangs_above(i) {
                    self.aim_fixture(i, id, c);
                } else {
                    self.tell_too_low(i, id);
                }
            },
        }
    }
}

/// Aiming never moves a fixture, and changes no fixture but the one that was picked.
pub proof fn aiming_moves_nothing(s: AppView, c: AimClick, i: int)
    requires
        0 <= i < s.light.luminaires.len(),
    ensures
        s.aim_clicked(c).light.luminaires.len() == s.light.luminaires.len(),
        s.aim_clicked(c).light.luminaires[i].x == s.light.luminaires[i].x,
        s.aim_clicked(c).light.luminaires[i].y == s.light.luminaires[i].y,
        s.aim_clicked(c).light.luminaires[i].z == s.light.luminaires[i].z,
        s.light.aim_pick != Some(s.light.luminaires[i].id)
            ==> s.aim_clicked(c).light.luminaires[i] == s.light.luminaires[i],
{
    if s.light.aim_pick is Some {
        fixture_index_is_least(s.light.luminaires, s.light.aim_pick->0);
    }
}

/// The fixtures of a list whose ids are among some, in their order.
pub open spec fn fixtures_among(l: Seq<LuminaireView>, ids: Seq<u32>) -> Seq<LuminaireView> {
    l.filter(|f: LuminaireView| ids.contains(f.id))
}

fn holds_id(ids: &Vec<u32>, id: u32) -> (r: bool)
    ensures
        r == ids@.contains(id),
{
    let mut i: usize = 0;
    while i < ids.len()
        invariant
            i <= ids.len(),
            forall|j: int| 0 <= j < i ==> ids@[j] != id,
        decreases ids.len() - i,
    {
        if ids[i] == id {
            return true;
        }
        i += 1;
    }
    false
}

impl CadApp {
    fn fixtures_selected(&self) -> (r: Vec<Luminaire>)
        ensures
            views(r@) == fixtures_among(self@.light.luminaires, self@.light.selected),
    {
        broadcast use group_views;

        let ghost all = self@.light.luminaires;
        let ghost pick = |f: LuminaireView| self@.light.selected.contains(f.id);
        let mut out: Vec<Luminaire> = Vec::new();
        let mut i: usize = 0;
        assert(all.subrange(0, 0).filter(pick) =~= Seq::<LuminaireView>::empty()) by {
            reveal(Seq::filter);
        }
        while i < self.light.luminaires.len()
            invariant
                i <= self.light.luminaires.len(),
                all == self@.light.luminaires,
                pick == (|f: LuminaireView| self@.light.selected.contains(f.id)),
                views(out@) == all.subrange(0, i as int).filter(pick),
            decreases self.light.luminaires.len() - i,
        {
            let ghost next = all.subrange(0, i + 1);
            assert(next.drop_last() =~= all.subrange(0, i as int));
            assert(next.last() == self.light.luminaires@[i as int]@);
            proof {
                reveal(Seq::filter);
            }
            if holds_id(&self.light.selected, self.light.luminaires[i].id) {
                out.push(self.light.luminaires[i].duplicate());
            }
            i += 1;
        }
        assert(all.subrange(0, i as int) =~= all);
        out
    }

    fn take_drag(&mut self, id: u32, selected: Vec<u32>)
        ensures
            final(self)@ == old(self)@.with_light(
                LightView { drag: Some(id), selected: selected@, ..old(self)@.light },
            ),
    {
        self.light.drag = Some(id);
        self.light.selected = selected;
    }

    /// Starts to drag a fixture, with what the press leaves selected. It returns the fixtures that
    /// are dragged, for which the symbols have to be found before anything moves: fixture and
    /// symbol are told together by their place.
    pub fn begin_fixture_drag(&mut self, id: u32, selected: Vec<u32>) -> (r: Vec<Luminaire>)
        ensures
            final(self)@ == old(self)@.drag_taken(id, selected@),
            views(r@) == fixtures_among(old(self)@.light.luminaires, selected@),
    {
        self.take_drag(id, selected);
        self.fixtures_selected()
    }

    /// Keeps the symbols that were found for the dragged fixtures, for as long as the drag lasts.
    pub fn claim_drag_symbols(&mut self, found: Vec<(u32, usize)>)
        ensures
            final(self)@ == old(self)@.symbols_claimed(found@),
    {
        self.light.drag_symbols = found;
    }
}

/// Where the symbol of a fixture belongs.
pub open spec fn symbol_home(l: LuminaireView, nm: u64) -> Pt {
    Pt { x: to_drawing(l.x, nm), y: to_drawing(l.y, nm) }
}

/// Whether there is a symbol at a place of the drawing that is not yet at home.
pub open spec fn symbol_moves(d: Seq<DObjectView>, index: usize, at: Pt) -> bool {
    index < d.len() && is_symbol(d[index as int]) && d[index as int].geom.pts[0] != at
}

/// Objects after the symbol at a place has been moved.
pub open spec fn symbol_moved(d: Seq<DObjectView>, index: usize, at: Pt) -> Seq<DObjectView> {
    if symbol_moves(d, index, at) {
        let o = d[index as int];
        d.update(
            index as int,
            DObjectView { geom: geom_moved(o.geom, o.geom.pts[0], at), ..o },
        )
    } else {
        d
    }
}

/// Objects after the first `n` claimed symbols have been put under their fixtures, and whether any
/// moved.
pub open spec fn symbols_dragged(
    d: Seq<DObjectView>,
    l: Seq<LuminaireView>,
    claims: Seq<(u32, usize)>,
    nm: u64,
    n: int,
) -> (Seq<DObjectView>, bool)
    decreases n,
{
    if n <= 0 {
        (d, false)
    } else {
        let (e, moved) = symbols_dragged(d, l, claims, nm, n - 1);
        let (id, index) = claims[n - 1];
        match fixture_index(l, id) {
            Some(i) => {
                let at = symbol_home(l[i], nm);
                (symbol_moved(e, index, at), moved || symbol_moves(e, index, at))
            },
            None => (e, moved),
        }
    }
}

impl AppView {
    /// After the symbols of the dragged fixtures have followed them.
    pub open spec fn drag_followed(self) -> AppView {
        let (objects, moved) = symbols_dragged(
            self.doc.dobjects,
            self.light.luminaires,
            self.light.drag_symbols,
            self.doc.units.nm_per_unit,
            self.light.drag_symbols.len() as int,
        );
        if moved {
            AppView {
                doc: DocView { dobjects: objects, ..self.doc },
                canvas: CanvasView {
                    intersections: Seq::empty(),
                    index_dirty: true,
                    view_dirty: true,
                    ..self.canvas
                },
                ..self
            }
        } else {
            self
        }
    }
}

fn move_symbol(d: &mut Vec<DObject>, index: usize, at: Pt) -> (r: bool)
    ensures
        r == symbol_moves(views(old(d)@), index, at),
        views(final(d)@) == symbol_moved(views(old(d)@), index, at),
{
    broadcast use group_views;

    if index >= d.len() {
        return false;
    }
    let ghost before = d@;
    let o: &DObject = &d[index];
    assert(views(before)[index as int] == o@);
    if o.geom.kind != GeomKind::BlockRef || o.geom.pts.len() == 0 {
        return false;
    }
    let from: Pt = o.geom.pts[0];
    if from == at {
        return false;
    }
    let moved = DObject { handle: o.handle, geom: move_geom(&o.geom, from, at), style: o.style };
    d.set(index, moved);
    true
}

proof fn quiet_drag_keeps(
    d: Seq<DObjectView>,
    l: Seq<LuminaireView>,
    claims: Seq<(u32, usize)>,
    nm: u64,
    n: int,
)
    ensures
        !symbols_dragged(d, l, claims, nm, n).1 ==> symbols_dragged(d, l, claims, nm, n).0 == d,
    decreases n,
{
    if n > 0 {
        quiet_drag_keeps(d, l, claims, nm, n - 1);
    }
}

impl Document {
    fn drag_symbols(&mut self, l: &Vec<Luminaire>, claims: &Vec<(u32, usize)>) -> (moved: bool)
        ensures
            ({
                let r = symbols_dragged(
                    old(self)@.dobjects,
                    views(l@),
                    claims@,
                    old(self)@.units.nm_per_unit,
                    claims@.len() as int,
                );
                moved == r.1 && final(self)@ == (DocView { dobjects: r.0, ..old(self)@ })
            }),
    {
        let nm: u64 = self.units.nm_per_unit;
        let ghost was = self@;
        let mut moved = false;
        let mut n: usize = 0;
        while n < claims.len()
            invariant
                n <= claims.len(),
                nm == was.units.nm_per_unit,
                ({
                    let r = symbols_dragged(was.dobjects, views(l@), claims@, nm, n as int);
                    moved == r.1 && self@ == (DocView { dobjects: r.0, ..was })
                }),
            decreases claims.len() - n,
        {
            let id: u32 = claims[n].0;
            let index: usize = claims[n].1;
            assert(claims@[n as int] == (id, index));
            if let Some(i) = find_fixture(l, id) {
                assert(views(l@)[i as int] == l@[i as int]@);
                let at = Pt { x: drawing_length(l[i].x, nm), y: drawing_length(l[i].y, nm) };
                let did = move_symbol(&mut self.dobjects, index, at);
                moved = moved || did;
            }
            n += 1;
        }
        moved
    }
}

impl CadApp {
    fn symbols_redrawn(&mut self)
        ensures
            final(self)@ == (AppView {
                canvas: CanvasView {
                    intersections: Seq::empty(),
                    index_dirty: true,
                    view_dirty: true,
                    ..old(self)@.canvas
                },
                ..old(self)@
            }),
    {
        self.canvas.intersections = Vec::new();
        self.canvas.index_dirty = true;
        self.canvas.view_dirty = true;
    }

    fn pull_symbols(&mut self) -> (moved: bool)
        ensures
            ({
                let s = old(self)@;
                let r = symbols_dragged(
                    s.doc.dobjects,
                    s.light.luminaires,
                    s.light.drag_symbols,
                    s.doc.units.nm_per_unit,
                    s.light.drag_symbols.len() as int,
                );
                moved == r.1 && final(self)@ == (AppView {
                    doc: DocView { dobjects: r.0, ..s.doc },
                    ..s
                })
            }),
    {
        self.doc.drag_symbols(&self.light.luminaires, &self.light.drag_symbols)
    }

    /// Puts every claimed symbol back under its fixture. This runs on each frame of a drag.
    pub fn drag_fixture_symbols(&mut self)
        ensures
            final(self)@ == old(self)@.drag_followed(),
    {
        proof {
            quiet_drag_keeps(
                self@.doc.dobjects,
                self@.light.luminaires,
                self@.light.drag_symbols,
                self@.doc.units.nm_per_unit,
                self@.light.drag_symbols.len() as int,
            );
        }
        if self.pull_symbols() {
            self.symbols_redrawn();
        }
    }
}

/// A symbol that has followed its fixture does not pull it back: on the way to drawing units and
/// back a length stays within the tolerance that following allows, in every unit up to 199 metres,
/// as long as it can be written in that unit.
pub proof fn there_and_back_is_close(x: i64, nm: u64)
    requires
        nm <= 199_000_000_000,
        i64::MIN <= nearest(x * 1_000_000_000, unit_or_metre(nm) as int) <= i64::MAX,
    ensures
        !apart(x, to_model(to_drawing(x, nm), nm), 100),
{
    let k = unit_or_metre(nm) as int;
    let big = 1_000_000_000int;
    let a = nearest(x * big, k);
    let b = nearest(a * k, big);
    nearest_is_near(x * big, k);
    nearest_is_near(a * k, big);
    assert(-(k + big) <= 2 * (x * big - b * big) <= k + big);
    assert(-100 <= x - b <= 100);
    assert(to_drawing(x, nm) == a);
}

/// A length of the drawing in metres is as near to what it is in the drawing's unit as the step of
/// the metre allows, and the other way round. A drawing without a unit is in metres.
pub proof fn lengths_stay_near(x: i64, nm: u64)
    ensures
        nm == 0 || nm == 1_000_000_000 ==> to_model(x, nm) == x && to_drawing(x, nm) == x,
        nm > 0 && i64::MIN < to_model(x, nm) < i64::MAX ==> -1_000_000_000 <= 2 * (to_model(x, nm)
            * 1_000_000_000 - x * nm) <= 1_000_000_000,
        nm > 0 && i64::MIN < to_drawing(x, nm) < i64::MAX ==> -nm <= 2 * (to_drawing(x, nm) * nm - x
            * 1_000_000_000) <= nm,
{
    let k = unit_or_metre(nm) as int;
    nearest_is_near(x * k, 1_000_000_000);
    nearest_is_near(x * 1_000_000_000, k);
}

/// The symbol of a handle is the newest block of the drawing with that handle, and it is where the
/// block is inserted.
pub proof fn symbol_is_the_newest_block(d: Seq<DObjectView>, h: u64)
    ensures
        match symbol_place(d, h) {
            Some((p, turn)) => exists|i: int|
                0 <= i < d.len() && (#[trigger] d[i]).handle == h && d[i].geom.kind
                    == GeomKind::BlockRef && d[i].geom.pts.len() > 0 && d[i].geom.pts[0] == p
                    && d[i].geom.turn == turn && forall|j: int|
                    i < j < d.len() && (#[trigger] d[j]).handle == h ==> d[j].geom.kind
                        != GeomKind::BlockRef || d[j].geom.pts.len() == 0,
            None => forall|j: int|
                0 <= j < d.len() && (#[trigger] d[j]).handle == h ==> d[j].geom.kind
                    != GeomKind::BlockRef || d[j].geom.pts.len() == 0,
        },
    decreases d.len(),
{
    if d.len() > 0 {
        let n = d.len() - 1;
        let front = d.drop_last();
        if d[n].handle == h && is_symbol(d[n]) {
            assert(d[n].geom.pts[0] == d.last().geom.pts[0]);
        } else {
            symbol_is_the_newest_block(front, h);
            match symbol_place(front, h) {
                Some((p, turn)) => {
                    let i = choose|i: int|
                        0 <= i < front.len() && (#[trigger] front[i]).handle == h
                            && front[i].geom.kind == GeomKind::BlockRef && front[i].geom.pts.len()
                            > 0 && front[i].geom.pts[0] == p && front[i].geom.turn == turn
                            && forall|j: int|
                            i < j < front.len() && (#[trigger] front[j]).handle == h
                                ==> front[j].geom.kind != GeomKind::BlockRef
                                || front[j].geom.pts.len() == 0;
                    assert(d[i] == front[i]);
                    assert forall|j: int|
                        i < j < d.len() && (#[trigger] d[j]).handle == h implies d[j].geom.kind
                        != GeomKind::BlockRef || d[j].geom.pts.len() == 0 by {
                        if j < n {
                            assert(front[j] == d[j]);
                        }
                    }
                },
                None => {
                    assert forall|j: int|
                        0 <= j < d.len() && (#[trigger] d[j]).handle == h implies d[j].geom.kind
                        != GeomKind::BlockRef || d[j].geom.pts.len() == 0 by {
                        if j < n {
                            assert(front[j] == d[j]);
                        }
                    }
                },
            }
        }
    }
}

/// A fixture that has followed its symbol stands where the symbol stands, turned as the symbol is,
/// but for a tenth of a millimetre and a thousandth of a degree. What it lights with, how high it
/// hangs and how it tilts stay, and so does a fixture that was near enough already.
pub proof fn followed_fixture_is_at_its_symbol(s: AppView, i: int)
    requires
        0 <= i < s.light.luminaires.len(),
    ensures
        ({
            let a = s.light.luminaires[i];
            let b = s.fixtures_synced().light.luminaires[i];
            &&& s.fixtures_synced().light.luminaires.len() == s.light.luminaires.len()
            &&& b.id == a.id && b.z == a.z && b.tilt == a.tilt && b.profile == a.profile
            &&& symbol_pose(s.doc, s.light.symbol_of, a.id) matches Some((x, y, turn)) ==> {
                &&& -100 <= b.x - x <= 100
                &&& -100 <= b.y - y <= 100
                &&& -1_000 <= b.turn - turn <= 1_000
                &&& b == a || b.x == x && b.y == y && b.turn == turn
                &&& -100 <= a.x - x <= 100 && -100 <= a.y - y <= 100 && -1_000 <= a.turn - turn
                    <= 1_000 ==> b == a
            }
            &&& symbol_pose(s.doc, s.light.symbol_of, a.id) is None ==> b == a
        }),
{
}

/// Where a fixture's symbol stands, in metres.
pub proof fn symbol_stands_in_metres(doc: DocView, symbol_of: Map<u64, u64>, id: u32)
    ensures
        match symbol_pose(doc, symbol_of, id) {
            Some((x, y, turn)) => symbol_of.dom().contains(id as u64) && (symbol_place(
                doc.dobjects,
                symbol_of[id as u64],
            ) matches Some((p, t)) && t == turn && x == to_model(p.x, doc.units.nm_per_unit) && y
                == to_model(p.y, doc.units.nm_per_unit)),
            None => !symbol_of.dom().contains(id as u64) || symbol_place(
                doc.dobjects,
                symbol_of[id as u64],
            ) is None,
        },
{
}

/// The drawing is looked at once after each edit, and not while fixtures are being dragged. A look
/// touches nothing but the fixtures: not the drawing, the model, the selection or the history of
/// edits. The drawing area is drawn anew exactly where a fixture moved.
pub proof fn looking_at_symbols_moves_fixtures_alone(s: AppView)
    ensures
        ({
            let t = s.symbols_checked();
            &&& t.doc == s.doc && t.factory == s.factory && t.selection == s.selection && t.undo
                == s.undo
            &&& t.files.symbol_sync_seq == s.files.edit_seq
            &&& t.files.unsaved == s.files.unsaved && t.files.edit_seq == s.files.edit_seq
            &&& s.light.drag is Some ==> t.light == s.light
            &&& s.files.symbol_sync_seq == s.files.edit_seq ==> t == s
            &&& s.files.symbol_sync_seq != s.files.edit_seq && s.light.drag is None
                ==> t.light.luminaires == s.fixtures_synced().light.luminaires
            &&& t.light.luminaires != s.light.luminaires ==> t.canvas.view_dirty
            &&& t.light.luminaires == s.light.luminaires ==> t.canvas == s.canvas && t.history
                == s.history
        }),
{
    reveal(AppView::said);
    none_left_none_moved(s, s.light.luminaires.len() as int);
    assert(s.leavers() == 0 ==> s.fixtures_synced().light.luminaires =~= s.light.luminaires);
}

proof fn none_left_none_moved(s: AppView, n: int)
    requires
        n <= s.light.luminaires.len(),
    ensures
        s.light.leavers(s.doc, n) == 0 <==> forall|i: int|
            0 <= i < n ==> (#[trigger] s.fixtures_synced().light.luminaires[i])
                == s.light.luminaires[i],
    decreases n,
{
    if n > 0 {
        none_left_none_moved(s, n - 1);
        assert(s.fixtures_synced().light.luminaires[n - 1] == followed(
            s.light.luminaires[n - 1],
            symbol_pose(s.doc, s.light.symbol_of, s.light.luminaires[n - 1].id),
        ));
    }
}

/// A fixture that is placed is the last one, as it was given; the others stay, and undo takes it out
/// again. The drawing and the model are left as they are, and the project is unsaved.
pub proof fn placed_fixture_is_the_last(s: AppView, point: LuminaireView)
    ensures
        ({
            let t = s.fixture_placed(point);
            &&& t.light.luminaires.len() == s.light.luminaires.len() + 1
            &&& t.light.luminaires.last() == point
            &&& forall|i: int|
                0 <= i < s.light.luminaires.len() ==> t.light.luminaires[i]
                    == #[trigger] s.light.luminaires[i]
            &&& t.light.undo_pending is None
            &&& t.light.symbol_of == s.light.symbol_of
            &&& t.doc == s.doc && t.factory == s.factory && t.selection == s.selection
            &&& t.files.unsaved
            &&& s.undo.undo_min_steps >= 1 && s.light.undo_pending is None
                ==> t.undone().light.luminaires == s.light.luminaires
            &&& s.undo.undo_min_steps >= 1 && s.light.undo_pending is Some
                ==> t.undone().light.luminaires == s.light.undo_pending->0
        }),
{
    reveal(AppView::said);
    if s.undo.undo_min_steps >= 1 {
        crate::undo::pushed_step_stays(
            s.undo.undo_stack,
            crate::undo::StepView::Light(s.lights_before()),
            s.undo.undo_budget_bytes as nat,
            s.undo.undo_min_steps as nat,
        );
    }
}

/// The first click of aiming picks the fixture under it, and alone selects it; without one there the
/// picking goes on.
pub proof fn first_click_picks(s: AppView, c: AimClick)
    requires
        s.light.aim_pick is None,
    ensures
        s.aim_clicked(c).light.aim_pick == c.picked,
        c.picked is Some ==> s.aim_clicked(c).light.selected == seq![c.picked->0],
        c.picked is None ==> s.aim_clicked(c).light.selected == s.light.selected,
        s.aim_clicked(c).light.luminaires == s.light.luminaires,
        s.aim_clicked(c).undo == s.undo,
        s.aim_clicked(c).files == s.files,
        s.aim_clicked(c).doc == s.doc,
{
}

/// The second click turns and tilts the fixture that was picked toward the point, if it hangs more
/// than a millimetre above the working plane, as a step that undo takes back. Either way the pick is
/// over.
pub proof fn second_click_aims(s: AppView, c: AimClick, i: int)
    requires
        s.light.aim_pick is Some,
        fixture_index(s.light.luminaires, s.light.aim_pick->0) == Some(i),
    ensures
        ({
            let t = s.aim_clicked(c);
            &&& t.light.aim_pick is None
            &&& t.doc == s.doc && t.factory == s.factory
            &&& s.light.luminaires[i].z - s.light.plane_height > 1_000 ==> {
                &&& c.pose matches Some((turn, tilt)) ==> t.light.luminaires[i].turn == turn
                    && t.light.luminaires[i].tilt == tilt && t.canvas.view_dirty
                &&& c.pose is None ==> t.light.luminaires == s.light.luminaires
                &&& t.light.luminaires[i].profile == s.light.luminaires[i].profile
                &&& t.light.luminaires[i].id == s.light.luminaires[i].id
                &&& t.files.unsaved
                &&& s.undo.undo_min_steps >= 1 && s.light.undo_pending is None
                    ==> t.undone().light.luminaires == s.light.luminaires && t.undone().doc == s.doc
            }
            &&& s.light.luminaires[i].z - s.light.plane_height <= 1_000 ==> {
                &&& t.light.luminaires == s.light.luminaires
                &&& t.undo == s.undo
                &&& t.files == s.files
            }
        }),
{
    reveal(AppView::said);
    fixture_index_is_least(s.light.luminaires, s.light.aim_pick->0);
    if s.undo.undo_min_steps >= 1 {
        crate::undo::pushed_step_stays(
            s.undo.undo_stack,
            crate::undo::StepView::Both(s.doc, s.lights_before()),
            s.undo.undo_budget_bytes as nat,
            s.undo.undo_min_steps as nat,
        );
    }
}

/// The fixtures that are dragged along are exactly those of the list whose ids are asked for.
pub proof fn dragged_fixtures_are_those_asked(l: Seq<LuminaireView>, ids: Seq<u32>, f: LuminaireView)
    ensures
        fixtures_among(l, ids).contains(f) <==> l.contains(f) && ids.contains(f.id),
{
    let p = |f: LuminaireView| ids.contains(f.id);
    let at = crate::groups::filter_places(l, p);
    if l.contains(f) && ids.contains(f.id) {
        let k = choose|k: int| 0 <= k < l.len() && l[k] == f;
        assert(p(l[k]));
        let i = choose|i: int| 0 <= i < at.len() && #[trigger] at[i] == k;
        assert(fixtures_among(l, ids)[i] == f);
    }
    if fixtures_among(l, ids).contains(f) {
        let i = choose|i: int| 0 <= i < fixtures_among(l, ids).len() && fixtures_among(l, ids)[i] == f;
        assert(l[at[i]] == f);
    }
}

/// A symbol that follows its fixture has its insertion point at the fixture's place in drawing
/// units, keeps what it is and how it is turned, and no other object moves. That is so of the last
/// symbol that a drag claims, whatever the others do.
pub proof fn dragged_symbol_is_at_its_fixture(
    d: Seq<DObjectView>,
    l: Seq<LuminaireView>,
    claims: Seq<(u32, usize)>,
    nm: u64,
    n: int,
    k: int,
)
    requires
        0 <= n <= claims.len(),
        0 <= k < d.len(),
    ensures
        ({
            let e = symbols_dragged(d, l, claims, nm, n).0;
            &&& e.len() == d.len()
            &&& e[k].handle == d[k].handle && e[k].style == d[k].style
            &&& e[k].geom.kind == d[k].geom.kind && e[k].geom.turn == d[k].geom.turn
            &&& e[k].geom.pts.len() == d[k].geom.pts.len()
            &&& (forall|j: int| 0 <= j < n ==> (#[trigger] claims[j]).1 != k) ==> e[k] == d[k]
            &&& d[k].geom.kind != GeomKind::BlockRef ==> e[k] == d[k]
            &&& n > 0 && claims[n - 1].1 == k && is_symbol(d[k]) ==> (fixture_index(
                l,
                claims[n - 1].0,
            ) matches Some(i) ==> e[k].geom.pts[0].x == to_drawing(l[i].x, nm)
                && e[k].geom.pts[0].y == to_drawing(l[i].y, nm))
            &&& !symbols_dragged(d, l, claims, nm, n).1 ==> e == d
        }),
    decreases n,
{
    if n > 0 {
        dragged_symbol_is_at_its_fixture(d, l, claims, nm, n - 1, k);
        let e = symbols_dragged(d, l, claims, nm, n - 1).0;
        match fixture_index(l, claims[n - 1].0) {
            Some(i) => {
                let at = symbol_home(l[i], nm);
                let index = claims[n - 1].1;
                if symbol_moves(e, index, at) {
                    let o = e[index as int];
                    assert(geom_moved(o.geom, o.geom.pts[0], at).pts[0] == at);
                }
            },
            None => {},
        }
    }
}

/// Symbols that follow a drag are redrawn where one of them moved, and nothing else of the state
/// changes: not the fixtures, the history, the selection or whether the project is saved.
pub proof fn following_symbols_are_redrawn(s: AppView)
    ensures
        ({
            let t = s.drag_followed();
            &&& t.doc.dobjects.len() == s.doc.dobjects.len()
            &&& t.doc.dobjects != s.doc.dobjects ==> t.canvas.view_dirty && t.canvas.index_dirty
                && t.canvas.intersections.len() == 0
            &&& t.doc.layers == s.doc.layers && t.doc.units == s.doc.units
            &&& t.light == s.light && t.undo == s.undo && t.files == s.files && t.selection
                == s.selection && t.factory == s.factory
            &&& s.light.drag_symbols.len() == 0 ==> t == s
        }),
{
    let d = s.doc.dobjects;
    let n = s.light.drag_symbols.len() as int;
    if d.len() > 0 {
        dragged_symbol_is_at_its_fixture(
            d,
            s.light.luminaires,
            s.light.drag_symbols,
            s.doc.units.nm_per_unit,
            n,
            0,
        );
    } else {
        no_symbols_stay_none(
            d,
            s.light.luminaires,
            s.light.drag_symbols,
            s.doc.units.nm_per_unit,
            n,
        );
    }
}

proof fn no_symbols_stay_none(
    d: Seq<DObjectView>,
    l: Seq<LuminaireView>,
    claims: Seq<(u32, usize)>,
    nm: u64,
    n: int,
)
    requires
        d.len() == 0,
    ensures
        symbols_dragged(d, l, claims, nm, n) == (d, false),
    decreases n,
{
    if n > 0 {
        no_symbols_stay_none(d, l, claims, nm, n - 1);
    }
}

/// After a drag each claimed symbol stands at its fixture, where no later claim is of the same object.
pub proof fn every_dragged_symbol_is_at_its_fixture(s: AppView, j: int, i: int)
    requires
        0 <= j < s.light.drag_symbols.len(),
        s.light.drag_symbols[j].1 < s.doc.dobjects.len(),
        is_symbol(s.doc.dobjects[s.light.drag_symbols[j].1 as int]),
        fixture_index(s.light.luminaires, s.light.drag_symbols[j].0) == Some(i),
        forall|m: int|
            j < m < s.light.drag_symbols.len() ==> (#[trigger] s.light.drag_symbols[m]).1
                != s.light.drag_symbols[j].1,
    ensures
        ({
            let p = s.drag_followed().doc.dobjects[s.light.drag_symbols[j].1 as int].geom.pts[0];
            &&& p.x == to_drawing(s.light.luminaires[i].x, s.doc.units.nm_per_unit)
            &&& p.y == to_drawing(s.light.luminaires[i].y, s.doc.units.nm_per_unit)
        }),
{
    let d = s.doc.dobjects;
    let l = s.light.luminaires;
    let claims = s.light.drag_symbols;
    let nm = s.doc.units.nm_per_unit;
    let k = claims[j].1 as int;
    let n = claims.len() as int;
    dragged_symbol_is_at_its_fixture(d, l, claims, nm, j + 1, k);
    later_claims_leave_it(d, l, claims, nm, j + 1, n, k);
    dragged_symbol_is_at_its_fixture(d, l, claims, nm, n, k);
}

proof fn later_claims_leave_it(
    d: Seq<DObjectView>,
    l: Seq<LuminaireView>,
    claims: Seq<(u32, usize)>,
    nm: u64,
    m: int,
    n: int,
    k: int,
)
    requires
        0 <= m <= n <= claims.len(),
        0 <= k < d.len(),
        forall|j: int| m <= j < n ==> (#[trigger] claims[j]).1 != k,
    ensures
        symbols_dragged(d, l, claims, nm, n).0[k] == symbols_dragged(d, l, claims, nm, m).0[k],
    decreases n - m,
{
    if m < n {
        later_claims_leave_it(d, l, claims, nm, m, n - 1, k);
        dragged_symbol_is_at_its_fixture(d, l, claims, nm, n - 1, k);
        assert(claims[n - 1].1 != k);
    }
}

impl AppView {
    /// After a drag of fixtures has begun.
    pub open spec fn drag_taken(self, id: u32, selected: Seq<u32>) -> AppView {
        self.with_light(LightView { drag: Some(id), selected: selected, ..self.light })
    }

    /// After symbols have been claimed for a drag.
    pub open spec fn symbols_claimed(self, found: Seq<(u32, usize)>) -> AppView {
        self.with_light(LightView { drag_symbols: found, ..self.light })
    }
}

/// A drag begins with the fixtures that are selected, moves none of them yet and records nothing; while
/// it lasts the drawing's symbols pull no fixture back.
pub proof fn drag_begins_with_the_selection(s: AppView, id: u32, selected: Seq<u32>, found: Seq<(u32, usize)>)
    ensures
        ({
            let t = s.drag_taken(id, selected).symbols_claimed(found);
            &&& t.light.drag == Some(id) && t.light.selected == selected && t.light.drag_symbols == found
            &&& t.light.luminaires == s.light.luminaires && t.light.undo_pending
                == s.light.undo_pending && t.light.symbol_of == s.light.symbol_of
            &&& t.doc == s.doc && t.undo == s.undo && t.files == s.files
            &&& t.symbols_checked().light == t.light
        }),
{
    reveal(AppView::said);
}

} // verus!
