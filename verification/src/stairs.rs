//! Generated doors, and stairs made of solids that stay editable.
use vstd::prelude::*;

use crate::app::{AppView, CadApp};
use crate::builders::{metres, millimetres, write_metres, write_millimetres};
use crate::copying::{group_views, views};
use crate::factory::{BoolOp, primary, FactoryDataView, FactoryState, FactoryView, FurnitureView, Rgb};
use crate::furnish::Mesh;
use crate::table::Table;
use crate::text::{cat2, cat4, cat5, cat7, dec, dec_text};
use crate::undo::UndoView;

verus! {

/// A door that was generated: the hole it needs in the wall, what is said of its handle, whether it
/// is glazed, and the materials of its groups of faces.
pub struct DoorBuilt {
    pub mesh: Mesh,
    pub opening_w: u64,
    pub opening_h: u64,
    pub handle_note: String,
    pub glazed: bool,
    pub faces: Table<usize>,
}

/// What is said of a door.
pub open spec fn door_status(m: DoorBuilt) -> Seq<char> {
    ("Door built"@ + m.handle_note@ + (if m.glazed {
        " · glazed"@
    } else {
        ""@
    }) + " — structural opening "@) + (millimetres(m.opening_w) + " × "@ + millimetres(m.opening_h)
        + " mm (leave this hole in the wall)"@)
}

fn write_door_status(m: &DoorBuilt) -> (r: String)
    ensures
        r@ == door_status(*m),
{
    let head = cat4(
        "Door built",
        m.handle_note.as_str(),
        if m.glazed {
            " · glazed"
        } else {
            ""
        },
        " — structural opening ",
    );
    let tail = cat4(
        write_millimetres(m.opening_w).as_str(),
        " × ",
        write_millimetres(m.opening_h).as_str(),
        " mm (leave this hole in the wall)",
    );
    cat2(head.as_str(), tail.as_str())
}

impl FactoryView {
    /// With the materials of the faces of the selected piece of furniture set.
    pub open spec fn faces_bound(self, faces: Map<u64, usize>) -> FactoryView {
        match primary(self.sel_furniture) {
            Some(fi) if fi < self.data.furniture.len() => FactoryView {
                data: FactoryDataView {
                    furniture: self.data.furniture.update(
                        fi as int,
                        FurnitureView {
                            surface_texture: faces,
                            ..self.data.furniture[fi as int]
                        },
                    ),
                    ..self.data
                },
                ..self
            },
            _ => self,
        }
    }
}

impl FactoryState {
    fn bind_selected(&mut self, faces: Table<usize>)
        ensures
            final(self)@ == old(self)@.faces_bound(faces@),
    {
        broadcast use group_views;

        let n: usize = self.sel_furniture.len();
        if n > 0 {
            let fi: usize = self.sel_furniture[n - 1];
            if fi < self.data.furniture.len() {
                let ghost before = self.data.furniture@;
                self.data.furniture[fi].surface_texture = faces;
                assert(self.data.furniture@ =~= before.update(
                    fi as int,
                    self.data.furniture@[fi as int],
                ));
                assert(views(before)[fi as int] == before[fi as int]@);
            }
        }
    }
}

impl AppView {
    /// After a door has been generated, or not.
    pub open spec fn door_built(self, built: Result<DoorBuilt, String>) -> AppView {
        match built {
            Err(e) => self.with_status("Door: "@ + e@),
            Ok(m) => {
                let s = self.mesh_placed(m.mesh@, "Door"@, "built"@);
                s.with_factory(s.factory.faces_bound(m.faces@)).with_status(door_status(m))
            },
        }
    }
}

impl CadApp {
    fn bind_furniture(&mut self, faces: Table<usize>)
        ensures
            final(self)@ == old(self)@.with_factory(old(self)@.factory.faces_bound(faces@)),
    {
        self.factory.bind_selected(faces);
    }

    /// Puts a generated door into the scene, or says why there is none. No wall is cut.
    pub fn factory_build_door(&mut self, built: Result<DoorBuilt, String>)
        requires
            built matches Ok(m) ==> m.mesh@.wf(),
        ensures
            final(self)@ == old(self)@.door_built(built),
    {
        match built {
            Err(e) => self.set_status(cat2("Door: ", e.as_str())),
            Ok(m) => {
                let status = write_door_status(&m);
                let faces = m.faces;
                self.factory_place_furniture_mesh(m.mesh, "Door", "built");
                self.bind_furniture(faces);
                self.set_status(status);
            },
        }
    }
}

/// A part of a stair.
#[derive(Clone, Copy, Debug, PartialEq, Eq, Structural)]
pub enum StairRole {
    Pole,
    Sleeve,
    Tread,
    Bracket,
    Infill,
    Handrail,
    Stanchion,
    StoneTread,
    Landing,
    FlightBody,
}

/// The colour of a part of a stair.
pub open spec fn role_color(r: StairRole) -> Rgb {
    match r {
        StairRole::Pole => Rgb { r: 420_000, g: 440_000, b: 480_000 },
        StairRole::Sleeve => Rgb { r: 500_000, g: 520_000, b: 550_000 },
        StairRole::Tread => Rgb { r: 720_000, g: 620_000, b: 460_000 },
        StairRole::Bracket => Rgb { r: 400_000, g: 410_000, b: 450_000 },
        StairRole::Infill => Rgb { r: 550_000, g: 560_000, b: 600_000 },
        StairRole::Handrail => Rgb { r: 620_000, g: 500_000, b: 380_000 },
        StairRole::Stanchion => Rgb { r: 550_000, g: 560_000, b: 600_000 },
        StairRole::StoneTread => Rgb { r: 720_000, g: 680_000, b: 600_000 },
        StairRole::Landing => Rgb { r: 600_000, g: 600_000, b: 620_000 },
        StairRole::FlightBody => Rgb { r: 550_000, g: 550_000, b: 570_000 },
    }
}

fn color_of_role(r: StairRole) -> (c: Rgb)
    ensures
        c == role_color(r),
{
    match r {
        StairRole::Pole => Rgb { r: 420_000, g: 440_000, b: 480_000 },
        StairRole::Sleeve => Rgb { r: 500_000, g: 520_000, b: 550_000 },
        StairRole::Tread => Rgb { r: 720_000, g: 620_000, b: 460_000 },
        StairRole::Bracket => Rgb { r: 400_000, g: 410_000, b: 450_000 },
        StairRole::Infill => Rgb { r: 550_000, g: 560_000, b: 600_000 },
        StairRole::Handrail => Rgb { r: 620_000, g: 500_000, b: 380_000 },
        StairRole::Stanchion => Rgb { r: 550_000, g: 560_000, b: 600_000 },
        StairRole::StoneTread => Rgb { r: 720_000, g: 680_000, b: 600_000 },
        StairRole::Landing => Rgb { r: 600_000, g: 600_000, b: 620_000 },
        StairRole::FlightBody => Rgb { r: 550_000, g: 550_000, b: 570_000 },
    }
}

/// A part of a stair as the modeller took it: the solid it became, if it could be made.
#[derive(Clone, Copy, Debug, PartialEq, Eq, Structural)]
pub struct StairPart {
    pub solid: Option<u64>,
    pub role: StairRole,
}

/// The solids that the first `n` parts became.
pub open spec fn stair_solids(parts: Seq<StairPart>, n: int) -> Seq<u64>
    decreases n,
{
    if n <= 0 {
        Seq::empty()
    } else {
        let rest = stair_solids(parts, n - 1);
        match parts[n - 1].solid {
            Some(id) => rest.push(id),
            None => rest,
        }
    }
}

/// The colours of solids after the first `n` parts have been painted.
pub open spec fn stair_colors(c: Map<u64, Rgb>, parts: Seq<StairPart>, n: int) -> Map<u64, Rgb>
    decreases n,
{
    if n <= 0 {
        c
    } else {
        let rest = stair_colors(c, parts, n - 1);
        match parts[n - 1].solid {
            Some(id) => rest.insert(id, role_color(parts[n - 1].role)),
            None => rest,
        }
    }
}

/// How solids are joined after the first `n` parts have been added: each is a union.
pub open spec fn stair_ops(c: Map<u64, BoolOp>, parts: Seq<StairPart>, n: int) -> Map<u64, BoolOp>
    decreases n,
{
    if n <= 0 {
        c
    } else {
        let rest = stair_ops(c, parts, n - 1);
        match parts[n - 1].solid {
            Some(id) => rest.insert(id, BoolOp::Union),
            None => rest,
        }
    }
}

impl FactoryView {
    /// With the parts of a stair joined to the model, painted and selected.
    pub open spec fn stair_added(self, parts: Seq<StairPart>) -> FactoryView {
        let n = parts.len() as int;
        let ids = stair_solids(parts, n);
        FactoryView {
            data: FactoryDataView {
                features: self.data.features + ids,
                feature_op: stair_ops(self.data.feature_op, parts, n),
                feature_color: stair_colors(self.data.feature_color, parts, n),
                ..self.data
            },
            selection: ids,
            sel_furniture: Seq::empty(),
            recompute_due: true,
            open: true,
            ..self
        }
    }
}

impl FactoryState {
    fn add_stair(&mut self, parts: &Vec<StairPart>)
        ensures
            final(self)@ == old(self)@.stair_added(parts@),
    {
        let ghost was = self@;
        let ghost all = parts@;
        let mut ids: Vec<u64> = Vec::new();
        let mut n: usize = 0;
        while n < parts.len()
            invariant
                n <= parts.len(),
                all == parts@,
                ids@ == stair_solids(all, n as int),
                self@ == (FactoryView {
                    data: FactoryDataView {
                        features: was.data.features + ids@,
                        feature_op: stair_ops(was.data.feature_op, all, n as int),
                        feature_color: stair_colors(was.data.feature_color, all, n as int),
                        ..was.data
                    },
                    ..was
                }),
            decreases parts.len() - n,
        {
            if let Some(id) = parts[n].solid {
                let ghost before = ids@;
                self.data.feature_op.insert(id, BoolOp::Union);
                self.data.feature_color.insert(id, color_of_role(parts[n].role));
                self.data.features.push(id);
                ids.push(id);
                assert((was.data.features + before).push(id) =~= was.data.features + ids@);
            }
            n += 1;
        }
        self.selection = ids;
        self.sel_furniture = Vec::new();
        self.recompute_due = true;
        self.open = true;
    }
}

fn no_solids(parts: &Vec<StairPart>) -> (r: bool)
    ensures
        r == (stair_solids(parts@, parts@.len() as int).len() == 0),
{
    let mut found = false;
    let mut n: usize = 0;
    while n < parts.len()
        invariant
            n <= parts.len(),
            found == (stair_solids(parts@, n as int).len() > 0),
        decreases parts.len() - n,
    {
        if parts[n].solid.is_some() {
            found = true;
        }
        n += 1;
    }
    !found
}

impl AppView {
    /// With the last step of the undo history dropped.
    pub open spec fn step_dropped(self) -> AppView {
        AppView {
            undo: UndoView {
                undo_stack: if self.undo.undo_stack.len() > 0 {
                    self.undo.undo_stack.drop_last()
                } else {
                    self.undo.undo_stack
                },
                ..self.undo
            },
            ..self
        }
    }

    /// After the parts of a stair have been put into the model. Where none could be made, the step
    /// that was recorded for it is dropped again.
    pub open spec fn stair_put(self, parts: Seq<StairPart>, name: Seq<char>, status: Seq<char>, line:
        Seq<char>) -> AppView {
        let s = self.factory_recorded();
        if stair_solids(parts, parts.len() as int).len() == 0 {
            s.step_dropped().with_status(name + " produced no solids"@)
        } else {
            s.with_factory(s.factory.stair_added(parts)).with_status(status).said(line)
        }
    }
}

impl CadApp {
    fn drop_step(&mut self)
        ensures
            final(self)@ == old(self)@.step_dropped(),
    {
        broadcast use group_views;

        let ghost before = self.undo.undo_stack@;
        if self.undo.undo_stack.len() > 0 {
            let _ = self.undo.undo_stack.pop();
            assert(self.undo.undo_stack@ =~= before.drop_last());
            assert(views(before.drop_last()) =~= views(before).drop_last());
        }
    }

    fn add_stair_parts(&mut self, parts: &Vec<StairPart>)
        ensures
            final(self)@ == old(self)@.with_factory(old(self)@.factory.stair_added(parts@)),
    {
        self.factory.add_stair(parts);
    }

    fn put_stair(&mut self, parts: &Vec<StairPart>, name: &str, status: String, line: String)
        ensures
            final(self)@ == old(self)@.stair_put(parts@, name@, status@, line@),
    {
        let none = no_solids(parts);
        self.snapshot_factory();
        if none {
            self.drop_step();
            self.set_status(cat2(name, " produced no solids"));
        } else {
            self.add_stair_parts(parts);
            self.set_status(status);
            self.say(line);
        }
    }
}

/// A spiral stair that was generated. `turns` are hundredths of a turn.
pub struct SpiralBuilt {
    pub parts: Vec<StairPart>,
    pub steps: u32,
    pub turns: u32,
    pub rise: u64,
}

/// A half-turn stair that was generated.
pub struct DoglegBuilt {
    pub parts: Vec<StairPart>,
    pub steps: u32,
    pub top_tread: u64,
}

/// What is said of a spiral stair.
pub open spec fn spiral_status(m: SpiralBuilt) -> Seq<char> {
    "Spiral stair built — "@ + dec(stair_solids(m.parts@, m.parts@.len() as int).len())
        + " editable solids · "@ + crate::units::hundredths_text(m.turns as nat)
        + " turns · top tread "@ + metres(m.rise) + " m (cut/union as normal)"@
}

/// What the command history keeps of a spiral stair.
pub open spec fn spiral_line(m: SpiralBuilt) -> Seq<char> {
    "  architecture: spiral stair ("@ + dec(stair_solids(m.parts@, m.parts@.len() as int).len())
        + " solids, "@ + dec(m.steps as nat) + " steps)"@
}

/// What is said of a half-turn stair.
pub open spec fn dogleg_status(m: DoglegBuilt) -> Seq<char> {
    "Dog-leg stair built — "@ + dec(stair_solids(m.parts@, m.parts@.len() as int).len())
        + " editable solids · top tread "@ + metres(m.top_tread) + " m (cut/union as normal)"@
}

/// What the command history keeps of a half-turn stair.
pub open spec fn dogleg_line(m: DoglegBuilt) -> Seq<char> {
    "  architecture: dog-leg stair ("@ + dec(stair_solids(m.parts@, m.parts@.len() as int).len())
        + " solids, "@ + dec(m.steps as nat) + " steps)"@
}

fn count_solids(parts: &Vec<StairPart>) -> (r: String)
    ensures
        r@ == dec(stair_solids(parts@, parts@.len() as int).len()),
{
    let mut c: u64 = 0;
    let mut n: usize = 0;
    while n < parts.len()
        invariant
            n <= parts.len(),
            c <= n,
            c == stair_solids(parts@, n as int).len(),
        decreases parts.len() - n,
    {
        if parts[n].solid.is_some() {
            c += 1;
        }
        n += 1;
    }
    dec_text(c)
}

impl AppView {
    /// After a spiral stair has been generated, or not.
    pub open spec fn spiral_built(self, built: Result<SpiralBuilt, String>) -> AppView {
        match built {
            Err(e) => self.with_status("Spiral stair: "@ + e@),
            Ok(m) => self.stair_put(
                m.parts@,
                "Spiral stair"@,
                spiral_status(m),
                spiral_line(m),
            ),
        }
    }

    /// After a half-turn stair has been generated, or not.
    pub open spec fn dogleg_built(self, built: Result<DoglegBuilt, String>) -> AppView {
        match built {
            Err(e) => self.with_status("Dog-leg stair: "@ + e@),
            Ok(m) => self.stair_put(
                m.parts@,
                "Dog-leg stair"@,
                dogleg_status(m),
                dogleg_line(m),
            ),
        }
    }
}

impl CadApp {
    /// Puts a generated spiral stair into the model, or says why there is none.
    pub fn factory_build_spiral_csg(&mut self, built: Result<SpiralBuilt, String>)
        ensures
            final(self)@ == old(self)@.spiral_built(built),
    {
        match built {
            Err(e) => self.set_status(cat2("Spiral stair: ", e.as_str())),
            Ok(m) => {
                let n = count_solids(&m.parts);
                let status = cat7(
                    "Spiral stair built — ",
                    n.as_str(),
                    " editable solids · ",
                    crate::units::write_hundredths(m.turns as u128).as_str(),
                    " turns · top tread ",
                    write_metres(m.rise).as_str(),
                    " m (cut/union as normal)",
                );
                let line = cat5(
                    "  architecture: spiral stair (",
                    n.as_str(),
                    " solids, ",
                    dec_text(m.steps as u64).as_str(),
                    " steps)",
                );
                self.put_stair(&m.parts, "Spiral stair", status, line);
            },
        }
    }

    /// Puts a generated half-turn stair into the model, or says why there is none.
    pub fn factory_build_dogleg(&mut self, built: Result<DoglegBuilt, String>)
        ensures
            final(self)@ == old(self)@.dogleg_built(built),
    {
        match built {
            Err(e) => self.set_status(cat2("Dog-leg stair: ", e.as_str())),
            Ok(m) => {
                let n = count_solids(&m.parts);
                let status = cat5(
                    "Dog-leg stair built — ",
                    n.as_str(),
                    " editable solids · top tread ",
                    write_metres(m.top_tread).as_str(),
                    " m (cut/union as normal)",
                );
                let line = cat5(
                    "  architecture: dog-leg stair (",
                    n.as_str(),
                    " solids, ",
                    dec_text(m.steps as u64).as_str(),
                    " steps)",
                );
                self.put_stair(&m.parts, "Dog-leg stair", status, line);
            },
        }
    }
}

/// Whether two tables say the same of a key.
pub open spec fn same_at<V>(a: Map<u64, V>, b: Map<u64, V>, k: u64) -> bool {
    &&& a.dom().contains(k) <==> b.dom().contains(k)
    &&& a.dom().contains(k) ==> a[k] == b[k]
}

proof fn joined_pieces(f: FactoryDataView, parts: Seq<StairPart>, n: int)
    requires
        0 <= n <= parts.len(),
    ensures
        ({
            let ids = stair_solids(parts, n);
            let ops = stair_ops(f.feature_op, parts, n);
            let colors = stair_colors(f.feature_color, parts, n);
            &&& forall|i: int|
                0 <= i < ids.len() ==> ops.dom().contains(#[trigger] ids[i]) && ops[ids[i]]
                    == BoolOp::Union && colors.dom().contains(ids[i])
            &&& forall|k: u64|
                !#[trigger] ids.contains(k) ==> same_at(f.feature_op, ops, k)
            &&& forall|k: u64|
                !#[trigger] ids.contains(k) ==> same_at(f.feature_color, colors, k)
        }),
    decreases n,
{
    if n > 0 {
        joined_pieces(f, parts, n - 1);
        if let Some(id) = parts[n - 1].solid {
            let before = stair_solids(parts, n - 1);
            let ids = stair_solids(parts, n);
            assert(ids == before.push(id));
            assert(ids[ids.len() - 1] == id);
            assert forall|k: u64| !#[trigger] ids.contains(k) implies !before.contains(k) && k != id by {
                if before.contains(k) {
                    let i = choose|i: int| 0 <= i < before.len() && before[i] == k;
                    assert(ids[i] == k);
                }
            }
            assert forall|i: int| 0 <= i < before.len() implies ids[i] == before[i] by {}
        }
    }
}

/// A stair is joined to the model piece by piece: the pieces are added behind what was there, each
/// as a union and in a colour, they alone are selected, and nothing changes of the solids that were
/// there.
pub proof fn stair_is_joined(
    s: AppView,
    parts: Seq<StairPart>,
    name: Seq<char>,
    status: Seq<char>,
    line: Seq<char>,
)
    requires
        stair_solids(parts, parts.len() as int).len() > 0,
    ensures
        ({
            let ids = stair_solids(parts, parts.len() as int);
            let a = s.factory.data;
            let f = s.stair_put(parts, name, status, line).factory;
            &&& f.selection == ids
            &&& f.sel_furniture.len() == 0
            &&& f.data.features == a.features + ids
            &&& forall|i: int|
                0 <= i < ids.len() ==> f.data.feature_op.dom().contains(#[trigger] ids[i])
                    && f.data.feature_op[ids[i]] == BoolOp::Union
                    && f.data.feature_color.dom().contains(ids[i])
            &&& forall|k: u64|
                !#[trigger] ids.contains(k) ==> same_at(a.feature_op, f.data.feature_op, k)
                    && same_at(a.feature_color, f.data.feature_color, k)
        }),
{
    reveal(AppView::said);
    joined_pieces(s.factory.data, parts, parts.len() as int);
}

/// A stair is one step of the undo history: undo takes all of its pieces back, as long as at least
/// one step is always kept.
pub proof fn stair_is_one_step(
    s: AppView,
    parts: Seq<StairPart>,
    name: Seq<char>,
    status: Seq<char>,
    line: Seq<char>,
)
    requires
        s.undo.undo_min_steps >= 1,
        stair_solids(parts, parts.len() as int).len() > 0,
    ensures
        s.stair_put(parts, name, status, line).undone().factory.data == s.factory_filled(),
        crate::undo::within_limits(
            s.undo.undo_stack.push(crate::undo::StepView::Factory(s.factory_snap())),
            s.undo.undo_budget_bytes as nat,
            s.undo.undo_min_steps as nat,
        ) ==> s.stair_put(parts, name, status, line).undo.undo_stack == s.undo.undo_stack.push(
            crate::undo::StepView::Factory(s.factory_snap()),
        ),
{
    reveal(AppView::said);
    let put = s.stair_put(parts, name, status, line);
    crate::undo::undo_takes_back_factory_edit(s, put.factory.data);
    crate::undo::pushed_step_stays(
        s.undo.undo_stack,
        crate::undo::StepView::Factory(s.factory_snap()),
        s.undo.undo_budget_bytes as nat,
        s.undo.undo_min_steps as nat,
    );
}

/// A stair of which no part could be made changes nothing in the model, and leaves no step in the
/// undo history, where recording its step pushed no older one out.
pub proof fn empty_stair_changes_nothing(
    s: AppView,
    parts: Seq<StairPart>,
    name: Seq<char>,
    status: Seq<char>,
    line: Seq<char>,
)
    requires
        stair_solids(parts, parts.len() as int).len() == 0,
    ensures
        s.stair_put(parts, name, status, line).factory.data == s.factory.data,
        crate::undo::within_limits(
            s.undo.undo_stack.push(crate::undo::StepView::Factory(s.factory_snap())),
            s.undo.undo_budget_bytes as nat,
            s.undo.undo_min_steps as nat,
        ) ==> s.stair_put(parts, name, status, line).undo.undo_stack == s.undo.undo_stack,
{
    let t = s.undo.undo_stack.push(crate::undo::StepView::Factory(s.factory_snap()));
    assert(t.drop_last() =~= s.undo.undo_stack);
}

/// A door is placed as a piece of furniture whose faces show what the generator says, or not at all
/// where it could not be made.
pub proof fn door_shows_its_faces(s: AppView, built: Result<DoorBuilt, String>)
    requires
        s.factory.data.furniture.len() < usize::MAX,
    ensures
        built is Err ==> s.door_built(built).factory.data == s.factory.data && s.door_built(built).undo
            == s.undo,
        built matches Ok(m) ==> m.mesh@.tris > 0 ==> {
            let f = s.door_built(built).factory;
            let n = s.factory.data.furniture.len();
            &&& f.data.furniture.len() == n + 1
            &&& f.data.furniture[n as int].surface_texture == m.faces@
            &&& f.data.furniture[n as int].asset as nat == s.factory.furniture_lib.len() as usize as nat
            &&& f.furniture_lib.last().tris == m.mesh@.tris
            &&& forall|i: int|
                0 <= i < n ==> f.data.furniture[i] == #[trigger] s.factory.data.furniture[i]
        },
{
    reveal(AppView::said);
}

/// The pieces of a stair that could be made are its solids, in their order, each in the colour of
/// its role.
pub proof fn pieces_have_the_color_of_their_role(c: Map<u64, Rgb>, parts: Seq<StairPart>, n: int, i: int)
    requires
        0 <= i < n <= parts.len(),
        parts[i].solid is Some,
        forall|j: int| i < j < n ==> (#[trigger] parts[j]).solid != parts[i].solid,
    ensures
        stair_solids(parts, n).contains(parts[i].solid->0),
        stair_colors(c, parts, n).dom().contains(parts[i].solid->0),
        stair_colors(c, parts, n)[parts[i].solid->0] == role_color(parts[i].role),
    decreases n,
{
    let rest = stair_solids(parts, n - 1);
    let all = stair_solids(parts, n);
    let id = parts[i].solid->0;
    if i < n - 1 {
        pieces_have_the_color_of_their_role(c, parts, n - 1, i);
        let k = choose|k: int| 0 <= k < rest.len() && rest[k] == id;
        assert(all[k] == id);
        assert(parts[n - 1].solid != parts[i].solid);
    } else {
        assert(all.last() == id);
    }
}

/// A stair that could not be built leaves the model and its history; one that was is joined to the
/// model with all its pieces.
pub proof fn built_stairs_are_joined(
    s: AppView,
    spiral: Result<SpiralBuilt, String>,
    dogleg: Result<DoglegBuilt, String>,
)
    ensures
        spiral is Err ==> s.spiral_built(spiral).factory.data == s.factory.data && s.spiral_built(
            spiral,
        ).undo == s.undo,
        dogleg is Err ==> s.dogleg_built(dogleg).factory.data == s.factory.data && s.dogleg_built(
            dogleg,
        ).undo == s.undo,
        spiral matches Ok(m) ==> s.spiral_built(spiral).factory.data.features == s.factory.data.features
            + stair_solids(m.parts@, m.parts@.len() as int),
        dogleg matches Ok(m) ==> s.dogleg_built(dogleg).factory.data.features == s.factory.data.features
            + stair_solids(m.parts@, m.parts@.len() as int),
{
    reveal(AppView::said);
    if let Ok(m) = spiral {
        let ids = stair_solids(m.parts@, m.parts@.len() as int);
        if ids.len() == 0 {
            assert(s.factory.data.features + ids =~= s.factory.data.features);
        }
    }
    if let Ok(m) = dogleg {
        let ids = stair_solids(m.parts@, m.parts@.len() as int);
        if ids.len() == 0 {
            assert(s.factory.data.features + ids =~= s.factory.data.features);
        }
    }
}

/// A stair that was joined is built into the model's shape, which is then shown.
pub proof fn joined_stair_is_built(s: AppView, parts: Seq<StairPart>, name: Seq<char>, status: Seq<char>, line: Seq<char>)
    requires
        stair_solids(parts, parts.len() as int).len() > 0,
    ensures
        s.stair_put(parts, name, status, line).factory.recompute_due,
        s.stair_put(parts, name, status, line).factory.open,
        s.stair_put(parts, name, status, line).files.unsaved,
        s.stair_put(parts, name, status, line).doc == s.doc,
        s.stair_put(parts, name, status, line).factory.data.furniture == s.factory.data.furniture,
{
    reveal(AppView::said);
}

} // verus!
