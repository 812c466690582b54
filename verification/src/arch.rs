//! The dialog of the generators: which one is open, and the lists and grids that are edited in it.
//!
//! Lengths are micrometres, shares of a width or a height millionths.
use vstd::prelude::*;

use crate::app::{AppView, CadApp};
use crate::text::{cat2, cat5, dec, dec_text};

verus! {

/// A generator.
#[derive(Clone, Copy, Debug, PartialEq, Eq, Structural)]
pub enum ArchTab {
    Staircase,
    Spiral,
    Ramp,
    Dogleg,
    SpiralCsg,
    HelicalRamp,
    Door,
    Cupboard,
    Kitchen,
    Cabin,
    SweepLight,
    Desk,
    Couch,
}

/// Whether a generator is reached from others by a row of tabs; the rest are opened from menus of
/// their own.
pub open spec fn is_tabbed(t: ArchTab) -> bool {
    match t {
        ArchTab::Staircase => true,
        ArchTab::Spiral => true,
        ArchTab::Ramp => true,
        ArchTab::Dogleg => true,
        ArchTab::SpiralCsg => true,
        ArchTab::HelicalRamp => true,
        _ => false,
    }
}

/// The title of the dialog.
pub open spec fn tab_title(t: ArchTab) -> Seq<char> {
    match t {
        ArchTab::Door => "🚪  Door"@,
        ArchTab::Cupboard => "🗄  Cupboard"@,
        ArchTab::Kitchen => "🍳  Kitchen cabinets"@,
        ArchTab::Cabin => "🚪  Cabinet unit"@,
        ArchTab::SweepLight => "💡  Curved light"@,
        ArchTab::Desk => "🖥  Office desk"@,
        ArchTab::Couch => "🛋  Sofa"@,
        _ => "🏛  Architecture"@,
    }
}

/// Values resized to a number of them: those beyond are dropped, and `v` fills up.
pub open spec fn resized<T>(s: Seq<T>, n: nat, v: T) -> Seq<T> {
    if n <= s.len() {
        s.subrange(0, n as int)
    } else {
        s + Seq::new((n - s.len()) as nat, |i: int| v)
    }
}

/// A front of a cupboard.
#[derive(Clone, Copy, Debug, PartialEq, Eq, Structural)]
pub enum CupboardCell {
    Door,
    Glass,
    Niche,
    Panel,
    Drawers(u8),
}

/// A front of a cabinet unit.
#[derive(Clone, Copy, Debug, PartialEq, Eq, Structural)]
pub enum CabinCell {
    Door(u8),
    Drawers(u8),
    Open,
    Panel,
}

/// A grid of fronts: the shares of its columns and rows, and its cells, from the top row down.
pub struct CellGrid<C: Copy> {
    pub cols: Vec<i64>,
    pub rows: Vec<i64>,
    pub layout: Vec<Vec<C>>,
}

/// The model of a [`CellGrid`].
pub struct GridView<C> {
    pub cols: Seq<i64>,
    pub rows: Seq<i64>,
    pub layout: Seq<Seq<C>>,
}

impl<C: Copy> View for CellGrid<C> {
    type V = GridView<C>;

    open spec fn view(&self) -> GridView<C> {
        GridView {
            cols: self.cols@,
            rows: self.rows@,
            layout: Seq::new(self.layout@.len(), |i: int| self.layout@[i]@),
        }
    }
}

impl<C> GridView<C> {
    /// Every row has a cell for every column, and there is a row of cells for every row.
    pub open spec fn wf(self) -> bool {
        self.layout.len() == self.rows.len() && forall|i: int|
            0 <= i < self.layout.len() ==> (#[trigger] self.layout[i]).len() == self.cols.len()
    }

    /// With a number of columns and rows; new cells hold `c`.
    pub open spec fn sized(self, cols: nat, rows: nat, c: C) -> GridView<C> {
        if cols == self.cols.len() && rows == self.rows.len() {
            self
        } else {
            GridView {
                cols: resized(self.cols, cols, 1_000_000),
                rows: resized(self.rows, rows, 1_000_000),
                layout: resized(
                    self.layout.map_values(|r: Seq<C>| resized(r, cols, c)),
                    rows,
                    Seq::new(cols, |i: int| c),
                ),
            }
        }
    }

    /// With one cell set.
    pub open spec fn cell_set(self, r: int, k: int, c: C) -> GridView<C> {
        if 0 <= r < self.layout.len() && 0 <= k < self.layout[r].len() {
            GridView { layout: self.layout.update(r, self.layout[r].update(k, c)), ..self }
        } else {
            self
        }
    }
}

fn resize_plain<T: Copy>(v: &mut Vec<T>, n: usize, x: T)
    ensures
        final(v)@ == resized(old(v)@, n as nat, x),
{
    let ghost was = v@;
    if n <= v.len() {
        v.truncate(n);
        assert(v@ =~= resized(was, n as nat, x));
    } else {
        while v.len() < n
            invariant
                was.len() <= v.len() <= n,
                v@ == was + Seq::new((v@.len() - was.len()) as nat, |i: int| x),
            decreases n - v.len(),
        {
            let ghost before = v@;
            v.push(x);
            assert(v@ =~= was + Seq::new((v@.len() - was.len()) as nat, |i: int| x));
        }
    }
}

/// A number kept within one and six.
pub open spec fn one_to_six(n: usize) -> nat {
    if n < 1 {
        1
    } else if n > 6 {
        6
    } else {
        n as nat
    }
}

fn keep_to_six(n: usize) -> (r: usize)
    ensures
        r == one_to_six(n),
{
    if n < 1 {
        1
    } else if n > 6 {
        6
    } else {
        n
    }
}

fn filled_row<C: Copy>(n: usize, c: C) -> (r: Vec<C>)
    ensures
        r@ == Seq::new(n as nat, |i: int| c),
{
    let mut r: Vec<C> = Vec::new();
    let mut i: usize = 0;
    while i < n
        invariant
            i <= n,
            r@ == Seq::new(i as nat, |i: int| c),
        decreases n - i,
    {
        r.push(c);
        i += 1;
        assert(r@ =~= Seq::new(i as nat, |i: int| c));
    }
    r
}

impl<C: Copy> CellGrid<C> {
    /// A grid of one cell.
    pub fn single(c: C) -> (r: CellGrid<C>)
        ensures
            r@ == (GridView {
                cols: seq![1_000_000i64],
                rows: seq![1_000_000i64],
                layout: seq![seq![c]],
            }),
            r@.wf(),
    {
        let mut cols: Vec<i64> = Vec::new();
        cols.push(1_000_000);
        let mut rows: Vec<i64> = Vec::new();
        rows.push(1_000_000);
        let row = filled_row(1, c);
        let mut layout: Vec<Vec<C>> = Vec::new();
        layout.push(row);
        let r = CellGrid { cols: cols, rows: rows, layout: layout };
        proof {
            assert(r@.cols =~= seq![1_000_000i64]);
            assert(r@.rows =~= seq![1_000_000i64]);
            assert(r@.layout[0] =~= seq![c]);
            assert(r@.layout =~= seq![seq![c]]);
        }
        r
    }

    fn resize_rows(&mut self, cols: usize, c: C)
        ensures
            final(self)@ == (GridView {
                layout: old(self)@.layout.map_values(|r: Seq<C>| resized(r, cols as nat, c)),
                ..old(self)@
            }),
    {
        let ghost was = self@;
        let ghost old_rows = self.layout@;
        let mut i: usize = 0;
        while i < self.layout.len()
            invariant
                i <= self.layout.len(),
                self.layout@.len() == old_rows.len(),
                was.layout.len() == old_rows.len(),
                forall|k: int| 0 <= k < old_rows.len() ==> was.layout[k] == (#[trigger] old_rows[k])@,
                self.cols@ == was.cols,
                self.rows@ == was.rows,
                forall|k: int|
                    0 <= k < i ==> (#[trigger] self.layout@[k])@ == resized(
                        was.layout[k],
                        cols as nat,
                        c,
                    ),
                forall|k: int|
                    i <= k < old_rows.len() ==> (#[trigger] self.layout@[k]) == old_rows[k],
            decreases self.layout.len() - i,
        {
            let ghost before = self.layout@;
            assert(before[i as int] == old_rows[i as int]);
            resize_plain(&mut self.layout[i], cols, c);
            i += 1;
        }
        assert(self@.layout =~= was.layout.map_values(|r: Seq<C>| resized(r, cols as nat, c)));
    }

    fn resize_layout(&mut self, cols: usize, rows: usize, c: C)
        ensures
            final(self)@ == (GridView {
                layout: resized(
                    old(self)@.layout,
                    rows as nat,
                    Seq::new(cols as nat, |i: int| c),
                ),
                ..old(self)@
            }),
    {
        let ghost was = self@;
        let ghost fill = Seq::new(cols as nat, |i: int| c);
        if rows <= self.layout.len() {
            self.layout.truncate(rows);
            assert(self@.layout =~= resized(was.layout, rows as nat, fill));
        } else {
            while self.layout.len() < rows
                invariant
                    was.layout.len() <= self.layout.len() <= rows,
                    fill == Seq::new(cols as nat, |i: int| c),
                    self.cols@ == was.cols,
                    self.rows@ == was.rows,
                    self@.layout == was.layout + Seq::new(
                        (self@.layout.len() - was.layout.len()) as nat,
                        |i: int| fill,
                    ),
                decreases rows - self.layout.len(),
            {
                let ghost before = self@.layout;
                self.layout.push(filled_row(cols, c));
                assert(self@.layout =~= before.push(fill));
                assert(self@.layout =~= was.layout + Seq::new(
                    (self@.layout.len() - was.layout.len()) as nat,
                    |i: int| fill,
                ));
            }
        }
    }

    /// Gives the grid a number of columns and rows, one to six of each; new cells hold `c`.
    pub fn resize(&mut self, cols: usize, rows: usize, c: C)
        ensures
            final(self)@ == old(self)@.sized(one_to_six(cols), one_to_six(rows), c),
    {
        let nc: usize = keep_to_six(cols);
        let nr: usize = keep_to_six(rows);
        if nc != self.cols.len() || nr != self.rows.len() {
            resize_plain(&mut self.cols, nc, 1_000_000);
            resize_plain(&mut self.rows, nr, 1_000_000);
            self.resize_rows(nc, c);
            self.resize_layout(nc, nr, c);
        }
    }

    /// The cell at a place.
    pub fn cell(&self, r: usize, k: usize) -> (c: Option<C>)
        ensures
            c == if r < self@.layout.len() && k < self@.layout[r as int].len() {
                Some(self@.layout[r as int][k as int])
            } else {
                None
            },
    {
        if r < self.layout.len() {
            assert(self@.layout[r as int] == self.layout@[r as int]@);
            if k < self.layout[r].len() {
                return Some(self.layout[r][k]);
            }
        }
        None
    }

    /// Sets the cell at a place, where there is one.
    pub fn set_cell(&mut self, r: usize, k: usize, c: C)
        ensures
            final(self)@ == old(self)@.cell_set(r as int, k as int, c),
    {
        if r < self.layout.len() {
            let ghost was = self@;
            let ghost before = self.layout@;
            assert(was.layout[r as int] == before[r as int]@);
            if k < self.layout[r].len() {
                self.layout[r].set(k, c);
                assert(self@.layout =~= was.layout.update(
                    r as int,
                    was.layout[r as int].update(k as int, c),
                ));
            }
        }
    }
}

/// A grid stays whole when it is resized, and keeps the cells that are still in it.
pub proof fn resized_grid_is_whole<C>(g: GridView<C>, cols: nat, rows: nat, c: C)
    requires
        g.wf(),
    ensures
        g.sized(cols, rows, c).wf(),
        g.sized(cols, rows, c).cols.len() == cols,
        g.sized(cols, rows, c).rows.len() == rows,
        forall|r: int, k: int|
            0 <= r < rows && r < g.rows.len() && 0 <= k < cols && k < g.cols.len()
                ==> #[trigger] g.sized(cols, rows, c).layout[r][k] == g.layout[r][k],
{
}

/// What the cell of a cupboard says.
pub open spec fn cupboard_cell_text(c: CupboardCell) -> Seq<char> {
    match c {
        CupboardCell::Door => "Door"@,
        CupboardCell::Glass => "Glass"@,
        CupboardCell::Niche => "Niche"@,
        CupboardCell::Panel => "Panel"@,
        CupboardCell::Drawers(n) => "Drawers×"@ + dec(n as nat),
    }
}

/// What the cell of a cupboard says.
pub fn cupboard_cell_label(c: CupboardCell) -> (r: String)
    ensures
        r@ == cupboard_cell_text(c),
{
    match c {
        CupboardCell::Door => String::from_str("Door"),
        CupboardCell::Glass => String::from_str("Glass"),
        CupboardCell::Niche => String::from_str("Niche"),
        CupboardCell::Panel => String::from_str("Panel"),
        CupboardCell::Drawers(n) => cat2("Drawers×", dec_text(n as u64).as_str()),
    }
}

/// What the cell of a cabinet unit says.
pub open spec fn cabin_cell_text(c: CabinCell) -> Seq<char> {
    match c {
        CabinCell::Door(n) => "Door×"@ + dec(n as nat),
        CabinCell::Drawers(n) => "Drawers×"@ + dec(n as nat),
        CabinCell::Open => "Open"@,
        CabinCell::Panel => "Panel"@,
    }
}

/// What the cell of a cabinet unit says.
pub fn cabin_cell_label(c: CabinCell) -> (r: String)
    ensures
        r@ == cabin_cell_text(c),
{
    match c {
        CabinCell::Door(n) => cat2("Door×", dec_text(n as u64).as_str()),
        CabinCell::Drawers(n) => cat2("Drawers×", dec_text(n as u64).as_str()),
        CabinCell::Open => String::from_str("Open"),
        CabinCell::Panel => String::from_str("Panel"),
    }
}

/// A cell of a cupboard after drawers have been chosen for it: two of them, unless it has drawers
/// already.
pub fn cupboard_drawers(c: CupboardCell) -> (r: CupboardCell)
    ensures
        r == match c {
            CupboardCell::Drawers(n) => CupboardCell::Drawers(n),
            _ => CupboardCell::Drawers(2),
        },
{
    match c {
        CupboardCell::Drawers(n) => CupboardCell::Drawers(n),
        _ => CupboardCell::Drawers(2),
    }
}

/// A cell of a cabinet unit after doors have been chosen for it: one leaf, unless it has doors
/// already.
pub fn cabin_doors(c: CabinCell) -> (r: CabinCell)
    ensures
        r == match c {
            CabinCell::Door(n) => CabinCell::Door(n),
            _ => CabinCell::Door(1),
        },
{
    match c {
        CabinCell::Door(n) => CabinCell::Door(n),
        _ => CabinCell::Door(1),
    }
}

/// A cell of a cabinet unit after drawers have been chosen for it: three of them, unless it has
/// drawers already.
pub fn cabin_drawers(c: CabinCell) -> (r: CabinCell)
    ensures
        r == match c {
            CabinCell::Drawers(n) => CabinCell::Drawers(n),
            _ => CabinCell::Drawers(3),
        },
{
    match c {
        CabinCell::Drawers(n) => CabinCell::Drawers(n),
        _ => CabinCell::Drawers(3),
    }
}

/// A kind of cabinet in a kitchen, below or above.
#[derive(Clone, Copy, Debug, PartialEq, Eq, Structural)]
pub enum CabinetKind {
    Door,
    Drawers,
    Void,
    Tall,
    Gap,
    Open,
}

/// A cabinet in a kitchen: what it is, how wide, and how many leaves, drawers or shelves it has.
#[derive(Clone, Copy, Debug, PartialEq, Eq, Structural)]
pub struct Cabinet {
    pub kind: CabinetKind,
    pub width: i64,
    pub count: u8,
}

/// The cabinet that is added to a row.
pub open spec fn new_cabinet() -> Cabinet {
    Cabinet { kind: CabinetKind::Door, width: 600_000, count: 1 }
}

/// A row without the item at a place; the last one is never removed.
pub open spec fn kept_one<T>(s: Seq<T>, i: int) -> Seq<T> {
    if s.len() > 1 && 0 <= i < s.len() {
        s.remove(i)
    } else {
        s
    }
}

fn remove_keeping_one<T: Copy>(v: &mut Vec<T>, i: usize)
    ensures
        final(v)@ == kept_one(old(v)@, i as int),
{
    if v.len() > 1 && i < v.len() {
        let _ = v.remove(i);
    }
}

/// A run of a sofa: how long it is, and how many cushions it has, none for as many as fit.
#[derive(Clone, Copy, Debug, PartialEq, Eq, Structural)]
pub struct SofaRun {
    pub length: i64,
    pub cushions: u8,
}

/// A hole for cables in a desk: across, and along where it does not stand at the rear.
#[derive(Clone, Copy, Debug, PartialEq, Eq, Structural)]
pub struct CablePort {
    pub x: i64,
    pub y: i64,
    pub rear: bool,
}

/// The path of a curved light.
#[derive(Clone, Copy, Debug, PartialEq, Eq, Structural)]
pub enum SweepPath {
    Ring,
    Racetrack,
    SCurve,
    Custom,
}

/// The numbers of a path: for a ring its radius, for a racetrack its length, depth and fillet, for
/// an S-curve its run and its swing, for a drawn curve how many points it has and its fillet.
#[derive(Clone, Copy, Debug, PartialEq, Eq, Structural)]
pub struct SweepShape {
    pub path: SweepPath,
    pub a: i64,
    pub b: i64,
    pub fillet: i64,
    pub points: usize,
    pub closed: bool,
}

/// A path as it is first chosen.
pub open spec fn first_shape(p: SweepPath) -> SweepShape {
    match p {
        SweepPath::Ring => SweepShape {
            path: p,
            a: 400_000,
            b: 0,
            fillet: 0,
            points: 0,
            closed: true,
        },
        SweepPath::Racetrack => SweepShape {
            path: p,
            a: 1_800_000,
            b: 900_000,
            fillet: 250_000,
            points: 0,
            closed: true,
        },
        SweepPath::SCurve => SweepShape {
            path: p,
            a: 4_000_000,
            b: 500_000,
            fillet: 0,
            points: 0,
            closed: false,
        },
        SweepPath::Custom => SweepShape {
            path: p,
            a: 0,
            b: 0,
            fillet: 150_000,
            points: 0,
            closed: false,
        },
    }
}

/// A path as it is first chosen.
pub fn chosen_shape(p: SweepPath) -> (r: SweepShape)
    ensures
        r == first_shape(p),
{
    match p {
        SweepPath::Ring => SweepShape {
            path: p,
            a: 400_000,
            b: 0,
            fillet: 0,
            points: 0,
            closed: true,
        },
        SweepPath::Racetrack => SweepShape {
            path: p,
            a: 1_800_000,
            b: 900_000,
            fillet: 250_000,
            points: 0,
            closed: true,
        },
        SweepPath::SCurve => SweepShape {
            path: p,
            a: 4_000_000,
            b: 500_000,
            fillet: 0,
            points: 0,
            closed: false,
        },
        SweepPath::Custom => SweepShape {
            path: p,
            a: 0,
            b: 0,
            fillet: 150_000,
            points: 0,
            closed: false,
        },
    }
}

/// The state of the dialog.
pub struct ArchState {
    pub open: bool,
    pub tab: ArchTab,
    pub cupboard: CellGrid<CupboardCell>,
    pub cabin: CellGrid<CabinCell>,
    pub base: Vec<Cabinet>,
    pub wall: Vec<Cabinet>,
    pub runs: Vec<SofaRun>,
    pub ports: Vec<CablePort>,
    pub sweep: SweepShape,
    pub drop: i64,
    pub drop_end: i64,
}

/// The model of an [`ArchState`].
pub struct ArchView {
    pub open: bool,
    pub tab: ArchTab,
    pub cupboard: GridView<CupboardCell>,
    pub cabin: GridView<CabinCell>,
    pub base: Seq<Cabinet>,
    pub wall: Seq<Cabinet>,
    pub runs: Seq<SofaRun>,
    pub ports: Seq<CablePort>,
    pub sweep: SweepShape,
    pub drop: i64,
    pub drop_end: i64,
}

impl View for ArchState {
    type V = ArchView;

    open spec fn view(&self) -> ArchView {
        ArchView {
            open: self.open,
            tab: self.tab,
            cupboard: self.cupboard@,
            cabin: self.cabin@,
            base: self.base@,
            wall: self.wall@,
            runs: self.runs@,
            ports: self.ports@,
            sweep: self.sweep,
            drop: self.drop,
            drop_end: self.drop_end,
        }
    }
}

impl ArchView {
    /// The dialog as the application starts with it.
    pub open spec fn fresh() -> ArchView {
        ArchView {
            open: false,
            tab: ArchTab::Staircase,
            cupboard: GridView {
                cols: seq![1_000_000i64],
                rows: seq![1_000_000i64],
                layout: seq![seq![CupboardCell::Door]],
            },
            cabin: GridView {
                cols: seq![1_000_000i64],
                rows: seq![1_000_000i64],
                layout: seq![seq![CabinCell::Door(1)]],
            },
            base: seq![new_cabinet()],
            wall: seq![new_cabinet()],
            runs: seq![SofaRun { length: 1_350_000, cushions: 0 }],
            ports: Seq::empty(),
            sweep: first_shape(SweepPath::Ring),
            drop: 1_000_000,
            drop_end: 1_000_000,
        }
    }

    /// Rows of cabinets and the runs of a sofa are never empty, and the grids are whole.
    pub open spec fn wf(self) -> bool {
        self.base.len() > 0 && self.wall.len() > 0 && self.runs.len() > 0 && self.cupboard.wf()
            && self.cabin.wf()
    }

    /// After an edit.
    pub open spec fn edited(self, e: ArchEdit) -> ArchView {
        match e {
            ArchEdit::CupboardSize(c, r) => ArchView {
                cupboard: self.cupboard.sized(one_to_six(c), one_to_six(r), CupboardCell::Door),
                ..self
            },
            ArchEdit::CupboardCell(r, k, c) => ArchView {
                cupboard: self.cupboard.cell_set(r as int, k as int, c),
                ..self
            },
            ArchEdit::CabinSize(c, r) => ArchView {
                cabin: self.cabin.sized(one_to_six(c), one_to_six(r), CabinCell::Door(1)),
                ..self
            },
            ArchEdit::CabinCell(r, k, c) => ArchView {
                cabin: self.cabin.cell_set(r as int, k as int, c),
                ..self
            },
            ArchEdit::AddBase => ArchView { base: self.base.push(new_cabinet()), ..self },
            ArchEdit::RemoveBase(i) => ArchView { base: kept_one(self.base, i as int), ..self },
            ArchEdit::AddWall => ArchView { wall: self.wall.push(new_cabinet()), ..self },
            ArchEdit::RemoveWall(i) => ArchView { wall: kept_one(self.wall, i as int), ..self },
            ArchEdit::AddRun => ArchView {
                runs: self.runs.push(SofaRun { length: 1_350_000, cushions: 0 }),
                ..self
            },
            ArchEdit::RemoveRun => ArchView {
                runs: kept_one(self.runs, self.runs.len() - 1),
                ..self
            },
            ArchEdit::AddPort => ArchView {
                ports: self.ports.push(CablePort { x: 0, y: 0, rear: true }),
                ..self
            },
            ArchEdit::RemovePort => ArchView {
                ports: if self.ports.len() > 0 {
                    self.ports.drop_last()
                } else {
                    self.ports
                },
                ..self
            },
            ArchEdit::Path(p) => ArchView { sweep: first_shape(p), ..self },
            ArchEdit::Drop(d, end) => ArchView {
                drop: d,
                drop_end: if self.sweep.path == SweepPath::SCurve {
                    end
                } else {
                    d
                },
                ..self
            },
        }
    }
}

/// An edit in the dialog.
#[derive(Clone, Copy, Debug, PartialEq, Eq, Structural)]
pub enum ArchEdit {
    CupboardSize(usize, usize),
    CupboardCell(usize, usize, CupboardCell),
    CabinSize(usize, usize),
    CabinCell(usize, usize, CabinCell),
    AddBase,
    RemoveBase(usize),
    AddWall,
    RemoveWall(usize),
    AddRun,
    RemoveRun,
    AddPort,
    RemovePort,
    Path(SweepPath),
    Drop(i64, i64),
}

impl ArchState {
    /// The dialog as the application starts with it.
    pub fn new() -> (r: ArchState)
        ensures
            r@ == ArchView::fresh(),
            r@.wf(),
    {
        let mut base: Vec<Cabinet> = Vec::new();
        base.push(Cabinet { kind: CabinetKind::Door, width: 600_000, count: 1 });
        let mut wall: Vec<Cabinet> = Vec::new();
        wall.push(Cabinet { kind: CabinetKind::Door, width: 600_000, count: 1 });
        let mut runs: Vec<SofaRun> = Vec::new();
        runs.push(SofaRun { length: 1_350_000, cushions: 0 });
        assert(base@ =~= seq![new_cabinet()]);
        assert(wall@ =~= seq![new_cabinet()]);
        assert(runs@ =~= seq![SofaRun { length: 1_350_000, cushions: 0 }]);
        ArchState {
            open: false,
            tab: ArchTab::Staircase,
            cupboard: CellGrid::single(CupboardCell::Door),
            cabin: CellGrid::single(CabinCell::Door(1)),
            base: base,
            wall: wall,
            runs: runs,
            ports: Vec::new(),
            sweep: chosen_shape(SweepPath::Ring),
            drop: 1_000_000,
            drop_end: 1_000_000,
        }
    }

    fn edit_lists(&mut self, e: ArchEdit)
        requires
            e is AddBase || e is RemoveBase || e is AddWall || e is RemoveWall || e is AddRun
                || e is RemoveRun || e is AddPort || e is RemovePort,
        ensures
            final(self)@ == old(self)@.edited(e),
    {
        match e {
            ArchEdit::AddBase => self.base.push(
                Cabinet { kind: CabinetKind::Door, width: 600_000, count: 1 },
            ),
            ArchEdit::RemoveBase(i) => remove_keeping_one(&mut self.base, i),
            ArchEdit::AddWall => self.wall.push(
                Cabinet { kind: CabinetKind::Door, width: 600_000, count: 1 },
            ),
            ArchEdit::RemoveWall(i) => remove_keeping_one(&mut self.wall, i),
            ArchEdit::AddRun => self.runs.push(SofaRun { length: 1_350_000, cushions: 0 }),
            ArchEdit::RemoveRun => {
                let n: usize = self.runs.len();
                if n > 1 {
                    remove_keeping_one(&mut self.runs, n - 1);
                }
            },
            ArchEdit::AddPort => self.ports.push(CablePort { x: 0, y: 0, rear: true }),
            _ => {
                if self.ports.len() > 0 {
                    let _ = self.ports.pop();
                }
            },
        }
    }

    fn edit(&mut self, e: ArchEdit)
        ensures
            final(self)@ == old(self)@.edited(e),
    {
        match e {
            ArchEdit::CupboardSize(c, r) => self.cupboard.resize(c, r, CupboardCell::Door),
            ArchEdit::CupboardCell(r, k, c) => self.cupboard.set_cell(r, k, c),
            ArchEdit::CabinSize(c, r) => self.cabin.resize(c, r, CabinCell::Door(1)),
            ArchEdit::CabinCell(r, k, c) => self.cabin.set_cell(r, k, c),
            ArchEdit::Path(p) => {
                self.sweep = chosen_shape(p);
            },
            ArchEdit::Drop(d, end) => {
                self.drop = d;
                self.drop_end = if self.sweep.path == SweepPath::SCurve {
                    end
                } else {
                    d
                };
            },
            _ => self.edit_lists(e),
        }
    }
}

/// No edit empties a row of cabinets or a sofa, or breaks a grid.
pub proof fn edits_keep_the_dialog_whole(a: ArchView, e: ArchEdit)
    requires
        a.wf(),
    ensures
        a.edited(e).wf(),
{
    match e {
        ArchEdit::CupboardSize(c, r) => {
            resized_grid_is_whole(
                a.cupboard,
                one_to_six(c),
                one_to_six(r),
                CupboardCell::Door,
            );
        },
        ArchEdit::CabinSize(c, r) => {
            resized_grid_is_whole(a.cabin, one_to_six(c), one_to_six(r), CabinCell::Door(1));
        },
        _ => {},
    }
}

impl AppView {
    /// With a given state of the dialog of the generators.
    pub open spec fn with_arch(self, a: ArchView) -> AppView {
        AppView { arch: a, ..self }
    }
}

/// An outline of a selected object: how long it is, how many points it has, and whether its ends
/// meet.
#[derive(Clone, Copy, Debug, PartialEq, Eq, Structural)]
pub struct Outline {
    pub length: u64,
    pub points: usize,
    pub ends_meet: bool,
}

/// The longest of the first `n` outlines, and the first of several that are as long. One of fewer
/// than two points, or of no length, is no path.
pub open spec fn longest(o: Seq<Outline>, n: int) -> Option<int>
    decreases n,
{
    if n <= 0 {
        None
    } else {
        let best = longest(o, n - 1);
        let len = match best {
            Some(i) => o[i].length,
            None => 0,
        };
        if o[n - 1].points >= 2 && o[n - 1].length > len {
            Some(n - 1)
        } else {
            best
        }
    }
}

/// Whether an outline is a closed loop.
pub open spec fn is_loop(o: Outline) -> bool {
    o.points > 3 && o.ends_meet
}

/// How many points of an outline the path takes: a loop does not take its first point twice.
pub open spec fn path_points(o: Outline) -> usize {
    if is_loop(o) {
        (o.points - 1) as usize
    } else {
        o.points
    }
}

impl AppView {
    /// After the selected curve has been taken for the path of a curved light, or none was found.
    pub open spec fn curve_grabbed(self, o: Seq<Outline>) -> AppView {
        match longest(o, o.len() as int) {
            Some(i) => self.with_arch(
                ArchView {
                    sweep: SweepShape {
                        path: SweepPath::Custom,
                        a: 0,
                        b: 0,
                        fillet: if self.arch.sweep.path == SweepPath::Custom {
                            self.arch.sweep.fillet
                        } else {
                            150_000
                        },
                        points: path_points(o[i]),
                        closed: is_loop(o[i]),
                    },
                    ..self.arch
                },
            ).with_status(
                "2D curve loaded: "@ + dec(path_points(o[i]) as nat) + " points ("@ + (if is_loop(
                    o[i],
                ) {
                    "closed"@
                } else {
                    "open"@
                }) + ") — set the fillet, then Build"@,
            ),
            None => self.with_status(
                "no usable 2D curve selected — select a polyline, arc, circle or ellipse in the 2D view first"@,
            ),
        }
    }
}

proof fn longest_is_a_place(o: Seq<Outline>, n: int)
    requires
        n <= o.len(),
    ensures
        longest(o, n) matches Some(i) ==> 0 <= i < n && o[i].points >= 2,
    decreases n,
{
    if n > 0 {
        longest_is_a_place(o, n - 1);
    }
}

/// The outline that is taken is a path, and none of the others is longer.
pub proof fn longest_outline_wins(o: Seq<Outline>, n: int, k: int)
    requires
        0 <= k < n <= o.len(),
        o[k].points >= 2,
        o[k].length > 0,
    ensures
        longest(o, n) matches Some(i) && 0 <= i < n && o[i].points >= 2 && o[i].length
            >= o[k].length,
    decreases n,
{
    longest_is_a_place(o, n);
    longest_is_a_place(o, n - 1);
    if k < n - 1 {
        longest_outline_wins(o, n - 1, k);
    }
}

fn find_longest(o: &Vec<Outline>) -> (r: Option<usize>)
    ensures
        match r {
            Some(i) => longest(o@, o@.len() as int) == Some(i as int) && i < o@.len(),
            None => longest(o@, o@.len() as int) is None,
        },
{
    let mut best: Option<usize> = None;
    let mut n: usize = 0;
    while n < o.len()
        invariant
            n <= o.len(),
            match best {
                Some(i) => longest(o@, n as int) == Some(i as int) && i < n,
                None => longest(o@, n as int) is None,
            },
        decreases o.len() - n,
    {
        let len: u64 = match best {
            Some(i) => o[i].length,
            None => 0,
        };
        if o[n].points >= 2 && o[n].length > len {
            best = Some(n);
        }
        n += 1;
    }
    best
}

impl CadApp {
    /// The title of the dialog of the generators.
    pub fn arch_title(&self) -> (r: &'static str)
        ensures
            r@ == tab_title(self@.arch.tab),
    {
        match self.arch.tab {
            ArchTab::Door => "🚪  Door",
            ArchTab::Cupboard => "🗄  Cupboard",
            ArchTab::Kitchen => "🍳  Kitchen cabinets",
            ArchTab::Cabin => "🚪  Cabinet unit",
            ArchTab::SweepLight => "💡  Curved light",
            ArchTab::Desk => "🖥  Office desk",
            ArchTab::Couch => "🛋  Sofa",
            _ => "🏛  Architecture",
        }
    }

    /// Whether the dialog has a row of tabs.
    pub fn arch_tabbed(&self) -> (r: bool)
        ensures
            r == is_tabbed(self@.arch.tab),
    {
        match self.arch.tab {
            ArchTab::Staircase => true,
            ArchTab::Spiral => true,
            ArchTab::Ramp => true,
            ArchTab::Dogleg => true,
            ArchTab::SpiralCsg => true,
            ArchTab::HelicalRamp => true,
            _ => false,
        }
    }

    /// Takes an edit in the dialog of the generators.
    pub fn arch_edit(&mut self, e: ArchEdit)
        ensures
            final(self)@ == old(self)@.with_arch(old(self)@.arch.edited(e)),
    {
        self.arch.edit(e);
    }

    fn take_curve(&mut self, points: usize, closed: bool)
        ensures
            final(self)@ == old(self)@.with_arch(
                ArchView {
                    sweep: SweepShape {
                        path: SweepPath::Custom,
                        a: 0,
                        b: 0,
                        fillet: if old(self)@.arch.sweep.path == SweepPath::Custom {
                            old(self)@.arch.sweep.fillet
                        } else {
                            150_000
                        },
                        points: points,
                        closed: closed,
                    },
                    ..old(self)@.arch
                },
            ),
    {
        let fillet: i64 = if self.arch.sweep.path == SweepPath::Custom {
            self.arch.sweep.fillet
        } else {
            150_000
        };
        self.arch.sweep = SweepShape {
            path: SweepPath::Custom,
            a: 0,
            b: 0,
            fillet: fillet,
            points: points,
            closed: closed,
        };
    }

    /// Takes the longest outline of the selected objects for the path of a curved light. It returns
    /// which one that is.
    pub fn grab_curve(&mut self, o: &Vec<Outline>) -> (r: Option<usize>)
        ensures
            final(self)@ == old(self)@.curve_grabbed(o@),
            match r {
                Some(i) => longest(o@, o@.len() as int) == Some(i as int),
                None => longest(o@, o@.len() as int) is None,
            },
    {
        match find_longest(o) {
            Some(i) => {
                let closed = o[i].points > 3 && o[i].ends_meet;
                let points: usize = if closed {
                    o[i].points - 1
                } else {
                    o[i].points
                };
                let status = cat5(
                    "2D curve loaded: ",
                    dec_text(points as u64).as_str(),
                    " points (",
                    if closed {
                        "closed"
                    } else {
                        "open"
                    },
                    ") — set the fillet, then Build",
                );
                self.take_curve(points, closed);
                self.set_status(status);
                Some(i)
            },
            None => {
                self.set_status(
                    String::from_str(
                        "no usable 2D curve selected — select a polyline, arc, circle or ellipse in the 2D view first",
                    ),
                );
                None
            },
        }
    }
}

/// An edit of the generators does what it says to what it is of, and leaves everything else.
pub proof fn generator_edit_reads_back(a: ArchView, e: ArchEdit)
    requires
        a.wf(),
    ensures
        ({
            let b = a.edited(e);
            let n = |v: usize|
                if v < 1 {
                    1
                } else if v > 6 {
                    6
                } else {
                    v as int
                };
            &&& e matches ArchEdit::CupboardSize(c, r) ==> b.cupboard.cols.len() == n(c)
                && b.cupboard.rows.len() == n(r)
            &&& e matches ArchEdit::CabinSize(c, r) ==> b.cabin.cols.len() == n(c)
                && b.cabin.rows.len() == n(r)
            &&& e matches ArchEdit::CupboardCell(r, k, c) ==> r < a.cupboard.rows.len() && k
                < a.cupboard.cols.len() ==> b.cupboard.layout[r as int][k as int] == c
            &&& e matches ArchEdit::CabinCell(r, k, c) ==> r < a.cabin.rows.len() && k
                < a.cabin.cols.len() ==> b.cabin.layout[r as int][k as int] == c
            &&& e is AddBase ==> b.base.len() == a.base.len() + 1 && b.base.drop_last() == a.base
            &&& e is AddWall ==> b.wall.len() == a.wall.len() + 1 && b.wall.drop_last() == a.wall
            &&& e is AddRun ==> b.runs.len() == a.runs.len() + 1 && b.runs.drop_last() == a.runs
            &&& e is AddPort ==> b.ports.len() == a.ports.len() + 1 && b.ports.drop_last() == a.ports
            &&& e is RemovePort ==> b.ports.len() == (if a.ports.len() == 0 {
                0
            } else {
                a.ports.len() - 1
            })
            &&& e is RemoveRun ==> b.runs.len() == (if a.runs.len() == 1 {
                1
            } else {
                a.runs.len() - 1
            })
            &&& e matches ArchEdit::RemoveBase(i) ==> i < a.base.len() && a.base.len() > 1 ==> b.base
                == a.base.remove(i as int)
            &&& e matches ArchEdit::RemoveWall(i) ==> i < a.wall.len() && a.wall.len() > 1 ==> b.wall
                == a.wall.remove(i as int)
            &&& e matches ArchEdit::Path(p) ==> b.sweep.path == p && b.sweep.points == 0
            &&& e matches ArchEdit::Drop(d, end) ==> b.drop == d && b.drop_end == (if a.sweep.path
                == SweepPath::SCurve {
                end
            } else {
                d
            })
            &&& !(e is CupboardSize) && !(e is CupboardCell) ==> b.cupboard == a.cupboard
            &&& !(e is CabinSize) && !(e is CabinCell) ==> b.cabin == a.cabin
            &&& !(e is AddBase) && !(e is RemoveBase) ==> b.base == a.base
            &&& !(e is AddWall) && !(e is RemoveWall) ==> b.wall == a.wall
            &&& !(e is AddRun) && !(e is RemoveRun) ==> b.runs == a.runs
            &&& !(e is AddPort) && !(e is RemovePort) ==> b.ports == a.ports
            &&& !(e is Path) ==> b.sweep == a.sweep
            &&& !(e is Drop) ==> b.drop == a.drop && b.drop_end == a.drop_end
            &&& b.tab == a.tab && b.open == a.open
        }),
{
    let b = a.edited(e);
    if e is AddBase {
        assert(b.base.drop_last() =~= a.base);
    }
    if e is AddWall {
        assert(b.wall.drop_last() =~= a.wall);
    }
    if e is AddRun {
        assert(b.runs.drop_last() =~= a.runs);
    }
    if e is AddPort {
        assert(b.ports.drop_last() =~= a.ports);
    }
    match e {
        ArchEdit::CupboardSize(c, r) => {
            resized_grid_is_whole(a.cupboard, one_to_six(c), one_to_six(r), CupboardCell::Door);
        },
        ArchEdit::CabinSize(c, r) => {
            resized_grid_is_whole(a.cabin, one_to_six(c), one_to_six(r), CabinCell::Door(1));
        },
        _ => {},
    }
}

/// Setting a cell of a grid sets that one, and a cell that a grid grows by is of the given kind.
pub proof fn other_cells_stay<C>(g: GridView<C>, r: int, k: int, c: C, i: int, j: int, cols: nat, rows: nat)
    requires
        g.wf(),
        0 <= i,
        0 <= j,
    ensures
        i < g.rows.len() && j < g.cols.len() && (i != r || j != k) ==> g.cell_set(r, k, c).layout[i][j]
            == g.layout[i][j],
        i < rows && j < cols && (i >= g.rows.len() || j >= g.cols.len()) ==> g.sized(
            cols,
            rows,
            c,
        ).layout[i][j] == c,
{
}

/// A curve that is taken from the drawing is the longest path among the outlines. Where it ends where
/// it begins it is a loop, and that point counts once. Without a path, nothing is taken.
pub proof fn grabbed_curve_is_the_longest(s: AppView, o: Seq<Outline>)
    ensures
        ({
            let t = s.curve_grabbed(o);
            match longest(o, o.len() as int) {
                Some(i) => {
                    &&& 0 <= i < o.len()
                    &&& t.arch.sweep.path == SweepPath::Custom
                    &&& t.arch.sweep.closed == (o[i].points > 3 && o[i].ends_meet)
                    &&& t.arch.sweep.points == o[i].points - (if t.arch.sweep.closed {
                        1int
                    } else {
                        0
                    })
                    &&& s.arch.sweep.path == SweepPath::Custom ==> t.arch.sweep.fillet
                        == s.arch.sweep.fillet
                },
                None => t.arch == s.arch,
            }
        }),
        s.curve_grabbed(o).doc == s.doc,
        s.curve_grabbed(o).factory.data == s.factory.data,
{
    longest_is_a_place(o, o.len() as int);
}

} // verus!
