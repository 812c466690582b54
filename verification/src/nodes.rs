//! The canvas on which the nodes of a material are wired, and the panel that edits one of them.
//!
//! Places are in thousandths of a pixel.
use vstd::prelude::*;

use crate::app::CadApp;
use crate::copying::{group_views, views};
use crate::factory::{FactoryView, Finish, Texture, TextureView, Xform};
use crate::grid::{clamp64, clamp_i64};
use crate::materials::{MaterialsState, MaterialsView};
use crate::text::{cat3, dec, dec_text};

verus! {

/// A node on the canvas: its upper left corner, and how many sockets it has on either side.
#[derive(Clone, Copy, Debug, PartialEq, Eq, Structural)]
pub struct CanvasNode {
    pub id: u32,
    pub x: i64,
    pub y: i64,
    pub ins: u8,
    pub outs: u8,
}

/// How high a node is: its head, a row for each socket of the longer side, at least one, and its
/// foot.
pub open spec fn node_height(n: CanvasNode) -> int {
    let rows = if n.ins >= n.outs {
        n.ins as int
    } else {
        n.outs as int
    };
    22_000 + 18_000 * (if rows < 1 {
        1
    } else {
        rows
    }) + 6_000
}

/// Whether a place lies on a node.
pub open spec fn on_node(n: CanvasNode, x: i64, y: i64) -> bool {
    n.x <= x <= n.x + 178_000 && n.y <= y <= n.y + node_height(n)
}

/// Whether a place is within nine pixels of another one.
pub open spec fn near(dx: int, dy: int) -> bool {
    -9_000 <= dx <= 9_000 && -9_000 <= dy <= 9_000 && dx * dx + dy * dy <= 81_000_000
}

/// Whether a place is on a socket of a node: the left ones are inputs, the right ones outputs.
pub open spec fn on_socket(n: CanvasNode, output: bool, k: int, x: i64, y: i64) -> bool {
    let sx = if output {
        n.x + 178_000
    } else {
        n.x as int
    };
    near(x - sx, y - (n.y + 22_000 + 18_000 * k + 9_000))
}

/// The first socket of a side of a node, from `k` on, that a place is on.
pub open spec fn socket_from(n: CanvasNode, output: bool, k: int, x: i64, y: i64) -> Option<int>
    decreases 256 - k,
{
    let count = if output {
        n.outs as int
    } else {
        n.ins as int
    };
    if k >= count || k > 255 {
        None
    } else if on_socket(n, output, k, x, y) {
        Some(k)
    } else {
        socket_from(n, output, k + 1, x, y)
    }
}

/// The first socket, among nodes in their order, that a place is on.
pub open spec fn hit_socket(nodes: Seq<CanvasNode>, output: bool, x: i64, y: i64) -> Option<
    (u32, u8),
>
    decreases nodes.len(),
{
    if nodes.len() == 0 {
        None
    } else {
        match socket_from(nodes[0], output, 0, x, y) {
            Some(k) => Some((nodes[0].id, k as u8)),
            None => hit_socket(nodes.drop_first(), output, x, y),
        }
    }
}

/// The node on top that a place is on: the last one in their order.
pub open spec fn hit_node(nodes: Seq<CanvasNode>, x: i64, y: i64) -> Option<u32>
    decreases nodes.len(),
{
    if nodes.len() == 0 {
        None
    } else if on_node(nodes.last(), x, y) {
        Some(nodes.last().id)
    } else {
        hit_node(nodes.drop_last(), x, y)
    }
}

fn touches_socket(n: CanvasNode, output: bool, k: u8, x: i64, y: i64) -> (r: bool)
    ensures
        r == on_socket(n, output, k as int, x, y),
{
    let sx: i128 = if output {
        n.x as i128 + 178_000
    } else {
        n.x as i128
    };
    let dx: i128 = x as i128 - sx;
    let dy: i128 = y as i128 - (n.y as i128 + 22_000 + 18_000 * (k as i128) + 9_000);
    if dx < -9_000 || dx > 9_000 || dy < -9_000 || dy > 9_000 {
        return false;
    }
    assert(0 <= dx * dx <= 81_000_000 && 0 <= dy * dy <= 81_000_000) by (nonlinear_arith)
        requires
            -9_000 <= dx <= 9_000,
            -9_000 <= dy <= 9_000,
    ;
    dx * dx + dy * dy <= 81_000_000
}

fn first_socket(n: CanvasNode, output: bool, x: i64, y: i64) -> (r: Option<u8>)
    ensures
        match r {
            Some(k) => socket_from(n, output, 0, x, y) == Some(k as int),
            None => socket_from(n, output, 0, x, y) is None,
        },
{
    let count: u8 = if output {
        n.outs
    } else {
        n.ins
    };
    let mut k: u8 = 0;
    while k < count
        invariant
            k <= count,
            count == if output {
                n.outs
            } else {
                n.ins
            },
            socket_from(n, output, 0, x, y) == socket_from(n, output, k as int, x, y),
        decreases count - k,
    {
        if touches_socket(n, output, k, x, y) {
            return Some(k);
        }
        k += 1;
    }
    None
}

/// The first socket, among nodes in their order, that a place is on.
pub fn find_socket(nodes: &Vec<CanvasNode>, output: bool, x: i64, y: i64) -> (r: Option<(u32, u8)>)
    ensures
        r == hit_socket(nodes@, output, x, y),
{
    let ghost len = nodes@.len() as int;
    let mut i: usize = 0;
    assert(nodes@.subrange(0, len) =~= nodes@);
    while i < nodes.len()
        invariant
            i <= nodes.len(),
            len == nodes@.len(),
            hit_socket(nodes@, output, x, y) == hit_socket(
                nodes@.subrange(i as int, len),
                output,
                x,
                y,
            ),
        decreases nodes.len() - i,
    {
        let ghost here = nodes@.subrange(i as int, len);
        assert(here[0] == nodes@[i as int]);
        assert(here.drop_first() =~= nodes@.subrange(i + 1, len));
        if let Some(k) = first_socket(nodes[i], output, x, y) {
            return Some((nodes[i].id, k));
        }
        i += 1;
    }
    None
}

fn lies_on(n: CanvasNode, x: i64, y: i64) -> (r: bool)
    ensures
        r == on_node(n, x, y),
{
    let rows: i128 = if n.ins >= n.outs {
        n.ins as i128
    } else {
        n.outs as i128
    };
    let rows: i128 = if rows < 1 {
        1
    } else {
        rows
    };
    let h: i128 = 22_000 + 18_000 * rows + 6_000;
    n.x <= x && x as i128 <= n.x as i128 + 178_000 && n.y <= y && y as i128 <= n.y as i128 + h
}

/// The node on top that a place is on.
pub fn find_node(nodes: &Vec<CanvasNode>, x: i64, y: i64) -> (r: Option<u32>)
    ensures
        r == hit_node(nodes@, x, y),
{
    let mut i: usize = nodes.len();
    assert(nodes@.subrange(0, i as int) =~= nodes@);
    while i > 0
        invariant
            i <= nodes.len(),
            hit_node(nodes@, x, y) == hit_node(nodes@.subrange(0, i as int), x, y),
        decreases i,
    {
        let ghost here = nodes@.subrange(0, i as int);
        assert(here.last() == nodes@[i - 1]);
        assert(here.drop_last() =~= nodes@.subrange(0, i - 1));
        if lies_on(nodes[i - 1], x, y) {
            return Some(nodes[i - 1].id);
        }
        i -= 1;
    }
    None
}

/// What the canvas asks of the node graph.
#[derive(Clone, Copy, Debug, PartialEq, Eq, Structural)]
pub enum GraphEdit {
    Keep,
    Move(u32, i64, i64),
    Connect(u32, u8, u32, u8),
    Disconnect(u32, u8),
}

impl MaterialsView {
    /// After a drag has begun at a place: on an output it draws a wire, on a node it moves the
    /// node, and elsewhere it moves the canvas.
    pub open spec fn drag_begun(self, nodes: Seq<CanvasNode>, x: i64, y: i64) -> MaterialsView {
        match hit_socket(nodes, true, x, y) {
            Some(out) => MaterialsView { drag_from: Some(out), ..self },
            None => match hit_node(nodes, x, y) {
                Some(id) => MaterialsView { drag_node: Some(id), sel_node: Some(id), ..self },
                None => self,
            },
        }
    }

    /// After a drag has gone on.
    pub open spec fn dragged(self, dx: i64, dy: i64) -> MaterialsView {
        if self.drag_from is None && self.drag_node is None {
            MaterialsView {
                pan_x: clamp64(self.pan_x + dx),
                pan_y: clamp64(self.pan_y + dy),
                ..self
            }
        } else {
            self
        }
    }

    /// What a drag that goes on asks of the graph.
    pub open spec fn drag_edit(self, dx: i64, dy: i64) -> GraphEdit {
        match (self.drag_from, self.drag_node) {
            (None, Some(id)) => GraphEdit::Move(id, dx, dy),
            _ => GraphEdit::Keep,
        }
    }

    /// After a drag has ended.
    pub open spec fn drag_ended(self) -> MaterialsView {
        MaterialsView { drag_from: None, drag_node: None, ..self }
    }

    /// What a drag that ends at a place asks of the graph: a wire that ends on an input connects.
    pub open spec fn drop_edit(self, nodes: Seq<CanvasNode>, x: i64, y: i64) -> GraphEdit {
        match (self.drag_from, hit_socket(nodes, false, x, y)) {
            (Some((from, out)), Some((to, into))) => GraphEdit::Connect(from, out, to, into),
            _ => GraphEdit::Keep,
        }
    }

    /// After a click at a place: on a node, and off its inputs, it picks the node.
    pub open spec fn clicked(self, nodes: Seq<CanvasNode>, x: i64, y: i64) -> MaterialsView {
        match (hit_socket(nodes, false, x, y), hit_node(nodes, x, y)) {
            (None, Some(id)) => MaterialsView { sel_node: Some(id), ..self },
            _ => self,
        }
    }

    /// What a click at a place asks of the graph: on an input it takes the wire off.
    pub open spec fn click_edit(self, nodes: Seq<CanvasNode>, x: i64, y: i64) -> GraphEdit {
        match hit_socket(nodes, false, x, y) {
            Some((to, into)) => GraphEdit::Disconnect(to, into),
            None => GraphEdit::Keep,
        }
    }
}

impl MaterialsState {
    fn begin_drag(&mut self, nodes: &Vec<CanvasNode>, x: i64, y: i64)
        ensures
            final(self)@ == old(self)@.drag_begun(nodes@, x, y),
    {
        match find_socket(nodes, true, x, y) {
            Some(out) => {
                self.drag_from = Some(out);
            },
            None => {
                if let Some(id) = find_node(nodes, x, y) {
                    self.drag_node = Some(id);
                    self.sel_node = Some(id);
                }
            },
        }
    }

    fn drag(&mut self, dx: i64, dy: i64) -> (r: GraphEdit)
        ensures
            final(self)@ == old(self)@.dragged(dx, dy),
            r == old(self)@.drag_edit(dx, dy),
    {
        if self.drag_from.is_some() {
            return GraphEdit::Keep;
        }
        match self.drag_node {
            Some(id) => GraphEdit::Move(id, dx, dy),
            None => {
                self.pan_x = clamp_i64(self.pan_x as i128 + dx as i128);
                self.pan_y = clamp_i64(self.pan_y as i128 + dy as i128);
                GraphEdit::Keep
            },
        }
    }

    fn end_drag(&mut self, nodes: &Vec<CanvasNode>, x: i64, y: i64) -> (r: GraphEdit)
        ensures
            final(self)@ == old(self)@.drag_ended(),
            r == old(self)@.drop_edit(nodes@, x, y),
    {
        let from = self.drag_from;
        self.drag_from = None;
        self.drag_node = None;
        match from {
            Some((id, out)) => match find_socket(nodes, false, x, y) {
                Some((to, into)) => GraphEdit::Connect(id, out, to, into),
                None => GraphEdit::Keep,
            },
            None => GraphEdit::Keep,
        }
    }

    fn click(&mut self, nodes: &Vec<CanvasNode>, x: i64, y: i64) -> (r: GraphEdit)
        ensures
            final(self)@ == old(self)@.clicked(nodes@, x, y),
            r == old(self)@.click_edit(nodes@, x, y),
    {
        match find_socket(nodes, false, x, y) {
            Some((to, into)) => GraphEdit::Disconnect(to, into),
            None => {
                if let Some(id) = find_node(nodes, x, y) {
                    self.sel_node = Some(id);
                }
                GraphEdit::Keep
            },
        }
    }
}

/// What happened on the canvas.
#[derive(Clone, Copy, Debug, PartialEq, Eq, Structural)]
pub enum CanvasEvent {
    DragStarted(i64, i64),
    Dragged(i64, i64),
    DragStopped(i64, i64),
    Clicked(i64, i64),
    ResetView,
    Added(u32),
}

impl MaterialsView {
    /// Whether there is a canvas: a material is selected, and it has a graph.
    pub open spec fn has_canvas(self) -> bool {
        self.sel is Some && self.graphs.contains(self.sel->0)
    }

    /// After something happened on the canvas. Where there is none, nothing happens.
    pub open spec fn canvas_after(self, nodes: Seq<CanvasNode>, e: CanvasEvent) -> MaterialsView {
        if !self.has_canvas() {
            self
        } else {
            match e {
                CanvasEvent::DragStarted(x, y) => self.drag_begun(nodes, x, y),
                CanvasEvent::Dragged(dx, dy) => self.dragged(dx, dy),
                CanvasEvent::DragStopped(_, _) => self.drag_ended(),
                CanvasEvent::Clicked(x, y) => self.clicked(nodes, x, y),
                CanvasEvent::ResetView => MaterialsView { pan_x: 0, pan_y: 0, ..self },
                CanvasEvent::Added(id) => MaterialsView { sel_node: Some(id), ..self },
            }
        }
    }

    /// What something that happened on the canvas asks of the graph.
    pub open spec fn canvas_edit(self, nodes: Seq<CanvasNode>, e: CanvasEvent) -> GraphEdit {
        if !self.has_canvas() {
            GraphEdit::Keep
        } else {
            match e {
                CanvasEvent::Dragged(dx, dy) => self.drag_edit(dx, dy),
                CanvasEvent::DragStopped(x, y) => self.drop_edit(nodes, x, y),
                CanvasEvent::Clicked(x, y) => self.click_edit(nodes, x, y),
                _ => GraphEdit::Keep,
            }
        }
    }
}

impl MaterialsState {
    fn canvas(&mut self, nodes: &Vec<CanvasNode>, e: CanvasEvent) -> (r: GraphEdit)
        ensures
            final(self)@ == old(self)@.canvas_after(nodes@, e),
            r == old(self)@.canvas_edit(nodes@, e),
    {
        let shown = match self.sel {
            Some(i) => self.holds_graph(i),
            None => false,
        };
        if !shown {
            return GraphEdit::Keep;
        }
        match e {
            CanvasEvent::DragStarted(x, y) => {
                self.begin_drag(nodes, x, y);
                GraphEdit::Keep
            },
            CanvasEvent::Dragged(dx, dy) => self.drag(dx, dy),
            CanvasEvent::DragStopped(x, y) => self.end_drag(nodes, x, y),
            CanvasEvent::Clicked(x, y) => self.click(nodes, x, y),
            CanvasEvent::ResetView => {
                self.pan_x = 0;
                self.pan_y = 0;
                GraphEdit::Keep
            },
            CanvasEvent::Added(id) => {
                self.sel_node = Some(id);
                GraphEdit::Keep
            },
        }
    }
}

impl CadApp {
    /// Takes what happened on the canvas, and returns what it asks of the node graph. Places are
    /// those of the canvas, as `nodes` are.
    pub fn mf_canvas(&mut self, nodes: &Vec<CanvasNode>, e: CanvasEvent) -> (r: GraphEdit)
        ensures
            final(self)@ == old(self)@.with_materials(old(self)@.materials.canvas_after(nodes@, e)),
            r == old(self)@.materials.canvas_edit(nodes@, e),
    {
        self.materials.canvas(nodes, e)
    }

    /// Where a new node goes: near the upper left of what is in view, each below the one before,
    /// six in turn.
    pub fn new_node_place(&self, count: usize) -> (r: (i64, i64))
        ensures
            r.0 == clamp64(40_000 - self@.materials.pan_x),
            r.1 == clamp64(40_000 - self@.materials.pan_y + 30_000 * (count % 6)),
    {
        let row: i128 = (count % 6) as i128;
        (
            clamp_i64(40_000 - self.materials.pan_x as i128),
            clamp_i64(40_000 - self.materials.pan_y as i128 + 30_000 * row),
        )
    }
}

/// A wire that is dropped on nothing leaves the graph alone, and no drag outlives its end.
pub proof fn drag_leaves_nothing_behind(m: MaterialsView, nodes: Seq<CanvasNode>, x: i64, y: i64)
    requires
        m.has_canvas(),
    ensures
        m.canvas_after(nodes, CanvasEvent::DragStopped(x, y)).drag_from is None,
        m.canvas_after(nodes, CanvasEvent::DragStopped(x, y)).drag_node is None,
        m.drag_from is None ==> m.canvas_edit(nodes, CanvasEvent::DragStopped(x, y))
            == GraphEdit::Keep,
        hit_socket(nodes, false, x, y) is None ==> m.canvas_edit(
            nodes,
            CanvasEvent::DragStopped(x, y),
        ) == GraphEdit::Keep,
{
}

/// A drag does one thing: while a wire is drawn, neither a node nor the canvas moves.
pub proof fn wire_moves_nothing(m: MaterialsView, nodes: Seq<CanvasNode>, dx: i64, dy: i64)
    requires
        m.drag_from is Some,
    ensures
        m.canvas_after(nodes, CanvasEvent::Dragged(dx, dy)) == m,
        m.canvas_edit(nodes, CanvasEvent::Dragged(dx, dy)) == GraphEdit::Keep,
{
}

impl MaterialsView {
    /// The node that the panel edits: the picked one, or the main one of the graph.
    pub open spec fn edited_node(self, main: Option<u32>) -> Option<u32> {
        match self.sel_node {
            Some(n) => Some(n),
            None => main,
        }
    }
}

impl CadApp {
    /// The node that the panel edits, which it also picks: the picked one, or the main one of the
    /// graph.
    pub fn mf_inspector(&mut self, main: Option<u32>) -> (r: Option<u32>)
        ensures
            r == if old(self)@.materials.sel is Some {
                old(self)@.materials.edited_node(main)
            } else {
                None
            },
            final(self)@ == if old(self)@.materials.sel is Some {
                old(self)@.with_materials(
                    MaterialsView { sel_node: r, ..old(self)@.materials },
                )
            } else {
                old(self)@
            },
    {
        if self.materials.sel.is_none() {
            return None;
        }
        if self.materials.sel_node.is_none() {
            self.materials.sel_node = main;
        }
        self.materials.sel_node
    }

    /// Drops the picked node, after it has been deleted.
    pub fn node_deleted(&mut self)
        ensures
            final(self)@ == old(self)@.with_materials(
                MaterialsView { sel_node: None, ..old(self)@.materials },
            ),
    {
        self.materials.sel_node = None;
    }
}

/// Whether a node can be deleted: the output and the main node cannot.
pub fn node_removable(node: u32, main: Option<u32>, is_output: bool) -> (r: bool)
    ensures
        r == (!is_output && main != Some(node)),
{
    match main {
        Some(m) => !is_output && m != node,
        None => !is_output,
    }
}

impl FactoryView {
    /// What is shown of a map that a material is bound to.
    pub open spec fn map_label(self, map: Option<usize>) -> Seq<char> {
        match map {
            Some(k) => if k < self.textures.len() {
                dec(k as nat) + ": "@ + self.textures[k as int].name
            } else {
                "(missing)"@
            },
            None => "(none)"@,
        }
    }
}

impl CadApp {
    /// What is shown of a map that a material is bound to.
    pub fn map_text(&self, map: Option<usize>) -> (r: String)
        ensures
            r@ == self@.factory.map_label(map),
    {
        match map {
            Some(k) => {
                if k < self.factory.textures.len() {
                    assert(self@.factory.textures[k as int]
                        == self.factory.textures@[k as int]@);
                    cat3(
                        dec_text(k as u64).as_str(),
                        ": ",
                        self.factory.textures[k].name.as_str(),
                    )
                } else {
                    String::from_str("(missing)")
                }
            },
            None => String::from_str("(none)"),
        }
    }
}

/// An edit of how an image lies on a surface.
#[derive(Clone, Copy, Debug, PartialEq, Eq, Structural)]
pub enum Placement {
    WorldSpace(bool),
    TilesPerMetre(u32),
    Tiling(i64),
    MoveU(i64),
    MoveV(i64),
    Rotate(i64),
    QuarterTurn,
}

/// A number kept within bounds.
pub open spec fn within(v: int, lo: int, hi: int) -> int {
    if v < lo {
        lo
    } else if v > hi {
        hi
    } else {
        v
    }
}

/// A material after an edit of its placement. A quarter turn ends between nothing and a full turn.
pub open spec fn placed(t: TextureView, e: Placement) -> TextureView {
    match e {
        Placement::WorldSpace(on) => TextureView {
            finish: Finish { triplanar: on, ..t.finish },
            ..t
        },
        Placement::TilesPerMetre(v) => TextureView {
            finish: Finish { tiles_per_m: within(v as int, 20_000, 64_000_000) as u32, ..t.finish },
            ..t
        },
        Placement::Tiling(v) => TextureView {
            xform: Xform { scale: within(v as int, 50_000, 200_000_000) as i64, ..t.xform },
            ..t
        },
        Placement::MoveU(v) => TextureView { xform: Xform { offset_u: v, ..t.xform }, ..t },
        Placement::MoveV(v) => TextureView { xform: Xform { offset_v: v, ..t.xform }, ..t },
        Placement::Rotate(v) => TextureView {
            xform: Xform { rot: within(v as int, -360_000_000, 360_000_000) as i64, ..t.xform },
            ..t
        },
        Placement::QuarterTurn => TextureView {
            xform: Xform { rot: ((t.xform.rot + 90_000_000) % 360_000_000) as i64, ..t.xform },
            ..t
        },
    }
}

fn keep_within(v: i64, lo: i64, hi: i64) -> (r: i64)
    ensures
        r == within(v as int, lo as int, hi as int),
{
    if v < lo {
        lo
    } else if v > hi {
        hi
    } else {
        v
    }
}

fn quarter_on(rot: i64) -> (r: i64)
    ensures
        r == (rot + 90_000_000) % 360_000_000,
{
    let x: i128 = rot as i128 + 90_000_000;
    if x >= 0 {
        (x % 360_000_000) as i64
    } else {
        let m: i128 = -x;
        let rest: i128 = m % 360_000_000;
        if rest == 0 {
            0
        } else {
            (360_000_000 - rest) as i64
        }
    }
}

fn place(t: &mut Texture, e: Placement)
    ensures
        final(t)@ == placed(old(t)@, e),
{
    match e {
        Placement::WorldSpace(on) => {
            t.finish.triplanar = on;
        },
        Placement::TilesPerMetre(v) => {
            t.finish.tiles_per_m = keep_within(v as i64, 20_000, 64_000_000) as u32;
        },
        Placement::Tiling(v) => {
            t.xform.scale = keep_within(v, 50_000, 200_000_000);
        },
        Placement::MoveU(v) => {
            t.xform.offset_u = v;
        },
        Placement::MoveV(v) => {
            t.xform.offset_v = v;
        },
        Placement::Rotate(v) => {
            t.xform.rot = keep_within(v, -360_000_000, 360_000_000);
        },
        Placement::QuarterTurn => {
            t.xform.rot = quarter_on(t.xform.rot);
        },
    }
}

impl CadApp {
    /// Edits how the image of a material lies on surfaces.
    pub fn mf_edit_placement(&mut self, i: usize, e: Placement)
        ensures
            final(self)@ == if i < old(self)@.factory.textures.len() {
                old(self)@.with_factory(
                    FactoryView {
                        textures: old(self)@.factory.textures.update(
                            i as int,
                            placed(old(self)@.factory.textures[i as int], e),
                        ),
                        ..old(self)@.factory
                    },
                )
            } else {
                old(self)@
            },
    {
        broadcast use group_views;

        if i < self.factory.textures.len() {
            let ghost before = self.factory.textures@;
            place(&mut self.factory.textures[i], e);
            assert(self.factory.textures@ =~= before.update(
                i as int,
                self.factory.textures@[i as int],
            ));
            assert(views(before)[i as int] == before[i as int]@);
        }
    }
}

/// Four quarter turns bring an image back, once it has been turned at all.
pub proof fn four_quarters_are_a_turn(t: TextureView)
    requires
        0 <= t.xform.rot < 360_000_000,
    ensures
        placed(
            placed(
                placed(placed(t, Placement::QuarterTurn), Placement::QuarterTurn),
                Placement::QuarterTurn,
            ),
            Placement::QuarterTurn,
        ) == t,
{
}

/// The node under the pointer is the topmost one there, which is the last that was drawn.
pub proof fn hit_node_is_the_topmost(nodes: Seq<CanvasNode>, x: i64, y: i64)
    ensures
        match hit_node(nodes, x, y) {
            Some(id) => exists|i: int|
                0 <= i < nodes.len() && (#[trigger] nodes[i]).id == id && on_node(nodes[i], x, y)
                    && forall|j: int| i < j < nodes.len() ==> !on_node(#[trigger] nodes[j], x, y),
            None => forall|j: int| 0 <= j < nodes.len() ==> !on_node(#[trigger] nodes[j], x, y),
        },
    decreases nodes.len(),
{
    if nodes.len() > 0 {
        let front = nodes.drop_last();
        let n = nodes.len() - 1;
        if on_node(nodes[n], x, y) {
            assert(nodes[n].id == nodes.last().id);
        } else {
            hit_node_is_the_topmost(front, x, y);
            assert(forall|j: int| 0 <= j < n ==> front[j] == #[trigger] nodes[j]);
            match hit_node(front, x, y) {
                Some(id) => {
                    let i = choose|i: int|
                        0 <= i < front.len() && (#[trigger] front[i]).id == id && on_node(
                            front[i],
                            x,
                            y,
                        ) && forall|j: int|
                            i < j < front.len() ==> !on_node(#[trigger] front[j], x, y);
                    assert(nodes[i].id == id);
                    assert forall|j: int| i < j < nodes.len() implies !on_node(
                        #[trigger] nodes[j],
                        x,
                        y,
                    ) by {
                        if j < n {
                            assert(!on_node(front[j], x, y));
                        }
                    }
                },
                None => {
                    assert forall|j: int| 0 <= j < nodes.len() implies !on_node(
                        #[trigger] nodes[j],
                        x,
                        y,
                    ) by {
                        if j < n {
                            assert(!on_node(front[j], x, y));
                        }
                    }
                },
            }
        }
    }
}

/// Whether the pointer is within the reach of a socket of a node: an output on its right edge, an
/// input on its left one.
pub open spec fn reaches_socket(n: CanvasNode, output: bool, k: int, x: i64, y: i64) -> bool {
    let count = if output {
        n.outs as int
    } else {
        n.ins as int
    };
    0 <= k < count && on_socket(n, output, k, x, y)
}

proof fn socket_from_is_first(n: CanvasNode, output: bool, k: int, x: i64, y: i64)
    requires
        0 <= k,
    ensures
        match socket_from(n, output, k, x, y) {
            Some(m) => k <= m <= 255 && reaches_socket(n, output, m, x, y),
            None => forall|m: int| k <= m ==> !#[trigger] reaches_socket(n, output, m, x, y),
        },
    decreases 256 - k,
{
    let count = if output {
        n.outs as int
    } else {
        n.ins as int
    };
    if k < count && k <= 255 && !on_socket(n, output, k, x, y) {
        socket_from_is_first(n, output, k + 1, x, y);
        if socket_from(n, output, k + 1, x, y) is None {
            assert forall|m: int| k <= m implies !#[trigger] reaches_socket(n, output, m, x, y) by {
                if m > k {
                    assert(!reaches_socket(n, output, m, x, y));
                }
            }
        }
    }
}

/// A socket under the pointer is one that a node has and that the pointer is within the reach of;
/// there is none only where the pointer reaches no socket.
pub proof fn hit_socket_is_in_reach(nodes: Seq<CanvasNode>, output: bool, x: i64, y: i64)
    ensures
        match hit_socket(nodes, output, x, y) {
            Some((id, k)) => exists|i: int|
                0 <= i < nodes.len() && (#[trigger] nodes[i]).id == id && reaches_socket(
                    nodes[i],
                    output,
                    k as int,
                    x,
                    y,
                ),
            None => forall|i: int, k: int|
                0 <= i < nodes.len() ==> !#[trigger] reaches_socket(nodes[i], output, k, x, y),
        },
    decreases nodes.len(),
{
    if nodes.len() > 0 {
        socket_from_is_first(nodes[0], output, 0, x, y);
        let rest = nodes.drop_first();
        hit_socket_is_in_reach(rest, output, x, y);
        match socket_from(nodes[0], output, 0, x, y) {
            Some(k) => {
                assert(reaches_socket(nodes[0], output, k as u8 as int, x, y));
            },
            None => {
                match hit_socket(rest, output, x, y) {
                    Some((id, k)) => {
                        let i = choose|i: int|
                            0 <= i < rest.len() && (#[trigger] rest[i]).id == id && reaches_socket(
                                rest[i],
                                output,
                                k as int,
                                x,
                                y,
                            );
                        assert(nodes[i + 1] == rest[i]);
                    },
                    None => {
                        assert forall|i: int, k: int| 0 <= i < nodes.len() implies !
                        #[trigger] reaches_socket(nodes[i], output, k, x, y) by {
                            if i > 0 {
                                assert(nodes[i] == rest[i - 1]);
                                assert(!reaches_socket(rest[i - 1], output, k, x, y));
                            } else if k >= 0 {
                                assert(!reaches_socket(nodes[0], output, k, x, y));
                            }
                        }
                    },
                }
            },
        }
    }
}

/// A socket is in reach up to nine points from its middle, which lies on the edge of its node, in a
/// row of its own: the middles of two sockets of one side are at least eighteen points apart.
pub proof fn sockets_lie_on_the_edge(n: CanvasNode, output: bool, k: int, x: i64, y: i64)
    requires
        0 <= k < (if output {
            n.outs as int
        } else {
            n.ins as int
        }),
        x == (if output {
            n.x + 178_000
        } else {
            n.x as int
        }),
    ensures
        y == n.y + 31_000 + 18_000 * k ==> on_socket(n, output, k, x, y) && on_node(n, x, y),
        y - (n.y + 31_000 + 18_000 * k) > 9_000 ==> !on_socket(n, output, k, x, y),
        (n.y + 31_000 + 18_000 * k) - y > 9_000 ==> !on_socket(n, output, k, x, y),
        on_socket(n, output, k, x, y) ==> {
            let d = y - (n.y + 31_000 + 18_000 * k);
            -9_000 <= d <= 9_000
        },
{
}

/// A drag that starts on an output draws a wire, and dropped on an input it connects the two. One
/// that starts on a node elsewhere moves that node along, and one beside all nodes moves the canvas.
pub proof fn drags_do_what_they_start_on(
    m: MaterialsView,
    nodes: Seq<CanvasNode>,
    x: i64,
    y: i64,
    to_x: i64,
    to_y: i64,
)
    requires
        m.has_canvas(),
        m.drag_from is None,
        m.drag_node is None,
        i64::MIN <= m.pan_x + to_x <= i64::MAX,
        i64::MIN <= m.pan_y + to_y <= i64::MAX,
    ensures
        ({
            let a = m.canvas_after(nodes, CanvasEvent::DragStarted(x, y));
            let moved = a.canvas_edit(nodes, CanvasEvent::Dragged(to_x, to_y));
            let dropped = a.canvas_edit(nodes, CanvasEvent::DragStopped(to_x, to_y));
            let out = hit_socket(nodes, true, x, y);
            let into = hit_socket(nodes, false, to_x, to_y);
            &&& out is Some && into is Some ==> (dropped matches GraphEdit::Connect(f, o, t, i)
                && out == Some((f, o)) && into == Some((t, i)))
            &&& out is Some ==> moved == GraphEdit::Keep
            &&& out is None && hit_node(nodes, x, y) is Some ==> {
                let id = hit_node(nodes, x, y)->0;
                &&& a.sel_node == Some(id)
                &&& moved == GraphEdit::Move(id, to_x, to_y)
                &&& dropped == GraphEdit::Keep
            }
            &&& out is None && hit_node(nodes, x, y) is None ==> {
                let b = a.canvas_after(nodes, CanvasEvent::Dragged(to_x, to_y));
                &&& moved == GraphEdit::Keep
                &&& b.pan_x == m.pan_x + to_x && b.pan_y == m.pan_y + to_y
            }
        }),
{
}

/// A click on an input takes its wire off, a click on a node elsewhere picks the node, and one
/// beside all nodes does nothing. A node that is added is picked, and the view can be put back.
pub proof fn clicks_do_what_they_hit(m: MaterialsView, nodes: Seq<CanvasNode>, x: i64, y: i64, id: u32)
    requires
        m.has_canvas(),
    ensures
        ({
            let e = m.canvas_edit(nodes, CanvasEvent::Clicked(x, y));
            let a = m.canvas_after(nodes, CanvasEvent::Clicked(x, y));
            &&& hit_socket(nodes, false, x, y) matches Some((to, into)) ==> e
                == GraphEdit::Disconnect(to, into) && a == m
            &&& hit_socket(nodes, false, x, y) is None ==> e == GraphEdit::Keep && a.sel_node == (
            if hit_node(nodes, x, y) is Some {
                hit_node(nodes, x, y)
            } else {
                m.sel_node
            })
        }),
        m.canvas_after(nodes, CanvasEvent::Added(id)).sel_node == Some(id),
        m.canvas_after(nodes, CanvasEvent::ResetView).pan_x == 0,
        m.canvas_after(nodes, CanvasEvent::ResetView).pan_y == 0,
{
}

/// What is set of an image's placement is what it then has, within its bounds, and nothing else of
/// the image changes.
pub proof fn placement_reads_back(t: TextureView, e: Placement)
    ensures
        ({
            let r = placed(t, e);
            &&& r.name == t.name && r.w == t.w && r.h == t.h && r.rgba == t.rgba
            &&& r.finish.avg == t.finish.avg && r.finish.proc == t.finish.proc && r.xform.opacity
                == t.xform.opacity
            &&& e matches Placement::WorldSpace(on) ==> r.finish.triplanar == on && r.xform == t.xform
            &&& e matches Placement::TilesPerMetre(v) ==> {
                &&& 20_000 <= r.finish.tiles_per_m <= 64_000_000
                &&& 20_000 <= v <= 64_000_000 ==> r.finish.tiles_per_m == v
                &&& v < 20_000 ==> r.finish.tiles_per_m == 20_000
                &&& r.xform == t.xform && r.finish.triplanar == t.finish.triplanar
            }
            &&& e matches Placement::Tiling(v) ==> {
                &&& 50_000 <= r.xform.scale <= 200_000_000
                &&& 50_000 <= v <= 200_000_000 ==> r.xform.scale == v
                &&& v < 50_000 ==> r.xform.scale == 50_000
                &&& r.xform.rot == t.xform.rot && r.xform.offset_u == t.xform.offset_u
                    && r.xform.offset_v == t.xform.offset_v && r.finish == t.finish
            }
            &&& e matches Placement::MoveU(v) ==> r.xform.offset_u == v && r.xform.offset_v
                == t.xform.offset_v && r.xform.scale == t.xform.scale && r.xform.rot == t.xform.rot
                && r.finish == t.finish
            &&& e matches Placement::MoveV(v) ==> r.xform.offset_v == v && r.xform.offset_u
                == t.xform.offset_u && r.xform.scale == t.xform.scale && r.xform.rot == t.xform.rot
                && r.finish == t.finish
            &&& e matches Placement::Rotate(v) ==> {
                &&& -360_000_000 <= r.xform.rot <= 360_000_000
                &&& -360_000_000 <= v <= 360_000_000 ==> r.xform.rot == v
                &&& v < -360_000_000 ==> r.xform.rot == -360_000_000
                &&& r.xform.scale == t.xform.scale && r.xform.offset_u == t.xform.offset_u
                    && r.xform.offset_v == t.xform.offset_v && r.finish == t.finish
            }
            &&& e is QuarterTurn ==> 0 <= r.xform.rot < 360_000_000 && (0 <= t.xform.rot
                < 270_000_000 ==> r.xform.rot == t.xform.rot + 90_000_000) && r.xform.scale
                == t.xform.scale && r.finish == t.finish
        }),
{
}

/// The panel edits the node that is picked, and the main one while none is.
pub proof fn picked_node_is_edited(m: MaterialsView, main: Option<u32>)
    ensures
        m.sel_node is Some ==> m.edited_node(main) == m.sel_node,
        m.sel_node is None ==> m.edited_node(main) == main,
{
}

} // verus!
