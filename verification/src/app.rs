//! The state that the windows share.
use vstd::prelude::*;

use crate::arch::{ArchState, ArchView};
use crate::clipboard::{ClipView, Clipboard};
use crate::commands::{CmdView, CommandState};
use crate::copying::{group_views, views};
use crate::dialog::{DialogState, DialogView};
use crate::doc::{Camera, DocView, Document, Pt};
use crate::factory::{FactoryState, FactoryView};
use crate::files::{FileState, FileView};
use crate::light::{LightState, LightView};
use crate::project::{ProjectState, ProjectStateView};
use crate::materials::{MaterialsState, MaterialsView};
use crate::picker::{PropsState, PropsView};
use crate::recorder::{Recorder, RecorderView};
use crate::renders::{RenderState, RenderView};
use crate::report::{ReportState, ReportView};
use crate::undo::{UndoState, UndoView};

verus! {

/// The drawing area: its camera, the camera that model space waits with while a layout is shown,
/// the marks that say what has to be derived again, and whether the 3D view is the active one.
pub struct Canvas {
    pub camera: Camera,
    pub saved_model_scale: Option<u32>,
    pub saved_model_offset: Option<(u32, u32)>,
    pub intersections: Vec<Pt>,
    pub index_dirty: bool,
    pub view_dirty: bool,
    pub fit_due: bool,
    pub three_d: bool,
}

/// The model of a [`Canvas`].
pub struct CanvasView {
    pub camera: Camera,
    pub saved_model_scale: Option<u32>,
    pub saved_model_offset: Option<(u32, u32)>,
    pub intersections: Seq<Pt>,
    pub index_dirty: bool,
    pub view_dirty: bool,
    pub fit_due: bool,
    pub three_d: bool,
}

impl View for Canvas {
    type V = CanvasView;

    open spec fn view(&self) -> CanvasView {
        CanvasView {
            camera: self.camera,
            saved_model_scale: self.saved_model_scale,
            saved_model_offset: self.saved_model_offset,
            intersections: self.intersections@,
            index_dirty: self.index_dirty,
            view_dirty: self.view_dirty,
            fit_due: self.fit_due,
            three_d: self.three_d,
        }
    }
}

/// The drags and dialogs that hold on to places in the current document.
pub struct Gestures {
    pub grip_drag: Option<u64>,
    pub grip_drag_peers: Vec<u64>,
    pub layout_grip_drag: Option<u64>,
    pub layout_move_last: Option<Pt>,
    pub viewport_draw_state: u8,
    pub viewport_draw_p1: Option<Pt>,
    pub viewport_draw_p2: Option<Pt>,
    pub viewport_draw_li: Option<usize>,
    pub viewport_scale_dialog_open: bool,
    pub vp_edit_dialog: Option<usize>,
    pub vp_edit_init_for: Option<usize>,
    pub layout_selection: Vec<usize>,
}

/// The model of [`Gestures`].
pub struct GesturesView {
    pub grip_drag: Option<u64>,
    pub grip_drag_peers: Seq<u64>,
    pub layout_grip_drag: Option<u64>,
    pub layout_move_last: Option<Pt>,
    pub viewport_draw_state: u8,
    pub viewport_draw_p1: Option<Pt>,
    pub viewport_draw_p2: Option<Pt>,
    pub viewport_draw_li: Option<usize>,
    pub viewport_scale_dialog_open: bool,
    pub vp_edit_dialog: Option<usize>,
    pub vp_edit_init_for: Option<usize>,
    pub layout_selection: Seq<usize>,
}

impl View for Gestures {
    type V = GesturesView;

    open spec fn view(&self) -> GesturesView {
        GesturesView {
            grip_drag: self.grip_drag,
            grip_drag_peers: self.grip_drag_peers@,
            layout_grip_drag: self.layout_grip_drag,
            layout_move_last: self.layout_move_last,
            viewport_draw_state: self.viewport_draw_state,
            viewport_draw_p1: self.viewport_draw_p1,
            viewport_draw_p2: self.viewport_draw_p2,
            viewport_draw_li: self.viewport_draw_li,
            viewport_scale_dialog_open: self.viewport_scale_dialog_open,
            vp_edit_dialog: self.vp_edit_dialog,
            vp_edit_init_for: self.vp_edit_init_for,
            layout_selection: self.layout_selection@,
        }
    }
}

impl GesturesView {
    /// No gesture in flight.
    pub open spec fn idle() -> GesturesView {
        GesturesView {
            grip_drag: None,
            grip_drag_peers: Seq::empty(),
            layout_grip_drag: None,
            layout_move_last: None,
            viewport_draw_state: 0,
            viewport_draw_p1: None,
            viewport_draw_p2: None,
            viewport_draw_li: None,
            viewport_scale_dialog_open: false,
            vp_edit_dialog: None,
            vp_edit_init_for: None,
            layout_selection: Seq::empty(),
        }
    }
}

impl Gestures {
    /// No gesture in flight.
    pub fn new() -> (r: Gestures)
        ensures
            r@ == GesturesView::idle(),
    {
        Gestures {
            grip_drag: None,
            grip_drag_peers: Vec::new(),
            layout_grip_drag: None,
            layout_move_last: None,
            viewport_draw_state: 0,
            viewport_draw_p1: None,
            viewport_draw_p2: None,
            viewport_draw_li: None,
            viewport_scale_dialog_open: false,
            vp_edit_dialog: None,
            vp_edit_init_for: None,
            layout_selection: Vec::new(),
        }
    }
}

/// The application.
pub struct CadApp {
    pub history: Vec<String>,
    pub doc: Document,
    pub selection: Vec<usize>,
    pub selection_prev: Vec<usize>,
    pub selected: Option<usize>,
    pub canvas: Canvas,
    pub gestures: Gestures,
    pub undo: UndoState,
    pub light: LightState,
    pub factory: FactoryState,
    pub files: FileState,
    pub groups: Vec<Vec<u64>>,
    pub cmds: CommandState,
    pub clip: Clipboard,
    pub dialog: DialogState,
    pub project: ProjectState,
    pub recorder: Recorder,
    pub report: ReportState,
    pub props: PropsState,
    pub materials: MaterialsState,
    pub render: RenderState,
    pub arch: ArchState,
}

/// The model of a [`CadApp`].
pub struct AppView {
    pub history: Seq<Seq<char>>,
    pub doc: DocView,
    pub selection: Seq<usize>,
    pub selection_prev: Seq<usize>,
    pub selected: Option<usize>,
    pub canvas: CanvasView,
    pub gestures: GesturesView,
    pub undo: UndoView,
    pub light: LightView,
    pub factory: FactoryView,
    pub files: FileView,
    pub groups: Seq<Seq<u64>>,
    pub cmds: CmdView,
    pub clip: ClipView,
    pub dialog: DialogView,
    pub project: ProjectStateView,
    pub recorder: RecorderView,
    pub report: ReportView,
    pub props: PropsView,
    pub materials: MaterialsView,
    pub render: RenderView,
    pub arch: ArchView,
}

impl View for CadApp {
    type V = AppView;

    open spec fn view(&self) -> AppView {
        AppView {
            history: views(self.history@),
            doc: self.doc@,
            selection: self.selection@,
            selection_prev: self.selection_prev@,
            selected: self.selected,
            canvas: self.canvas@,
            gestures: self.gestures@,
            undo: self.undo@,
            light: self.light@,
            factory: self.factory@,
            files: self.files@,
            groups: views(self.groups@),
            cmds: self.cmds@,
            clip: self.clip@,
            dialog: self.dialog@,
            project: self.project@,
            recorder: self.recorder@,
            report: self.report@,
            props: self.props@,
            materials: self.materials@,
            render: self.render@,
            arch: self.arch@,
        }
    }
}

impl AppView {
    /// The state with the drawing area marked as out of date.
    pub open spec fn touched(self) -> AppView {
        AppView { canvas: CanvasView { view_dirty: true, ..self.canvas }, ..self }
    }

    /// The state with one more line in the command history.
    #[verifier::opaque]
    pub open spec fn said(self, line: Seq<char>) -> AppView {
        AppView { history: self.history.push(line), ..self }
    }
}

impl CadApp {
    /// Marks the drawing area as out of date.
    pub fn touch_view(&mut self)
        ensures
            final(self)@ == old(self)@.touched(),
    {
        self.canvas.view_dirty = true;
    }

    /// Adds a line to the command history.
    pub fn say(&mut self, line: String)
        ensures
            final(self)@ == old(self)@.said(line@),
    {
        broadcast use group_views;

        reveal(AppView::said);
        self.history.push(line);
    }
}

/// A line that is said is the last of the command history, behind all that were there, and changes
/// nothing else.
pub proof fn said_line_is_the_last(s: AppView, line: Seq<char>)
    ensures
        s.said(line).history.len() == s.history.len() + 1,
        s.said(line).history.last() == line,
        forall|i: int| 0 <= i < s.history.len() ==> s.said(line).history[i] == #[trigger] s.history[i],
        s.said(line).doc == s.doc,
        s.said(line).selection == s.selection,
        s.said(line).factory == s.factory,
        s.said(line).light == s.light,
        s.said(line).files == s.files,
        s.said(line).undo == s.undo,
        s.said(line).canvas == s.canvas,
        s.said(line).groups == s.groups,
        s.said(line).cmds == s.cmds,
        s.said(line).dialog == s.dialog,
        s.said(line).report == s.report,
{
    reveal(AppView::said);
}

} // verus!
