//! The application as it starts.
use vstd::prelude::*;

use crate::app::{AppView, CadApp, Canvas, CanvasView, Gestures, GesturesView};
use crate::arch::{ArchState, ArchView};
use crate::clipboard::{ClipView, Clipboard, PasteState};
use crate::commands::{CmdView, CommandState};
use crate::copying::group_views;
use crate::dialog::{DialogState, DialogView};
use crate::doc::{Camera, Color, DocView, Document, UnitSource, Units};
use crate::factory::{FactoryState, FactoryView};
use crate::files::{FileState, FileView};
use crate::light::{LightState, LightView};
use crate::materials::{MaterialsState, MaterialsView};
use crate::picker::{PropsState, PropsView};
use crate::project::{ProjectState, ProjectStateView};
use crate::recorder::{Recorder, RecorderView};
use crate::renders::{RenderState, RenderView};
use crate::report::{ReportState, ReportView};
use crate::undo::{UndoState, UndoView};

verus! {

/// An empty document, with the unit that is assumed for one.
pub open spec fn blank_doc() -> DocView {
    DocView {
        dobjects: Seq::empty(),
        layers: Seq::empty(),
        linetypes: Seq::empty(),
        wall_styles: Seq::empty(),
        truecolors: Seq::empty(),
        pens: Seq::empty(),
        plot_colors: Map::empty(),
        current_color: Color::ByLayer,
        layouts: Seq::empty(),
        active_layout: None,
        units: (Units { nm_per_unit: 1_000_000_000, source: UnitSource::Assumed }),
        next_handle: 1,
    }
}

impl CanvasView {
    /// The drawing area as it starts, under a given camera.
    pub open spec fn fresh(camera: Camera) -> CanvasView {
        CanvasView {
            camera: camera,
            saved_model_scale: None,
            saved_model_offset: None,
            intersections: Seq::empty(),
            index_dirty: true,
            view_dirty: true,
            fit_due: false,
            three_d: false,
        }
    }
}

impl Canvas {
    /// The drawing area as it starts, under a given camera.
    pub fn new(camera: Camera) -> (r: Canvas)
        ensures
            r@ == CanvasView::fresh(camera),
    {
        Canvas {
            camera: camera,
            saved_model_scale: None,
            saved_model_offset: None,
            intersections: Vec::new(),
            index_dirty: true,
            view_dirty: true,
            fit_due: false,
            three_d: false,
        }
    }
}

impl UndoState {
    /// No step taken yet, with a budget in bytes and the number of steps that are kept in any case.
    pub fn new(budget: u64, min_steps: usize) -> (r: UndoState)
        ensures
            r@ == (UndoView {
                undo_stack: Seq::empty(),
                redo_stack: Seq::empty(),
                undo_budget_bytes: budget,
                undo_min_steps: min_steps,
            }),
            r@.wf(),
    {
        broadcast use group_views;

        UndoState {
            undo_stack: Vec::new(),
            redo_stack: Vec::new(),
            undo_budget_bytes: budget,
            undo_min_steps: min_steps,
        }
    }
}

impl Clipboard {
    /// Nothing copied yet.
    pub fn new() -> (r: Clipboard)
        ensures
            r@ == (ClipView {
                dobjects: Seq::empty(),
                unit_nm: 1_000_000_000,
                paste_state: PasteState::Off,
            }),
    {
        broadcast use group_views;

        Clipboard { dobjects: Vec::new(), unit_nm: 1_000_000_000, paste_state: PasteState::Off }
    }
}

impl ProjectState {
    /// Nothing kept with the drawing yet.
    pub fn new() -> (r: ProjectState)
        ensures
            r@ == (ProjectStateView { vars: Seq::empty(), centerlines: Seq::empty() }),
    {
        broadcast use group_views;

        ProjectState { vars: Vec::new(), centerlines: Vec::new() }
    }
}

impl AppView {
    /// The application as it starts.
    pub open spec fn fresh(camera: Camera, budget: u64, min_steps: usize) -> AppView {
        AppView {
            history: Seq::empty(),
            doc: blank_doc(),
            selection: Seq::empty(),
            selection_prev: Seq::empty(),
            selected: None,
            canvas: CanvasView::fresh(camera),
            gestures: GesturesView::idle(),
            undo: UndoView {
                undo_stack: Seq::empty(),
                redo_stack: Seq::empty(),
                undo_budget_bytes: budget,
                undo_min_steps: min_steps,
            },
            light: LightView::fresh(),
            factory: FactoryView::fresh(),
            files: FileView::fresh(),
            groups: Seq::empty(),
            cmds: CmdView::fresh(),
            clip: ClipView {
                dobjects: Seq::empty(),
                unit_nm: 1_000_000_000,
                paste_state: PasteState::Off,
            },
            dialog: DialogView::fresh(),
            project: ProjectStateView { vars: Seq::empty(), centerlines: Seq::empty() },
            recorder: RecorderView { on: false, events: Seq::empty() },
            report: ReportView::fresh(),
            props: PropsView::fresh(),
            materials: MaterialsView::fresh(),
            render: RenderView::fresh(),
            arch: ArchView::fresh(),
        }
    }
}

impl CadApp {
    /// The application as it starts, under a given camera, with a budget for the undo history and
    /// the number of its steps that are kept in any case.
    pub fn new(camera: Camera, budget: u64, min_steps: usize) -> (r: CadApp)
        ensures
            r@ == AppView::fresh(camera, budget, min_steps),
    {
        broadcast use group_views;

        CadApp {
            history: Vec::new(),
            doc: Document::new(),
            selection: Vec::new(),
            selection_prev: Vec::new(),
            selected: None,
            canvas: Canvas::new(camera),
            gestures: Gestures::new(),
            undo: UndoState::new(budget, min_steps),
            light: LightState::new(),
            factory: FactoryState::new(),
            files: FileState::new(),
            groups: Vec::new(),
            cmds: CommandState::new(),
            clip: Clipboard::new(),
            dialog: DialogState::new(),
            project: ProjectState::new(),
            recorder: Recorder::new(),
            report: ReportState::new(),
            props: PropsState::new(),
            materials: MaterialsState::new(),
            render: RenderState::new(),
            arch: ArchState::new(),
        }
    }
}

/// The application starts with an empty drawing in metres, nothing selected, nothing to undo or to
/// save, no file and no window.
pub proof fn start_is_empty(camera: Camera, budget: u64, min_steps: usize)
    ensures
        ({
            let s = AppView::fresh(camera, budget, min_steps);
            &&& s.doc.dobjects.len() == 0 && s.doc.units.nm_per_unit == 1_000_000_000
            &&& s.doc.wf()
            &&& s.selection.len() == 0 && s.selected is None && s.groups.len() == 0
            &&& s.undo.undo_stack.len() == 0 && s.undo.redo_stack.len() == 0
            &&& s.undo.undo_budget_bytes == budget && s.undo.undo_min_steps == min_steps
            &&& !s.files.unsaved && s.files.current_file is None && s.files.busy is None
            &&& s.files.save_failure is None && !s.files.pending_close && !s.files.close_confirm
            &&& s.light.luminaires.len() == 0 && !s.light.calc_running && s.light.undo_pending is None
            &&& s.factory.session is None && s.factory.data.features.len() == 0
            &&& s.factory.data.rooms.len() == 0 && !s.factory.dirty
            &&& s.dialog.file_dialog is None && !s.report.open && !s.materials.open && !s.arch.open
            &&& s.arch.wf()
            &&& s.canvas.camera == camera
            &&& s.history.len() == 0
        }),
{
}

} // verus!
