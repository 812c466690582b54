//! Opening and saving: what is in flight, what is on disk, and what has still to be asked.
use vstd::prelude::*;

use crate::app::{AppView, CadApp};
use crate::config::{Project, ProjectView, StoredResults, StoredView};
use crate::copying::opt_view;
use crate::dialog::FileDialogMode;
use crate::paths::{file_stem, file_stem_of, format_of, path_format, Format};

verus! {

/// Which way a file goes.
#[derive(Clone, Copy, Debug, PartialEq, Eq, Structural)]
pub enum BusyKind {
    Load,
    Save,
}

/// A load or a save that the whole window waits for. `started` is in milliseconds; `running` says
/// that a worker has taken it.
pub struct BusyOp {
    pub kind: BusyKind,
    pub path: String,
    pub subtitle: String,
    pub started: u64,
    pub est_ms: u64,
    pub painted: bool,
    pub running: bool,
}

/// The model of a [`BusyOp`].
pub struct BusyView {
    pub kind: BusyKind,
    pub path: Seq<char>,
    pub subtitle: Seq<char>,
    pub started: u64,
    pub est_ms: u64,
    pub painted: bool,
    pub running: bool,
}

impl View for BusyOp {
    type V = BusyView;

    open spec fn view(&self) -> BusyView {
        BusyView {
            kind: self.kind,
            path: self.path@,
            subtitle: self.subtitle@,
            started: self.started,
            est_ms: self.est_ms,
            painted: self.painted,
            running: self.running,
        }
    }
}

/// Where the project data of a drawing is kept.
#[derive(Clone, Copy, Debug, PartialEq, Eq, Structural)]
pub enum ExtraDataStore {
    Sidecar,
    Embedded,
}

/// A drawing that came with two copies of its project data, until one is chosen.
pub struct PendingExtraChoice {
    pub path: String,
    pub sidecar: Option<Project>,
    pub embedded: Option<Project>,
    pub embedded_results: Option<StoredResults>,
}

/// The model of a [`PendingExtraChoice`].
pub struct PendingView {
    pub path: Seq<char>,
    pub sidecar: Option<ProjectView>,
    pub embedded: Option<ProjectView>,
    pub embedded_results: Option<StoredView>,
}

impl View for PendingExtraChoice {
    type V = PendingView;

    open spec fn view(&self) -> PendingView {
        PendingView {
            path: self.path@,
            sidecar: opt_view(self.sidecar),
            embedded: opt_view(self.embedded),
            embedded_results: opt_view(self.embedded_results),
        }
    }
}

/// What is known of the files behind the project. `edit_seq` counts the edits; `last_autosave` is
/// in seconds.
pub struct FileState {
    pub current_file: Option<String>,
    pub busy: Option<BusyOp>,
    pub last_load_ms: u64,
    pub last_save_ms: u64,
    pub unsaved: bool,
    pub edit_seq: u64,
    pub symbol_sync_seq: u64,
    pub autosave_on: bool,
    pub autosave_running: bool,
    pub autosave_seq: u64,
    pub last_autosave: u64,
    pub extra_store: ExtraDataStore,
    pub extra_choice: Option<PendingExtraChoice>,
    pub results_running: bool,
    pub results_due: bool,
    pub save_failure: Option<String>,
    pub close_confirm: bool,
    pub close_after_save: bool,
    pub pending_close: bool,
}

/// The model of a [`FileState`].
pub struct FileView {
    pub current_file: Option<Seq<char>>,
    pub busy: Option<BusyView>,
    pub last_load_ms: u64,
    pub last_save_ms: u64,
    pub unsaved: bool,
    pub edit_seq: u64,
    pub symbol_sync_seq: u64,
    pub autosave_on: bool,
    pub autosave_running: bool,
    pub autosave_seq: u64,
    pub last_autosave: u64,
    pub extra_store: ExtraDataStore,
    pub extra_choice: Option<PendingView>,
    pub results_running: bool,
    pub results_due: bool,
    pub save_failure: Option<Seq<char>>,
    pub close_confirm: bool,
    pub close_after_save: bool,
    pub pending_close: bool,
}

impl View for FileState {
    type V = FileView;

    open spec fn view(&self) -> FileView {
        FileView {
            current_file: opt_view(self.current_file),
            busy: opt_view(self.busy),
            last_load_ms: self.last_load_ms,
            last_save_ms: self.last_save_ms,
            unsaved: self.unsaved,
            edit_seq: self.edit_seq,
            symbol_sync_seq: self.symbol_sync_seq,
            autosave_on: self.autosave_on,
            autosave_running: self.autosave_running,
            autosave_seq: self.autosave_seq,
            last_autosave: self.last_autosave,
            extra_store: self.extra_store,
            extra_choice: opt_view(self.extra_choice),
            results_running: self.results_running,
            results_due: self.results_due,
            save_failure: opt_view(self.save_failure),
            close_confirm: self.close_confirm,
            close_after_save: self.close_after_save,
            pending_close: self.pending_close,
        }
    }
}

impl FileView {
    /// The state after one more edit: the project differs from what is on disk.
    pub open spec fn edited(self) -> FileView {
        FileView { unsaved: true, edit_seq: next_seq(self.edit_seq), ..self }
    }
}

/// The next value of a counter that starts over after the largest one.
pub open spec fn next_seq(n: u64) -> u64 {
    if n == u64::MAX {
        0
    } else {
        (n + 1) as u64
    }
}

impl FileState {
    /// Counts an edit.
    pub fn count_edit(&mut self)
        ensures
            final(self)@ == old(self)@.edited(),
    {
        self.unsaved = true;
        self.edit_seq = self.edit_seq.wrapping_add(1);
    }
}

impl FileView {
    /// A project that has never been saved.
    pub open spec fn fresh() -> FileView {
        FileView {
            current_file: None,
            busy: None,
            last_load_ms: 0,
            last_save_ms: 0,
            unsaved: false,
            edit_seq: 0,
            symbol_sync_seq: 0,
            autosave_on: true,
            autosave_running: false,
            autosave_seq: 0,
            last_autosave: 0,
            extra_store: ExtraDataStore::Sidecar,
            extra_choice: None,
            results_running: false,
            results_due: false,
            save_failure: None,
            close_confirm: false,
            close_after_save: false,
            pending_close: false,
        }
    }
}

impl FileState {
    /// A project that has never been saved.
    pub fn new() -> (r: FileState)
        ensures
            r@ == FileView::fresh(),
    {
        FileState {
            current_file: None,
            busy: None,
            last_load_ms: 0,
            last_save_ms: 0,
            unsaved: false,
            edit_seq: 0,
            symbol_sync_seq: 0,
            autosave_on: true,
            autosave_running: false,
            autosave_seq: 0,
            last_autosave: 0,
            extra_store: ExtraDataStore::Sidecar,
            extra_choice: None,
            results_running: false,
            results_due: false,
            save_failure: None,
            close_confirm: false,
            close_after_save: false,
            pending_close: false,
        }
    }
}

/// Whether a drawing at a path takes its project data inside: the two formats that can carry it,
/// where that was asked for.
pub open spec fn can_embed(store: ExtraDataStore, path: Seq<char>) -> bool {
    store == ExtraDataStore::Embedded && (format_of(path) == Some(Format::Dxf) || format_of(path)
        == Some(Format::Rsm))
}

/// Whether a drawing at a path takes its project data inside.
pub fn may_embed(store: ExtraDataStore, path: &str) -> (r: bool)
    ensures
        r == can_embed(store, path@),
{
    store == ExtraDataStore::Embedded && match path_format(path) {
        Some(Format::Dxf) => true,
        Some(Format::Rsm) => true,
        _ => false,
    }
}

/// The larger of two numbers.
pub open spec fn larger(a: u64, b: u64) -> u64 {
    if a > b {
        a
    } else {
        b
    }
}

/// A load or a save that has just been asked for.
pub open spec fn armed(kind: BusyKind, path: Seq<char>, now: u64, est: u64) -> BusyView {
    BusyView {
        kind: kind,
        path: path,
        subtitle: file_stem(path),
        started: now,
        est_ms: est,
        painted: false,
        running: false,
    }
}

fn arm(kind: BusyKind, path: &str, now: u64, est: u64) -> (r: BusyOp)
    ensures
        r@ == armed(kind, path@, now, est),
{
    BusyOp {
        kind: kind,
        path: String::from_str(path),
        subtitle: String::from_str(file_stem_of(path)),
        started: now,
        est_ms: est,
        painted: false,
        running: false,
    }
}

impl AppView {
    /// After an open has been asked for.
    pub open spec fn open_armed(self, path: Seq<char>, now: u64) -> AppView {
        AppView {
            files: FileView {
                busy: Some(
                    armed(BusyKind::Load, path, now, larger(self.files.last_load_ms, 300)),
                ),
                ..self.files
            },
            ..self
        }
    }

    /// After a save has been asked for. It has to wait while the user has still to say which copy
    /// of the project data is the one to keep.
    pub open spec fn save_armed(self, path: Seq<char>, now: u64) -> AppView {
        if self.files.extra_choice is Some {
            self.said(
                "  ! save deferred — this drawing has two copies of its 3D project data; pick which one to load first"@,
            )
        } else {
            AppView {
                files: FileView {
                    busy: Some(
                        armed(BusyKind::Save, path, now, larger(self.files.last_save_ms, 200)),
                    ),
                    ..self.files
                },
                ..self
            }
        }
    }

    /// After a save under the current name has been asked for; a project without one asks for it.
    pub open spec fn save_current_armed(self, now: u64) -> AppView {
        match self.files.current_file {
            Some(p) => self.save_armed(p, now),
            None => self.dialog_opened(FileDialogMode::Save, ".rsm"@),
        }
    }

    /// Whether the current file takes its project data inside.
    pub open spec fn embeds_current(self) -> bool {
        match self.files.current_file {
            Some(p) => can_embed(self.files.extra_store, p),
            None => false,
        }
    }
}

impl CadApp {
    /// Asks for a file to be opened. The window that says so is shown before a worker reads it.
    pub fn do_open(&mut self, path: &str, now: u64)
        ensures
            final(self)@ == old(self)@.open_armed(path@, now),
    {
        let est: u64 = if self.files.last_load_ms > 300 {
            self.files.last_load_ms
        } else {
            300
        };
        self.files.busy = Some(arm(BusyKind::Load, path, now, est));
    }

    /// Asks for the project to be saved at a path.
    pub fn do_save(&mut self, path: &str, now: u64)
        ensures
            final(self)@ == old(self)@.save_armed(path@, now),
    {
        if self.files.extra_choice.is_some() {
            self.say(
                String::from_str(
                    "  ! save deferred — this drawing has two copies of its 3D project data; pick which one to load first",
                ),
            );
            return;
        }
        let est: u64 = if self.files.last_save_ms > 200 {
            self.files.last_save_ms
        } else {
            200
        };
        self.files.busy = Some(arm(BusyKind::Save, path, now, est));
    }

    /// Saves under the current name, or asks for one.
    pub fn do_save_current(&mut self, now: u64)
        ensures
            final(self)@ == old(self)@.save_current_armed(now),
    {
        match self.files.current_file.clone() {
            Some(p) => self.do_save(p.as_str(), now),
            None => self.open_file_dialog(FileDialogMode::Save, ".rsm"),
        }
    }

    /// Whether the current file takes its project data inside.
    pub fn can_embed_current(&self) -> (r: bool)
        ensures
            r == self@.embeds_current(),
    {
        match &self.files.current_file {
            Some(p) => may_embed(self.files.extra_store, p.as_str()),
            None => false,
        }
    }
}

/// An edit leaves the project unsaved, and is told from the one before by its number.
pub proof fn edits_are_numbered(f: FileView)
    ensures
        f.edited().unsaved,
        f.edited().edit_seq != f.edit_seq,
        f.edit_seq < u64::MAX ==> f.edited().edit_seq == f.edit_seq + 1,
        f.edited().current_file == f.current_file,
        f.edited().busy == f.busy,
        f.edited().symbol_sync_seq == f.symbol_sync_seq,
{
}

/// Work that is armed waits for its first frame, from now on, and is expected to take as long as the
/// last of its kind, or a fraction of a second at least.
pub proof fn armed_work_waits_for_its_frame(s: AppView, path: Seq<char>, now: u64)
    ensures
        s.open_armed(path, now).files.busy matches Some(b) && b.kind == BusyKind::Load && b.path == path
            && b.started == now && !b.painted && !b.running && b.est_ms >= s.files.last_load_ms
            && b.est_ms >= 300 && (b.est_ms == 300 || b.est_ms == s.files.last_load_ms),
        s.files.extra_choice is None ==> (s.save_armed(path, now).files.busy matches Some(b) && b.kind
            == BusyKind::Save && b.path == path && b.started == now && !b.painted && !b.running
            && b.est_ms >= s.files.last_save_ms && b.est_ms >= 200 && (b.est_ms == 200 || b.est_ms
            == s.files.last_save_ms)),
        s.files.extra_choice is Some ==> s.save_armed(path, now).files == s.files,
        s.open_armed(path, now).doc == s.doc,
        s.save_armed(path, now).doc == s.doc,
{
    reveal(AppView::said);
}

/// Only a DXF or an RSM file carries the project data, and only where it is to.
pub proof fn dwg_carries_no_project(store: ExtraDataStore, path: Seq<char>)
    ensures
        can_embed(store, path) ==> store == ExtraDataStore::Embedded,
        can_embed(store, path) ==> format_of(path) is Some && format_of(path) != Some(Format::Dwg),
        store == ExtraDataStore::Embedded && (format_of(path) == Some(Format::Dxf) || format_of(path)
            == Some(Format::Rsm)) ==> can_embed(store, path),
{
}

/// Work on a file is shown under the file's name.
pub proof fn armed_work_shows_the_file(kind: BusyKind, path: Seq<char>, now: u64, est: u64)
    ensures
        armed(kind, path, now, est).subtitle == file_stem(path),
        armed(kind, path, now, est).est_ms == est,
{
}

} // verus!
