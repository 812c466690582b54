//! Opening a drawing: installing what a worker has read, asking which copy of the project data to
//! take where there are two, and saying what was found.
use vstd::prelude::*;

use crate::app::{AppView, Canvas, CanvasView, CadApp};
use crate::config::{Project, ProjectView, StoredResults, StoredView};
use crate::copying::{group_views, opt_view, Duplicate};
use crate::doc::{Document, DocView, UnitSource, Units};
use crate::factory::{FactoryState, FactoryView};
use crate::files::{ExtraDataStore, FileView, PendingExtraChoice, PendingView};
use crate::text::{cat3, cat7, dec, dec_text};
use crate::undo::{sketch_index, UndoView};

verus! {

/// A drawing that a worker has read: the document, the copies of its project data that were found
/// beside it and inside it, the results found inside it, how it came to be read where that needs
/// saying, and how long the stages took, in microseconds.
pub struct LoadPayload {
    pub doc: Document,
    pub sidecar: Option<Project>,
    pub embedded: Option<Project>,
    pub embedded_results: Option<StoredResults>,
    pub times: LoadTimes,
}

/// How long the stages of reading a drawing took, in microseconds, and how many assets there were.
#[derive(Clone, Copy, Debug)]
pub struct LoadTimes {
    pub read: u64,
    pub parse: u64,
    pub sidecar: u64,
    pub assets: u64,
    pub asset_count: usize,
}

/// Where the results that belong to a drawing that has just been opened are to be looked for:
/// nowhere yet, beside the drawing, or inside it first.
pub enum ResultsSource {
    Later,
    Beside,
    Inside(Option<StoredResults>),
}

/// What the user answered when a drawing came with two copies of its project data.
#[derive(Clone, Copy, Debug, PartialEq, Eq, Structural)]
pub enum ExtraPick {
    Embedded,
    Sidecar,
    Neither,
}

impl AppView {
    /// After the open sketch has been closed: its drawing is back on its face, and the plan is the
    /// active document again.
    pub open spec fn sketch_closed(self) -> AppView {
        match self.factory.session {
            None => self,
            Some(s) => AppView {
                doc: s.saved_doc,
                factory: FactoryView {
                    data: self.factory_filled(),
                    session: None,
                    ..self.factory
                },
                ..self
            },
        }
    }

    /// After the stages that a worker timed have been reported.
    pub open spec fn load_staged(self, n: usize, t: LoadTimes) -> AppView {
        AppView {
            recorder: self.recorder.staged("read file"@, 0, t.read, "worker"@).staged(
                "parse doc"@,
                n,
                t.parse,
                "worker"@,
            ).staged("sidecar"@, n, t.sidecar, "worker parse"@).staged(
                "asset decode (meshes + textures)"@,
                t.asset_count,
                t.assets,
                "worker"@,
            ),
            ..self
        }
    }

    /// After another document has taken the place of the active one. The history of the old one
    /// goes with it, and so does a question that was still open about it.
    pub open spec fn document_replaced(self, d: DocView, path: Seq<char>) -> AppView {
        AppView {
            doc: d,
            undo: UndoView { undo_stack: Seq::empty(), redo_stack: Seq::empty(), ..self.undo },
            selection: Seq::empty(),
            selection_prev: Seq::empty(),
            selected: None,
            canvas: CanvasView {
                intersections: Seq::empty(),
                index_dirty: true,
                view_dirty: true,
                fit_due: true,
                ..self.canvas
            },
            files: FileView {
                extra_choice: None,
                current_file: Some(path),
                ..self.files
            },
            ..self
        }
    }

    /// With a question open about which copy of the project data to take.
    pub open spec fn choice_asked(self, p: PendingView) -> AppView {
        AppView { files: FileView { extra_choice: Some(p), ..self.files }, ..self }
    }

    /// With no question open about which copy of the project data to take.
    pub open spec fn choice_taken(self) -> AppView {
        AppView { files: FileView { extra_choice: None, ..self.files }, ..self }
    }

    /// With the project marked as matching what is on disk, or not.
    pub open spec fn marked_unsaved(self, unsaved: bool) -> AppView {
        AppView { files: FileView { unsaved: unsaved, ..self.files }, ..self }
    }

    /// With the project data kept in a given place from now on.
    pub open spec fn stored_in(self, store: ExtraDataStore) -> AppView {
        AppView { files: FileView { extra_store: store, ..self.files }, ..self }
    }

    /// After the project data that came with a drawing has been taken: at once where there is one
    /// copy, and after a question where there are two.
    pub open spec fn extra_taken(
        self,
        path: Seq<char>,
        sidecar: Option<ProjectView>,
        embedded: Option<ProjectView>,
        results: Option<StoredView>,
        sidecar_name: Seq<char>,
    ) -> AppView {
        match (sidecar, embedded) {
            (Some(_), Some(_)) => self.choice_asked(
                PendingView {
                    path: path,
                    sidecar: sidecar,
                    embedded: embedded,
                    embedded_results: results,
                },
            ).said(
                "  ⚠ extra data: the drawing embeds a 3D project AND '"@ + sidecar_name
                    + "' sits beside it — which one loads?"@,
            ),
            (Some(p), None) => self.stored_in(ExtraDataStore::Sidecar).project_installed(p),
            (None, Some(p)) => self.stored_in(ExtraDataStore::Embedded).project_installed(p),
            (None, None) => self.stored_in(ExtraDataStore::Sidecar),
        }
    }

    /// After a drawing that a worker has read has been installed.
    pub open spec fn loaded(
        self,
        path: Seq<char>,
        d: DocView,
        sidecar: Option<ProjectView>,
        embedded: Option<ProjectView>,
        results: Option<StoredView>,
        times: LoadTimes,
        sidecar_name: Seq<char>,
    ) -> AppView {
        self.sketch_closed().load_staged(d.dobjects.len() as usize, times).document_replaced(
            d,
            path,
        ).extra_taken(path, sidecar, embedded, results, sidecar_name)
    }

    /// The line that says what was opened.
    pub open spec fn opened_line(self, path: Seq<char>) -> Seq<char> {
        "  opened '"@ + path + "'  ("@ + dec(self.doc.dobjects.len()) + " dobject(s), "@ + dec(
            self.doc.layers.len(),
        ) + " layer(s))"@
    }

    /// After the unit of an opened drawing has been settled: its own where it declares one, else
    /// the 3D side's working unit.
    pub open spec fn unit_settled(self, label: Seq<char>, working_label: Seq<char>) -> AppView {
        if self.doc.units.source == UnitSource::Declared {
            self.said(
                "  units: the file declares 1 drawing unit = "@ + label
                    + " — 3D builds use it from now on (nothing existing was rescaled; `units` to change)"@,
            )
        } else {
            AppView {
                doc: DocView {
                    units: (Units {
                        nm_per_unit: self.factory.units.nm_per_unit,
                        source: UnitSource::User,
                    }),
                    ..self.doc
                },
                ..self
            }.said(
                "  units: the file declares none — read as "@ + working_label
                    + " (the 3D Factory working unit). Nothing was rescaled. If this drawing is in something else, `units <unit>` now, before building."@,
            )
        }
    }

    /// After an opened drawing has been reported: it matches the disk, its unit is settled, and
    /// the unit is doubted where it cannot be right.
    pub open spec fn load_finished(
        self,
        path: Seq<char>,
        note: Option<Seq<char>>,
        label: Seq<char>,
        working_label: Seq<char>,
    ) -> AppView {
        let a = self.marked_unsaved(false).said(self.opened_line(path));
        let b = match note {
            Some(n) => a.said(n),
            None => a,
        };
        let c = b.unit_settled(label, working_label);
        let shown = if self.doc.units.source == UnitSource::Declared {
            label
        } else {
            working_label
        };
        match c.unit_note(shown) {
            Some(w) => c.said(w),
            None => c,
        }
    }

    /// After the user has said which copy of the project data to take.
    pub open spec fn extra_chosen(self, pick: ExtraPick) -> AppView {
        match self.files.extra_choice {
            None => self,
            Some(p) => {
                let s = self.choice_taken().touched();
                match pick {
                    ExtraPick::Embedded => s.stored_in(ExtraDataStore::Embedded).installed_if(
                        p.embedded,
                    ),
                    ExtraPick::Sidecar => s.stored_in(ExtraDataStore::Sidecar).installed_if(
                        p.sidecar,
                    ),
                    ExtraPick::Neither => s.stored_in(ExtraDataStore::Sidecar),
                }
            },
        }
    }

    /// After project data has been installed, where there is any.
    pub open spec fn installed_if(self, p: Option<ProjectView>) -> AppView {
        match p {
            Some(p) => self.project_installed(p),
            None => self,
        }
    }
}

/// The line that says which copy of the project data was taken.
pub open spec fn pick_line(pick: ExtraPick, path: Seq<char>) -> Seq<char> {
    match pick {
        ExtraPick::Embedded => "  extra data: loaded the copy inside '"@ + path
            + "' — further saves keep it inside the file"@,
        ExtraPick::Sidecar => "  extra data: loaded the .simlux.json copy beside '"@ + path
            + "' — further saves keep using separate files"@,
        ExtraPick::Neither => "  extra data: nothing loaded — drawing '"@ + path
            + "' opened without its 3D project"@,
    }
}

impl FactoryState {
    fn close_sketch(&mut self, data: crate::factory::FactoryData) -> (r: Option<Document>)
        ensures
            final(self)@ == match old(self)@.session {
                Some(_) => FactoryView { data: data@, session: None, ..old(self)@ },
                None => old(self)@,
            },
            opt_view(r) == match old(self)@.session {
                Some(s) => Some(s.saved_doc),
                None => None,
            },
    {
        match self.session.take() {
            Some(s) => {
                self.data = data;
                Some(s.saved_doc)
            },
            None => None,
        }
    }
}

impl Canvas {
    pub(crate) fn forget_drawing(&mut self)
        ensures
            final(self)@ == (CanvasView {
                intersections: Seq::empty(),
                index_dirty: true,
                view_dirty: true,
                fit_due: true,
                ..old(self)@
            }),
    {
        self.intersections.clear();
        self.index_dirty = true;
        self.view_dirty = true;
        self.fit_due = true;
    }
}

impl CadApp {
    /// Reports one timed stage of opening a file; nothing unless the recorder is on.
    pub fn stage_evt(&mut self, stage: &str, dobjects: usize, elapsed_us: u64, detail: &str)
        ensures
            final(self)@ == (AppView {
                recorder: old(self)@.recorder.staged(stage@, dobjects, elapsed_us, detail@),
                ..old(self)@
            }),
    {
        self.recorder.stage(stage, dobjects, elapsed_us, detail);
    }

    /// Closes the open sketch: its drawing goes back to its face, and the plan comes back.
    pub fn factory_exit_sketch(&mut self)
        ensures
            final(self)@ == old(self)@.sketch_closed(),
    {
        let data = self.factory_model_for_snapshot();
        if let Some(plan) = self.factory.close_sketch(data) {
            self.doc = plan;
        }
    }

    fn stage_load(&mut self, n: usize, t: LoadTimes)
        ensures
            final(self)@ == old(self)@.load_staged(n, t),
    {
        self.recorder.stage("read file", 0, t.read, "worker");
        self.recorder.stage("parse doc", n, t.parse, "worker");
        self.recorder.stage("sidecar", n, t.sidecar, "worker parse");
        self.recorder.stage("asset decode (meshes + textures)", t.asset_count, t.assets, "worker");
    }

    fn replace_document(&mut self, doc: Document, path: &str)
        ensures
            final(self)@ == old(self)@.document_replaced(doc@, path@),
    {
        broadcast use group_views;

        self.doc = doc;
        self.undo.undo_stack.clear();
        self.undo.redo_stack.clear();
        self.selection.clear();
        self.selection_prev.clear();
        self.selected = None;
        self.canvas.forget_drawing();
        self.files.extra_choice = None;
        self.files.current_file = Some(String::from_str(path));
    }

    pub(crate) fn set_store(&mut self, store: ExtraDataStore)
        ensures
            final(self)@ == old(self)@.stored_in(store),
    {
        self.files.extra_store = store;
    }

    pub(crate) fn set_unsaved(&mut self, unsaved: bool)
        ensures
            final(self)@ == old(self)@.marked_unsaved(unsaved),
    {
        self.files.unsaved = unsaved;
    }

    fn ask_extra(&mut self, p: PendingExtraChoice)
        ensures
            final(self)@ == old(self)@.choice_asked(p@),
    {
        self.files.extra_choice = Some(p);
    }

    fn take_choice(&mut self) -> (r: Option<PendingExtraChoice>)
        ensures
            opt_view(r) == old(self)@.files.extra_choice,
            final(self)@ == old(self)@.choice_taken(),
    {
        self.files.extra_choice.take()
    }

    fn take_extra(
        &mut self,
        path: &str,
        sidecar: Option<Project>,
        embedded: Option<Project>,
        results: Option<StoredResults>,
        sidecar_name: &str,
    ) -> (r: ResultsSource)
        ensures
            final(self)@ == old(self)@.extra_taken(
                path@,
                opt_view(sidecar),
                opt_view(embedded),
                opt_view(results),
                sidecar_name@,
            ),
            match r {
                ResultsSource::Later => sidecar is Some && embedded is Some,
                ResultsSource::Beside => embedded is None,
                ResultsSource::Inside(found) => sidecar is None && embedded is Some && opt_view(
                    found,
                ) == opt_view(results),
            },
    {
        match sidecar {
            Some(s) => match embedded {
                Some(e) => {
                    self.ask_extra(
                        PendingExtraChoice {
                            path: String::from_str(path),
                            sidecar: Some(s),
                            embedded: Some(e),
                            embedded_results: results,
                        },
                    );
                    self.say(
                        cat3(
                            "  ⚠ extra data: the drawing embeds a 3D project AND '",
                            sidecar_name,
                            "' sits beside it — which one loads?",
                        ),
                    );
                    ResultsSource::Later
                },
                None => {
                    self.set_store(ExtraDataStore::Sidecar);
                    self.install_simlux_config(s);
                    ResultsSource::Beside
                },
            },
            None => match embedded {
                Some(e) => {
                    self.set_store(ExtraDataStore::Embedded);
                    self.install_simlux_config(e);
                    ResultsSource::Inside(results)
                },
                None => {
                    self.set_store(ExtraDataStore::Sidecar);
                    ResultsSource::Beside
                },
            },
        }
    }

    /// Installs a drawing that a worker has read, and says where the results that belong to it are
    /// to be looked for. An open sketch is closed first, so that it does not come back over the new
    /// drawing.
    pub fn apply_loaded(&mut self, path: &str, payload: LoadPayload, sidecar_name: &str) -> (r:
        ResultsSource)
        ensures
            final(self)@ == old(self)@.loaded(
                path@,
                payload.doc@,
                opt_view(payload.sidecar),
                opt_view(payload.embedded),
                opt_view(payload.embedded_results),
                payload.times,
                sidecar_name@,
            ),
            match r {
                ResultsSource::Later => payload.sidecar is Some && payload.embedded is Some,
                ResultsSource::Beside => payload.embedded is None,
                ResultsSource::Inside(found) => payload.sidecar is None && payload.embedded is Some
                    && opt_view(found) == opt_view(payload.embedded_results),
            },
    {
        let LoadPayload { doc, sidecar, embedded, embedded_results, times } = payload;
        self.factory_exit_sketch();
        assert(doc@.dobjects.len() == doc.dobjects.len());
        self.stage_load(doc.dobjects.len(), times);
        self.replace_document(doc, path);
        self.take_extra(path, sidecar, embedded, embedded_results, sidecar_name)
    }

    fn settle_unit(&mut self, label: &str, working_label: &str)
        ensures
            final(self)@ == old(self)@.unit_settled(label@, working_label@),
    {
        if self.doc.units.source == UnitSource::Declared {
            self.say(
                cat3(
                    "  units: the file declares 1 drawing unit = ",
                    label,
                    " — 3D builds use it from now on (nothing existing was rescaled; `units` to change)",
                ),
            );
        } else {
            self.doc.units = Units {
                nm_per_unit: self.factory.units.nm_per_unit,
                source: UnitSource::User,
            };
            self.say(
                cat3(
                    "  units: the file declares none — read as ",
                    working_label,
                    " (the 3D Factory working unit). Nothing was rescaled. If this drawing is in something else, `units <unit>` now, before building.",
                ),
            );
        }
    }

    pub(crate) fn opened_text(&self, path: &str) -> (r: String)
        ensures
            r@ == self@.opened_line(path@),
    {
        assert(self@.doc.dobjects.len() == self.doc.dobjects.len());
        assert(self@.doc.layers.len() == self.doc.layers.len());
        cat7(
            "  opened '",
            path,
            "'  (",
            dec_text(self.doc.dobjects.len() as u64).as_str(),
            " dobject(s), ",
            dec_text(self.doc.layers.len() as u64).as_str(),
            " layer(s))",
        )
    }

    /// Reports an opened drawing, settles its unit and doubts it where it cannot be right. `label`
    /// is the drawing's unit and `working_label` the 3D side's, as the user reads them.
    pub fn finish_loaded(
        &mut self,
        path: &str,
        note: Option<String>,
        label: &str,
        working_label: &str,
    )
        ensures
            final(self)@ == old(self)@.load_finished(
                path@,
                opt_view(note),
                label@,
                working_label@,
            ),
    {
        let declared = self.doc.units.source == UnitSource::Declared;
        let line = self.opened_text(path);
        self.set_unsaved(false);
        self.say(line);
        self.say_if(note);
        self.settle_unit(label, working_label);
        let shown = if declared {
            label
        } else {
            working_label
        };
        let doubt = self.unit_sanity_note(shown);
        self.say_if(doubt);
    }

    fn say_if(&mut self, line: Option<String>)
        ensures
            final(self)@ == match line {
                Some(l) => old(self)@.said(l@),
                None => old(self)@,
            },
    {
        if let Some(l) = line {
            self.say(l);
        }
    }

    fn install_if(&mut self, p: Option<Project>)
        ensures
            final(self)@ == old(self)@.installed_if(opt_view(p)),
    {
        if let Some(p) = p {
            self.install_simlux_config(p);
        }
    }

    /// Takes the copy of the project data that the user chose. What it returns says where the
    /// results are to be looked for; they come before the line of [`CadApp::report_extra_pick`].
    pub fn choose_extra_data(&mut self, pick: ExtraPick) -> (r: Option<(String, ResultsSource)>)
        ensures
            final(self)@ == old(self)@.extra_chosen(pick),
            match r {
                None => old(self)@.files.extra_choice is None,
                Some((path, source)) => {
                    &&& old(self)@.files.extra_choice is Some
                    &&& path@ == old(self)@.files.extra_choice->0.path
                    &&& match source {
                        ResultsSource::Later => match pick {
                            ExtraPick::Embedded => old(self)@.files.extra_choice->0.embedded
                                is None,
                            ExtraPick::Sidecar => old(self)@.files.extra_choice->0.sidecar is None,
                            ExtraPick::Neither => true,
                        },
                        ResultsSource::Beside => pick == ExtraPick::Sidecar
                            && old(self)@.files.extra_choice->0.sidecar is Some,
                        ResultsSource::Inside(found) => pick == ExtraPick::Embedded
                            && old(self)@.files.extra_choice->0.embedded is Some && opt_view(
                            found,
                        ) == old(self)@.files.extra_choice->0.embedded_results,
                    }
                },
            },
    {
        match self.take_choice() {
            None => None,
            Some(p) => {
                let PendingExtraChoice { path, sidecar, embedded, embedded_results } = p;
                self.touch_view();
                let source = self.take_pick(pick, sidecar, embedded, embedded_results);
                Some((path, source))
            },
        }
    }

    fn take_pick(
        &mut self,
        pick: ExtraPick,
        sidecar: Option<Project>,
        embedded: Option<Project>,
        results: Option<StoredResults>,
    ) -> (r: ResultsSource)
        ensures
            final(self)@ == match pick {
                ExtraPick::Embedded => old(self)@.stored_in(
                    ExtraDataStore::Embedded,
                ).installed_if(opt_view(embedded)),
                ExtraPick::Sidecar => old(self)@.stored_in(
                    ExtraDataStore::Sidecar,
                ).installed_if(opt_view(sidecar)),
                ExtraPick::Neither => old(self)@.stored_in(ExtraDataStore::Sidecar),
            },
            match r {
                ResultsSource::Later => match pick {
                    ExtraPick::Embedded => embedded is None,
                    ExtraPick::Sidecar => sidecar is None,
                    ExtraPick::Neither => true,
                },
                ResultsSource::Beside => pick == ExtraPick::Sidecar && sidecar is Some,
                ResultsSource::Inside(found) => pick == ExtraPick::Embedded && embedded is Some
                    && opt_view(found) == opt_view(results),
            },
    {
        match pick {
            ExtraPick::Embedded => {
                let there = embedded.is_some();
                self.set_store(ExtraDataStore::Embedded);
                self.install_if(embedded);
                if there {
                    ResultsSource::Inside(results)
                } else {
                    ResultsSource::Later
                }
            },
            ExtraPick::Sidecar => {
                let there = sidecar.is_some();
                self.set_store(ExtraDataStore::Sidecar);
                self.install_if(sidecar);
                if there {
                    ResultsSource::Beside
                } else {
                    ResultsSource::Later
                }
            },
            ExtraPick::Neither => {
                self.set_store(ExtraDataStore::Sidecar);
                ResultsSource::Later
            },
        }
    }

    /// Says which copy of the project data was taken.
    pub fn report_extra_pick(&mut self, pick: ExtraPick, path: &str)
        ensures
            final(self)@ == old(self)@.said(pick_line(pick, path@)),
    {
        let line = match pick {
            ExtraPick::Embedded => cat3(
                "  extra data: loaded the copy inside '",
                path,
                "' — further saves keep it inside the file",
            ),
            ExtraPick::Sidecar => cat3(
                "  extra data: loaded the .simlux.json copy beside '",
                path,
                "' — further saves keep using separate files",
            ),
            ExtraPick::Neither => cat3(
                "  extra data: nothing loaded — drawing '",
                path,
                "' opened without its 3D project",
            ),
        };
        self.say(line);
    }
}

proof fn installing_keeps_the_drawing(s: AppView, p: ProjectView)
    ensures
        ({
            let r = s.project_installed(p);
            &&& r.undo == s.undo && r.doc == s.doc && r.selection == s.selection
            &&& r.files.current_file == s.files.current_file
            &&& r.files.extra_choice == s.files.extra_choice
            &&& r.factory.session == s.factory.session
        }),
{
    reveal(AppView::said);
    reveal(AppView::project_installed);
    reveal(AppView::legacy_migrated);
}

proof fn taking_extra_keeps_the_drawing(
    t: AppView,
    path: Seq<char>,
    sidecar: Option<ProjectView>,
    embedded: Option<ProjectView>,
    results: Option<StoredView>,
    name: Seq<char>,
)
    ensures
        ({
            let r = t.extra_taken(path, sidecar, embedded, results, name);
            &&& r.undo == t.undo && r.doc == t.doc && r.selection == t.selection
            &&& r.files.current_file == t.files.current_file
            &&& r.factory.session == t.factory.session
            &&& sidecar is Some && embedded is Some ==> r.files.extra_choice is Some
            &&& sidecar is None || embedded is None ==> r.files.extra_choice
                == t.files.extra_choice
        }),
{
    reveal(AppView::said);
    if let Some(p) = sidecar {
        installing_keeps_the_drawing(t.stored_in(ExtraDataStore::Sidecar), p);
    }
    if let Some(p) = embedded {
        installing_keeps_the_drawing(t.stored_in(ExtraDataStore::Embedded), p);
    }
}

/// Opening a drawing drops the history of the one before it: nothing can be undone into it, and no
/// question about it stays open unless the new drawing raises its own.
pub proof fn opening_drops_the_old_history(
    s: AppView,
    path: Seq<char>,
    d: DocView,
    sidecar: Option<ProjectView>,
    embedded: Option<ProjectView>,
    results: Option<StoredView>,
    times: LoadTimes,
    name: Seq<char>,
)
    ensures
        ({
            let r = s.loaded(path, d, sidecar, embedded, results, times, name);
            &&& r.undo.undo_stack.len() == 0 && r.undo.redo_stack.len() == 0
            &&& r.doc == d
            &&& r.selection.len() == 0
            &&& r.files.current_file == Some(path)
            &&& r.factory.session is None
            &&& r.files.extra_choice is Some <==> sidecar is Some && embedded is Some
        }),
{
    let t = s.sketch_closed().load_staged(d.dobjects.len() as usize, times).document_replaced(
        d,
        path,
    );
    taking_extra_keeps_the_drawing(t, path, sidecar, embedded, results, name);
}

/// No save is started while it is open which copy of the project data is the one to keep.
pub proof fn open_question_defers_saves(s: AppView, path: Seq<char>, now: u64)
    requires
        s.files.extra_choice is Some,
    ensures
        s.save_armed(path, now).files == s.files,
        !s.files.autosave_due(now),
{
    reveal(AppView::said);
}

/// Closing a sketch loses nothing that is drawn: the drawing on the face is the one that was open,
/// and the plan is the one that waited.
pub proof fn closing_a_sketch_keeps_both_drawings(s: AppView, i: int)
    requires
        s.factory.session is Some,
        sketch_index(s.factory.data.sketches, s.factory.session->0.plane) == Some(i),
    ensures
        s.sketch_closed().doc == s.factory.session->0.saved_doc,
        s.sketch_closed().factory.data.sketches[i].doc == s.doc,
        s.sketch_closed().plan() == s.plan(),
{
    crate::undo::sketch_index_is_least(s.factory.data.sketches, s.factory.session->0.plane);
}

/// Where one copy of the project data comes with a drawing, that copy is loaded: its variables, its
/// fixtures, its model, furniture and materials are the ones there are, and later saves keep the data
/// where the copy was.
pub proof fn the_one_copy_is_loaded(
    s: AppView,
    path: Seq<char>,
    d: DocView,
    p: ProjectView,
    results: Option<StoredView>,
    times: LoadTimes,
    name: Seq<char>,
)
    ensures
        ({
            let r = s.loaded(path, d, Some(p), None, results, times, name);
            &&& copy_is_there(r, p) && r.files.extra_store == ExtraDataStore::Sidecar
            &&& r.doc == d && r.files.extra_choice is None
            &&& p.textures is None ==> r.factory.textures == s.factory.textures
        }),
        ({
            let r = s.loaded(path, d, None, Some(p), results, times, name);
            &&& copy_is_there(r, p) && r.files.extra_store == ExtraDataStore::Embedded
            &&& r.doc == d && r.files.extra_choice is None
            &&& p.textures is None ==> r.factory.textures == s.factory.textures
        }),
{
    let t = s.sketch_closed().load_staged(d.dobjects.len() as usize, times).document_replaced(
        d,
        path,
    );
    copy_comes_in(t.stored_in(ExtraDataStore::Sidecar), p);
    copy_comes_in(t.stored_in(ExtraDataStore::Embedded), p);
}

/// Whether a copy of the project data is what a state holds, all of it but the materials where the
/// copy carries none, and the rooms where it carries some in the manner of older files.
pub open spec fn copy_is_there(r: AppView, p: ProjectView) -> bool {
    &&& r.project.vars == p.cfg.vars
    &&& r.light.luminaires == p.cfg.luminaires
    &&& r.factory.data.features == p.data.features && r.factory.data.sketches == p.data.sketches
    &&& r.factory.data.walls == p.data.walls && r.factory.data.storeys == p.data.storeys
    &&& r.factory.data.active_storey == p.data.active_storey
    &&& r.factory.data.ceilings == p.data.ceilings
    &&& r.factory.data.furniture == p.data.furniture
    &&& r.factory.data.feature_op == p.data.feature_op
    &&& r.factory.data.feature_color == p.data.feature_color
    &&& r.factory.data.surface_color == p.data.surface_color
    &&& r.factory.data.feature_texture == p.data.feature_texture
    &&& r.factory.data.surface_texture == p.data.surface_texture
    &&& r.factory.data.feature_group == p.data.feature_group
    &&& p.cfg.plan_rooms.len() == 0 && p.cfg.layers_3d.len() == 0 ==> r.factory.data.rooms
        == p.data.rooms
    &&& r.factory.furniture_lib == p.furniture_lib
    &&& p.textures is Some ==> r.factory.textures == p.textures->0
}

/// A drawing without project data leaves the project data that there is as it is, and keeps it in
/// files beside from then on. Where there are two copies nothing is loaded before the user has said
/// which.
pub proof fn nothing_is_loaded_unasked(
    s: AppView,
    path: Seq<char>,
    d: DocView,
    p: ProjectView,
    q: ProjectView,
    results: Option<StoredView>,
    times: LoadTimes,
    name: Seq<char>,
)
    ensures
        ({
            let r = s.loaded(path, d, None, None, results, times, name);
            &&& r.project == s.project && r.light == s.light
            &&& r.factory.data == s.sketch_closed().factory.data
            &&& r.factory.textures == s.factory.textures
            &&& r.files.extra_store == ExtraDataStore::Sidecar && r.files.extra_choice is None
            &&& r.doc == d
        }),
        ({
            let r = s.loaded(path, d, Some(p), Some(q), results, times, name);
            &&& r.project == s.project && r.light == s.light
            &&& r.factory.data == s.sketch_closed().factory.data
            &&& r.factory.textures == s.factory.textures
            &&& r.files.extra_store == s.files.extra_store
            &&& r.files.extra_choice is Some
            &&& r.files.extra_choice->0.path == path
            &&& r.files.extra_choice->0.sidecar == Some(p)
            &&& r.files.extra_choice->0.embedded == Some(q)
            &&& r.files.extra_choice->0.embedded_results == results
            &&& r.doc == d && r.history.len() == s.history.len() + 1
        }),
{
    reveal(AppView::said);
}

/// The copy that the user picks is the one that is loaded, the question is settled, and later saves
/// keep the data where that copy was; picking neither loads nothing. A question that is not open is
/// not answered.
pub proof fn the_picked_copy_is_loaded(s: AppView, pick: ExtraPick, a: ProjectView, b: ProjectView)
    requires
        s.files.extra_choice is Some,
        s.files.extra_choice->0.sidecar == Some(a),
        s.files.extra_choice->0.embedded == Some(b),
    ensures
        ({
            let r = s.extra_chosen(pick);
            &&& r.files.extra_choice is None && r.canvas.view_dirty && r.doc == s.doc
            &&& pick == ExtraPick::Sidecar ==> copy_is_there(r, a) && r.files.extra_store
                == ExtraDataStore::Sidecar
            &&& pick == ExtraPick::Embedded ==> copy_is_there(r, b) && r.files.extra_store
                == ExtraDataStore::Embedded
            &&& pick == ExtraPick::Neither ==> r.project == s.project && r.light == s.light
                && r.factory == s.factory && r.files.extra_store == ExtraDataStore::Sidecar
        }),
{
    let t = s.choice_taken().touched();
    match pick {
        ExtraPick::Sidecar => copy_comes_in(t.stored_in(ExtraDataStore::Sidecar), a),
        ExtraPick::Embedded => copy_comes_in(t.stored_in(ExtraDataStore::Embedded), b),
        ExtraPick::Neither => {},
    }
}

proof fn copy_comes_in(t: AppView, p: ProjectView)
    ensures
        copy_is_there(t.project_installed(p), p),
        t.project_installed(p).files == t.files,
        t.project_installed(p).canvas == t.canvas,
        t.project_installed(p).doc == t.doc,
        p.textures is None ==> t.project_installed(p).factory.textures == t.factory.textures,
{
    crate::project::installed_project_is_there(t, p);
}

/// Opening a drawing frames it, and drops what was derived from the other one; the stages that the
/// worker timed are told to the recorder in their order while it is on.
pub proof fn opening_frames_the_drawing(
    s: AppView,
    path: Seq<char>,
    d: DocView,
    results: Option<StoredView>,
    times: LoadTimes,
    name: Seq<char>,
)
    ensures
        ({
            let r = s.loaded(path, d, None, None, results, times, name);
            &&& r.canvas.fit_due && r.canvas.view_dirty && r.canvas.index_dirty
            &&& r.canvas.intersections.len() == 0
            &&& r.selected is None && r.selection_prev.len() == 0
            &&& r.clip == s.clip && r.groups == s.groups && r.report == s.report
            &&& !s.recorder.on ==> r.recorder == s.recorder
            &&& s.recorder.on ==> {
                let e = r.recorder.events;
                let n = s.recorder.events.len() as int;
                &&& e.len() == n + 4
                &&& e[n] is ImportStage && e[n]->stage == "read file"@
                &&& e[n + 1] is ImportStage && e[n + 1]->stage == "parse doc"@
                &&& e[n + 2] is ImportStage && e[n + 2]->stage == "sidecar"@
                &&& e[n + 3] is ImportStage && e[n + 3]->dobjects == times.asset_count
            }
        }),
{
    reveal(crate::recorder::RecorderView::kept);
}

/// A drawing that declares its unit keeps it; one that declares none takes the 3D side's, as the
/// user's. Either way nothing drawn changes, the project counts as saved, and it is said.
pub proof fn opened_drawing_keeps_its_unit(
    s: AppView,
    path: Seq<char>,
    note: Option<Seq<char>>,
    label: Seq<char>,
    working: Seq<char>,
)
    ensures
        ({
            let r = s.load_finished(path, note, label, working);
            &&& !r.files.unsaved
            &&& r.doc.dobjects == s.doc.dobjects && r.doc.layers == s.doc.layers
            &&& s.doc.units.source == UnitSource::Declared ==> r.doc == s.doc
            &&& s.doc.units.source != UnitSource::Declared ==> r.doc.units.nm_per_unit
                == s.factory.units.nm_per_unit && r.doc.units.source == UnitSource::User
            &&& r.history.len() >= s.history.len() + 2
            &&& r.factory == s.factory && r.light == s.light && r.undo == s.undo
        }),
{
    reveal(AppView::said);
}

} // verus!
