//! Saving in the background: the worker behind the waiting window, autosave, the save after a
//! calculation, and what a finished save leaves behind. No two of them write at the same time.
use vstd::prelude::*;

use crate::app::{AppView, CadApp};
use crate::config::{StoredResults, StoredView};
use crate::copying::{copy_all, duplicate_all, opt_view};
use crate::files::{may_embed, BusyKind, BusyView, FileState, FileView};
use crate::light::CalcMode;
use crate::paths::{file_name, file_name_of, format_of, path_format, Format};
use crate::text::{cat2, cat3, cat5, dec, dec_text};

verus! {

/// How long after the last save an edited project is saved by itself, in seconds.
pub const AUTOSAVE_SECS: u64 = 180;

/// What came back from a worker that was asked whether it is done. A save reports how many bytes
/// it wrote.
pub enum WorkerMsg {
    Empty,
    Saved(Result<u64, String>),
    Other,
    Disconnected,
}

/// Results of a calculation that have to be written beside a drawing.
pub struct ResultsWrite {
    pub path: String,
    pub stored: StoredResults,
}

/// The model of a [`ResultsWrite`].
#[verifier::ext_equal]
pub struct ResultsWriteView {
    pub path: Seq<char>,
    pub stored: StoredView,
}

impl View for ResultsWrite {
    type V = ResultsWriteView;

    open spec fn view(&self) -> ResultsWriteView {
        ResultsWriteView { path: self.path@, stored: self.stored@ }
    }
}

impl FileView {
    /// Whether a save of any kind is under way.
    pub open spec fn saving(self) -> bool {
        self.busy is Some || self.autosave_running || self.results_running
    }

    /// Whether the waiting window's load or save can be handed to a worker. A save waits for the
    /// one after a calculation, which holds an older state of the same drawing.
    pub open spec fn may_start(self) -> bool {
        self.busy is Some && !(self.busy->0.kind == BusyKind::Save && self.results_running)
    }

    /// After the load or save has been handed to a worker.
    pub open spec fn started(self) -> FileView {
        FileView { busy: Some(BusyView { running: true, ..self.busy->0 }), ..self }
    }

    /// Whether an autosave is due: of a project that is on disk in a format that is written
    /// without another program, that differs from what is on disk, with nothing else being saved
    /// and nothing left to ask.
    pub open spec fn autosave_due(self, now: u64) -> bool {
        &&& self.autosave_on
        &&& self.busy is None
        &&& self.unsaved
        &&& self.extra_choice is None
        &&& !self.results_running
        &&& self.current_file is Some
        &&& format_of(self.current_file->0) == Some(Format::Dxf) || format_of(
            self.current_file->0,
        ) == Some(Format::Rsm)
        &&& now - self.last_autosave >= AUTOSAVE_SECS
    }

    /// After an autosave has been started.
    pub open spec fn autosave_started(self, now: u64) -> FileView {
        FileView {
            autosave_seq: self.edit_seq,
            autosave_running: true,
            last_autosave: now,
            ..self
        }
    }

    /// After an autosave has ended. What was edited while it ran is still unsaved.
    pub open spec fn autosave_ended(self, ok: bool) -> FileView {
        FileView {
            autosave_running: false,
            unsaved: self.unsaved && !(ok && self.edit_seq == self.autosave_seq),
            ..self
        }
    }
}

impl FileState {
    fn start_busy(&mut self) -> (r: Option<(BusyKind, String)>)
        ensures
            match r {
                Some(p) => old(self)@.may_start() && p.0 == old(self)@.busy->0.kind && p.1@
                    == old(self)@.busy->0.path && final(self)@ == old(self)@.started(),
                None => !old(self)@.may_start() && final(self)@ == old(self)@,
            },
    {
        let results_running = self.results_running;
        match &mut self.busy {
            Some(b) => {
                if b.kind == BusyKind::Save && results_running {
                    None
                } else {
                    b.running = true;
                    Some((b.kind, b.path.clone()))
                }
            },
            None => None,
        }
    }

    fn end_autosave(&mut self, ok: bool)
        ensures
            final(self)@ == old(self)@.autosave_ended(ok),
    {
        self.autosave_running = false;
        if ok && self.edit_seq == self.autosave_seq {
            self.unsaved = false;
        }
    }

    fn autosave_is_due(&self, now: u64) -> (r: bool)
        ensures
            r == self@.autosave_due(now),
    {
        if !self.autosave_on || self.busy.is_some() || !self.unsaved || self.extra_choice.is_some()
            || self.results_running {
            return false;
        }
        let fits = match &self.current_file {
            Some(p) => match path_format(p.as_str()) {
                Some(Format::Dxf) => true,
                Some(Format::Rsm) => true,
                _ => false,
            },
            None => false,
        };
        fits && now >= self.last_autosave && now - self.last_autosave >= AUTOSAVE_SECS
    }
}

impl AppView {
    /// After a running autosave has been asked whether it is done.
    pub open spec fn autosave_polled(self, msg: WorkerMsg) -> AppView {
        match msg {
            WorkerMsg::Empty => self,
            WorkerMsg::Saved(Ok(bytes)) => AppView {
                files: self.files.autosave_ended(true),
                ..self
            }.said("  ⤓ autosaved ("@ + dec(bytes as nat) + " bytes)"@),
            WorkerMsg::Saved(Err(e)) => AppView {
                files: self.files.autosave_ended(false),
                ..self
            }.said("  ! autosave: "@ + e@),
            WorkerMsg::Other | WorkerMsg::Disconnected => AppView {
                files: self.files.autosave_ended(false),
                ..self
            },
        }
    }

    /// Whether there is a calculation to keep: one that has a scene, rooms, and is up to date.
    pub open spec fn has_results(self) -> bool {
        self.light.results_fingerprint is Some && self.light.rooms.len() > 0
            && !self.light.results_stale
    }

    /// The current calculation as it is kept.
    pub open spec fn stored_results(self, build: Seq<char>) -> Option<StoredView> {
        if self.has_results() {
            Some(
                StoredView {
                    rooms: self.light.rooms,
                    surfaces: self.light.surfaces,
                    timings: self.light.last_timings,
                    fingerprint: self.light.results_fingerprint->0,
                    build: build,
                    express: self.light.results_mode == Some(CalcMode::Express),
                },
            )
        } else {
            None
        }
    }

    /// What is to be written beside the drawing: the current calculation, of a drawing that has a
    /// path and does not take it inside.
    pub open spec fn results_to_write(self, build: Seq<char>) -> Option<ResultsWriteView> {
        if self.files.current_file is Some && !self.embeds_current() && self.has_results() {
            Some(
                ResultsWriteView {
                    path: self.files.current_file->0,
                    stored: self.stored_results(build)->0,
                },
            )
        } else {
            None
        }
    }

    /// Whether a save that takes the calculation inside the drawing can start now.
    pub open spec fn embed_save_starts(self) -> bool {
        self.embeds_current() && !self.files.saving() && self.has_results()
    }

    /// After a save that takes the calculation inside the drawing has been asked for: started,
    /// left for later while another save runs, or dropped where there is nothing to keep inside.
    pub open spec fn embed_save_asked(self) -> AppView {
        let files = if !self.embeds_current() {
            FileView { results_due: false, ..self.files }
        } else if self.files.saving() {
            FileView { results_due: true, ..self.files }
        } else if !self.has_results() {
            self.files
        } else {
            FileView { results_due: false, results_running: true, ..self.files }
        };
        AppView { files: files, ..self }
    }

    /// After the save that follows a calculation has ended.
    pub open spec fn results_save_ended(self) -> AppView {
        AppView { files: FileView { results_running: false, ..self.files }, ..self }
    }

    /// The line that says where a calculation was saved.
    pub open spec fn embedded_text(self, bytes: u64) -> Seq<char> {
        "  calculation saved → embedded in '"@ + self.path_shown() + "' ("@ + dec(bytes as nat)
            + " bytes)"@
    }

    /// After the save that follows a calculation has been asked whether it is done.
    pub open spec fn results_polled(self, msg: WorkerMsg) -> AppView {
        match msg {
            WorkerMsg::Empty => self,
            WorkerMsg::Saved(Ok(bytes)) => self.results_save_ended().said(
                self.embedded_text(bytes),
            ),
            WorkerMsg::Saved(Err(e)) => self.results_save_ended().said(
                "  ! calculation not saved: "@ + e@,
            ),
            WorkerMsg::Other | WorkerMsg::Disconnected => self.results_save_ended(),
        }
    }

    /// The current file's path, or nothing.
    pub open spec fn path_shown(self) -> Seq<char> {
        match self.files.current_file {
            Some(p) => p,
            None => Seq::empty(),
        }
    }

    /// The state after the first part of a tick of the save that follows a calculation.
    pub open spec fn results_drained(self, msg: WorkerMsg) -> AppView {
        if self.files.results_running {
            self.results_polled(msg)
        } else {
            self
        }
    }

    /// Whether that tick then starts a save that had to wait.
    pub open spec fn retries_results(self) -> bool {
        self.files.results_due && !self.files.saving()
    }

    /// After a tick of the save that follows a calculation.
    pub open spec fn results_ticked(self, msg: WorkerMsg) -> AppView {
        let s = self.results_drained(msg);
        if s.retries_results() {
            s.embed_save_asked()
        } else {
            s
        }
    }

    /// After a save has finished. A save whose project data did not reach the disk leaves the
    /// project unsaved, says so until it is acknowledged, and closes nothing.
    pub open spec fn save_applied(
        self,
        path: Seq<char>,
        note: Seq<char>,
        failed: Option<Seq<char>>,
        now: u64,
    ) -> AppView {
        AppView {
            files: FileView {
                current_file: Some(path),
                unsaved: failed is Some,
                last_autosave: now,
                save_failure: if failed is Some {
                    failed
                } else {
                    self.files.save_failure
                },
                close_after_save: false,
                pending_close: self.files.pending_close || (self.files.close_after_save
                    && failed is None),
                ..self.files
            },
            ..self
        }.said(note)
    }
}

impl CadApp {
    /// Hands the waiting load or save to a worker: its kind and path, where it may start now.
    pub fn spawn_busy_worker(&mut self) -> (r: Option<(BusyKind, String)>)
        ensures
            match r {
                Some(p) => old(self)@.files.may_start() && p.0 == old(self)@.files.busy->0.kind
                    && p.1@ == old(self)@.files.busy->0.path && final(self)@ == (AppView {
                    files: old(self)@.files.started(),
                    ..old(self)@
                }),
                None => !old(self)@.files.may_start() && final(self)@ == old(self)@,
            },
    {
        self.files.start_busy()
    }

    /// The autosave tick, once a frame: takes what a running autosave reports, or says which file
    /// to save in the background now.
    pub fn tick_autosave(&mut self, msg: WorkerMsg, now: u64) -> (r: Option<String>)
        ensures
            final(self)@ == if old(self)@.files.autosave_running {
                old(self)@.autosave_polled(msg)
            } else if old(self)@.files.autosave_due(now) {
                AppView { files: old(self)@.files.autosave_started(now), ..old(self)@ }
            } else {
                old(self)@
            },
            opt_view(r) == if !old(self)@.files.autosave_running && old(self)@.files.autosave_due(
                now,
            ) {
                old(self)@.files.current_file
            } else {
                None
            },
    {
        if self.files.autosave_running {
            self.poll_autosave(msg);
            return None;
        }
        if !self.files.autosave_is_due(now) {
            return None;
        }
        self.files.autosave_seq = self.files.edit_seq;
        self.files.autosave_running = true;
        self.files.last_autosave = now;
        self.files.current_file.clone()
    }

    fn poll_autosave(&mut self, msg: WorkerMsg)
        ensures
            final(self)@ == old(self)@.autosave_polled(msg),
    {
        match msg {
            WorkerMsg::Empty => {},
            WorkerMsg::Saved(Ok(bytes)) => {
                self.files.end_autosave(true);
                self.say(cat3("  ⤓ autosaved (", dec_text(bytes).as_str(), " bytes)"));
            },
            WorkerMsg::Saved(Err(e)) => {
                self.files.end_autosave(false);
                self.say(cat2("  ! autosave: ", e.as_str()));
            },
            _ => {
                self.files.end_autosave(false);
            },
        }
    }

    fn results_kept(&self) -> (r: bool)
        ensures
            r == self@.has_results(),
    {
        self.light.results_fingerprint.is_some() && self.light.rooms.len() > 0
            && !self.light.results_stale
    }

    /// The current calculation as it is kept, with its surfaces and timings; nothing where there is
    /// none or it is out of date.
    pub fn current_stored_results(&self, build: &str) -> (r: Option<StoredResults>)
        ensures
            opt_view(r) == self@.stored_results(build@),
    {
        if !self.results_kept() {
            return None;
        }
        let express = match self.light.results_mode {
            Some(CalcMode::Express) => true,
            _ => false,
        };
        match self.light.results_fingerprint {
            Some(fp) => Some(
                StoredResults {
                    rooms: duplicate_all(&self.light.rooms),
                    surfaces: copy_all(&self.light.surfaces),
                    timings: copy_all(&self.light.last_timings),
                    fingerprint: fp,
                    build: String::from_str(build),
                    express: express,
                },
            ),
            None => None,
        }
    }

    /// What has to be written beside the drawing to keep the current calculation.
    pub fn save_light_results(&self, build: &str) -> (r: Option<ResultsWrite>)
        ensures
            opt_view(r) == self@.results_to_write(build@),
    {
        if self.can_embed_current() {
            return None;
        }
        match &self.files.current_file {
            Some(p) => match self.current_stored_results(build) {
                Some(stored) => Some(ResultsWrite { path: p.clone(), stored: stored }),
                None => None,
            },
            None => None,
        }
    }

    /// Reports how the writing of a calculation beside its drawing went: where it is, or why not.
    pub fn light_results_written(&mut self, outcome: Result<String, String>, rooms: usize)
        ensures
            final(self)@ == match outcome {
                Ok(p) => old(self)@.said(
                    "  calculation saved → '"@ + p@ + "' ("@ + dec(rooms as nat) + " room(s))"@,
                ),
                Err(e) => old(self)@.said("  ! calculation not saved: "@ + e@),
            },
    {
        match outcome {
            Ok(p) => self.say(
                cat5(
                    "  calculation saved → '",
                    p.as_str(),
                    "' (",
                    dec_text(rooms as u64).as_str(),
                    " room(s))",
                ),
            ),
            Err(e) => self.say(cat2("  ! calculation not saved: ", e.as_str())),
        }
    }

    /// Asks for the drawing to be saved again with the calculation inside it: the path to save,
    /// where that can start now.
    pub fn save_calc_results_embedded(&mut self) -> (r: Option<String>)
        ensures
            final(self)@ == old(self)@.embed_save_asked(),
            opt_view(r) == if old(self)@.embed_save_starts() {
                old(self)@.files.current_file
            } else {
                None
            },
    {
        if !self.can_embed_current() {
            self.files.results_due = false;
            return None;
        }
        if self.files.busy.is_some() || self.files.autosave_running || self.files.results_running {
            self.files.results_due = true;
            return None;
        }
        if !self.results_kept() {
            return None;
        }
        self.files.results_due = false;
        self.files.results_running = true;
        self.files.current_file.clone()
    }

    fn end_results_save(&mut self)
        ensures
            final(self)@ == old(self)@.results_save_ended(),
    {
        self.files.results_running = false;
    }

    fn end_results_saying(&mut self, line: String)
        ensures
            final(self)@ == old(self)@.results_save_ended().said(line@),
    {
        self.end_results_save();
        self.say(line);
    }

    fn poll_results(&mut self, msg: WorkerMsg)
        ensures
            final(self)@ == old(self)@.results_polled(msg),
    {
        match msg {
            WorkerMsg::Empty => {},
            WorkerMsg::Saved(Ok(bytes)) => {
                let line = self.embedded_line(bytes);
                self.end_results_saying(line);
            },
            WorkerMsg::Saved(Err(e)) => {
                self.end_results_saying(cat2("  ! calculation not saved: ", e.as_str()));
            },
            _ => self.end_results_save(),
        }
    }

    fn embedded_line(&self, bytes: u64) -> (r: String)
        ensures
            r@ == self@.embedded_text(bytes),
    {
        let path = match &self.files.current_file {
            Some(p) => p.clone(),
            None => String::new(),
        };
        cat5(
            "  calculation saved → embedded in '",
            path.as_str(),
            "' (",
            dec_text(bytes).as_str(),
            " bytes)",
        )
    }

    /// The tick of the save that follows a calculation: takes what it reports, and starts the one
    /// that had to wait as soon as no other save runs.
    pub fn tick_results_save(&mut self, msg: WorkerMsg) -> (r: Option<String>)
        ensures
            final(self)@ == old(self)@.results_ticked(msg),
            opt_view(r) == if old(self)@.results_drained(msg).retries_results()
                && old(self)@.results_drained(msg).embed_save_starts() {
                old(self)@.results_drained(msg).files.current_file
            } else {
                None
            },
    {
        if self.files.results_running {
            self.poll_results(msg);
        }
        if self.files.results_due && self.files.busy.is_none() && !self.files.autosave_running
            && !self.files.results_running {
            return self.save_calc_results_embedded();
        }
        None
    }

    /// Takes a finished save over: where the project now is, whether anything is left unsaved, and
    /// whether the application may close. What it returns has still to be written beside the
    /// drawing.
    pub fn apply_saved(
        &mut self,
        path: &str,
        note: String,
        simlux_failed: Option<String>,
        now: u64,
        build: &str,
    ) -> (r: Option<ResultsWrite>)
        ensures
            final(self)@ == old(self)@.save_applied(path@, note@, opt_view(simlux_failed), now),
            opt_view(r) == final(self)@.results_to_write(build@),
    {
        self.files.take_over(path, simlux_failed, now);
        self.say(note);
        self.save_light_results(build)
    }
}

impl FileState {
    fn take_over(&mut self, path: &str, failed: Option<String>, now: u64)
        ensures
            final(self)@ == (FileView {
                current_file: Some(path@),
                unsaved: failed is Some,
                last_autosave: now,
                save_failure: if failed is Some {
                    opt_view(failed)
                } else {
                    old(self)@.save_failure
                },
                close_after_save: false,
                pending_close: old(self)@.pending_close || (old(self)@.close_after_save
                    && failed is None),
                ..old(self)@
            }),
    {
        self.current_file = Some(String::from_str(path));
        self.unsaved = failed.is_some();
        self.last_autosave = now;
        if self.close_after_save && failed.is_none() {
            self.pending_close = true;
        }
        self.close_after_save = false;
        if failed.is_some() {
            self.save_failure = failed;
        }
    }
}

/// What is to be done about a save that failed, once the user asks for it again.
pub enum RetrySave {
    Nothing,
    Armed,
    SaveNow(String),
}

impl AppView {
    /// After the user has asked for a failed save again. The one that takes the project data
    /// inside goes the normal way; the other writes the drawing at once.
    pub open spec fn save_retried(self, now: u64) -> AppView {
        let s = AppView { files: FileView { save_failure: None, ..self.files }, ..self };
        match self.files.current_file {
            Some(p) => if self.embeds_current() {
                s.save_armed(p, now)
            } else {
                s
            },
            None => self,
        }
    }

    /// After the question whether to close without saving has been answered with a save.
    pub open spec fn save_and_close_asked(self, now: u64) -> AppView {
        AppView {
            files: FileView { close_confirm: false, close_after_save: true, ..self.files },
            ..self
        }.save_current_armed(now)
    }
}

impl CadApp {
    /// Asks for a failed save again.
    pub fn retry_save(&mut self, now: u64) -> (r: RetrySave)
        ensures
            final(self)@ == old(self)@.save_retried(now),
            match r {
                RetrySave::Nothing => old(self)@.files.current_file is None,
                RetrySave::Armed => old(self)@.embeds_current(),
                RetrySave::SaveNow(p) => old(self)@.files.current_file == Some(p@)
                    && !old(self)@.embeds_current(),
            },
    {
        match self.files.current_file.clone() {
            Some(p) => {
                let embeds = may_embed(self.files.extra_store, p.as_str());
                self.dismiss_save_failure();
                if embeds {
                    self.do_save(p.as_str(), now);
                    RetrySave::Armed
                } else {
                    RetrySave::SaveNow(p)
                }
            },
            None => RetrySave::Nothing,
        }
    }

    /// Takes note that the user has seen that a save failed. The project stays unsaved.
    pub fn dismiss_save_failure(&mut self)
        ensures
            final(self)@ == old(self)@.failure_dismissed(),
    {
        self.files.save_failure = None;
    }

    /// The name of the drawing in the question whether to close without saving.
    pub fn close_confirm_name(&self) -> (r: String)
        ensures
            r@ == match self@.files.current_file {
                Some(p) => file_name(p),
                None => "this drawing"@,
            },
    {
        match &self.files.current_file {
            Some(p) => String::from_str(file_name_of(p.as_str())),
            None => String::from_str("this drawing"),
        }
    }

    /// Drops the question whether to close: the application stays open.
    pub fn cancel_close(&mut self)
        ensures
            final(self)@ == old(self)@.close_cancelled(),
    {
        self.files.close_confirm = false;
        self.files.close_after_save = false;
    }

    /// Closes without saving.
    pub fn close_without_saving(&mut self)
        ensures
            final(self)@ == old(self)@.closed_unsaved(),
    {
        self.files.close_confirm = false;
        self.files.pending_close = true;
    }

    /// Saves, and closes once the save is on disk.
    pub fn save_and_close(&mut self, now: u64)
        ensures
            final(self)@ == old(self)@.save_and_close_asked(now),
    {
        self.files.close_confirm = false;
        self.files.close_after_save = true;
        self.do_save_current(now);
    }

    /// How far the waiting window's bar is, in thousandths of its estimate: it never looks empty
    /// and never looks done.
    pub fn busy_fraction(&self, now: u64) -> (r: u64)
        requires
            self@.files.busy is Some,
        ensures
            r == busy_thousandths(self@.files.busy->0, now),
    {
        match &self.files.busy {
            Some(b) => {
                let est: u64 = if b.est_ms > 300 {
                    b.est_ms
                } else {
                    300
                };
                let elapsed: u64 = if now > b.started {
                    now - b.started
                } else {
                    0
                };
                let f: u128 = elapsed as u128 * 1000 / est as u128;
                if f < 50 {
                    50
                } else if f > 950 {
                    950
                } else {
                    f as u64
                }
            },
            None => 0,
        }
    }

    /// What the waiting window says of how long it takes.
    pub fn busy_text(&self) -> (r: String)
        requires
            self@.files.busy is Some,
        ensures
            r@ == "about "@ + dec(busy_seconds(self@.files.busy->0)) + " second(s) — please wait"@,
    {
        let secs: u64 = match &self.files.busy {
            Some(b) => {
                let ms: u128 = if b.est_ms > 500 {
                    b.est_ms as u128
                } else {
                    500
                };
                ((ms + 500) / 1000) as u64
            },
            None => 1,
        };
        cat3("about ", dec_text(secs).as_str(), " second(s) — please wait")
    }
}

/// The seconds that a load or save is expected to take: at least half a second, to the nearest
/// whole one.
pub open spec fn busy_seconds(b: BusyView) -> nat {
    ((if b.est_ms > 500 {
        b.est_ms as int
    } else {
        500
    } + 500) / 1000) as nat
}

/// How much of its estimate a load or save has taken, in thousandths, kept between 50 and 950.
pub open spec fn busy_thousandths(b: BusyView, now: u64) -> int {
    let est = if b.est_ms > 300 {
        b.est_ms
    } else {
        300
    };
    let elapsed = if now > b.started {
        now - b.started
    } else {
        0
    };
    let f = elapsed * 1000 / (est as int);
    if f < 50 {
        50
    } else if f > 950 {
        950
    } else {
        f
    }
}

/// An autosave, and the save that follows a calculation, never start beside another save, and
/// neither does a save of the waiting window beside the one that follows a calculation.
pub proof fn one_save_at_a_time(s: AppView, msg: WorkerMsg, now: u64)
    ensures
        s.files.autosave_due(now) && !s.files.autosave_running ==> !s.files.saving(),
        s.embed_save_starts() ==> !s.files.saving(),
        s.files.may_start() && s.files.busy->0.kind == BusyKind::Save ==> !s.files.results_running,
{
}

/// What is edited while an autosave runs stays unsaved when it ends: the drawing, the fixtures, both
/// or the 3D model, and what undo or redo brings back. Without an edit, what was saved is saved.
pub proof fn autosave_keeps_later_edits(s: AppView, now: u64, msg: WorkerMsg)
    requires
        s.files.unsaved,
    ensures
        ({
            let run = AppView { files: s.files.autosave_started(now), ..s };
            &&& run.doc_recorded().autosave_polled(msg).files.unsaved
            &&& run.lights_recorded().autosave_polled(msg).files.unsaved
            &&& run.both_recorded().autosave_polled(msg).files.unsaved
            &&& run.factory_recorded().autosave_polled(msg).files.unsaved
            &&& s.undo.undo_stack.len() > 0 ==> run.undone().autosave_polled(msg).files.unsaved
            &&& s.undo.redo_stack.len() > 0 ==> run.redone().autosave_polled(msg).files.unsaved
            &&& msg matches WorkerMsg::Saved(Ok(_)) ==> !run.autosave_polled(msg).files.unsaved
            &&& !(msg matches WorkerMsg::Saved(Ok(_))) ==> run.autosave_polled(msg).files.unsaved
        }),
{
    reveal(AppView::said);
    crate::undo::every_step_counts(AppView { files: s.files.autosave_started(now), ..s });
}

/// A project counts as saved only when all of it reached the disk, and a save that was asked for to
/// close the application closes it then, and only then.
pub proof fn half_a_save_is_no_save(
    s: AppView,
    path: Seq<char>,
    note: Seq<char>,
    failed: Option<Seq<char>>,
    now: u64,
)
    ensures
        s.save_applied(path, note, failed, now).files.unsaved <==> failed is Some,
        failed is Some ==> s.save_applied(path, note, failed, now).files.save_failure == failed,
        !s.files.pending_close ==> (s.save_applied(path, note, failed, now).files.pending_close
            <==> s.files.close_after_save && failed is None),
        !s.save_applied(path, note, failed, now).files.close_after_save,
{
    reveal(AppView::said);
}

/// A finished save is where the project now is: the next save goes there without asking, under any
/// state of the browser, unless a question about the project data is open. What was drawn and
/// modelled stays as it is, and the save counts as the last one.
pub proof fn saved_project_has_its_path(
    s: AppView,
    path: Seq<char>,
    note: Seq<char>,
    failed: Option<Seq<char>>,
    now: u64,
    later: u64,
)
    ensures
        ({
            let r = s.save_applied(path, note, failed, now);
            let next = r.save_current_armed(later);
            &&& r.files.current_file == Some(path)
            &&& r.files.last_autosave == now
            &&& r.doc == s.doc && r.factory == s.factory && r.light == s.light && r.undo == s.undo
            &&& r.dialog == s.dialog
            &&& r.history.len() == s.history.len() + 1 && r.history.last() == note
            &&& r.files.extra_store == s.files.extra_store
            &&& s.files.extra_choice is None ==> {
                &&& next.files.busy is Some
                &&& next.files.busy->0.path == path
                &&& next.files.busy->0.kind == BusyKind::Save
                &&& next.dialog == s.dialog
                &&& next.files.current_file == Some(path)
            }
        }),
{
    reveal(AppView::said);
}

/// A save or an open that is asked for waits for its worker with the path it was asked for; nothing
/// else of the project changes, and nothing runs yet.
pub proof fn armed_work_has_its_path(s: AppView, path: Seq<char>, now: u64)
    ensures
        ({
            let r = s.open_armed(path, now);
            &&& r.files.busy is Some && r.files.busy->0.path == path
            &&& r.files.busy->0.kind == BusyKind::Load && !r.files.busy->0.running
            &&& r.files.busy->0.started == now && r.files.busy->0.est_ms >= 300
            &&& r.files.busy->0.est_ms >= s.files.last_load_ms
            &&& r.doc == s.doc && r.files.current_file == s.files.current_file
            &&& r.files.may_start()
        }),
        s.files.extra_choice is None ==> {
            let r = s.save_armed(path, now);
            &&& r.files.busy is Some && r.files.busy->0.path == path
            &&& r.files.busy->0.kind == BusyKind::Save && !r.files.busy->0.running
            &&& r.files.busy->0.started == now && r.files.busy->0.est_ms >= 200
            &&& r.files.busy->0.est_ms >= s.files.last_save_ms
            &&& r.doc == s.doc && r.files.current_file == s.files.current_file
            &&& !s.files.results_running ==> r.files.may_start()
        },
{
}

/// A project without a file asks for one when it is saved: the browser opens for a save, and no save
/// waits. One with a file opens no browser.
pub proof fn unnamed_project_asks_for_a_name(s: AppView, now: u64)
    ensures
        s.files.current_file is None ==> {
            let r = s.save_current_armed(now);
            &&& r.dialog.file_dialog is Some
            &&& r.dialog.file_dialog->0.mode == crate::dialog::FileDialogMode::Save
            &&& r.files == s.files && r.doc == s.doc
        },
        s.files.current_file is Some ==> s.save_current_armed(now).dialog == s.dialog,
{
    reveal(AppView::said);
}

/// An autosave is due only for a project that is on disk and differs from it, that is not being
/// loaded or saved, and not sooner than the interval after the last save; it saves to the project's
/// own file, and never through another program.
pub proof fn autosave_saves_what_needs_it(s: FileView, now: u64)
    requires
        s.autosave_due(now),
    ensures
        s.autosave_on && s.unsaved && s.current_file is Some,
        s.busy is None && !s.results_running && s.extra_choice is None,
        now >= s.last_autosave + AUTOSAVE_SECS,
        format_of(s.current_file->0) != Some(Format::Dwg),
        s.autosave_started(now).autosave_running,
        s.autosave_started(now).current_file == s.current_file,
        s.autosave_started(now).unsaved,
        !s.autosave_started(now).autosave_due(now),
{
}

/// An autosave that ended runs no longer, whatever it reported, and leaves the project where it was;
/// one that is still running changes nothing.
pub proof fn ended_autosave_runs_no_longer(s: AppView, msg: WorkerMsg)
    ensures
        msg is Empty ==> s.autosave_polled(msg) == s,
        !(msg is Empty) ==> !s.autosave_polled(msg).files.autosave_running,
        s.autosave_polled(msg).doc == s.doc && s.autosave_polled(msg).files.current_file
            == s.files.current_file && s.autosave_polled(msg).files.edit_seq == s.files.edit_seq,
        !s.files.unsaved ==> !s.autosave_polled(msg).files.unsaved,
        msg is Saved ==> s.autosave_polled(msg).history.len() == s.history.len() + 1,
{
    reveal(AppView::said);
}

/// What is kept of a calculation is the calculation: its rooms, its surfaces and timings, the scene
/// it belongs to, the build, and whether it was the quick one. Nothing is kept of one that is out of
/// date, or that has no room or no scene.
pub proof fn kept_results_are_the_current_ones(s: AppView, build: Seq<char>)
    ensures
        s.stored_results(build) is Some <==> s.light.results_fingerprint is Some
            && s.light.rooms.len() > 0 && !s.light.results_stale,
        s.stored_results(build) matches Some(k) ==> {
            &&& k.rooms == s.light.rooms && k.surfaces == s.light.surfaces
            &&& k.timings == s.light.last_timings
            &&& s.light.results_fingerprint == Some(k.fingerprint)
            &&& k.build == build
            &&& k.express <==> s.light.results_mode == Some(CalcMode::Express)
        },
        s.results_to_write(build) matches Some(w) ==> {
            &&& s.files.current_file == Some(w.path)
            &&& s.stored_results(build) == Some(w.stored)
        },
        s.results_to_write(build) is Some ==> !s.embed_save_starts(),
{
}

/// A save that takes the calculation inside is started once, or waits while another one runs; where
/// the drawing cannot carry it nothing waits.
pub proof fn embedded_save_starts_or_waits(s: AppView)
    ensures
        s.embed_save_starts() ==> s.embed_save_asked().files.results_running
            && !s.embed_save_asked().files.results_due && !s.embed_save_asked().embed_save_starts(),
        s.embeds_current() && s.files.saving() ==> s.embed_save_asked().files.results_due
            && s.embed_save_asked().files.results_running == s.files.results_running,
        !s.embeds_current() ==> !s.embed_save_asked().files.results_due
            && s.embed_save_asked().files.results_running == s.files.results_running,
        s.embed_save_asked().doc == s.doc && s.embed_save_asked().files.current_file
            == s.files.current_file && s.embed_save_asked().light == s.light,
{
}

/// The question whether to close: a save that is asked for there closes once it is on disk, and
/// saves the current file.
pub proof fn closing_waits_for_its_save(s: AppView, now: u64, note: Seq<char>, path: Seq<char>)
    requires
        s.files.extra_choice is None,
        s.files.current_file == Some(path),
    ensures
        ({
            let r = s.save_and_close_asked(now);
            &&& !r.files.close_confirm && r.files.close_after_save
            &&& r.files.busy is Some && r.files.busy->0.path == path
            &&& r.files.pending_close == s.files.pending_close
            &&& r.save_applied(path, note, None, now).files.pending_close
            &&& !r.save_applied(path, note, None, now).files.unsaved
        }),
{
    reveal(AppView::said);
}

/// A failed save that is asked for again is no longer complained of, and writes the current file.
pub proof fn retried_save_writes_the_same_file(s: AppView, now: u64, path: Seq<char>)
    requires
        s.files.current_file == Some(path),
    ensures
        ({
            let r = s.save_retried(now);
            &&& r.files.save_failure is None && r.files.current_file == Some(path)
            &&& r.files.unsaved == s.files.unsaved
            &&& s.embeds_current() && s.files.extra_choice is None ==> r.files.busy is Some
                && r.files.busy->0.path == path && r.files.busy->0.kind == BusyKind::Save
            &&& !s.embeds_current() ==> r.files.busy == s.files.busy
        }),
{
    reveal(AppView::said);
}

/// Saving the results runs until the worker has answered, and no longer; nothing of the project
/// changes, nor whether it is saved.
pub proof fn ended_results_save_runs_no_longer(s: AppView, msg: WorkerMsg)
    ensures
        ({
            let t = s.results_ticked(msg);
            &&& t.doc == s.doc && t.light == s.light && t.factory == s.factory && t.undo == s.undo
            &&& t.files.unsaved == s.files.unsaved && t.files.current_file == s.files.current_file
            &&& t.files.busy == s.files.busy && t.files.edit_seq == s.files.edit_seq
            &&& s.files.results_running && msg is Empty ==> t == s
            &&& s.files.results_running && !(msg is Empty) && !s.files.results_due
                ==> !t.files.results_running
            &&& !s.files.results_running && !s.files.results_due ==> t == s
            &&& s.files.results_due && s.files.busy is Some ==> t.files.results_due
            &&& s.files.results_due && !s.files.saving() && s.embeds_current() && s.has_results()
                ==> t.files.results_running && !t.files.results_due
        }),
{
    reveal(AppView::said);
}

/// The bar of a load or a save never stands still at an end: it shows between a twentieth and nineteen
/// twentieths, never goes back, and is half way when half the expected time is over.
pub proof fn bar_moves_forward(b: BusyView, now: u64, later: u64)
    ensures
        50 <= busy_thousandths(b, now) <= 950,
        now <= later ==> busy_thousandths(b, now) <= busy_thousandths(b, later),
        b.est_ms >= 300 && now >= b.started && 2 * (now - b.started) == b.est_ms ==> busy_thousandths(
            b,
            now,
        ) == 500,
        b.est_ms >= 300 && now >= b.started && now - b.started >= b.est_ms ==> busy_thousandths(b, now)
            == 950,
{
    let est = (if b.est_ms > 300 {
        b.est_ms
    } else {
        300
    }) as int;
    let e = (if now > b.started {
        now - b.started
    } else {
        0
    }) * 1000;
    let f = (if later > b.started {
        later - b.started
    } else {
        0
    }) * 1000;
    if now <= later {
        vstd::arithmetic::div_mod::lemma_div_is_ordered(e, f, est);
    }
    if b.est_ms >= 300 && now >= b.started {
        if 2 * (now - b.started) == b.est_ms {
            assert(e == 500 * est);
            vstd::arithmetic::div_mod::lemma_div_multiples_vanish(500, est);
            assert(est * 500 == 500 * est);
        }
        if now - b.started >= b.est_ms {
            assert(e >= 1000 * est);
            vstd::arithmetic::div_mod::lemma_div_is_ordered(est * 1000, e, est);
            vstd::arithmetic::div_mod::lemma_div_multiples_vanish(1000, est);
        }
    }
}

/// The seconds that are shown are the nearest to those expected, and one at least.
pub proof fn expected_seconds_are_near(b: BusyView)
    ensures
        busy_seconds(b) >= 1,
        b.est_ms >= 500 ==> -500 < busy_seconds(b) * 1000 - b.est_ms <= 500,
{
}

/// An unsaved project with a DXF or RSM file is saved by itself once the time is over, while nothing
/// else is saved, loaded or asked.
pub proof fn unsaved_project_is_autosaved(s: FileView, now: u64)
    requires
        s.autosave_on,
        s.unsaved,
        s.busy is None,
        !s.results_running,
        s.extra_choice is None,
        s.current_file is Some,
        now >= s.last_autosave + AUTOSAVE_SECS,
    ensures
        s.autosave_due(now) <==> format_of(s.current_file->0) == Some(Format::Dxf) || format_of(
            s.current_file->0,
        ) == Some(Format::Rsm),
        s.autosave_started(now).last_autosave == now,
        s.autosave_started(now).autosave_seq == s.edit_seq,
        s.autosave_started(now).edit_seq == s.edit_seq,
{
}

impl AppView {
    /// After the note on a failed save has been put away.
    pub open spec fn failure_dismissed(self) -> AppView {
        AppView { files: FileView { save_failure: None, ..self.files }, ..self }
    }

    /// After the user has gone back to the drawing instead of closing.
    pub open spec fn close_cancelled(self) -> AppView {
        AppView {
            files: FileView { close_confirm: false, close_after_save: false, ..self.files },
            ..self
        }
    }

    /// After the user has chosen to close without a save.
    pub open spec fn closed_unsaved(self) -> AppView {
        AppView {
            files: FileView { close_confirm: false, pending_close: true, ..self.files },
            ..self
        }
    }
}

/// Going back to the drawing takes the question away, and no save closes the application after that.
pub proof fn cancelled_close_closes_nothing(
    s: AppView,
    path: Seq<char>,
    note: Seq<char>,
    failed: Option<Seq<char>>,
    now: u64,
)
    ensures
        !s.close_cancelled().files.close_confirm,
        s.close_cancelled().files.pending_close == s.files.pending_close,
        s.close_cancelled().save_applied(path, note, failed, now).files.pending_close
            == s.files.pending_close,
        s.close_cancelled().files.unsaved == s.files.unsaved,
        s.close_cancelled().files.busy == s.files.busy,
        s.close_cancelled().doc == s.doc,
{
    reveal(AppView::said);
}

/// Closing without a save closes at once and saves nothing: what is unsaved stays so.
pub proof fn closing_unsaved_saves_nothing(s: AppView)
    ensures
        s.closed_unsaved().files.pending_close,
        !s.closed_unsaved().files.close_confirm,
        s.closed_unsaved().files.unsaved == s.files.unsaved,
        s.closed_unsaved().files.busy == s.files.busy,
        s.closed_unsaved().files.current_file == s.files.current_file,
        s.closed_unsaved().doc == s.doc,
{
}

/// Putting the note on a failed save away does not save: the project stays unsaved under its path.
pub proof fn dismissed_failure_stays_unsaved(
    s: AppView,
    path: Seq<char>,
    note: Seq<char>,
    why: Seq<char>,
    now: u64,
)
    ensures
        ({
            let r = s.save_applied(path, note, Some(why), now);
            &&& r.files.save_failure == Some(why) && r.files.unsaved
            &&& r.failure_dismissed().files.save_failure is None
            &&& r.failure_dismissed().files.unsaved
            &&& r.failure_dismissed().files.current_file == Some(path)
            &&& r.failure_dismissed().files.busy == s.files.busy
            &&& r.failure_dismissed().doc == s.doc
        }),
{
    reveal(AppView::said);
}

/// Work that is armed is started once nothing stands in its way: a load always, and a save while no
/// results are being saved. Starting it keeps what it is of.
pub proof fn armed_work_is_started(f: FileView)
    requires
        f.busy is Some,
    ensures
        f.busy->0.kind == BusyKind::Load ==> f.may_start(),
        f.busy->0.kind == BusyKind::Save ==> (f.may_start() <==> !f.results_running),
        f.started().busy is Some,
        f.started().busy->0.running,
        f.started().busy->0.path == f.busy->0.path,
        f.started().busy->0.kind == f.busy->0.kind,
        f.started().busy->0.started == f.busy->0.started,
        f.started().unsaved == f.unsaved,
        f.started().current_file == f.current_file,
{
}

/// Results that are current are written beside the drawing, under its path, unless the drawing carries
/// them itself.
pub proof fn current_results_are_written_beside(s: AppView, build: Seq<char>)
    ensures
        s.results_to_write(build) is Some <==> s.files.current_file is Some && !s.embeds_current()
            && s.light.results_fingerprint is Some && s.light.rooms.len() > 0 && !s.light.results_stale,
        s.results_to_write(build) matches Some(w) ==> s.files.current_file == Some(w.path)
            && w.stored.rooms == s.light.rooms && w.stored.build == build && Some(w.stored.fingerprint)
            == s.light.results_fingerprint,
{
}

} // verus!
