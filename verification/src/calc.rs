//! Calculations: starting one, taking its outcome over, and telling whether what is shown still
//! describes the scene.
use vstd::prelude::*;

use crate::app::{AppView, CadApp, CanvasView};
use crate::config::{StoredResults, StoredView};
use crate::copying::{opt_view, views};
use crate::files::ExtraDataStore;
use crate::light::{CalcMode, LightState, LightView, LitRoom};
use crate::recorder::{DbgEvent, EventView, RecorderView};
use crate::saving::ResultsWrite;
use crate::text::{cat2, cat3, cat4, cat5, cat7, dec, dec_text};
use crate::units::{round_to, rounded, thousandths_text, write_thousandths};

verus! {

/// How long one answer to whether the results are out of date is good for, in milliseconds.
pub const STALE_CHECK_INTERVAL_MS: u64 = 250;

/// What a finished calculation leaves: the rooms, the scene they belong to and how they were
/// computed, where it computed any, the line for the panel, the seconds it took, written out, and
/// the same in microseconds.
pub struct CalcOutcome {
    pub cancelled: bool,
    pub results: Option<CalcResults>,
    pub message: String,
    pub seconds: String,
    pub took_us: u64,
}

/// What a calculation computed: the rooms, the records of its surfaces and of how long its parts
/// took, the scene, how it was run, and whether the overlay shows it.
pub struct CalcResults {
    pub rooms: Vec<LitRoom>,
    pub surfaces: Vec<u64>,
    pub timings: Vec<u64>,
    pub fingerprint: u64,
    pub mode: CalcMode,
    pub overlay: bool,
}

/// A calculation that is ready to run: the label of its mode, the triangles of the scene, its steps,
/// and the size of a cell of its grids in micrometres.
pub struct CalcJob {
    pub mode: String,
    pub tris: usize,
    pub steps: usize,
    pub cell: i64,
}

/// Why there is nothing to calculate, as the panel says it, and the triangles that the model has.
pub struct CalcRefusal {
    pub message: String,
    pub model_tris: usize,
}

/// What came back from the calculation when it was asked whether it is done.
pub enum CalcMsg {
    Pending,
    Done(CalcOutcome),
    Lost,
}

/// What has to be saved after a calculation.
pub enum SaveWork {
    Nothing,
    Embed(String),
    Beside(ResultsWrite),
}

/// What the recorder keeps of a calculation that was asked for while one runs.
pub open spec fn running_detail() -> Seq<char> {
    "one is ALREADY RUNNING — a second would fight the first for every core. A progress bar should be up; if there is none, this is the one to chase."@
}

/// What the recorder keeps of a calculation that ended without an outcome.
pub open spec fn lost_detail() -> Seq<char> {
    "the worker thread ended WITHOUT sending a result — a panic inside the engine. Its message went to stderr, which a dump cannot see; run from a console to catch it."@
}

/// What the recorder keeps of a calculation for which there is nothing to calculate.
pub open spec fn refused_detail(rooms: nat, factory_rooms: nat, tris: nat) -> Seq<char> {
    ("`prepare` built no job — nothing to calculate. rooms="@ + dec(rooms) + " factory_rooms="@
        + dec(factory_rooms)) + " model_tris="@ + dec(tris)
}

/// Metres with three decimals, from micrometres.
pub open spec fn metres3(v: i64) -> Seq<char> {
    if v < 0 {
        "-"@ + thousandths_text(rounded(-v as nat, 1000))
    } else {
        thousandths_text(rounded(v as nat, 1000))
    }
}

/// What the recorder keeps of a calculation that was started.
pub open spec fn started_detail(j: CalcJob, plane: i64) -> Seq<char> {
    "started — mode="@ + j.mode@ + " scene="@ + dec(j.tris as nat) + " tris steps="@ + dec(
        j.steps as nat,
    ) + (" cell="@ + metres3(j.cell) + " m plane_h="@ + metres3(plane) + " m"@)
}

/// Yes or no, as the recorder writes it.
pub open spec fn truth(b: bool) -> Seq<char> {
    if b {
        "true"@
    } else {
        "false"@
    }
}

/// What the recorder keeps of what a calculation left.
pub open spec fn ended_detail(l: LightView) -> Seq<char> {
    ("rooms="@ + dec(l.rooms.len()) + " grid="@ + truth(l.has_grid) + " plane="@) + (truth(
        l.has_plane,
    ) + " overlay="@ + truth(l.show_overlay) + " stale="@ + truth(l.results_stale))
}

fn write_metres3(v: i64) -> (r: String)
    ensures
        r@ == metres3(v),
{
    if v < 0 {
        cat2("-", write_thousandths(round_to((-(v as i128)) as u128, 1000)).as_str())
    } else {
        write_thousandths(round_to(v as u128, 1000))
    }
}

fn write_started(j: &CalcJob, plane: i64) -> (r: String)
    ensures
        r@ == started_detail(*j, plane),
{
    let tail = cat5(
        " cell=",
        write_metres3(j.cell).as_str(),
        " m plane_h=",
        write_metres3(plane).as_str(),
        " m",
    );
    cat7(
        "started — mode=",
        j.mode.as_str(),
        " scene=",
        dec_text(j.tris as u64).as_str(),
        " tris steps=",
        dec_text(j.steps as u64).as_str(),
        tail.as_str(),
    )
}

fn write_truth(b: bool) -> (r: &'static str)
    ensures
        r@ == truth(b),
{
    if b {
        "true"
    } else {
        "false"
    }
}

impl LightView {
    /// Whether the results have to be compared with the scene again: there are some, nothing is
    /// being computed, and the last answer is old.
    pub open spec fn staleness_due(self, now: u64) -> bool {
        &&& self.results_fingerprint is Some
        &&& !self.calc_running
        &&& self.stale_checked is Some ==> now - self.stale_checked->0 >= STALE_CHECK_INTERVAL_MS
    }

    /// After results have been compared with a scene.
    pub open spec fn staleness_checked(self, now: u64, scene: Option<u64>) -> LightView {
        LightView {
            stale_checked: Some(now),
            results_stale: self.results_fingerprint != scene,
            ..self
        }
    }

    /// After a stored calculation has been taken over.
    pub open spec fn results_restored(self, s: StoredView) -> LightView {
        LightView {
            rooms: s.rooms,
            surfaces: s.surfaces,
            last_timings: s.timings,
            has_grid: s.rooms.len() > 0,
            has_plane: s.rooms.len() > 0,
            results_fingerprint: Some(s.fingerprint),
            results_stale: false,
            results_mode: Some(
                if s.express {
                    CalcMode::Express
                } else {
                    CalcMode::Full
                },
            ),
            ..self
        }
    }

    /// After a calculation has been started.
    pub open spec fn calc_begun(self, selected: Option<usize>, now: u64) -> LightView {
        LightView {
            calc_running: true,
            calc_selected: selected,
            calc_started: Some(now),
            last_msg: "Calculating…"@,
            ..self
        }
    }

    /// After the outcome of a calculation has been taken over.
    pub open spec fn calc_ended(self, out: CalcOutcome) -> LightView {
        let s = LightView {
            calc_running: false,
            calc_started: None,
            last_msg: out.message@,
            ..self
        };
        match out.results {
            Some(r) => LightView {
                rooms: views(r.rooms@),
                surfaces: r.surfaces@,
                last_timings: r.timings@,
                has_grid: r.rooms@.len() > 0,
                has_plane: r.rooms@.len() > 0,
                show_overlay: r.overlay,
                results_fingerprint: Some(r.fingerprint),
                results_stale: false,
                results_mode: Some(r.mode),
                ..s
            },
            None => s,
        }
    }

    /// After a calculation has ended without an outcome.
    pub open spec fn calc_lost(self) -> LightView {
        LightView {
            calc_running: false,
            calc_started: None,
            last_msg: "The calculation stopped unexpectedly."@,
            ..self
        }
    }
}

impl LightState {
    fn staleness_is_due(&self, now: u64) -> (r: bool)
        ensures
            r == self@.staleness_due(now),
    {
        if self.results_fingerprint.is_none() || self.calc_running {
            return false;
        }
        match self.stale_checked {
            Some(t) => now >= t && now - t >= STALE_CHECK_INTERVAL_MS,
            None => true,
        }
    }

    fn check_staleness(&mut self, now: u64, scene: Option<u64>) -> (r: bool)
        ensures
            final(self)@ == old(self)@.staleness_checked(now, scene),
            r == (final(self)@.results_stale != old(self)@.results_stale),
    {
        let before = self.results_stale;
        let stale = match (self.results_fingerprint, scene) {
            (Some(a), Some(b)) => a != b,
            (None, None) => false,
            _ => true,
        };
        self.stale_checked = Some(now);
        self.results_stale = stale;
        before != stale
    }

    fn restore(&mut self, s: StoredResults)
        ensures
            final(self)@ == old(self)@.results_restored(s@),
    {
        self.has_grid = s.rooms.len() > 0;
        self.has_plane = s.rooms.len() > 0;
        self.rooms = s.rooms;
        self.surfaces = s.surfaces;
        self.last_timings = s.timings;
        self.results_fingerprint = Some(s.fingerprint);
        self.results_stale = false;
        self.results_mode = Some(
            if s.express {
                CalcMode::Express
            } else {
                CalcMode::Full
            },
        );
    }

    fn begin_calc(&mut self, selected: Option<usize>, now: u64)
        ensures
            final(self)@ == old(self)@.calc_begun(selected, now),
    {
        self.calc_running = true;
        self.calc_selected = selected;
        self.calc_started = Some(now);
        self.last_msg = String::from_str("Calculating…");
    }

    fn end_calc(&mut self, out: CalcOutcome)
        ensures
            final(self)@ == old(self)@.calc_ended(out),
    {
        self.calc_running = false;
        self.calc_started = None;
        self.last_msg = out.message;
        if let Some(r) = out.results {
            self.has_grid = r.rooms.len() > 0;
            self.has_plane = r.rooms.len() > 0;
            self.rooms = r.rooms;
            self.surfaces = r.surfaces;
            self.last_timings = r.timings;
            self.show_overlay = r.overlay;
            self.results_fingerprint = Some(r.fingerprint);
            self.results_stale = false;
            self.results_mode = Some(r.mode);
        }
    }

    fn write_ended(&self) -> (r: String)
        ensures
            r@ == ended_detail(self@),
    {
        let head = cat5(
            "rooms=",
            dec_text(self.rooms.len() as u64).as_str(),
            " grid=",
            write_truth(self.has_grid),
            " plane=",
        );
        let tail = cat5(
            write_truth(self.has_plane),
            " overlay=",
            write_truth(self.show_overlay),
            " stale=",
            write_truth(self.results_stale),
        );
        cat2(head.as_str(), tail.as_str())
    }

    fn lose_calc(&mut self)
        ensures
            final(self)@ == old(self)@.calc_lost(),
    {
        self.calc_running = false;
        self.calc_started = None;
        self.last_msg = String::from_str("The calculation stopped unexpectedly.");
    }
}

impl AppView {
    /// After the results have been compared with the scene, where that was due.
    pub open spec fn staleness_refreshed(self, now: u64, scene: Option<u64>) -> AppView {
        if self.light.staleness_due(now) {
            let light = self.light.staleness_checked(now, scene);
            AppView {
                light: light,
                canvas: CanvasView {
                    view_dirty: self.canvas.view_dirty || light.results_stale
                        != self.light.results_stale,
                    ..self.canvas
                },
                ..self
            }
        } else {
            self
        }
    }

    /// After stored results have been offered to a scene: taken over where they belong to it, and
    /// turned down out loud where they do not.
    pub open spec fn results_offered(self, stored: Option<StoredView>, scene: Option<u64>)
        -> AppView {
        match (stored, scene) {
            (Some(s), Some(now)) => if s.fingerprint == now {
                AppView { light: self.light.results_restored(s), ..self }.said(
                    "  saved calculation restored ("@ + dec(s.rooms.len())
                        + " room(s), computed by build "@ + (if s.build.len() == 0 {
                        "?"@
                    } else {
                        s.build
                    }) + ")"@,
                )
            } else {
                self.said(
                    "  a saved calculation was found but the project has changed since — recalculate"@,
                )
            },
            _ => self,
        }
    }

    /// After the recorder has been told of something done to the lighting.
    pub open spec fn light_noted(
        self,
        op: Seq<char>,
        detail: Seq<char>,
        before: nat,
        elapsed_us: u64,
    ) -> AppView {
        self.noted(
            EventView::LightOp {
                op: op,
                detail: detail,
                fittings_before: before,
                fittings_after: self.light.luminaires.len(),
                message: self.light.last_msg,
                elapsed_us: elapsed_us,
            },
        )
    }

    /// After a calculation has been turned down because there is nothing to calculate: the panel
    /// says why.
    pub open spec fn calculation_refused(self, r: CalcRefusal) -> AppView {
        let s = AppView { light: LightView { last_msg: r.message@, ..self.light }, ..self };
        s.light_noted(
            "calculate refused"@,
            refused_detail(
                self.light.rooms.len(),
                self.factory.data.rooms.len(),
                r.model_tris as nat,
            ),
            self.light.luminaires.len(),
            0,
        )
    }

    /// After a calculation has been asked for: not while one runs, and not without a job. The
    /// recorder is told which it was.
    pub open spec fn calculation_started(
        self,
        job: Result<CalcJob, CalcRefusal>,
        selected: Option<usize>,
        now: u64,
    ) -> AppView {
        let n = self.light.luminaires.len();
        if self.light.calc_running {
            self.light_noted("calculate refused"@, running_detail(), n, 0)
        } else {
            match job {
                Err(r) => self.calculation_refused(r),
                Ok(j) => {
                    let s = self.light_noted(
                        "calculate"@,
                        started_detail(j, self.light.plane_height),
                        n,
                        0,
                    );
                    AppView { light: s.light.calc_begun(selected, now), ..s }
                },
            }
        }
    }

    /// After the outcome of a calculation has been taken over, before it is reported and saved.
    pub open spec fn outcome_applied(self, out: CalcOutcome) -> AppView {
        let s = AppView {
            light: self.light.calc_ended(out),
            canvas: CanvasView { view_dirty: true, ..self.canvas },
            ..self
        };
        s.light_noted(
            if out.cancelled {
                "calculation stopped"@
            } else {
                "calculated"@
            },
            ended_detail(s.light),
            self.light.luminaires.len(),
            out.took_us,
        )
    }

    /// After a calculation has ended without an outcome.
    pub open spec fn calculation_lost(self) -> AppView {
        let s = AppView { light: self.light.calc_lost(), ..self }.said(
            "  ! calculation thread ended without a result"@,
        );
        s.light_noted("calculation failed"@, lost_detail(), s.light.luminaires.len(), 0)
    }

    /// After the outcome of a calculation has been taken over, before it is saved.
    pub open spec fn calculation_taken(self, out: CalcOutcome) -> AppView {
        let s = self.outcome_applied(out);
        if out.cancelled {
            s
        } else {
            s.said("  calculated in "@ + out.seconds@ + " s"@)
        }
    }

    /// Whether the project data is kept inside the drawing.
    pub open spec fn keeps_inside(self) -> bool {
        self.files.extra_store == ExtraDataStore::Embedded
    }

    /// After a running calculation has been asked whether it is done.
    pub open spec fn calculation_polled(self, msg: CalcMsg) -> AppView {
        if !self.light.calc_running {
            self
        } else {
            match msg {
                CalcMsg::Pending => self,
                CalcMsg::Lost => self.calculation_lost(),
                CalcMsg::Done(out) => {
                    let s = self.calculation_taken(out);
                    if !out.cancelled && s.keeps_inside() {
                        s.embed_save_asked()
                    } else {
                        s
                    }
                },
            }
        }
    }
}

impl CadApp {
    /// Compares the results on screen with the scene as it is now, where that is due. The scene is
    /// given as the fingerprint it has.
    pub fn refresh_light_staleness(&mut self, now: u64, scene: Option<u64>)
        ensures
            final(self)@ == old(self)@.staleness_refreshed(now, scene),
    {
        if self.light.staleness_is_due(now) {
            let changed = self.light.check_staleness(now, scene);
            self.canvas.view_dirty = self.canvas.view_dirty || changed;
        }
    }

    /// Whether the results have to be compared with the scene again.
    pub fn staleness_due(&self, now: u64) -> (r: bool)
        ensures
            r == self@.light.staleness_due(now),
    {
        self.light.staleness_is_due(now)
    }

    /// Offers the calculation that was found beside the drawing to the project, once the project
    /// stands.
    pub fn restore_light_results(&mut self, beside: Option<StoredResults>, scene: Option<u64>)
        ensures
            final(self)@ == old(self)@.results_offered(opt_view(beside), scene),
    {
        self.restore_light_results_from(beside, scene);
    }

    /// Takes a stored calculation over if it still describes the scene.
    pub fn restore_light_results_from(
        &mut self,
        stored: Option<StoredResults>,
        scene: Option<u64>,
    )
        ensures
            final(self)@ == old(self)@.results_offered(opt_view(stored), scene),
    {
        if let Some(s) = stored {
            if let Some(now) = scene {
                self.offer_results(s, now);
            }
        }
    }

    fn offer_results(&mut self, s: StoredResults, now: u64)
        ensures
            final(self)@ == old(self)@.results_offered(Some(s@), Some(now)),
    {
        if s.fingerprint == now {
            let line = restored_line(&s);
            self.light.restore(s);
            self.say(line);
        } else {
            self.say(
                String::from_str(
                    "  a saved calculation was found but the project has changed since — recalculate",
                ),
            );
        }
    }

    fn note_light(&mut self, op: &str, detail: String, before: usize, elapsed_us: u64)
        ensures
            final(self)@ == old(self)@.light_noted(op@, detail@, before as nat, elapsed_us),
    {
        let after: usize = self.light.luminaires.len();
        let message = self.light.last_msg.clone();
        self.note(
            DbgEvent::LightOp {
                op: String::from_str(op),
                detail: detail,
                fittings_before: before,
                fittings_after: after,
                message: message,
                elapsed_us: elapsed_us,
            },
        );
    }

    fn refuse_calculation(&mut self, r: CalcRefusal)
        ensures
            final(self)@ == old(self)@.calculation_refused(r),
    {
        let n: usize = self.light.luminaires.len();
        let head = cat4(
            "`prepare` built no job — nothing to calculate. rooms=",
            dec_text(self.light.rooms.len() as u64).as_str(),
            " factory_rooms=",
            dec_text(self.factory.data.rooms.len() as u64).as_str(),
        );
        let detail = cat3(head.as_str(), " model_tris=", dec_text(r.model_tris as u64).as_str());
        self.light.last_msg = r.message;
        self.note_light("calculate refused", detail, n, 0);
    }

    /// Starts a calculation, unless one runs or there is nothing to calculate.
    pub fn start_calculation(
        &mut self,
        job: Result<CalcJob, CalcRefusal>,
        selected: Option<usize>,
        now: u64,
    ) -> (r: bool)
        ensures
            r == (job is Ok && !old(self)@.light.calc_running),
            final(self)@ == old(self)@.calculation_started(job, selected, now),
    {
        let n: usize = self.light.luminaires.len();
        if self.light.calc_running {
            self.note_light(
                "calculate refused",
                String::from_str(
                    "one is ALREADY RUNNING — a second would fight the first for every core. A progress bar should be up; if there is none, this is the one to chase.",
                ),
                n,
                0,
            );
            return false;
        }
        match job {
            Err(r) => {
                self.refuse_calculation(r);
                false
            },
            Ok(j) => {
                let detail = write_started(&j, self.light.plane_height);
                self.note_light("calculate", detail, n, 0);
                self.light.begin_calc(selected, now);
                true
            },
        }
    }

    /// Takes over what a running calculation reports, and says what has to be saved for it.
    pub fn poll_calculation(&mut self, msg: CalcMsg, build: &str) -> (r: SaveWork)
        ensures
            final(self)@ == old(self)@.calculation_polled(msg),
            old(self)@.light.calc_running && msg is Done && !(msg->Done_0).cancelled ==> {
                let s = old(self)@.calculation_taken(msg->Done_0);
                match r {
                    SaveWork::Nothing => if s.keeps_inside() {
                        !s.embed_save_starts()
                    } else {
                        s.results_to_write(build@) is None
                    },
                    SaveWork::Embed(p) => s.keeps_inside() && s.embed_save_starts()
                        && s.files.current_file == Some(p@),
                    SaveWork::Beside(w) => !s.keeps_inside() && s.results_to_write(build@)
                        == Some(w@),
                }
            },
            !(old(self)@.light.calc_running && msg is Done && !(msg->Done_0).cancelled)
                ==> r is Nothing,
    {
        if !self.light.calc_running {
            return SaveWork::Nothing;
        }
        match msg {
            CalcMsg::Pending => SaveWork::Nothing,
            CalcMsg::Lost => {
                self.lose_calculation();
                SaveWork::Nothing
            },
            CalcMsg::Done(out) => {
                let cancelled = out.cancelled;
                self.take_outcome(out);
                if cancelled {
                    SaveWork::Nothing
                } else {
                    self.save_after_calculation(build)
                }
            },
        }
    }

    fn lose_calculation(&mut self)
        ensures
            final(self)@ == old(self)@.calculation_lost(),
    {
        self.light.lose_calc();
        self.say(String::from_str("  ! calculation thread ended without a result"));
        let n: usize = self.light.luminaires.len();
        self.note_light(
            "calculation failed",
            String::from_str(
                "the worker thread ended WITHOUT sending a result — a panic inside the engine. Its message went to stderr, which a dump cannot see; run from a console to catch it.",
            ),
            n,
            0,
        );
    }

    fn apply_outcome(&mut self, out: CalcOutcome)
        ensures
            final(self)@ == old(self)@.outcome_applied(out),
    {
        let n: usize = self.light.luminaires.len();
        let took: u64 = out.took_us;
        let op = if out.cancelled {
            "calculation stopped"
        } else {
            "calculated"
        };
        self.light.end_calc(out);
        self.canvas.view_dirty = true;
        let detail = self.light.write_ended();
        self.note_light(op, detail, n, took);
    }

    fn take_outcome(&mut self, out: CalcOutcome)
        ensures
            final(self)@ == old(self)@.calculation_taken(out),
    {
        let cancelled = out.cancelled;
        let line = cat3("  calculated in ", out.seconds.as_str(), " s");
        self.apply_outcome(out);
        if !cancelled {
            self.say(line);
        }
    }

    fn save_after_calculation(&mut self, build: &str) -> (r: SaveWork)
        ensures
            final(self)@ == if old(self)@.keeps_inside() {
                old(self)@.embed_save_asked()
            } else {
                old(self)@
            },
            match r {
                SaveWork::Nothing => if old(self)@.keeps_inside() {
                    !old(self)@.embed_save_starts()
                } else {
                    old(self)@.results_to_write(build@) is None
                },
                SaveWork::Embed(p) => old(self)@.keeps_inside() && old(self)@.embed_save_starts()
                    && old(self)@.files.current_file == Some(p@),
                SaveWork::Beside(w) => !old(self)@.keeps_inside() && old(self)@.results_to_write(
                    build@,
                ) == Some(w@),
            },
    {
        if self.files.extra_store == ExtraDataStore::Embedded {
            match self.save_calc_results_embedded() {
                Some(p) => SaveWork::Embed(p),
                None => SaveWork::Nothing,
            }
        } else {
            match self.save_light_results(build) {
                Some(w) => SaveWork::Beside(w),
                None => SaveWork::Nothing,
            }
        }
    }

    /// Takes note that a running calculation was asked to stop.
    pub fn stop_calculation(&mut self)
        ensures
            final(self)@ == old(self)@.calculation_stopping(),
    {
        self.light.last_msg = String::from_str("Stopping the calculation…");
    }
}

fn restored_line(s: &StoredResults) -> (r: String)
    ensures
        r@ == "  saved calculation restored ("@ + dec(s@.rooms.len())
            + " room(s), computed by build "@ + (if s@.build.len() == 0 {
            "?"@
        } else {
            s@.build
        }) + ")"@,
{
    let build = if s.build.as_str().unicode_len() == 0 {
        String::from_str("?")
    } else {
        s.build.clone()
    };
    assert(s@.rooms.len() == s.rooms.len());
    cat5(
        "  saved calculation restored (",
        dec_text(s.rooms.len() as u64).as_str(),
        " room(s), computed by build ",
        build.as_str(),
        ")",
    )
}

/// A calculation that was stored is taken over by the scene it was computed for, as it was: its
/// rooms, surfaces and timings.
pub proof fn stored_results_come_back(s: AppView, build: Seq<char>)
    requires
        s.has_results(),
    ensures
        ({
            let stored = s.stored_results(build);
            let r = s.results_offered(stored, s.light.results_fingerprint);
            &&& r.light.rooms == s.light.rooms
            &&& r.light.surfaces == s.light.surfaces
            &&& r.light.last_timings == s.light.last_timings
            &&& r.light.results_fingerprint == s.light.results_fingerprint
            &&& !r.light.results_stale
            &&& r.light.results_mode == Some(CalcMode::Express) <==> s.light.results_mode == Some(
                CalcMode::Express,
            )
        }),
{
    reveal(AppView::said);
}

/// Every calculation that is asked for, and every one that ends, leaves its mark with the recorder
/// while that is on, whatever came of it: what was done, and what the panel said then.
pub proof fn calculations_are_recorded(
    s: AppView,
    job: Result<CalcJob, CalcRefusal>,
    selected: Option<usize>,
    now: u64,
    out: CalcOutcome,
)
    requires
        s.recorder.on,
    ensures
        ({
            let r = s.calculation_started(job, selected, now).recorder.events;
            &&& r.drop_last() == s.recorder.events
            &&& r.last() is LightOp
            &&& r.last()->op == if s.light.calc_running || job is Err {
                "calculate refused"@
            } else {
                "calculate"@
            }
        }),
        ({
            let r = s.calculation_taken(out).recorder.events;
            &&& r.drop_last() == s.recorder.events
            &&& r.last() is LightOp
            &&& r.last()->op == if out.cancelled {
                "calculation stopped"@
            } else {
                "calculated"@
            }
            &&& r.last()->message == out.message@
        }),
        ({
            let r = s.calculation_lost().recorder.events;
            &&& r.drop_last() == s.recorder.events
            &&& r.last() is LightOp
            &&& r.last()->op == "calculation failed"@
        }),
{
    reveal(AppView::said);
    reveal(RecorderView::kept);
    assert(s.calculation_started(job, selected, now).recorder.events.drop_last()
        =~= s.recorder.events);
    assert(s.calculation_taken(out).recorder.events.drop_last() =~= s.recorder.events);
    assert(s.calculation_lost().recorder.events.drop_last() =~= s.recorder.events);
}

/// Results are never taken over by a scene they were not computed for.
pub proof fn other_results_are_turned_down(s: AppView, stored: StoredView, scene: u64)
    requires
        stored.fingerprint != scene,
    ensures
        s.results_offered(Some(stored), Some(scene)).light == s.light,
{
    reveal(AppView::said);
}

/// A calculation that ends with results shows those: its rooms, surfaces and times are the ones
/// that were calculated, they are current for the scene that was calculated, and nothing runs. One
/// that ends without results leaves what was shown. The drawing, the model and the fixtures are not
/// touched.
pub proof fn finished_calculation_is_shown(s: AppView, out: CalcOutcome)
    requires
        s.light.calc_running,
    ensures
        ({
            let t = s.calculation_polled(CalcMsg::Done(out));
            &&& !t.light.calc_running && t.light.calc_started is None
            &&& t.doc == s.doc && t.factory == s.factory && t.undo == s.undo
            &&& t.light.luminaires == s.light.luminaires
            &&& t.light.last_msg == out.message@
            &&& t.canvas.view_dirty
            &&& out.results matches Some(r) ==> {
                &&& t.light.rooms == views(r.rooms@)
                &&& t.light.surfaces == r.surfaces@
                &&& t.light.last_timings == r.timings@
                &&& t.light.results_fingerprint == Some(r.fingerprint)
                &&& t.light.results_mode == Some(r.mode)
                &&& !t.light.results_stale
                &&& t.light.show_overlay == r.overlay
                &&& t.light.has_grid == (r.rooms@.len() > 0)
                &&& t.light.has_plane == (r.rooms@.len() > 0)
            }
            &&& out.results is None ==> {
                &&& t.light.rooms == s.light.rooms
                &&& t.light.surfaces == s.light.surfaces
                &&& t.light.results_fingerprint == s.light.results_fingerprint
                &&& t.light.results_stale == s.light.results_stale
                &&& t.light.results_mode == s.light.results_mode
                &&& t.light.has_grid == s.light.has_grid
            }
            &&& out.cancelled ==> t.files == s.files
        }),
{
    outcome_is_applied(s, out);
    let a = s.outcome_applied(out);
    let b = s.calculation_taken(out);
    assert(b.light == a.light && b.doc == a.doc && b.factory == a.factory && b.undo == a.undo
        && b.canvas == a.canvas && b.files == a.files) by {
        reveal(AppView::said);
    }
}

proof fn outcome_is_applied(s: AppView, out: CalcOutcome)
    ensures
        s.outcome_applied(out).light == s.light.calc_ended(out),
        s.outcome_applied(out).doc == s.doc,
        s.outcome_applied(out).factory == s.factory,
        s.outcome_applied(out).undo == s.undo,
        s.outcome_applied(out).files == s.files,
        s.outcome_applied(out).canvas.view_dirty,
{
}

/// A calculation starts only while none runs, and only with a job. It then runs for the room that
/// was chosen, from now on, and the results that are there stay until it has ended. One that is
/// refused runs nothing.
pub proof fn calculation_starts_once(
    s: AppView,
    job: Result<CalcJob, CalcRefusal>,
    selected: Option<usize>,
    now: u64,
)
    ensures
        ({
            let t = s.calculation_started(job, selected, now);
            &&& t.light.calc_running == (s.light.calc_running || job is Ok)
            &&& s.light.calc_running ==> t.light == s.light
            &&& !s.light.calc_running && job is Ok ==> t.light.calc_started == Some(now)
                && t.light.calc_selected == selected
            &&& !s.light.calc_running && job is Err ==> t.light.last_msg == (job->Err_0).message@
            &&& t.light.rooms == s.light.rooms && t.light.surfaces == s.light.surfaces
            &&& t.light.results_fingerprint == s.light.results_fingerprint
            &&& t.light.luminaires == s.light.luminaires
            &&& t.doc == s.doc && t.factory == s.factory && t.undo == s.undo && t.files == s.files
        }),
{
    reveal(AppView::said);
    reveal(crate::recorder::RecorderView::kept);
}

/// A calculation whose worker is gone runs no longer, and leaves the results that were there. While
/// a message is awaited, and while nothing runs, nothing changes.
pub proof fn lost_calculation_keeps_the_results(s: AppView, msg: CalcMsg)
    ensures
        !s.light.calc_running || msg is Pending ==> s.calculation_polled(msg) == s,
        msg is Lost && s.light.calc_running ==> {
            let t = s.calculation_polled(msg);
            &&& !t.light.calc_running && t.light.calc_started is None
            &&& t.light.rooms == s.light.rooms && t.light.surfaces == s.light.surfaces
            &&& t.light.results_fingerprint == s.light.results_fingerprint
            &&& t.light.results_stale == s.light.results_stale
            &&& t.doc == s.doc && t.files == s.files
        },
{
    reveal(AppView::said);
    reveal(crate::recorder::RecorderView::kept);
}

/// Results are looked at for being out of date at most four times a second, not before there are
/// any and not while a calculation runs. They are out of date exactly if the scene is no longer the
/// one they were calculated for, and the drawing area is drawn anew where that has changed.
pub proof fn results_are_stale_once_the_scene_differs(s: AppView, now: u64, scene: Option<u64>)
    ensures
        ({
            let t = s.staleness_refreshed(now, scene);
            let due = s.light.results_fingerprint is Some && !s.light.calc_running && (
            s.light.stale_checked matches Some(at) ==> now >= at + 250);
            &&& due ==> (t.light.results_stale <==> scene != s.light.results_fingerprint)
            &&& due ==> t.light.stale_checked == Some(now)
            &&& !due ==> t == s
            &&& t.light.results_stale != s.light.results_stale ==> t.canvas.view_dirty
            &&& t.light.results_stale == s.light.results_stale ==> t.canvas == s.canvas
            &&& t.light.rooms == s.light.rooms
            &&& t.light.results_fingerprint == s.light.results_fingerprint
            &&& t.staleness_refreshed(now, scene) == t
        }),
{
}

/// Stored results are taken exactly if the scene is the one they were calculated for, and then they
/// are what is shown.
pub proof fn stored_results_are_taken_for_their_scene(
    s: AppView,
    stored: Option<StoredView>,
    scene: Option<u64>,
)
    ensures
        ({
            let t = s.results_offered(stored, scene);
            &&& stored is Some && scene is Some && (stored->0).fingerprint == scene->0 ==> {
                &&& t.light.rooms == (stored->0).rooms
                &&& t.light.surfaces == (stored->0).surfaces
                &&& t.light.last_timings == (stored->0).timings
                &&& t.light.results_fingerprint == scene
                &&& !t.light.results_stale
                &&& t.light.results_mode == Some(
                    if (stored->0).express {
                        CalcMode::Express
                    } else {
                        CalcMode::Full
                    },
                )
                &&& t.light.has_grid == ((stored->0).rooms.len() > 0)
                &&& t.light.has_plane == ((stored->0).rooms.len() > 0)
            }
            &&& stored is None || scene is None || (stored->0).fingerprint != scene->0 ==> t.light
                == s.light
            &&& t.doc == s.doc && t.files == s.files && t.light.luminaires == s.light.luminaires
        }),
{
    reveal(AppView::said);
}

impl AppView {
    /// After a calculation has been asked to stop.
    pub open spec fn calculation_stopping(self) -> AppView {
        AppView { light: LightView { last_msg: "Stopping the calculation…"@, ..self.light }, ..self }
    }
}

/// A calculation that is asked to stop runs until its worker has answered, and keeps the results that
/// were there.
pub proof fn stopping_waits_for_the_worker(s: AppView)
    ensures
        s.calculation_stopping().light.calc_running == s.light.calc_running,
        s.calculation_stopping().light.calc_started == s.light.calc_started,
        s.calculation_stopping().light.rooms == s.light.rooms,
        s.calculation_stopping().light.results_fingerprint == s.light.results_fingerprint,
        s.calculation_stopping().light.luminaires == s.light.luminaires,
        s.calculation_stopping().doc == s.doc,
        s.calculation_stopping().files == s.files,
{
}

/// A finished calculation of a drawing that keeps its data inside is saved into it: at once where
/// nothing else is saved, and otherwise as soon as that has ended. One that was stopped is not saved.
pub proof fn finished_calculation_is_saved_inside(s: AppView, out: CalcOutcome)
    requires
        s.light.calc_running,
        s.embeds_current(),
        out.results matches Some(r) && r.rooms@.len() > 0,
        !out.cancelled,
    ensures
        ({
            let t = s.calculation_polled(CalcMsg::Done(out));
            &&& s.files.saving() ==> t.files.results_due
            &&& !s.files.saving() ==> t.files.results_running && !t.files.results_due
            &&& t.files.unsaved == s.files.unsaved && t.files.current_file == s.files.current_file
        }),
{
    outcome_is_applied(s, out);
    let a = s.outcome_applied(out);
    let b = s.calculation_taken(out);
    assert(b.light == a.light && b.files == a.files) by {
        reveal(AppView::said);
    }
    assert(b.embeds_current() && b.keeps_inside());
    assert(b.light.rooms.len() > 0);
}

} // verus!
