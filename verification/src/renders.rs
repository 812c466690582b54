//! Daylight and offline renders: the sun's readout, the path tracer and the Radiance pipeline.
use vstd::prelude::*;

use crate::app::{AppView, CadApp};
use crate::copying::{opt_view, Duplicate};
use crate::dialog::{DialogState, DialogView, FileDialogMode};
use crate::factory::FactoryView;
use crate::paths::{file_name, file_stem, file_stem_of, join_path, joined_path, parent_dir, parent_of};
use crate::grid::{nearest, nearest_ratio};
use crate::text::{blank, cat2, cat3, cat4, cat5, dec, dec_text, dec_text_wide, is_blank};
use crate::units::{hundredths_text, round_to, rounded, write_hundredths};

verus! {

/// What a picture is traced on.
#[derive(Clone, Copy, Debug, PartialEq, Eq, Structural)]
pub enum Device {
    Cpu,
    Gpu,
}

/// A run of the Radiance programs: whether it is over, whether it gave a picture, what it printed
/// and where its files are.
pub struct RadState {
    pub done: bool,
    pub ok: bool,
    pub log: String,
    pub dir: String,
}

/// The model of a [`RadState`].
pub struct RadView {
    pub done: bool,
    pub ok: bool,
    pub log: Seq<char>,
    pub dir: Seq<char>,
}

impl View for RadState {
    type V = RadView;

    open spec fn view(&self) -> RadView {
        RadView { done: self.done, ok: self.ok, log: self.log@, dir: self.dir@ }
    }
}

/// The state of the render windows. A job of the path tracer is known by whether it is done; times
/// are in milliseconds, strengths in millionths, angles in millionths of a degree.
pub struct RenderState {
    pub device: Device,
    pub pt_res: u32,
    pub pt_passes: u32,
    pub pt_denoise: bool,
    pub pt_last_pass: u32,
    pub cpu_job: Option<bool>,
    pub gpu_job: Option<bool>,
    pub pt_preview: bool,
    pub pt_open: bool,
    pub rad_res: u32,
    pub rad_job: Option<RadState>,
    pub rad_started: Option<u64>,
    pub rad_loaded: bool,
    pub rad_preview: bool,
    pub env_strength: i64,
    pub env_rot: i64,
    pub sun_open: bool,
}

/// The model of a [`RenderState`].
pub struct RenderView {
    pub device: Device,
    pub pt_res: u32,
    pub pt_passes: u32,
    pub pt_denoise: bool,
    pub pt_last_pass: u32,
    pub cpu_job: Option<bool>,
    pub gpu_job: Option<bool>,
    pub pt_preview: bool,
    pub pt_open: bool,
    pub rad_res: u32,
    pub rad_job: Option<RadView>,
    pub rad_started: Option<u64>,
    pub rad_loaded: bool,
    pub rad_preview: bool,
    pub env_strength: i64,
    pub env_rot: i64,
    pub sun_open: bool,
}

impl View for RenderState {
    type V = RenderView;

    open spec fn view(&self) -> RenderView {
        RenderView {
            device: self.device,
            pt_res: self.pt_res,
            pt_passes: self.pt_passes,
            pt_denoise: self.pt_denoise,
            pt_last_pass: self.pt_last_pass,
            cpu_job: self.cpu_job,
            gpu_job: self.gpu_job,
            pt_preview: self.pt_preview,
            pt_open: self.pt_open,
            rad_res: self.rad_res,
            rad_job: opt_view(self.rad_job),
            rad_started: self.rad_started,
            rad_loaded: self.rad_loaded,
            rad_preview: self.rad_preview,
            env_strength: self.env_strength,
            env_rot: self.env_rot,
            sun_open: self.sun_open,
        }
    }
}

impl RenderView {
    /// The render windows as the application starts with them.
    pub open spec fn fresh() -> RenderView {
        RenderView {
            device: Device::Gpu,
            pt_res: 1,
            pt_passes: 64,
            pt_denoise: true,
            pt_last_pass: 0,
            cpu_job: None,
            gpu_job: None,
            pt_preview: false,
            pt_open: false,
            rad_res: 1,
            rad_job: None,
            rad_started: None,
            rad_loaded: false,
            rad_preview: false,
            env_strength: 1_000_000,
            env_rot: 0,
            sun_open: false,
        }
    }
}

impl RenderState {
    /// The render windows as the application starts with them.
    pub fn new() -> (r: RenderState)
        ensures
            r@ == RenderView::fresh(),
    {
        RenderState {
            device: Device::Gpu,
            pt_res: 1,
            pt_passes: 64,
            pt_denoise: true,
            pt_last_pass: 0,
            cpu_job: None,
            gpu_job: None,
            pt_preview: false,
            pt_open: false,
            rad_res: 1,
            rad_job: None,
            rad_started: None,
            rad_loaded: false,
            rad_preview: false,
            env_strength: 1_000_000,
            env_rot: 0,
            sun_open: false,
        }
    }
}

impl RenderView {
    /// Whether the picture shown has to be read again after a number of passes. Reading from the
    /// graphics card stalls it, so that is done every fourth pass, and once at the end.
    pub open spec fn reading_due(self, pass: u32) -> bool {
        match self.gpu_job {
            Some(done) => pass != self.pt_last_pass && (done || (pass
                - self.pt_last_pass) % 0x1_0000_0000 >= 4),
            None => self.cpu_job is Some && pass != self.pt_last_pass,
        }
    }

    /// With the removal of noise turned on or off.
    pub open spec fn denoised(self, on: bool) -> RenderView {
        if on == self.pt_denoise {
            self
        } else {
            RenderView { pt_denoise: on, pt_last_pass: u32::MAX, ..self }
        }
    }
}

impl RenderState {
    fn read_again(&mut self, pass: u32) -> (r: bool)
        ensures
            r == old(self)@.reading_due(pass),
            final(self)@ == if r {
                RenderView { pt_last_pass: pass, ..old(self)@ }
            } else {
                old(self)@
            },
    {
        let last: u32 = self.pt_last_pass;
        let due = match self.gpu_job {
            Some(done) => pass != last && (done || pass.wrapping_sub(last) >= 4),
            None => self.cpu_job.is_some() && pass != last,
        };
        if due {
            self.pt_last_pass = pass;
        }
        due
    }

    fn denoise(&mut self, on: bool)
        ensures
            final(self)@ == old(self)@.denoised(on),
    {
        if on != self.pt_denoise {
            self.pt_denoise = on;
            self.pt_last_pass = u32::MAX;
        }
    }
}

/// The number of samples that a pixel gets of those asked for.
pub open spec fn samples_kept(n: u32) -> u32 {
    if n < 8 {
        8
    } else if n > 512 {
        512
    } else {
        n
    }
}

fn keep_samples(n: u32) -> (r: u32)
    ensures
        r == samples_kept(n),
{
    if n < 8 {
        8
    } else if n > 512 {
        512
    } else {
        n
    }
}

impl DialogState {
    fn stand_in(&mut self, dir: Option<String>)
        ensures
            final(self)@ == (DialogView {
                file_dialog_dir: match dir {
                    Some(d) => Some(d@),
                    None => old(self)@.file_dialog_dir,
                },
                ..old(self)@
            }),
    {
        if let Some(d) = dir {
            self.file_dialog_dir = Some(d);
        }
    }
}

/// The eighth of the compass that a bearing lies in, in millionths of a degree.
pub open spec fn compass_index(bearing: i64) -> int {
    nearest(bearing as int, 45_000_000) % 8
}

/// The name of an eighth of the compass.
pub open spec fn compass_name(i: int) -> Seq<char> {
    if i == 0 {
        "N"@
    } else if i == 1 {
        "NE"@
    } else if i == 2 {
        "E"@
    } else if i == 3 {
        "SE"@
    } else if i == 4 {
        "S"@
    } else if i == 5 {
        "SW"@
    } else if i == 6 {
        "W"@
    } else {
        "NW"@
    }
}

/// The name of the eighth of the compass that a bearing lies in.
pub fn compass(bearing: i64) -> (r: &'static str)
    ensures
        r@ == compass_name(compass_index(bearing)),
{
    let n: i128 = nearest_ratio(bearing, 1, 45_000_000);
    let i: i128 = if n >= 0 {
        n % 8
    } else {
        let m: i128 = (-n) % 8;
        if m == 0 {
            0
        } else {
            8 - m
        }
    };
    assert(i == n as int % 8);
    if i == 0 {
        "N"
    } else if i == 1 {
        "NE"
    } else if i == 2 {
        "E"
    } else if i == 3 {
        "SE"
    } else if i == 4 {
        "S"
    } else if i == 5 {
        "SW"
    } else if i == 6 {
        "W"
    } else {
        "NW"
    }
}

/// The size of a number.
pub open spec fn size_of(x: i64) -> nat {
    if x < 0 {
        (-x) as nat
    } else {
        x as nat
    }
}

/// An angle with one decimal of a degree.
pub open spec fn degrees1(a: i64) -> Seq<char> {
    let q = rounded(size_of(a), 100_000);
    (if a < 0 {
        "-"@
    } else {
        ""@
    }) + dec(q / 10) + "."@ + dec(q % 10)
}

/// A number with its sign and two decimals, from millionths.
pub open spec fn signed2(v: i64) -> Seq<char> {
    (if v < 0 {
        "-"@
    } else {
        "+"@
    }) + hundredths_text(rounded(size_of(v), 10_000))
}

fn size(x: i64) -> (r: u128)
    ensures
        r == size_of(x),
{
    if x < 0 {
        (-(x as i128)) as u128
    } else {
        x as u128
    }
}

fn write_degrees1(a: i64) -> (r: String)
    ensures
        r@ == degrees1(a),
{
    let q: u128 = round_to(size(a), 100_000);
    cat4(
        if a < 0 {
            "-"
        } else {
            ""
        },
        dec_text_wide(q / 10).as_str(),
        ".",
        dec_text_wide(q % 10).as_str(),
    )
}

fn write_signed2(v: i64) -> (r: String)
    ensures
        r@ == signed2(v),
{
    cat2(
        if v < 0 {
            "-"
        } else {
            "+"
        },
        write_hundredths(round_to(size(v), 10_000)).as_str(),
    )
}

/// Where the sun stands: its height and bearing, in millionths of a degree, and the direction to
/// it, in millionths.
#[derive(Clone, Copy, Debug, PartialEq, Eq, Structural)]
pub struct SunPosition {
    pub up: bool,
    pub altitude: i64,
    pub bearing: i64,
    pub x: i64,
    pub y: i64,
    pub z: i64,
}

/// What is said of the sun's position on a day of the year.
pub open spec fn sun_line(p: SunPosition, day: u32) -> Seq<char> {
    if p.up {
        ("sun altitude "@ + degrees1(p.altitude) + "° · bearing "@) + (crate::fixtures::degrees0(
            p.bearing,
        ) + "° ("@ + compass_name(compass_index(p.bearing)) + ") · day "@ + dec(day as nat))
    } else {
        "sun is below the horizon ("@ + degrees1(p.altitude) + "°) — night"@
    }
}

/// What is said of the direction to the sun.
pub open spec fn sun_direction(p: SunPosition) -> Seq<char> {
    ("direction  x "@ + signed2(p.x) + "  y "@) + (signed2(p.y) + "  z "@ + signed2(p.z))
}

/// What is said of the sun's position on a day of the year.
pub fn sun_readout(p: SunPosition, day: u32) -> (r: String)
    ensures
        r@ == sun_line(p, day),
{
    if p.up {
        let head = cat3("sun altitude ", write_degrees1(p.altitude).as_str(), "° · bearing ");
        let tail = cat5(
            crate::fixtures::write_degrees0(p.bearing).as_str(),
            "° (",
            compass(p.bearing),
            ") · day ",
            dec_text(day as u64).as_str(),
        );
        cat2(head.as_str(), tail.as_str())
    } else {
        cat3("sun is below the horizon (", write_degrees1(p.altitude).as_str(), "°) — night")
    }
}

/// What is said of the direction to the sun, while it is up.
pub fn sun_direction_text(p: SunPosition) -> (r: Option<String>)
    ensures
        opt_view(r) == if p.up {
            Some(sun_direction(p))
        } else {
            None
        },
{
    if p.up {
        let head = cat3("direction  x ", write_signed2(p.x).as_str(), "  y ");
        let tail = cat3(write_signed2(p.y).as_str(), "  z ", write_signed2(p.z).as_str());
        Some(cat2(head.as_str(), tail.as_str()))
    } else {
        None
    }
}

/// The size of a picture, by the step that was chosen.
pub open spec fn picture_size(step: u32) -> (u32, u32) {
    if step == 0 {
        (640, 480)
    } else if step == 1 {
        (960, 720)
    } else if step == 2 {
        (1280, 960)
    } else {
        (1600, 1200)
    }
}

/// The size of a picture, by the step that was chosen. Steps beyond the last one mean the last.
pub fn render_size(step: u32) -> (r: (u32, u32))
    ensures
        r == picture_size(step),
{
    if step == 0 {
        (640, 480)
    } else if step == 1 {
        (960, 720)
    } else if step == 2 {
        (1280, 960)
    } else {
        (1600, 1200)
    }
}

impl AppView {
    /// With a given state of the render windows.
    pub open spec fn with_render(self, r: RenderView) -> AppView {
        AppView { render: r, ..self }
    }

    /// After the sliders of the environment have been read. A change is one of more than a
    /// millionth.
    pub open spec fn environment_set(self, strength: i64, rot: i64) -> AppView {
        let s = self.render.env_strength;
        let t = self.render.env_rot;
        if crate::fixtures::apart(strength, s, 1) || crate::fixtures::apart(rot, t, 1) {
            let a = self.with_render(
                RenderView { env_strength: strength, env_rot: rot, ..self.render },
            );
            a.with_factory(FactoryView { dirty: true, ..a.factory })
        } else {
            self
        }
    }

    /// After an environment has been asked for. The browser starts in the directory for them,
    /// where there is one.
    pub open spec fn environment_asked(self, dir: Option<Seq<char>>) -> AppView {
        AppView {
            dialog: DialogView {
                file_dialog_dir: match dir {
                    Some(d) => Some(d),
                    None => self.dialog.file_dialog_dir,
                },
                ..self.dialog
            },
            ..self
        }.dialog_opened(FileDialogMode::ImportHdri, ".hdr"@)
    }
}

impl CadApp {
    fn put_environment(&mut self, strength: i64, rot: i64)
        ensures
            final(self)@ == ({
                let a = old(self)@.with_render(
                    RenderView { env_strength: strength, env_rot: rot, ..old(self)@.render },
                );
                a.with_factory(FactoryView { dirty: true, ..a.factory })
            }),
    {
        self.render.env_strength = strength;
        self.render.env_rot = rot;
        self.factory.dirty = true;
    }

    /// Takes over the sliders of the environment, where they were moved.
    pub fn set_environment(&mut self, strength: i64, rot: i64)
        ensures
            final(self)@ == old(self)@.environment_set(strength, rot),
    {
        let s: i128 = strength as i128 - self.render.env_strength as i128;
        let t: i128 = rot as i128 - self.render.env_rot as i128;
        if s > 1 || s < -1 || t > 1 || t < -1 {
            self.put_environment(strength, rot);
        }
    }

    fn browse_from(&mut self, dir: Option<String>)
        ensures
            final(self)@ == (AppView {
                dialog: DialogView {
                    file_dialog_dir: match dir {
                        Some(d) => Some(d@),
                        None => old(self)@.dialog.file_dialog_dir,
                    },
                    ..old(self)@.dialog
                },
                ..old(self)@
            }),
    {
        self.dialog.stand_in(dir);
    }

    /// Asks for an environment; `dir` is the directory for them, where there is one.
    pub fn ask_environment(&mut self, dir: Option<String>)
        ensures
            final(self)@ == old(self)@.environment_asked(opt_view(dir)),
    {
        self.browse_from(dir);
        self.open_file_dialog(FileDialogMode::ImportHdri, ".hdr");
    }
}

/// What the path tracer is started with.
#[derive(Clone, Copy, Debug, PartialEq, Eq, Structural)]
pub struct TracePlan {
    pub w: u32,
    pub h: u32,
    pub passes: u32,
    pub max_depth: u32,
    pub device: Device,
}

impl AppView {
    /// What the path tracer is started with: the GPU only where there is one to draw with.
    pub open spec fn trace_plan(self, gpu_ready: bool) -> TracePlan {
        TracePlan {
            w: picture_size(self.render.pt_res).0,
            h: picture_size(self.render.pt_res).1,
            passes: self.render.pt_passes,
            max_depth: 6,
            device: if self.render.device == Device::Gpu && gpu_ready {
                Device::Gpu
            } else {
                Device::Cpu
            },
        }
    }

    /// After the path tracer has been started on a scene, or told that there is none. Whatever ran
    /// before is dropped.
    pub open spec fn trace_started(self, empty: bool) -> AppView {
        if empty {
            self.with_factory(self.factory.with_status("Render: nothing in the scene"@))
        } else {
            self.with_render(
                RenderView {
                    cpu_job: None,
                    gpu_job: None,
                    pt_last_pass: 0,
                    pt_preview: false,
                    ..self.render
                },
            )
        }
    }

    /// After a tracer has begun to run on a device, or the GPU has turned it down and the CPU does
    /// the work.
    pub open spec fn tracer_running(self, device: Device, refused: Option<Seq<char>>) -> AppView {
        match refused {
            Some(e) => self.with_factory(
                self.factory.with_status(
                    "GPU tracer unavailable ("@ + e + ") — rendering on CPU"@,
                ),
            ).with_render(RenderView { cpu_job: Some(false), ..self.render }),
            None => if device == Device::Gpu {
                self.with_render(RenderView { gpu_job: Some(false), ..self.render })
            } else {
                self.with_render(RenderView { cpu_job: Some(false), ..self.render })
            },
        }
    }

    /// Whether a picture is being traced.
    pub open spec fn tracing(self) -> bool {
        self.render.cpu_job == Some(false) || self.render.gpu_job == Some(false)
    }

    /// After the window of the path tracer was left open or closed. Closing drops a picture that
    /// is not done, and whatever the GPU holds.
    pub open spec fn trace_window(self, open: bool) -> AppView {
        self.with_render(
            if open {
                RenderView { pt_open: true, ..self.render }
            } else {
                RenderView {
                    pt_open: false,
                    cpu_job: if self.render.cpu_job == Some(false) {
                        None
                    } else {
                        self.render.cpu_job
                    },
                    gpu_job: None,
                    ..self.render
                }
            },
        )
    }
}

impl CadApp {
    fn drop_traces(&mut self)
        ensures
            final(self)@ == old(self)@.with_render(
                RenderView {
                    cpu_job: None,
                    gpu_job: None,
                    pt_last_pass: 0,
                    pt_preview: false,
                    ..old(self)@.render
                },
            ),
    {
        self.render.cpu_job = None;
        self.render.gpu_job = None;
        self.render.pt_last_pass = 0;
        self.render.pt_preview = false;
    }

    /// Starts to trace a picture of the scene, unless there is nothing in it. It returns what the
    /// tracer has to be started with.
    pub fn start_pathtrace(&mut self, empty: bool, gpu_ready: bool) -> (r: Option<TracePlan>)
        ensures
            final(self)@ == old(self)@.trace_started(empty),
            r == if empty {
                None
            } else {
                Some(old(self)@.trace_plan(gpu_ready))
            },
    {
        if empty {
            self.set_status(String::from_str("Render: nothing in the scene"));
            return None;
        }
        let (w, h) = render_size(self.render.pt_res);
        let device = if self.render.device == Device::Gpu && gpu_ready {
            Device::Gpu
        } else {
            Device::Cpu
        };
        let passes: u32 = self.render.pt_passes;
        self.drop_traces();
        Some(TracePlan { w: w, h: h, passes: passes, max_depth: 6, device: device })
    }

    fn put_job(&mut self, gpu: bool)
        ensures
            final(self)@ == old(self)@.with_render(
                if gpu {
                    RenderView { gpu_job: Some(false), ..old(self)@.render }
                } else {
                    RenderView { cpu_job: Some(false), ..old(self)@.render }
                },
            ),
    {
        if gpu {
            self.render.gpu_job = Some(false);
        } else {
            self.render.cpu_job = Some(false);
        }
    }

    /// Takes over that a tracer runs on a device, or that the GPU has turned it down with a reason.
    pub fn trace_running(&mut self, device: Device, refused: Option<String>)
        ensures
            final(self)@ == old(self)@.tracer_running(device, opt_view(refused)),
    {
        match refused {
            Some(e) => {
                self.set_status(
                    cat3("GPU tracer unavailable (", e.as_str(), ") — rendering on CPU"),
                );
                self.put_job(false);
            },
            None => self.put_job(device == Device::Gpu),
        }
    }

    /// Whether a picture is being traced.
    pub fn is_tracing(&self) -> (r: bool)
        ensures
            r == self@.tracing(),
    {
        let a = match self.render.cpu_job {
            Some(done) => !done,
            None => false,
        };
        let b = match self.render.gpu_job {
            Some(done) => !done,
            None => false,
        };
        a || b
    }

    /// Whether the picture shown has to be read again after a number of passes; it is then known
    /// to show that many.
    pub fn trace_preview(&mut self, pass: u32) -> (r: bool)
        ensures
            r == old(self)@.render.reading_due(pass),
            final(self)@ == if r {
                old(self)@.with_render(RenderView { pt_last_pass: pass, ..old(self)@.render })
            } else {
                old(self)@
            },
    {
        self.render.read_again(pass)
    }

    /// Sets how many samples each pixel gets: at least eight, and at most 512.
    pub fn set_trace_samples(&mut self, n: u32)
        ensures
            final(self)@ == old(self)@.with_render(
                RenderView { pt_passes: samples_kept(n), ..old(self)@.render },
            ),
    {
        let kept: u32 = keep_samples(n);
        self.render.pt_passes = kept;
    }

    /// Turns the removal of noise on or off. A change makes the picture shown be made again.
    pub fn set_trace_denoise(&mut self, on: bool)
        ensures
            final(self)@ == old(self)@.with_render(old(self)@.render.denoised(on)),
    {
        self.render.denoise(on);
    }

    /// Takes over whether the window of the path tracer is open.
    pub fn trace_window_open(&mut self, open: bool)
        ensures
            final(self)@ == old(self)@.trace_window(open),
    {
        self.render.pt_open = open;
        if !open {
            let running = match self.render.cpu_job {
                Some(done) => !done,
                None => false,
            };
            if running {
                self.render.cpu_job = None;
            }
            self.render.gpu_job = None;
        }
    }
}

/// After the window of the path tracer has been closed, nothing is being traced.
pub proof fn closing_stops_tracing(s: AppView)
    ensures
        !s.trace_window(false).tracing(),
{
}

impl AppView {
    /// The directory of the drawing, or the user's own one.
    pub open spec fn beside_drawing(self, home: Seq<char>) -> Seq<char> {
        match self.files.current_file {
            Some(p) => parent_dir(p),
            None => home,
        }
    }

    /// The file that a traced picture is saved to.
    pub open spec fn picture_path(self, home: Seq<char>) -> Seq<char> {
        let stem = match self.files.current_file {
            Some(p) => file_stem(p),
            None => "scene"@,
        };
        joined_path(self.beside_drawing(home), stem + "_render.png"@)
    }

    /// The directory that is suggested for the files of Radiance.
    pub open spec fn radiance_dir(self, home: Seq<char>) -> Seq<char> {
        match self.files.current_file {
            Some(p) => joined_path(parent_dir(p), file_stem(p) + "_radiance"@),
            None => joined_path(home, "3dfactory_radiance"@),
        }
    }

    /// After a traced picture has been saved, or not.
    pub open spec fn picture_saved(self, path: Seq<char>, outcome: Result<(), String>) -> AppView {
        match outcome {
            Ok(_) => self.with_factory(
                self.factory.with_status("Render saved → "@ + path),
            ).said("  saved path-traced render to "@ + path),
            Err(e) => self.with_factory(
                self.factory.with_status("Render save failed: "@ + e@),
            ),
        }
    }

    /// After the folder for the files of Radiance has been asked for.
    pub open spec fn radiance_asked(self, run_after: bool, home: Seq<char>) -> AppView {
        AppView {
            dialog: DialogView {
                rad_run_after_pick: run_after,
                file_dialog_dir: Some(self.radiance_dir(home)),
                ..self.dialog
            },
            ..self
        }.dialog_opened(FileDialogMode::PickFolder, Seq::empty())
    }
}

impl DialogState {
    fn start_folder_pick(&mut self, run_after: bool, dir: String)
        ensures
            final(self)@ == (DialogView {
                rad_run_after_pick: run_after,
                file_dialog_dir: Some(dir@),
                ..old(self)@
            }),
    {
        self.rad_run_after_pick = run_after;
        self.file_dialog_dir = Some(dir);
    }
}

impl CadApp {
    /// The file that a traced picture is saved to; `home` is the user's own directory.
    pub fn pathtrace_png_path(&self, home: &str) -> (r: String)
        ensures
            r@ == self@.picture_path(home@),
    {
        match &self.files.current_file {
            Some(p) => {
                let name = cat2(file_stem_of(p.as_str()), "_render.png");
                join_path(parent_of(p.as_str()), name.as_str())
            },
            None => {
                let name = cat2("scene", "_render.png");
                join_path(home, name.as_str())
            },
        }
    }

    /// Takes over that a traced picture was saved, or was not.
    pub fn save_pathtrace_png(&mut self, path: &str, outcome: Result<(), String>)
        ensures
            final(self)@ == old(self)@.picture_saved(path@, outcome),
    {
        match outcome {
            Ok(_) => {
                self.set_status(cat2("Render saved → ", path));
                self.say(cat2("  saved path-traced render to ", path));
            },
            Err(e) => self.set_status(cat2("Render save failed: ", e.as_str())),
        }
    }

    /// The directory that is suggested for the files of Radiance.
    pub fn radiance_default_dir(&self, home: &str) -> (r: String)
        ensures
            r@ == self@.radiance_dir(home@),
    {
        match &self.files.current_file {
            Some(p) => {
                let name = cat2(file_stem_of(p.as_str()), "_radiance");
                join_path(parent_of(p.as_str()), name.as_str())
            },
            None => join_path(home, "3dfactory_radiance"),
        }
    }

    fn start_radiance_pick(&mut self, run_after: bool, dir: String)
        ensures
            final(self)@ == (AppView {
                dialog: DialogView {
                    rad_run_after_pick: run_after,
                    file_dialog_dir: Some(dir@),
                    ..old(self)@.dialog
                },
                ..old(self)@
            }),
    {
        self.dialog.start_folder_pick(run_after, dir);
    }

    /// Asks for the folder for the files of Radiance.
    pub fn pick_radiance_folder(&mut self, run_after: bool, home: &str)
        ensures
            final(self)@ == old(self)@.radiance_asked(run_after, home@),
    {
        let dir = self.radiance_default_dir(home);
        self.start_radiance_pick(run_after, dir);
        let none = "";
        proof {
            reveal_strlit("");
            assert(none@ =~= Seq::<char>::empty());
        }
        self.open_file_dialog(FileDialogMode::PickFolder, none);
    }
}

/// The files of a scene for Radiance, in the order they are written.
pub open spec fn radiance_files() -> Seq<Seq<char>> {
    seq!["scene.rad"@, "sky.rad"@, "render.bat"@, "render.sh"@, "README.txt"@]
}

/// The name of one of the files of a scene for Radiance.
pub fn radiance_file(k: usize) -> (r: Option<&'static str>)
    ensures
        match r {
            Some(n) => k < radiance_files().len() && n@ == radiance_files()[k as int],
            None => k >= radiance_files().len(),
        },
{
    if k == 0 {
        Some("scene.rad")
    } else if k == 1 {
        Some("sky.rad")
    } else if k == 2 {
        Some("render.bat")
    } else if k == 3 {
        Some("render.sh")
    } else if k == 4 {
        Some("README.txt")
    } else {
        None
    }
}

/// How the export of a scene for Radiance went.
pub enum RadExport {
    NoDirectory(String),
    NotWritten(String, String),
    Written,
}

impl AppView {
    /// After a scene of a number of triangles has been exported for Radiance, or not.
    pub open spec fn radiance_exported(self, tris: usize, dir: Seq<char>, e: RadExport) -> AppView {
        if tris == 0 {
            self.with_factory(
                self.factory.with_status("Radiance export: nothing in the scene to export"@),
            )
        } else {
            match e {
                RadExport::NoDirectory(e) => self.with_factory(
                    self.factory.with_status("Radiance export failed: "@ + e@),
                ),
                RadExport::NotWritten(name, e) => self.with_factory(
                    self.factory.with_status(
                        "Radiance export: failed writing "@ + name@ + ": "@ + e@,
                    ),
                ),
                RadExport::Written => self.with_factory(
                    self.factory.with_status(
                        "Radiance scene exported ("@ + dec(tris as nat) + " triangles) → "@ + dir,
                    ),
                ).said("  exported Radiance scene ("@ + dec(tris as nat) + " tris) to "@ + dir),
            }
        }
    }
}

impl CadApp {
    /// Takes over how the export of a scene of a number of triangles for Radiance went. It returns
    /// whether the scene is there.
    pub fn export_radiance_scene_to(&mut self, tris: usize, dir: &str, e: RadExport) -> (r: bool)
        ensures
            final(self)@ == old(self)@.radiance_exported(tris, dir@, e),
            r == (tris > 0 && e is Written),
    {
        if tris == 0 {
            self.set_status(String::from_str("Radiance export: nothing in the scene to export"));
            return false;
        }
        match e {
            RadExport::NoDirectory(e) => {
                self.set_status(cat2("Radiance export failed: ", e.as_str()));
                false
            },
            RadExport::NotWritten(name, e) => {
                self.set_status(
                    cat4("Radiance export: failed writing ", name.as_str(), ": ", e.as_str()),
                );
                false
            },
            RadExport::Written => {
                let n = dec_text(tris as u64);
                self.set_status(
                    cat4("Radiance scene exported (", n.as_str(), " triangles) → ", dir),
                );
                self.say(cat4("  exported Radiance scene (", n.as_str(), " tris) to ", dir));
                true
            },
        }
    }
}

/// The first of some directories that holds the programs.
pub open spec fn first_holding(holds: Seq<bool>) -> Option<int>
    decreases holds.len(),
{
    if holds.len() == 0 {
        None
    } else if holds[0] {
        Some(0)
    } else {
        match first_holding(holds.drop_first()) {
            Some(i) => Some(i + 1),
            None => None,
        }
    }
}

/// The directories that Radiance is looked for in where the search path does not have it.
pub open spec fn radiance_homes() -> Seq<Seq<char>> {
    seq![
        "C:/Radiance/bin"@,
        "C:/Program Files/Radiance/bin"@,
        "C:/Program Files (x86)/Radiance/bin"@,
    ]
}

/// One of the directories that Radiance is looked for in where the search path does not have it.
pub fn radiance_home(k: usize) -> (r: Option<&'static str>)
    ensures
        match r {
            Some(n) => k < radiance_homes().len() && n@ == radiance_homes()[k as int],
            None => k >= radiance_homes().len(),
        },
{
    if k == 0 {
        Some("C:/Radiance/bin")
    } else if k == 1 {
        Some("C:/Program Files/Radiance/bin")
    } else if k == 2 {
        Some("C:/Program Files (x86)/Radiance/bin")
    } else {
        None
    }
}

/// The first of some directories that holds the programs. The directories of the search path come
/// first, and then those of [`radiance_home`].
pub fn find_radiance_bin(holds: &Vec<bool>) -> (r: Option<usize>)
    ensures
        match r {
            Some(i) => first_holding(holds@) == Some(i as int) && i < holds@.len(),
            None => first_holding(holds@) is None,
        },
{
    let ghost len = holds@.len() as int;
    let mut i: usize = 0;
    assert(holds@.subrange(0, len) =~= holds@);
    while i < holds.len()
        invariant
            i <= holds.len(),
            len == holds@.len(),
            first_holding(holds@) == match first_holding(holds@.subrange(i as int, len)) {
                Some(k) => Some(k + i),
                None => None,
            },
        decreases holds.len() - i,
    {
        let ghost here = holds@.subrange(i as int, len);
        assert(here[0] == holds@[i as int]);
        assert(here.drop_first() =~= holds@.subrange(i + 1, len));
        if holds[i] {
            return Some(i);
        }
        i += 1;
    }
    None
}

/// What is said where the programs of Radiance are not there.
pub open spec fn missing_log(dir: Seq<char>) -> Seq<char> {
    "Radiance is not installed on this machine (oconv.exe not found on PATH, C:\\Radiance\\bin, or Program Files).\n\nThe scene was still exported to:\n  "@
        + dir
        + "\n\nTo render with Radiance:\n1. Download the Windows installer from github.com/LBNL-ETA/Radiance/releases\n2. Install (the default C:\\Radiance is fine — it does not need to be on PATH)\n3. Press ▶ Run Radiance again."@
}

impl AppView {
    /// After the pipeline of Radiance has been started in a directory, or told to be missing.
    pub open spec fn radiance_started(self, dir: Seq<char>, installed: bool, now: u64) -> AppView {
        let s = self.with_render(
            RenderView {
                rad_job: Some(
                    if installed {
                        RadView { done: false, ok: false, log: Seq::empty(), dir: dir }
                    } else {
                        RadView { done: true, ok: false, log: missing_log(dir), dir: dir }
                    },
                ),
                rad_started: Some(now),
                rad_preview: false,
                rad_loaded: false,
                ..self.render
            },
        );
        if installed {
            s
        } else {
            s.with_factory(
                s.factory.with_status(
                    "Radiance not installed — scene exported; see the Radiance window"@,
                ),
            )
        }
    }
}

/// How a run of the pipeline of Radiance ended: with what it printed and whether there is a
/// picture, or not at all.
pub enum RadRun {
    Ran(String, bool),
    NotRun(String),
}

/// What is kept of what a run of the pipeline printed.
pub open spec fn run_log(r: RadRun) -> Seq<char> {
    match r {
        RadRun::Ran(log, picture) => if !picture && is_blank(log@) {
            "No output — is Radiance installed and on PATH? (https://github.com/LBNL-ETA/Radiance)"@
        } else {
            log@
        },
        RadRun::NotRun(e) => "Could not run render.bat: "@ + e@,
    }
}

/// Whether a run of the pipeline left a picture.
pub open spec fn run_ok(r: RadRun) -> bool {
    r matches RadRun::Ran(_, true)
}

fn end_of_run(r: RadRun) -> (t: (bool, String))
    ensures
        t.0 == run_ok(r),
        t.1@ == run_log(r),
{
    match r {
        RadRun::Ran(log, picture) => {
            if !picture && blank(log.as_str()) {
                (
                    false,
                    String::from_str(
                        "No output — is Radiance installed and on PATH? (https://github.com/LBNL-ETA/Radiance)",
                    ),
                )
            } else {
                (picture, log)
            }
        },
        RadRun::NotRun(e) => (false, cat2("Could not run render.bat: ", e.as_str())),
    }
}

impl RenderView {
    /// After a run of the pipeline has ended; nothing where none was started.
    pub open spec fn radiance_ended(self, r: RadRun) -> RenderView {
        match self.rad_job {
            Some(j) => RenderView {
                rad_job: Some(
                    RadView { done: true, ok: run_ok(r), log: run_log(r), dir: j.dir },
                ),
                ..self
            },
            None => self,
        }
    }
}

impl RenderState {
    fn end_radiance(&mut self, r: RadRun)
        ensures
            final(self)@ == old(self)@.radiance_ended(r),
    {
        let (ok, log) = end_of_run(r);
        if let Some(j) = &mut self.rad_job {
            j.done = true;
            j.ok = ok;
            j.log = log;
        }
    }
}

impl CadApp {
    fn put_rad(&mut self, job: RadState, now: u64)
        ensures
            final(self)@ == old(self)@.with_render(
                RenderView {
                    rad_job: Some(job@),
                    rad_started: Some(now),
                    rad_preview: false,
                    rad_loaded: false,
                    ..old(self)@.render
                },
            ),
    {
        self.render.rad_job = Some(job);
        self.render.rad_started = Some(now);
        self.render.rad_preview = false;
        self.render.rad_loaded = false;
    }

    /// Takes over that the pipeline of Radiance was started in a directory, or that its programs
    /// are not there. The scene has been exported before.
    pub fn run_radiance_in(&mut self, dir: &str, installed: bool, now: u64)
        ensures
            final(self)@ == old(self)@.radiance_started(dir@, installed, now),
    {
        if installed {
            let none = String::new();
            assert(none@ =~= Seq::<char>::empty());
            self.put_rad(
                RadState { done: false, ok: false, log: none, dir: String::from_str(dir) },
                now,
            );
        } else {
            let log = cat3(
                "Radiance is not installed on this machine (oconv.exe not found on PATH, C:\\Radiance\\bin, or Program Files).\n\nThe scene was still exported to:\n  ",
                dir,
                "\n\nTo render with Radiance:\n1. Download the Windows installer from github.com/LBNL-ETA/Radiance/releases\n2. Install (the default C:\\Radiance is fine — it does not need to be on PATH)\n3. Press ▶ Run Radiance again.",
            );
            self.put_rad(
                RadState { done: true, ok: false, log: log, dir: String::from_str(dir) },
                now,
            );
            self.set_status(
                String::from_str(
                    "Radiance not installed — scene exported; see the Radiance window",
                ),
            );
        }
    }

    /// Takes over how a run of the pipeline ended.
    pub fn radiance_ran(&mut self, outcome: RadRun)
        ensures
            final(self)@ == old(self)@.with_render(old(self)@.render.radiance_ended(outcome)),
    {
        self.render.end_radiance(outcome);
    }

    /// Closes the window of Radiance.
    pub fn close_radiance(&mut self)
        ensures
            final(self)@ == old(self)@.with_render(
                RenderView { rad_job: None, rad_preview: false, ..old(self)@.render },
            ),
    {
        self.render.rad_job = None;
        self.render.rad_preview = false;
    }

    /// What the window of Radiance says of a run: how long it has been going, where its picture is,
    /// or what it printed.
    pub fn radiance_text(&self, now: u64) -> (r: Option<String>)
        ensures
            opt_view(r) == match self@.render.rad_job {
                None => None,
                Some(j) => Some(
                    if !j.done {
                        "Running oconv → rpict → pfilt → ra_bmp…  "@ + dec(
                            match self@.render.rad_started {
                                Some(t) => if now > t {
                                    ((now - t) / 1000) as nat
                                } else {
                                    0
                                },
                                None => 0,
                            },
                        ) + "s"@
                    } else if j.ok {
                        "render.bmp → "@ + j.dir
                    } else {
                        j.log
                    },
                ),
            },
    {
        match &self.render.rad_job {
            None => None,
            Some(j) => {
                if !j.done {
                    let secs: u64 = match self.render.rad_started {
                        Some(t) => if now > t {
                            (now - t) / 1000
                        } else {
                            0
                        },
                        None => 0,
                    };
                    Some(
                        cat3(
                            "Running oconv → rpict → pfilt → ra_bmp…  ",
                            dec_text(secs).as_str(),
                            "s",
                        ),
                    )
                } else if j.ok {
                    Some(cat2("render.bmp → ", j.dir.as_str()))
                } else {
                    Some(j.log.clone())
                }
            },
        }
    }
}

/// A run that failed always says something.
pub proof fn failed_run_says_something(r: RadRun)
    requires
        !(r matches RadRun::Ran(_, true)),
    ensures
        run_log(r).len() > 0,
{
    reveal_strlit("No output — is Radiance installed and on PATH? (https://github.com/LBNL-ETA/Radiance)");
    reveal_strlit("Could not run render.bat: ");
    match r {
        RadRun::Ran(log, _) => {
            if !is_blank(log@) {
                if log@.len() == 0 {
                    assert(crate::text::trimmed(log@).len() == 0);
                }
            }
        },
        RadRun::NotRun(_) => {},
    }
}

/// The pictures that can be rendered are in the proportion of four to three, and each step up makes
/// them larger.
pub proof fn pictures_keep_their_proportion(a: u32, b: u32)
    ensures
        picture_size(a).0 * 3 == picture_size(a).1 * 4,
        a < b <= 3 ==> picture_size(a).0 < picture_size(b).0,
        a > 3 ==> picture_size(a) == picture_size(3),
{
}

/// A number of samples between eight and 512 is taken, and one outside becomes the nearer of them.
pub proof fn samples_are_taken_in_bounds(n: u32)
    ensures
        8 <= samples_kept(n) <= 512,
        8 <= n <= 512 ==> samples_kept(n) == n,
        n < 8 ==> samples_kept(n) == 8,
        n > 512 ==> samples_kept(n) == 512,
{
}

/// The point of the compass that a bearing is named by is at most half a point away from it, however
/// often the bearing goes round.
pub proof fn compass_point_is_the_nearest(bearing: i64)
    ensures
        0 <= compass_index(bearing) < 8,
        exists|turns: int|
            -22_500_000 <= bearing - (compass_index(bearing) * 45_000_000 + #[trigger] (turns
                * 360_000_000)) <= 22_500_000,
{
    crate::grid::nearest_is_near(bearing as int, 45_000_000);
    let n = nearest(bearing as int, 45_000_000);
    let turns = n / 8;
    assert(n == turns * 8 + n % 8);
    assert(-22_500_000 <= bearing - (compass_index(bearing) * 45_000_000 + turns * 360_000_000)
        <= 22_500_000);
}

/// The picture is read where it has a new pass to show: every one of the processor's, every fourth of
/// the graphics card's, and its last. Nothing is read while nothing is rendered.
pub proof fn pictures_are_read_as_they_change(r: RenderView, pass: u32)
    ensures
        pass == r.pt_last_pass ==> !r.reading_due(pass),
        r.gpu_job is None && r.cpu_job is None ==> !r.reading_due(pass),
        r.gpu_job is None && r.cpu_job is Some && pass != r.pt_last_pass ==> r.reading_due(pass),
        r.gpu_job == Some(true) && pass != r.pt_last_pass ==> r.reading_due(pass),
        r.gpu_job == Some(false) && pass >= r.pt_last_pass ==> (r.reading_due(pass) <==> pass
            - r.pt_last_pass >= 4),
        pass < u32::MAX && r.cpu_job is Some && r.gpu_job is None ==> r.denoised(
            !r.pt_denoise,
        ).reading_due(pass),
        r.denoised(!r.pt_denoise).pt_denoise == !r.pt_denoise,
        r.denoised(r.pt_denoise) == r,
{
}

/// The surroundings are what they were set to, within a millionth, and the model is to be saved
/// where they changed.
pub proof fn surroundings_are_set(s: AppView, strength: i64, rot: i64)
    ensures
        ({
            let t = s.environment_set(strength, rot);
            &&& -1 <= t.render.env_strength - strength <= 1
            &&& -1 <= t.render.env_rot - rot <= 1
            &&& t.render != s.render ==> t.factory.dirty && t.render.env_strength == strength
                && t.render.env_rot == rot
            &&& t.render == s.render ==> t.factory.dirty == s.factory.dirty || t.factory.dirty
            &&& t.factory.data == s.factory.data && t.doc == s.doc
        }),
{
}

/// A render has the size and the passes that were chosen, and runs on the graphics card only if that
/// was chosen and is ready.
pub proof fn render_is_as_chosen(s: AppView, gpu_ready: bool)
    ensures
        ({
            let p = s.trace_plan(gpu_ready);
            &&& (p.w, p.h) == picture_size(s.render.pt_res)
            &&& p.passes == s.render.pt_passes
            &&& p.device == Device::Gpu <==> s.render.device == Device::Gpu && gpu_ready
        }),
{
}

/// Starting a render drops the one before; without a scene nothing starts and nothing is dropped. It
/// then runs on the device, or on the processor where the card refused.
pub proof fn render_runs_on_its_device(s: AppView, device: Device, refused: Option<Seq<char>>)
    ensures
        s.trace_started(true).render == s.render,
        s.trace_started(false).render.cpu_job is None,
        s.trace_started(false).render.gpu_job is None,
        s.trace_started(false).render.pt_last_pass == 0,
        ({
            let t = s.trace_started(false).tracer_running(device, refused);
            &&& t.tracing()
            &&& t.render.gpu_job is Some <==> device == Device::Gpu && refused is None
            &&& t.render.cpu_job is Some <==> device == Device::Cpu || refused is Some
        }),
{
}

/// A render is saved beside the drawing, under the drawing's name; a drawing without a file has it at
/// home.
pub proof fn render_is_saved_beside_the_drawing(s: AppView, home: Seq<char>)
    ensures
        s.files.current_file matches Some(p) ==> {
            &&& file_name(s.picture_path(home)) == file_stem(p) + "_render.png"@
            &&& parent_dir(p).len() > 0 && parent_dir(p).last() != '/' ==> parent_dir(
                s.picture_path(home),
            ) == parent_dir(p)
            &&& parent_dir(p).len() > 0 && parent_dir(p).last() != '/' ==> parent_dir(
                s.radiance_dir(home),
            ) == parent_dir(p)
            &&& file_name(s.radiance_dir(home)) == file_stem(p) + "_radiance"@
        },
        s.files.current_file is None && home.len() > 0 && home.last() != '/' ==> parent_dir(
            s.picture_path(home),
        ) == home && parent_dir(s.radiance_dir(home)) == home,
{
    reveal_strlit("_render.png");
    reveal_strlit("_radiance");
    reveal_strlit("scene");
    reveal_strlit("3dfactory_radiance");
    let tail = "_render.png"@;
    let ext = "_radiance"@;
    match s.files.current_file {
        Some(p) => {
            let stem = file_stem(p);
            crate::paths::stem_and_extension_make_the_name(p);
            assert(!stem.contains('/')) by {
                if stem.contains('/') {
                    let i = choose|i: int| 0 <= i < stem.len() && stem[i] == '/';
                    assert(file_name(p)[i] == '/');
                }
            }
            no_slash_added(stem, tail);
            no_slash_added(stem, ext);
            crate::paths::joined_path_comes_apart(parent_dir(p), stem + tail);
            crate::paths::joined_path_comes_apart(parent_dir(p), stem + ext);
        },
        None => {
            no_slash_added("scene"@, tail);
            no_slash_added(Seq::empty(), "3dfactory_radiance"@);
            crate::paths::joined_path_comes_apart(home, "scene"@ + tail);
            assert(Seq::<char>::empty() + "3dfactory_radiance"@ =~= "3dfactory_radiance"@);
            crate::paths::joined_path_comes_apart(home, "3dfactory_radiance"@);
        },
    }
}

proof fn no_slash_added(a: Seq<char>, b: Seq<char>)
    requires
        !a.contains('/'),
        forall|i: int| 0 <= i < b.len() ==> b[i] != '/',
    ensures
        !(a + b).contains('/'),
{
    if (a + b).contains('/') {
        let i = choose|i: int| 0 <= i < (a + b).len() && (a + b)[i] == '/';
        if i < a.len() {
            assert(a[i] == '/');
        } else {
            assert(b[i - a.len()] == '/');
        }
    }
}

/// The first place that holds something is taken.
pub proof fn first_place_is_taken(holds: Seq<bool>)
    ensures
        match first_holding(holds) {
            Some(i) => 0 <= i < holds.len() && holds[i] && forall|j: int| 0 <= j < i ==> !holds[j],
            None => forall|j: int| 0 <= j < holds.len() ==> !holds[j],
        },
    decreases holds.len(),
{
    if holds.len() > 0 && !holds[0] {
        let rest = holds.drop_first();
        first_place_is_taken(rest);
        assert forall|j: int| 0 < j < holds.len() implies holds[j] == rest[j - 1] by {}
    }
}

/// A run is asked for in a directory, and is done at once, as failed, where the renderer is not
/// installed. One that ends keeps its directory, is done, and went well exactly if there is a
/// picture.
pub proof fn run_ends_in_its_directory(s: AppView, dir: Seq<char>, installed: bool, now: u64, r: RadRun)
    ensures
        ({
            let t = s.radiance_started(dir, installed, now).render;
            let u = t.radiance_ended(r);
            &&& t.rad_job matches Some(j) && j.dir == dir && j.done == !installed && !j.ok
            &&& t.rad_started == Some(now) && !t.rad_loaded && !t.rad_preview
            &&& u.rad_job matches Some(k) && k.dir == dir && k.done && (k.ok <==> (r matches RadRun::Ran(
                _,
                picture,
            ) && picture))
        }),
        s.render.rad_job is None ==> s.render.radiance_ended(r) == s.render,
{
}

/// Asking for surroundings or for a folder of the renderer opens the browser for it, where it was
/// said, and remembers what comes next.
pub proof fn asked_folder_is_browsed(s: AppView, dir: Option<Seq<char>>, run_after: bool, home: Seq<char>)
    ensures
        s.environment_asked(dir).dialog.file_dialog matches Some(d) && d.mode
            == FileDialogMode::ImportHdri && (dir is Some ==> d.dir == dir->0),
        s.radiance_asked(run_after, home).dialog.file_dialog matches Some(d) && d.mode
            == FileDialogMode::PickFolder && d.dir == s.radiance_dir(home),
        s.radiance_asked(run_after, home).dialog.rad_run_after_pick == run_after,
        s.environment_asked(dir).render == s.render,
        s.radiance_asked(run_after, home).render == s.render,
{
}

/// Saving a render or exporting a scene changes nothing but what is told of it; only what went well
/// is told in the history too.
pub proof fn exports_change_nothing(
    s: AppView,
    path: Seq<char>,
    outcome: Result<(), String>,
    tris: usize,
    e: RadExport,
)
    ensures
        s.picture_saved(path, outcome).doc == s.doc,
        s.picture_saved(path, outcome).factory.data == s.factory.data,
        s.picture_saved(path, outcome).files == s.files,
        outcome is Err ==> s.picture_saved(path, outcome).history == s.history,
        outcome is Ok ==> s.picture_saved(path, outcome).history.len() == s.history.len() + 1,
        s.radiance_exported(tris, path, e).doc == s.doc,
        s.radiance_exported(tris, path, e).factory.data == s.factory.data,
        s.radiance_exported(tris, path, e).files == s.files,
        tris > 0 && e is Written <==> s.radiance_exported(tris, path, e).history.len()
            == s.history.len() + 1,
        tris == 0 || !(e is Written) ==> s.radiance_exported(tris, path, e).history == s.history,
{
    reveal(AppView::said);
}

/// Closing the window stops what still runs, keeps a picture that the processor has finished, and lets
/// go of the graphics card. Opening it starts nothing.
pub proof fn closed_window_keeps_the_finished_picture(s: AppView, empty: bool)
    ensures
        s.trace_window(true).render.pt_open,
        !s.trace_window(false).render.pt_open,
        s.trace_window(true).render.cpu_job == s.render.cpu_job,
        s.trace_window(true).render.gpu_job == s.render.gpu_job,
        s.trace_window(false).render.gpu_job is None,
        s.render.cpu_job == Some(true) ==> s.trace_window(false).render.cpu_job == Some(true),
        s.render.cpu_job == Some(false) ==> s.trace_window(false).render.cpu_job is None,
        !s.trace_started(false).render.pt_preview,
{
}

/// The log of a run is what it wrote. Only a run without a picture and without a word gets one put in
/// for it.
pub proof fn log_is_what_was_written(r: RenderView, log: String, picture: bool)
    requires
        r.rad_job is Some,
    ensures
        picture || !crate::text::is_blank(log@) ==> (r.radiance_ended(
            RadRun::Ran(log, picture),
        ).rad_job matches Some(j) && j.log == log@),
{
}

} // verus!
