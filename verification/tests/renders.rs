use cad_app::app::CadApp;
use cad_app::daylight::{haze_density_text, haze_falloff_text, sun_keep, sun_label, sun_settable, SunField, Switches};
use cad_app::dialog::FileDialogMode;
use cad_app::doc::Camera;
use cad_app::renders::{
    compass, find_radiance_bin, radiance_file, radiance_home, render_size, sun_direction_text, sun_readout, Device,
    RadExport, RadRun, SunPosition,
};

fn app() -> CadApp {
    CadApp::new(Camera { zoom: 1, pan_x: 0, pan_y: 0 }, u64::MAX, 4)
}

#[test]
fn bearings_have_names() {
    let names: Vec<&str> = (0..8).map(|k| compass(k * 45_000_000)).collect();
    assert_eq!(names, vec!["N", "NE", "E", "SE", "S", "SW", "W", "NW"]);
    assert_eq!(compass(359_000_000), "N");
    assert_eq!(compass(22_500_000), "NE");
    assert_eq!(compass(-45_000_000), "NW");
}

#[test]
fn the_sun_is_read_out() {
    let p = SunPosition { up: true, altitude: 41_250_000, bearing: 181_400_000, x: -20_000, y: 715_000, z: 0 };
    assert_eq!(sun_readout(p, 172), "sun altitude 41.2° · bearing 181° (S) · day 172");
    assert_eq!(sun_direction_text(p).as_deref(), Some("direction  x -0.02  y +0.72  z +0.00"));
    let night = SunPosition { up: false, altitude: -7_380_000, ..p };
    assert_eq!(sun_readout(night, 1), "sun is below the horizon (-7.4°) — night");
    assert_eq!(sun_direction_text(night), None);
}

#[test]
fn daylight_numbers_keep_to_their_ranges() {
    assert_eq!(sun_keep(SunField::Latitude, 95_000_000), 90_000_000);
    assert_eq!(sun_keep(SunField::UtcOffset, -13_000_000), -12_000_000);
    assert_eq!(sun_keep(SunField::Month, 7), 7);
    assert_eq!(sun_label(SunField::Exposure), "Exposure");
    assert_eq!(haze_density_text(1), "off");
    assert_eq!(haze_density_text(2_000), "346 m");
    assert_eq!(haze_falloff_text(0), "never");
    assert_eq!(haze_falloff_text(50_000), "½ per 14 m");
    let off = Switches {
        sun: false,
        shadows: true,
        haze: false,
        environment: false,
        occlusion: false,
        bounce: false,
        glass: false,
        mirror: false,
    };
    assert!(!sun_settable(SunField::SunDisc, off));
    assert!(sun_settable(SunField::SunDisc, Switches { sun: true, ..off }));
    assert!(sun_settable(SunField::Hour, off));
}

#[test]
fn sizes_stop_at_the_largest() {
    assert_eq!(render_size(0), (640, 480));
    assert_eq!(render_size(2), (1280, 960));
    assert_eq!(render_size(99), (1600, 1200));
}

#[test]
fn the_environment_changes_when_a_slider_moves() {
    let mut a = app();
    a.set_environment(1_000_001, 0);
    assert!(!a.factory.dirty);
    a.set_environment(1_000_002, 0);
    assert!(a.factory.dirty);
    assert_eq!(a.render.env_strength, 1_000_002);
    a.ask_environment(Some("/hdri".to_string()));
    let d = a.dialog.file_dialog.as_ref().expect("the browser opens");
    assert_eq!(d.mode, FileDialogMode::ImportHdri);
    assert_eq!(d.dir, "/hdri");
}

#[test]
fn the_tracer_starts_on_what_there_is() {
    let mut a = app();
    assert!(a.start_pathtrace(true, true).is_none());
    assert_eq!(a.factory.status, "Render: nothing in the scene");
    a.render.pt_res = 2;
    let p = a.start_pathtrace(false, false).expect("a plan");
    assert_eq!((p.w, p.h, p.max_depth, p.device), (1280, 960, 6, Device::Cpu));
    assert_eq!(a.start_pathtrace(false, true).map(|p| p.device), Some(Device::Gpu));
    a.trace_running(Device::Gpu, Some("old driver".to_string()));
    assert_eq!(a.factory.status, "GPU tracer unavailable (old driver) — rendering on CPU");
    assert_eq!(a.render.cpu_job, Some(false));
    assert!(a.is_tracing());
    assert!(a.trace_preview(1));
    assert!(!a.trace_preview(1));
    a.trace_window_open(false);
    assert!(!a.is_tracing());
}

#[test]
fn the_gpu_is_read_every_fourth_pass() {
    let mut a = app();
    a.trace_running(Device::Gpu, None);
    assert!(!a.trace_preview(3));
    assert!(a.trace_preview(4));
    assert_eq!(a.render.pt_last_pass, 4);
    a.render.gpu_job = Some(true);
    assert!(a.trace_preview(5));
}

#[test]
fn pictures_go_beside_the_drawing() {
    let mut a = app();
    assert_eq!(a.pathtrace_png_path("/home/u"), "/home/u/scene_render.png");
    assert_eq!(a.radiance_default_dir("/home/u"), "/home/u/3dfactory_radiance");
    a.files.current_file = Some("/p/villa.dxf".to_string());
    assert_eq!(a.pathtrace_png_path("/home/u"), "/p/villa_render.png");
    a.save_pathtrace_png("/p/villa_render.png", Ok(()));
    assert_eq!(a.factory.status, "Render saved → /p/villa_render.png");
    a.save_pathtrace_png("/p/villa_render.png", Err("full".to_string()));
    assert_eq!(a.factory.status, "Render save failed: full");
    a.pick_radiance_folder(true, "/home/u");
    assert!(a.dialog.rad_run_after_pick);
    assert_eq!(a.dialog.file_dialog.as_ref().map(|d| d.dir.as_str()), Some("/p/villa_radiance"));
}

#[test]
fn a_scene_for_radiance_is_exported() {
    let mut a = app();
    assert!(!a.export_radiance_scene_to(0, "/r", RadExport::Written));
    assert_eq!(a.factory.status, "Radiance export: nothing in the scene to export");
    assert!(!a.export_radiance_scene_to(3, "/r", RadExport::NoDirectory("ro".to_string())));
    assert_eq!(a.factory.status, "Radiance export failed: ro");
    assert!(!a.export_radiance_scene_to(3, "/r", RadExport::NotWritten("sky.rad".to_string(), "ro".to_string())));
    assert_eq!(a.factory.status, "Radiance export: failed writing sky.rad: ro");
    assert!(a.export_radiance_scene_to(3, "/r", RadExport::Written));
    assert_eq!(a.factory.status, "Radiance scene exported (3 triangles) → /r");
    assert_eq!(a.history.last().map(|s| s.as_str()), Some("  exported Radiance scene (3 tris) to /r"));
    assert_eq!(radiance_file(4), Some("README.txt"));
    assert_eq!(radiance_file(5), None);
    assert_eq!(radiance_home(0), Some("C:/Radiance/bin"));
    assert_eq!(find_radiance_bin(&vec![false, false, true, true]), Some(2));
    assert_eq!(find_radiance_bin(&vec![false]), None);
}

#[test]
fn a_run_of_radiance_ends_with_a_word() {
    let mut a = app();
    a.run_radiance_in("/r", false, 5);
    assert!(a.radiance_text(9).expect("a text").starts_with("Radiance is not installed on this machine"));
    assert_eq!(a.factory.status, "Radiance not installed — scene exported; see the Radiance window");
    a.run_radiance_in("/r", true, 5_000);
    assert_eq!(a.radiance_text(8_100).as_deref(), Some("Running oconv → rpict → pfilt → ra_bmp…  3s"));
    a.radiance_ran(RadRun::Ran("  \n".to_string(), false));
    assert!(a.radiance_text(0).expect("a text").starts_with("No output"));
    a.radiance_ran(RadRun::NotRun("denied".to_string()));
    assert_eq!(a.radiance_text(0).as_deref(), Some("Could not run render.bat: denied"));
    a.radiance_ran(RadRun::Ran("ok".to_string(), true));
    assert_eq!(a.radiance_text(0).as_deref(), Some("render.bmp → /r"));
    a.close_radiance();
    assert_eq!(a.radiance_text(0), None);
}

#[test]
fn samples_and_noise_are_set() {
    let mut a = app();
    a.set_trace_samples(3);
    assert_eq!(a.render.pt_passes, 8);
    a.set_trace_samples(9_999);
    assert_eq!(a.render.pt_passes, 512);
    a.trace_running(Device::Cpu, None);
    assert!(a.trace_preview(5));
    let on = a.render.pt_denoise;
    a.set_trace_denoise(on);
    assert!(!a.trace_preview(5));
    a.set_trace_denoise(!on);
    assert!(a.trace_preview(5));
}
