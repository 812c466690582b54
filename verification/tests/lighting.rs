use cad_app::app::CadApp;
use cad_app::calc::{CalcJob, CalcMsg, CalcOutcome, CalcRefusal, CalcResults, SaveWork};
use cad_app::config::StoredResults;
use cad_app::dialog::{FileDialogMode, ImageSlot};
use cad_app::doc::{Camera, Color, Document, Geom, GeomKind, Lineweight, Pt, Style, Traits};
use cad_app::factory::Session;
use cad_app::fixtures::{find_fixture, AimClick};
use cad_app::light::{CalcMode, LightMaterial, LitRoom, Luminaire, Profile};
use cad_app::pictures::{drop_alpha, lay_on_white, Decoded, RenderShown};
use cad_app::recorder::DbgEvent;
use cad_app::reporting::{LogoFile, ReportAction};

fn app() -> CadApp {
    CadApp::new(Camera { zoom: 1, pan_x: 0, pan_y: 0 }, u64::MAX, 4)
}

fn last(a: &CadApp) -> &str {
    a.history.last().map(|s| s.as_str()).unwrap_or("")
}

fn fixture(id: u32, x: i64, y: i64) -> Luminaire {
    Luminaire { id, x, y, z: 3_000_000, turn: 0, tilt: 0, profile: "P".to_string() }
}

fn block(x: i64, y: i64, turn: i64) -> Geom {
    Geom {
        kind: GeomKind::BlockRef,
        pts: vec![Pt { x, y }],
        lo: Pt { x: x - 1, y: y - 1 },
        hi: Pt { x: x + 1, y: y + 1 },
        turn,
        traits: Traits {
            size: 1_000_000,
            style: 0,
            flag: false,
            slant: 0,
            label: String::new(),
            font: String::new(),
            params: vec![],
        },
    }
}

fn style() -> Style {
    Style {
        layer: 0,
        color: Color::ByLayer,
        linetype: 0,
        ltscale: 1_000_000,
        lineweight: Lineweight::ByLayer,
        visible: true,
    }
}

fn room(name: &str, fixtures: Vec<Luminaire>) -> LitRoom {
    LitRoom { name: name.to_string(), fixtures, record: 5, has_standard_grid: false }
}

fn picture(w: u32, h: u32) -> Decoded {
    let mut rgba = vec![];
    for k in 0..(w as usize * h as usize) {
        rgba.extend_from_slice(&[(k % 251) as u8, 40, 200, 255]);
    }
    Decoded { w, h, rgba }
}

#[test]
fn fixtures_follow_their_symbols() {
    let mut a = app();
    a.doc.units.nm_per_unit = 1_000_000;
    a.doc.push(block(2_000_000_000, 500_000, 90_000_000), style());
    a.light.luminaires = vec![fixture(1, 0, 0), fixture(2, 7, 7), fixture(3, 9, 9)];
    a.light.symbol_of.insert(1, 1);
    a.light.symbol_of.insert(3, 999);
    a.files.edit_seq = 4;
    a.tick_symbol_sync();
    assert_eq!((a.light.luminaires[0].x, a.light.luminaires[0].y), (2_000_000, 500));
    assert_eq!(a.light.luminaires[0].turn, 90_000_000);
    assert_eq!(a.light.luminaires[1].x, 7);
    assert_eq!(a.light.luminaires[2].x, 9);
    assert_eq!(last(&a), "  ↻ 1 fitting(s) followed their symbol — recalculate for the new layout");
    let n = a.history.len();
    a.tick_symbol_sync();
    a.files.edit_seq = 5;
    a.tick_symbol_sync();
    assert_eq!(a.history.len(), n);
    assert_eq!(a.sync_fixtures_from_symbols(), 0);
}

#[test]
fn a_small_difference_moves_nothing() {
    let mut a = app();
    a.doc.push(block(1_000_100, 0, 1_000), style());
    a.light.luminaires = vec![fixture(1, 1_000_000, 0)];
    a.light.symbol_of.insert(1, 1);
    assert_eq!(a.sync_fixtures_from_symbols(), 0);
    a.doc.dobjects[0].geom.pts[0].x = 1_000_101;
    assert_eq!(a.sync_fixtures_from_symbols(), 1);
}

#[test]
fn a_drag_is_not_pulled_back() {
    let mut a = app();
    a.doc.units.nm_per_unit = 304_800_000;
    a.doc.push(block(0, 0, 0), style());
    a.light.luminaires = vec![fixture(1, 1_234_567, -765_432), fixture(2, 0, 0)];
    a.light.symbol_of.insert(1, 1);
    let dragged = a.begin_fixture_drag(1, vec![1]);
    assert_eq!(dragged.len(), 1);
    assert_eq!(dragged[0].id, 1);
    a.claim_drag_symbols(vec![(1, 0), (8, 0)]);
    a.canvas.index_dirty = false;
    a.drag_fixture_symbols();
    assert!(a.canvas.index_dirty);
    let at = a.doc.dobjects[0].geom.pts[0];
    assert_eq!(at, Pt { x: 4_050_417, y: -2_511_260 });
    assert_eq!(a.doc.dobjects[0].geom.hi.x, at.x + 1);
    a.light.drag = None;
    assert_eq!(a.sync_fixtures_from_symbols(), 0);
    assert_eq!(a.light.luminaires[0].x, 1_234_567);
}

#[test]
fn aiming_takes_two_clicks() {
    let mut a = app();
    a.light.luminaires = vec![fixture(4, 100, 200)];
    let click = |picked, pose| AimClick { x: 1_250_000, y: -500_000, picked, pose };
    a.aim_click(click(None, None));
    assert_eq!(a.light.last_msg, "No fitting there. Click a marker to pick the light to aim.");
    a.aim_click(click(Some(4), None));
    assert_eq!(a.light.selected, vec![4]);
    assert_eq!(a.light.last_msg, "Fitting #4 — now click the point it should light.");
    a.aim_click(click(None, Some((45_000_000, 30_400_000))));
    assert_eq!(
        a.light.last_msg,
        "Fitting #4 aimed at (1.25, -0.50) — 30° from vertical, toward 45°. Click another fitting, or Esc to stop."
    );
    assert_eq!((a.light.luminaires[0].x, a.light.luminaires[0].y), (100, 200));
    assert_eq!(a.light.luminaires[0].tilt, 30_400_000);
    assert!(a.light.aim_pick.is_none());
    assert_eq!(a.undo.undo_stack.len(), 1);
    a.do_undo();
    assert_eq!(a.light.luminaires[0].tilt, 0);
}

#[test]
fn a_low_fixture_cannot_be_aimed() {
    let mut a = app();
    a.light.luminaires = vec![fixture(4, 0, 0)];
    a.light.luminaires[0].z = 850_500;
    a.light.aim_pick = Some(4);
    a.aim_click(AimClick { x: 0, y: 0, picked: None, pose: Some((0, 0)) });
    assert_eq!(
        a.light.last_msg,
        "Fitting #4 is at 0.85 m, at or below the working plane at 0.85 m — nothing below it to aim at."
    );
    assert!(a.light.aim_pick.is_none() && a.undo.undo_stack.is_empty());
    a.light.aim_pick = Some(77);
    a.aim_click(AimClick { x: 0, y: 0, picked: None, pose: None });
    assert!(a.light.aim_pick.is_none());
    assert_eq!(find_fixture(&a.light.luminaires, 4), Some(0));
}

#[test]
fn stray_fixtures_stand_far_away() {
    let mut a = app();
    a.light.luminaires = vec![fixture(1, 5_000_000, 0), fixture(2, 900_000_000, 0)];
    let model = Some((Pt { x: 0, y: 0 }, Pt { x: 10_000_000, y: 10_000_000 }));
    assert_eq!(a.stray_light_ids(model), vec![2]);
    assert!(a.stray_light_ids(None).is_empty());
}

#[test]
fn a_doubtful_unit_is_pointed_out() {
    let mut a = app();
    a.doc.push(block(0, 0, 0), style());
    a.doc.dobjects[0].geom.lo = Pt { x: 0, y: 0 };
    a.doc.dobjects[0].geom.hi = Pt { x: 20_000_000_000, y: 1 };
    let note = a.unit_sanity_note("m").expect("twenty kilometres is no building");
    assert!(note.starts_with("  ⚠ units: this drawing is 20000.00 units across, which at 1 unit = m is 20000.000 m"));
    a.doc.units.nm_per_unit = 1_000_000;
    assert_eq!(a.unit_sanity_note("mm"), None);
}

#[test]
fn lengths_go_through_the_unit() {
    let mut a = app();
    a.doc.units.nm_per_unit = 25_400_000;
    assert_eq!(a.doc_k(), 25_400_000);
    assert_eq!(a.dlen_m(2_000_000), 50_800);
    assert_eq!(a.grid_spacing(10_000_000), 10_000_000);
    let mut plan = Document::new();
    plan.units.nm_per_unit = 1_000_000;
    a.factory.session = Some(Session { plane: 1, saved_doc: plan });
    a.doc.units.nm_per_unit = 1_000_000_000;
    assert_eq!(a.grid_spacing(10_000_000), 10_000);
}

#[test]
fn stored_results_come_back_to_their_scene() {
    let stored = || StoredResults {
        rooms: vec![room("hall", vec![])],
        surfaces: vec![4, 5],
        timings: vec![60],
        fingerprint: 9,
        build: String::new(),
        express: true,
    };
    let mut a = app();
    a.restore_light_results_from(Some(stored()), Some(8));
    assert!(a.light.rooms.is_empty());
    assert_eq!(last(&a), "  a saved calculation was found but the project has changed since — recalculate");
    a.restore_light_results(Some(stored()), Some(9));
    assert_eq!(a.light.rooms.len(), 1);
    assert_eq!((a.light.surfaces.clone(), a.light.last_timings.clone()), (vec![4, 5], vec![60]));
    assert!(a.light.has_grid && a.light.has_plane);
    let kept = a.current_stored_results("7");
    assert_eq!(kept.as_ref().map(|k| (k.surfaces.clone(), k.timings.clone())), Some((vec![4, 5], vec![60])));
    assert_eq!(a.report_input().map(|i| i.surfaces), Some(vec![4, 5]));
    assert_eq!(a.light.results_mode, Some(CalcMode::Express));
    assert_eq!(last(&a), "  saved calculation restored (1 room(s), computed by build ?)");
    assert!(a.staleness_due(1_000));
    a.refresh_light_staleness(1_000, Some(10));
    assert!(a.light.results_stale);
    assert!(!a.staleness_due(1_001));
}

fn job() -> CalcJob {
    CalcJob { mode: "Full".to_string(), tris: 12, steps: 3, cell: 250_000 }
}

fn refusal() -> CalcRefusal {
    CalcRefusal { message: "Nothing to calculate.".to_string(), model_tris: 12 }
}

fn results() -> CalcResults {
    CalcResults {
        rooms: vec![room("hall", vec![])],
        surfaces: vec![8],
        timings: vec![70, 80],
        fingerprint: 3,
        mode: CalcMode::Full,
        overlay: true,
    }
}

/// What was done, with which detail and message, how many fittings there were, and how long it took.
fn light_ops(a: &CadApp) -> Vec<String> {
    a.recorder
        .events
        .iter()
        .map(|e| match e {
            DbgEvent::LightOp { op, detail, fittings_before, fittings_after, message, elapsed_us } => {
                format!("{op}|{detail}|{fittings_before}|{fittings_after}|{message}|{elapsed_us}")
            }
            _ => String::new(),
        })
        .collect()
}

#[test]
fn calculations_are_recorded() {
    let mut a = app();
    a.start_calculation(Err(refusal()), None, 5);
    assert!(a.recorder.events.is_empty());
    a.recorder.on = true;
    a.start_calculation(Err(refusal()), None, 5);
    a.start_calculation(Ok(job()), None, 6);
    a.start_calculation(Ok(job()), None, 7);
    let out = |cancelled| CalcOutcome {
        cancelled,
        results: if cancelled { None } else { Some(results()) },
        message: "done".to_string(),
        seconds: "1.5".to_string(),
        took_us: 1_500_000,
    };
    a.poll_calculation(CalcMsg::Done(out(false)), "1");
    a.start_calculation(Ok(job()), None, 8);
    a.poll_calculation(CalcMsg::Done(out(true)), "1");
    a.start_calculation(Ok(CalcJob { cell: -1_500, ..job() }), None, 9);
    a.poll_calculation(CalcMsg::Lost, "1");
    let ops = light_ops(&a);
    assert_eq!(ops.len(), 8);
    assert_eq!(
        ops[0],
        "calculate refused|`prepare` built no job — nothing to calculate. rooms=0 factory_rooms=0 model_tris=12|0|0|Nothing to calculate.|0"
    );
    assert_eq!(
        ops[1],
        "calculate|started — mode=Full scene=12 tris steps=3 cell=0.250 m plane_h=0.850 m|0|0|Nothing to calculate.|0"
    );
    assert!(ops[2].starts_with("calculate refused|one is ALREADY RUNNING — "));
    assert!(ops[2].ends_with("this is the one to chase.|0|0|Calculating…|0"));
    assert_eq!(ops[3], "calculated|rooms=1 grid=true plane=true overlay=true stale=false|0|0|done|1500000");
    assert_eq!(ops[5], "calculation stopped|rooms=1 grid=true plane=true overlay=true stale=false|0|0|done|1500000");
    assert!(ops[6].contains("cell=-0.002 m"));
    assert!(ops[7].starts_with("calculation failed|the worker thread ended WITHOUT sending a result — "));
    assert!(ops[7].ends_with("|0|0|The calculation stopped unexpectedly.|0"));
}

#[test]
fn one_calculation_at_a_time() {
    let mut a = app();
    assert!(!a.start_calculation(Err(refusal()), None, 5));
    assert_eq!(a.light.last_msg, "Nothing to calculate.");
    assert!(a.start_calculation(Ok(job()), Some(1), 5));
    assert!(!a.start_calculation(Ok(job()), None, 6));
    a.stop_calculation();
    assert_eq!(a.light.last_msg, "Stopping the calculation…");
    a.files.current_file = Some("/p/a.dxf".to_string());
    let out = CalcOutcome {
        cancelled: false,
        results: Some(results()),
        message: "done".to_string(),
        seconds: "1.5".to_string(),
        took_us: 1_500_000,
    };
    assert!(matches!(a.poll_calculation(CalcMsg::Pending, "1"), SaveWork::Nothing));
    let work = a.poll_calculation(CalcMsg::Done(out), "1");
    assert!(matches!(work, SaveWork::Beside(w) if w.stored.surfaces == vec![8] && w.stored.timings == vec![70, 80]));
    assert!(a.history.iter().any(|h| h == "  calculated in 1.5 s"));
    a.start_calculation(Ok(job()), None, 9);
    a.poll_calculation(CalcMsg::Lost, "1");
    assert_eq!(a.light.last_msg, "The calculation stopped unexpectedly.");
    assert_eq!(last(&a), "  ! calculation thread ended without a result");
}

#[test]
fn fittings_are_gathered_by_type() {
    let mut a = app();
    a.light.profiles.push(Profile {
        name: "P".to_string(),
        manufacturer: "Acme".to_string(),
        catalogue: "A1".to_string(),
        lamp: "LED".to_string(),
        watts: 12_000,
        lumens: 900_000,
        length: 1,
        width: 2,
        height: 3,
    });
    let mut none = fixture(3, 0, 0);
    none.profile = String::new();
    let mut blank = fixture(4, 0, 0);
    blank.profile = "  ".to_string();
    let rows = a.schedule_for(&vec![none, fixture(1, 0, 0), fixture(2, 0, 0), fixture(5, 0, 0), blank]);
    assert_eq!(rows.len(), 2);
    assert_eq!((rows[0].profile.as_str(), rows[0].count, rows[0].manufacturer.as_str()), ("P", 3, "Acme"));
    assert_eq!((rows[1].profile.as_str(), rows[1].count), ("— no fitting assigned —", 2));
}

#[test]
fn a_report_needs_a_calculation() {
    let mut a = app();
    assert!(a.report_input().is_none());
    a.export_light_report();
    assert!(!a.report.open);
    assert_eq!(a.light.last_msg, "Nothing to report — press Calculate first.");
    a.light.rooms = vec![room("hall", vec![fixture(1, 0, 0)]), room(" ", vec![])];
    a.light.has_grid = true;
    a.light.luminaires = vec![fixture(1, 0, 0)];
    a.light.luminaires[0].profile = " ".to_string();
    a.light.results_mode = Some(CalcMode::Express);
    a.files.current_file = Some("/p/villa.dxf".to_string());
    a.export_light_report();
    assert!(a.report.open);
    assert_eq!(a.report.title, "villa");
    assert_eq!(a.report.file_stem, "villa-lighting");
    assert_eq!(a.report.out_dir, "/p");
    a.light.maintenance = 800_000;
    a.light.eye_height = 1_200_000;
    a.light.room_height = 2_800_000;
    a.light.materials.push(LightMaterial { name: "Plaster".to_string(), reflectance: 700_000 });
    let inp = a.report_input().expect("there are rooms");
    assert_eq!((inp.maintenance, inp.eye_height, inp.room_height), (800_000, 1_200_000, 2_800_000));
    assert_eq!((inp.materials[0].name.as_str(), inp.materials[0].reflectance), ("Plaster", 700_000));
    assert_eq!(inp.rooms[0].fixtures.len(), a.light.rooms[0].fixtures.len());
    assert!(inp.rooms[0].express && inp.rooms[0].schedule.len() == 1);
    assert_eq!(inp.unassigned, 1);
    let s = a.report_sections();
    assert_eq!(s[0].title, "hall");
    assert_eq!(s[1].title, "villa");
    assert!(a.report_shown());
    assert!(a.report_frame_done(false));
    assert!(!a.report_shown());
    a.report_written("/p/villa.pdf", Err("full".to_string()));
    assert_eq!(last(&a), "  ! Could not write /p/villa.pdf: full");
    a.report.open = true;
    a.report_written("/p/villa.pdf", Ok(()));
    assert_eq!(last(&a), "  Report written to /p/villa.pdf");
    assert!(!a.report.open);
    a.save_report_prefs(Err("ro".to_string()));
    assert_eq!(last(&a), "  ! report settings not saved — ro");
}

#[test]
fn unnamed_drawings_have_untitled_reports() {
    assert_eq!(app().report_default_name(), "Untitled");
}

#[test]
fn pictures_lie_on_white_paper() {
    assert_eq!(lay_on_white(&vec![0, 0, 0, 0, 10, 20, 30, 255]), vec![255, 255, 255, 10, 20, 30]);
    assert_eq!(drop_alpha(&vec![1, 2, 3, 0]), vec![1, 2, 3]);
}

#[test]
fn a_picture_becomes_a_jpeg() {
    let mut a = app();
    let p = a.report_add_image("/p/front.png", Ok(picture(8, 4)), ImageSlot::Render, "image");
    assert!(p.is_some());
    let j = a.report.renders.images[0].jpeg.as_ref().expect("it was encoded");
    assert_eq!((j.w, j.h), (8, 4));
    assert_eq!(&j.bytes[..3], &[0xff, 0xd8, 0xff]);
    assert_eq!(&j.bytes[j.bytes.len() - 2..], &[0xff, 0xd9]);
    assert_eq!(last(&a), "  report: added image front (8×4)");
    a.report_add_image("/p/bad.png", Err("torn".to_string()), ImageSlot::Render, "image");
    assert_eq!(last(&a), "  ! report: could not read /p/bad.png — torn");
    assert_eq!(a.report.renders.images.len(), 1);
}

#[test]
fn a_large_picture_is_made_smaller() {
    let mut a = app();
    a.report_add_image("/p/wide.png", Ok(picture(4_000, 10)), ImageSlot::Cover, "image");
    let j = a.report.covers.images[0].jpeg.as_ref().expect("it was encoded");
    assert_eq!((j.w, j.h), (1_600, 4));
    for (w, h, fits) in [(2_249, 20, (1_599, 14)), (20, 2_268, (14, 1_599)), (1_601, 1, (1_600, 1))] {
        let mut a = app();
        a.report_add_image("/p/large.png", Ok(picture(w, h)), ImageSlot::Cover, "image");
        let j = a.report.covers.images[0].jpeg.as_ref().expect("it was encoded");
        assert_eq!((j.w, j.h), fits);
    }
}

#[test]
fn a_render_is_captured_when_there_is_one() {
    let mut a = app();
    a.report_capture_render(RenderShown::NoJob, "render");
    assert_eq!(a.light.last_msg, "No render to capture — start one first.");
    a.report_capture_render(RenderShown::NoFrame, "render");
    assert_eq!(a.light.last_msg, "The render has not produced a frame yet.");
    a.report_capture_render(RenderShown::Frame(picture(3, 3)), "render");
    assert_eq!(a.report.renders.images.len(), 1);
}

#[test]
fn the_report_dialog_asks_and_removes() {
    let mut a = app();
    let none = ReportAction {
        browse_dir: false,
        add_images: false,
        add_logos: false,
        add_cover: false,
        remove_image: None,
        remove_logo: None,
        remove_cover: None,
        capture_render: false,
        save: false,
    };
    for k in 0..3 {
        a.report_add_image(&format!("/p/{k}.png"), Ok(picture(2, 2)), ImageSlot::Logo, "logo");
    }
    a.report.header_image = Some(2);
    a.report.footer_image = Some(0);
    assert!(!a.apply_report_action(ReportAction { remove_logo: Some(0), ..none }, RenderShown::NoJob, "render"));
    assert_eq!(a.report.logos.images.len(), 2);
    assert_eq!(a.report.header_image, Some(1));
    assert_eq!(a.report.footer_image, None);
    assert_eq!(a.report.logos.tex.len(), 2);
    a.report_remove_image(5);
    assert!(a.apply_report_action(
        ReportAction { add_logos: true, save: true, ..none },
        RenderShown::NoJob,
        "render"
    ));
    assert_eq!(a.dialog.report_wants_images, Some(ImageSlot::Logo));
    assert_eq!(a.dialog.file_dialog.as_ref().map(|d| d.mode), Some(FileDialogMode::ImportImage));
}

#[test]
fn unreadable_logos_keep_their_place() {
    let mut a = app();
    a.load_report_prefs(
        vec![
            LogoFile { path: "/a.png".to_string(), caption: "A".to_string(), decoded: Err("gone".to_string()) },
            LogoFile { path: "/b.png".to_string(), caption: "B".to_string(), decoded: Ok(picture(2, 2)) },
        ],
        "logo",
    );
    assert!(a.report.prefs_loaded);
    assert_eq!(a.report.logos.images.len(), 2);
    assert!(a.report.logos.images[0].jpeg.is_none());
    assert_eq!(a.report.logos.images[0].caption, "A");
    assert!(a.report.logos.images[1].jpeg.is_some());
    assert_eq!(a.report.logos.images[1].caption, "B");
}
