use cad_app::app::CadApp;
use cad_app::browse::{empty_listing, list_directory, DialogAction, DirEntry, PathKind};
use cad_app::course::OpenCourse;
use cad_app::config::{FactoryRec, LayerRoomRec, Pair, PlanRoomRec, Project, SimluxConfig, SketchRec};
use cad_app::dialog::{FileDialogMode, ImageSlot};
use cad_app::direct::open_route;
use cad_app::doc::{Camera, Color, Document, Geom, GeomKind, Layer, Lineweight, Pt, Style, Traits, UnitSource};
use cad_app::factory::{FactoryData, Session, Sketch};
use cad_app::files::{may_embed, BusyKind, ExtraDataStore};
use cad_app::light::{CalcMode, LitRoom};
use cad_app::loading::{ExtraPick, LoadPayload, LoadTimes, ResultsSource};
use cad_app::paths::{file_name_of, file_stem_of, join_path, parent_of, path_format, Format};
use cad_app::preview::PreviewKind;
use cad_app::recorder::DbgEvent;
use cad_app::saving::{RetrySave, WorkerMsg};

fn app() -> CadApp {
    CadApp::new(Camera { zoom: 1, pan_x: 0, pan_y: 0 }, u64::MAX, 4)
}

fn last(a: &CadApp) -> &str {
    a.history.last().map(|s| s.as_str()).unwrap_or("")
}

fn line() -> Geom {
    Geom {
        kind: GeomKind::Line,
        pts: vec![Pt { x: 0, y: 0 }, Pt { x: 10, y: 5 }],
        lo: Pt { x: 0, y: 0 },
        hi: Pt { x: 10, y: 5 },
        turn: 0,
        traits: Traits {
            size: 0,
            style: 0,
            flag: false,
            slant: 0,
            label: String::new(),
            font: String::new(),
            params: vec![],
        },
    }
}

fn style() -> Style {
    Style {
        layer: 0,
        color: Color::ByLayer,
        linetype: 0,
        ltscale: 1_000_000,
        lineweight: Lineweight::ByLayer,
        visible: true,
    }
}

fn config() -> SimluxConfig {
    SimluxConfig {
        vars: vec![],
        wall_centerline: vec![],
        luminaires: vec![],
        plan_rooms: vec![],
        layers_3d: vec![],
        factory: FactoryRec { features: vec![], walls: vec![], furniture: 0, sketches: vec![], with_geometry: true },
    }
}

fn project(name: &str) -> Project {
    let mut cfg = config();
    cfg.vars.push(Pair { key: "x".to_string(), value: name.to_string() });
    Project { cfg, data: FactoryData::new(), furniture_lib: vec![], textures: None, dropped: 0 }
}

fn payload(sidecar: Option<Project>, embedded: Option<Project>) -> LoadPayload {
    let mut doc = Document::new();
    doc.push(line(), style());
    LoadPayload {
        doc,
        sidecar,
        embedded,
        embedded_results: None,
        times: LoadTimes { read: 1, parse: 2, sidecar: 3, assets: 4, asset_count: 5 },
    }
}

#[test]
fn paths_are_taken_apart() {
    assert_eq!(file_name_of("/a/b/plan.v2.dxf"), "plan.v2.dxf");
    assert_eq!(file_stem_of("/a/b/plan.v2.dxf"), "plan.v2");
    assert_eq!(file_stem_of(".hidden"), ".hidden");
    assert_eq!(parent_of("/a/b/plan.dxf"), "/a/b");
    assert_eq!(parent_of("plan.dxf"), "");
    assert_eq!(join_path("/a", "b"), "/a/b");
    assert_eq!(join_path("", "b"), "b");
    assert_eq!(join_path("/a", "/b"), "/b");
    assert_eq!(path_format("A.DXF"), Some(Format::Dxf));
    assert_eq!(path_format("a.txt"), None);
}

#[test]
fn the_route_of_an_open_goes_by_the_extension() {
    assert!(matches!(open_route("a.RSM"), Ok(Format::Rsm)));
    assert!(matches!(open_route("a.dwg"), Ok(Format::Dwg)));
    assert_eq!(
        open_route("a.txt").err().as_deref(),
        Some("unknown extension on 'a.txt': expected .dxf, .dwg or .rsm")
    );
}

#[test]
fn only_native_formats_embed() {
    assert!(may_embed(ExtraDataStore::Embedded, "a.dxf"));
    assert!(!may_embed(ExtraDataStore::Sidecar, "a.dxf"));
    assert!(!may_embed(ExtraDataStore::Embedded, "a.dwg"));
}

#[test]
fn an_open_question_defers_saves() {
    let mut a = app();
    a.apply_loaded("/p/x.dxf", payload(Some(project("side")), Some(project("in"))), "x.simlux.json");
    assert!(a.files.extra_choice.is_some());
    a.do_save("/p/x.dxf", 10);
    assert!(a.files.busy.is_none());
    assert_eq!(
        last(&a),
        "  ! save deferred — this drawing has two copies of its 3D project data; pick which one to load first"
    );
    let r = a.choose_extra_data(ExtraPick::Embedded);
    assert!(r.is_some());
    assert_eq!(a.project.vars[0].value, "in");
    assert_eq!(a.files.extra_store, ExtraDataStore::Embedded);
    a.do_save("/p/x.dxf", 10);
    assert!(a.files.busy.is_some());
    assert!(a.choose_extra_data(ExtraPick::Neither).is_none());
}

#[test]
fn each_answer_to_the_question_is_reported() {
    let mut a = app();
    a.report_extra_pick(ExtraPick::Sidecar, "x.dxf");
    assert_eq!(
        last(&a),
        "  extra data: loaded the .simlux.json copy beside 'x.dxf' — further saves keep using separate files"
    );
    a.report_extra_pick(ExtraPick::Neither, "x.dxf");
    assert_eq!(last(&a), "  extra data: nothing loaded — drawing 'x.dxf' opened without its 3D project");
}

#[test]
fn opening_drops_the_old_history() {
    let mut a = app();
    a.snapshot_doc();
    a.selection = vec![0];
    let r = a.apply_loaded("/p/x.dxf", payload(None, Some(project("in"))), "x");
    assert!(matches!(r, ResultsSource::Inside(None)));
    assert!(a.undo.undo_stack.is_empty() && a.undo.redo_stack.is_empty());
    assert!(a.selection.is_empty());
    assert_eq!(a.doc.dobjects.len(), 1);
    assert_eq!(a.files.current_file.as_deref(), Some("/p/x.dxf"));
    a.finish_loaded("/p/x.dxf", None, "mm", "m");
    assert!(!a.files.unsaved);
    assert_eq!(a.doc.units.source, UnitSource::User);
    assert!(a.history.iter().any(|h| h == "  opened '/p/x.dxf'  (1 dobject(s), 0 layer(s))"));
}

#[test]
fn stages_are_kept_while_recording() {
    let mut a = app();
    a.stage_evt("read file", 0, 5, "x");
    assert!(a.recorder.events.is_empty());
    a.recorder.on = true;
    a.apply_loaded("/p/x.dxf", payload(None, None), "x");
    assert_eq!(a.recorder.events.len(), 4);
    assert!(matches!(&a.recorder.events[1], DbgEvent::ImportStage { stage, .. } if stage == "parse doc"));
    assert!(matches!(&a.recorder.events[3], DbgEvent::ImportStage { dobjects: 5, .. }));
}

#[test]
fn closing_a_sketch_keeps_both_drawings() {
    let mut a = app();
    let mut plan = Document::new();
    plan.push(line(), style());
    plan.push(line(), style());
    a.factory.data.sketches.push(Sketch { id: 1, name: "face".to_string(), doc: Document::new() });
    a.factory.session = Some(Session { plane: 1, saved_doc: plan });
    a.doc.push(line(), style());
    assert_eq!(a.plan_doc().dobjects.len(), 2);
    a.factory_exit_sketch();
    assert_eq!(a.doc.dobjects.len(), 2);
    assert_eq!(a.factory.data.sketches[0].doc.dobjects.len(), 1);
    assert!(a.factory.session.is_none());
}

#[test]
fn the_open_sketch_is_saved_in_base_64() {
    let mut a = app();
    a.factory.data.sketches.push(Sketch { id: 1, name: "a".to_string(), doc: Document::new() });
    a.factory.data.sketches.push(Sketch { id: 2, name: "b".to_string(), doc: Document::new() });
    a.factory.session = Some(Session { plane: 2, saved_doc: Document::new() });
    let recs = || {
        vec![
            SketchRec { id: 1, name: "a".to_string(), rsm_b64: "AA==".to_string() },
            SketchRec { id: 2, name: "b".to_string(), rsm_b64: String::new() },
        ]
    };
    for (bytes, text) in [
        (&b"Man"[..], "TWFu"),
        (&b"Ma"[..], "TWE="),
        (&b"M"[..], "TQ=="),
        (&b""[..], ""),
        (&[0xfb, 0xff, 0xfe][..], "+//+"),
    ] {
        let cfg = a.build_simlux_config(recs(), &bytes.to_vec());
        assert_eq!(cfg.factory.sketches[1].rsm_b64, text);
        assert_eq!(cfg.factory.sketches[0].rsm_b64, "AA==");
    }
    assert!(!a.build_simlux_config_lite(recs(), &vec![]).factory.with_geometry);
}

#[test]
fn saved_project_data_comes_back() {
    let mut a = app();
    a.doc.wall_styles = vec!["brick".to_string(), "glass".to_string()];
    a.doc.linetypes = vec!["solid".to_string(), "dash".to_string()];
    a.project.centerlines = vec![(1, 0), (0, 1)];
    a.project.vars = vec![
        Pair { key: "w".to_string(), value: "3".to_string() },
        Pair { key: "ans".to_string(), value: "9".to_string() },
    ];
    let cfg = a.build_simlux_config(vec![], &vec![]);
    assert_eq!(cfg.wall_centerline[0].key, "glass");
    assert_eq!(cfg.wall_centerline[0].value, "solid");
    let mut b = app();
    b.doc.wall_styles = a.doc.wall_styles.clone();
    b.doc.linetypes = a.doc.linetypes.clone();
    b.install_simlux_config(Project {
        cfg,
        data: FactoryData::new(),
        furniture_lib: vec![],
        textures: None,
        dropped: 2,
    });
    assert_eq!(b.project.centerlines, vec![(1, 0), (0, 1)]);
    assert_eq!(b.project.vars.len(), 1);
    assert_eq!(b.project.vars[0].key, "w");
    assert_eq!(
        last(&b),
        "  ! 3D Factory: 2 wall record(s) dropped (unusable footprint or missing feature)"
    );
}

#[test]
fn rooms_of_old_files_join_the_list() {
    let mut a = app();
    a.doc.layers.push(Layer { name: "R1".to_string(), color: Color::ByLayer });
    let p = |n: i64| Pt { x: n, y: n * n };
    a.migrate_legacy_rooms(
        &vec![
            PlanRoomRec { name: "hall".to_string(), footprint: vec![p(0), p(1), p(2)] },
            PlanRoomRec { name: "thin".to_string(), footprint: vec![p(0), p(1)] },
        ],
        &vec![
            LayerRoomRec { layer: "R1".to_string(), height: 2_500_000 },
            LayerRoomRec { layer: "gone".to_string(), height: 1 },
        ],
    );
    assert_eq!(a.factory.data.rooms.len(), 2);
    assert_eq!(a.factory.data.rooms[1].height, 2_500_000);
    assert_eq!(last(&a), "  rooms: migrated 1 plan designation(s) + 1 imported layer(s) into one list");
}

#[test]
fn a_direct_open_reports_what_it_found() {
    let mut a = app();
    a.do_open_now("a.dxf", Err("bad".to_string()), Ok(None));
    assert_eq!(last(&a), "  ! open 'a.dxf': bad");
    let mut d = Document::new();
    d.push(line(), style());
    a.do_open_now("a.dxf", Ok(d), Err("torn".to_string()));
    assert!(a.history.iter().any(|h| h == "  ! SIMLUX load: torn"));
    assert_eq!(last(&a), "  opened 'a.dxf'  (1 dobject(s), 0 layer(s))");
    a.open_read_failed("b.dxf", "gone");
    assert_eq!(last(&a), "  ! open 'b.dxf' failed: gone");
    a.open_convert_failed("b.dwg", "no tool");
    assert_eq!(last(&a), "  ! DWG convert 'b.dwg': no tool");
}

#[test]
fn a_direct_save_reports_what_it_wrote() {
    let mut a = app();
    assert!(a.save_route("a.txt").is_none());
    assert_eq!(last(&a), "  ! save 'a.txt': unknown extension (expected .dxf, .dwg or .rsm)");
    let mut cfg = config();
    cfg.factory.features = vec![1, 2];
    a.do_save_now("a.dxf", Ok(77), &cfg, Ok("a.simlux.json".to_string()));
    assert!(a.history.iter().any(|h| h == "  3D Factory: 2 solid(s), 0 wall(s) saved"));
    assert_eq!(last(&a), "  saved 'a.dxf'  (77 bytes)");
    a.do_save_now("a.dxf", Err("full".to_string()), &cfg, Ok(String::new()));
    assert_eq!(last(&a), "  ! save 'a.dxf': full");
}

#[test]
fn the_drawing_is_saved_and_not_the_sketch() {
    let mut a = app();
    let mut plan = Document::new();
    plan.push(line(), style());
    a.factory.data.sketches.push(Sketch { id: 1, name: "face".to_string(), doc: Document::new() });
    a.factory.session = Some(Session { plane: 1, saved_doc: plan });
    let job = a.save_job("a.dxf", vec![], &vec![], "1");
    assert_eq!(job.doc.dobjects.len(), 1);
}

#[test]
fn a_save_waits_and_then_reports() {
    let mut a = app();
    a.files.current_file = Some("/p/a.dxf".to_string());
    a.do_save_current(1_000);
    assert!(matches!(a.files.busy.as_ref().map(|b| b.kind), Some(BusyKind::Save)));
    a.files.results_running = true;
    assert!(a.spawn_busy_worker().is_none());
    a.files.results_running = false;
    let (kind, path) = a.spawn_busy_worker().expect("the save starts");
    assert_eq!(kind, BusyKind::Save);
    assert_eq!(path, "/p/a.dxf");
    a.apply_saved("/p/a.dxf", "saved".to_string(), None, 9, "1");
    assert!(!a.files.unsaved);
    assert_eq!(last(&a), "saved");
    a.apply_saved("/p/a.dxf", "half".to_string(), Some("no room".to_string()), 9, "1");
    assert!(a.files.unsaved);
    assert_eq!(a.files.save_failure.as_deref(), Some("no room"));
    assert!(matches!(a.retry_save(10), RetrySave::SaveNow(p) if p == "/p/a.dxf"));
    assert!(a.files.save_failure.is_none());
}

#[test]
fn a_first_save_asks_for_a_name() {
    let mut a = app();
    a.do_save_current(1);
    assert!(a.dialog.file_dialog.is_some());
    assert!(matches!(a.retry_save(1), RetrySave::Nothing));
    assert_eq!(a.close_confirm_name(), "this drawing");
}

#[test]
fn an_autosave_keeps_later_edits_unsaved() {
    let mut a = app();
    a.files.autosave_on = true;
    a.files.current_file = Some("/p/a.rsm".to_string());
    a.snapshot_doc();
    let p = a.tick_autosave(WorkerMsg::Empty, 1_000_000);
    assert_eq!(p.as_deref(), Some("/p/a.rsm"));
    assert!(a.files.autosave_running);
    a.snapshot_doc();
    a.tick_autosave(WorkerMsg::Saved(Ok(12)), 1_000_001);
    assert_eq!(last(&a), "  ⤓ autosaved (12 bytes)");
    assert!(a.files.unsaved);
    a.files.autosave_running = true;
    a.files.autosave_seq = a.files.edit_seq;
    a.snapshot_lights();
    a.tick_autosave(WorkerMsg::Saved(Ok(12)), 1_000_001);
    assert!(a.files.unsaved);
    a.files.autosave_running = true;
    a.files.autosave_seq = a.files.edit_seq;
    a.do_undo();
    a.tick_autosave(WorkerMsg::Saved(Ok(12)), 1_000_001);
    assert!(a.files.unsaved);
    a.files.autosave_running = true;
    a.files.autosave_seq = a.files.edit_seq;
    a.tick_autosave(WorkerMsg::Saved(Ok(12)), 1_000_002);
    assert!(!a.files.unsaved);
    a.files.autosave_running = true;
    a.tick_autosave(WorkerMsg::Saved(Err("full".to_string())), 1_000_003);
    assert_eq!(last(&a), "  ! autosave: full");
}

#[test]
fn a_drawing_in_another_format_is_not_autosaved() {
    let mut a = app();
    a.files.autosave_on = true;
    a.files.unsaved = true;
    a.files.current_file = Some("/p/a.dwg".to_string());
    assert_eq!(a.tick_autosave(WorkerMsg::Empty, 1_000_000), None);
}

#[test]
fn results_are_kept_with_the_drawing() {
    let mut a = app();
    assert!(a.current_stored_results("7").is_none());
    a.light.rooms = vec![LitRoom { name: "hall".to_string(), fixtures: vec![], record: 4, has_standard_grid: true }];
    a.light.results_fingerprint = Some(11);
    a.light.results_mode = Some(CalcMode::Express);
    let s = a.current_stored_results("7").expect("there are results");
    assert!(s.express && s.fingerprint == 11 && s.build == "7");
    assert!(a.save_light_results("7").is_none());
    a.files.current_file = Some("/p/a.dxf".to_string());
    assert_eq!(a.save_light_results("7").map(|w| w.path).as_deref(), Some("/p/a.dxf"));
    a.light.results_stale = true;
    assert!(a.save_light_results("7").is_none());
    a.light.results_stale = false;
    a.files.extra_store = ExtraDataStore::Embedded;
    assert!(a.save_light_results("7").is_none());
    assert!(a.can_embed_current());
    a.files.autosave_running = true;
    assert!(a.save_calc_results_embedded().is_none());
    assert!(a.files.results_due);
    a.files.autosave_running = false;
    assert_eq!(a.tick_results_save(WorkerMsg::Empty).as_deref(), Some("/p/a.dxf"));
    a.tick_results_save(WorkerMsg::Saved(Ok(5)));
    assert_eq!(last(&a), "  calculation saved → embedded in '/p/a.dxf' (5 bytes)");
    a.light_results_written(Ok("/p/a.lux".to_string()), 1);
    assert_eq!(last(&a), "  calculation saved → '/p/a.lux' (1 room(s))");
    a.light_results_written(Err("full".to_string()), 1);
    assert_eq!(last(&a), "  ! calculation not saved: full");
}

#[test]
fn closing_waits_for_the_save() {
    let mut a = app();
    a.files.current_file = Some("/p/a.dxf".to_string());
    a.files.unsaved = true;
    a.files.close_confirm = true;
    assert_eq!(a.close_confirm_name(), "a.dxf");
    a.save_and_close(5);
    assert!(a.files.close_after_save && !a.files.pending_close);
    a.apply_saved("/p/a.dxf", "saved".to_string(), None, 9, "1");
    assert!(a.files.pending_close);
    let mut half = app();
    half.files.close_after_save = true;
    half.apply_saved("/p/a.dxf", "half".to_string(), Some("no room".to_string()), 9, "1");
    assert!(half.files.unsaved && !half.files.pending_close && !half.files.close_after_save);
    let mut b = app();
    b.files.close_confirm = true;
    b.cancel_close();
    assert!(!b.files.close_confirm && !b.files.pending_close);
    b.close_without_saving();
    assert!(b.files.pending_close);
}

#[test]
fn the_browser_lists_folders_and_files() {
    let e = |name: &str, is_dir: bool| DirEntry { name: name.to_string(), is_dir, hidden: false };
    let entries = vec![e("b.dxf", false), e("sub", true), e(".git", true), e("A.RSM", false), e("x.txt", false)];
    let (dirs, files) = list_directory(&entries, FileDialogMode::Open, "");
    assert_eq!(dirs, vec!["sub"]);
    assert_eq!(files, vec!["A.RSM", "b.dxf"]);
    assert!(CadApp::dialog_lists(FileDialogMode::ImportHdri, "", "sky.EXR"));
    assert!(!CadApp::dialog_lists(FileDialogMode::ImportHdri, "", "sky.png"));
    assert_eq!(empty_listing(""), "(no folders here)");
    assert_eq!(empty_listing(".png|.jpg"), "(no folders or .png / .jpg files here)");
}

#[test]
fn the_browser_answers_who_asked() {
    let mut a = app();
    a.open_file_dialog(FileDialogMode::Open, "");
    assert_eq!(a.file_dialog_title(FileDialogMode::Open), "Open  .dxf / .rsm / .dwg");
    assert!(matches!(a.confirm_file_dialog(3), DialogAction::Nothing));
    assert_eq!(
        a.dialog.file_dialog.as_ref().and_then(|d| d.error.clone()).as_deref(),
        Some("enter or pick a file name")
    );
    if let Some(d) = a.dialog.file_dialog.as_mut() {
        d.dir = "/p".to_string();
        assert!(!d.pick("a.dxf".to_string(), false));
        assert!(d.pick("a.dxf".to_string(), true));
    }
    assert!(matches!(a.confirm_file_dialog(3), DialogAction::Nothing));
    assert!(a.dialog.file_dialog.is_none());
    assert_eq!(a.files.busy.as_ref().map(|b| b.path.clone()).as_deref(), Some("/p/a.dxf"));
    a.dialog.report_wants_dir = true;
    a.open_file_dialog(FileDialogMode::PickFolder, "");
    assert_eq!(a.folder_dialog_title(), "Choose where the report goes");
    a.confirm_file_dialog(3);
    assert!(!a.dialog.report_wants_dir);
    assert_eq!(a.report.out_dir, "/p");
    a.dialog.report_wants_images = Some(ImageSlot::Logo);
    a.open_file_dialog(FileDialogMode::ImportImage, "");
    if let Some(d) = a.dialog.file_dialog.as_mut() {
        assert!(!d.pick("logo.png".to_string(), false));
    }
    assert!(matches!(a.confirm_file_dialog(3), DialogAction::ReportImage(p, ImageSlot::Logo) if p == "/p/logo.png"));
    a.dialog.texset_target = Some(4);
    a.open_file_dialog(FileDialogMode::PickFolder, "");
    assert!(matches!(a.confirm_file_dialog(3), DialogAction::LoadTextureSet(4, _)));
    a.dialog.photometry_wants_folder = true;
    a.open_file_dialog(FileDialogMode::PickFolder, "");
    if let Some(d) = a.dialog.file_dialog.as_mut() {
        d.filename = "new".to_string();
        assert!(d.pick("FONDO.ldt".to_string(), false));
        assert_eq!(d.filename, "");
    }
    assert!(matches!(a.confirm_file_dialog(3), DialogAction::ScanPhotometry(p) if p == "/p"));
    a.open_file_dialog(FileDialogMode::Save, ".rsm");
    a.cancel_file_dialog();
    assert!(a.dialog.file_dialog.is_none());
    assert_eq!(last(&a), "  file: cancelled");
}

#[test]
fn typing_a_path_goes_there() {
    let mut a = app();
    a.open_file_dialog(FileDialogMode::Open, "");
    if let Some(d) = a.dialog.file_dialog.as_mut() {
        d.path_buf = "/nowhere".to_string();
        d.go(PathKind::Missing);
        assert_eq!(d.error.as_deref(), Some("not found: /nowhere"));
        d.unreadable("locked");
        assert_eq!(d.error.as_deref(), Some("cannot read directory: locked"));
        d.path_buf = "/p/q".to_string();
        d.go(PathKind::Dir);
        assert_eq!(d.dir, "/p/q");
        d.navigate("/r".to_string(), None);
        assert_eq!(d.dir, "/r");
        d.set_filter(".dxf".to_string());
        assert_eq!(d.ext, ".dxf");
    }
}

#[test]
fn what_other_files_brought_is_reported() {
    let mut a = app();
    a.block_written("/b.dxf", 3, true);
    assert_eq!(last(&a), "  wblock: wrote 3 dobject(s) to '/b.dxf'");
    a.plot_table_saved("/t.pst", Ok(()));
    assert_eq!(last(&a), "  plot table saved → /t.pst");
    a.plot_table_loaded("/t.pst", Err("torn".to_string()));
    assert_eq!(last(&a), "  ! plot table load failed: torn");
    a.photometry_scanned("/l".to_string(), vec!["a.ies".to_string()]);
    assert_eq!(last(&a), "  illuminaire: 1 photometry file(s) found");
    a.photometry_loaded("two profiles".to_string());
    assert_eq!(last(&a), "  two profiles");
    a.environment_loaded(Err("no".to_string()));
    assert_eq!(last(&a), "  ! environment: no");
    a.environment_loaded(Ok("sky".to_string()));
    assert!(a.factory.open);
    assert_eq!(a.factory.status, "sky");
}

#[test]
fn a_preview_is_made_once() {
    let mut a = app();
    assert_eq!(a.preview_due("/a.DXF"), Some(PreviewKind::Dxf));
    assert_eq!(a.preview_due("/a.dwg"), Some(PreviewKind::Unsupported));
    let mut d = Document::new();
    d.push(line(), style());
    let mut far = line();
    far.lo = Pt { x: -4, y: 1 };
    far.hi = Pt { x: 3, y: 90 };
    d.push(far, style());
    let p = a.update_file_preview("/a.dxf", &Ok(d));
    assert_eq!(p.bounds, Some((Pt { x: -4, y: 0 }, Pt { x: 10, y: 90 })));
    assert_eq!(p.info, "2 object(s) · 0 layer(s)");
    assert_eq!(a.preview_due("/a.dxf"), None);
    let p = a.update_file_preview("/b.dxf", &Err("torn".to_string()));
    assert_eq!(p.info, "cannot preview: torn");
    assert!(p.bounds.is_none());
}

#[test]
fn objects_move_to_the_layer_for_3d() {
    let mut a = app();
    a.shift_selection_to_simlux_layer();
    assert_eq!(last(&a), "  ! SIMLUX: select geometry first, then Move");
    a.doc.push(line(), style());
    a.doc.push(line(), style());
    a.selection = vec![1];
    a.shift_selection_to_simlux_layer();
    assert_eq!(last(&a), "  moved 1 object(s) to layer 'SIMLUX' (now used for 3D)");
    assert_eq!(a.doc.find_layer("SIMLUX"), Some(0));
    assert_eq!(a.factory.data.rooms.len(), 1);
    a.factory.session = Some(Session { plane: 1, saved_doc: Document::new() });
    a.shift_selection_to_simlux_layer();
    assert_eq!(a.factory.status, "finish the sketch first — SIMLUX layers are the plan's");
}

#[test]
fn the_wait_is_estimated() {
    let mut a = app();
    a.do_open("/p/a.dxf", 1_000);
    assert_eq!(a.busy_fraction(1_000), 50);
    assert_eq!(a.busy_text(), "about 1 second(s) — please wait");
    if let Some(b) = a.files.busy.as_mut() {
        b.est_ms = 2_600;
    }
    assert_eq!(a.busy_text(), "about 3 second(s) — please wait");
    assert_eq!(a.busy_fraction(2_300), 500);
    assert_eq!(a.busy_fraction(99_000), 950);
}

fn course() -> OpenCourse {
    OpenCourse {
        format: Some(Format::Dxf),
        convert_us: 1,
        converted: true,
        read_us: 2,
        read: Ok(40),
        parse_us: 3,
        parsed: Some(5),
        layers: 6,
        install_us: 7,
        fit_us: 8,
        sidecar_us: 9,
        total_us: 30,
    }
}

#[test]
fn an_open_at_once_is_timed_in_stages() {
    let stages = |c: OpenCourse| {
        let mut a = app();
        a.open_stages("/p/a", &c);
        assert!(a.recorder.events.is_empty());
        a.recorder.on = true;
        a.open_stages("/p/a", &c);
        let names: Vec<String> =
            a.recorder
                .events
                .iter()
                .map(|e| match e {
                    DbgEvent::ImportStage { stage, elapsed_us, detail, .. } => format!("{stage} {elapsed_us} {detail}"),
                    _ => String::new(),
                })
                .collect();
        names
    };
    assert_eq!(
        stages(course()),
        vec![
            "begin 0 /p/a",
            "read file 2 40 bytes",
            "parse dxf 3 ",
            "install doc 7 6 layer(s)",
            "fit view 8 ",
            "sidecar 9 ",
            "TOTAL do_open 30 index+GPU+render still deferred — see later IndexRebuild / SlowFrame",
        ]
    );
    assert_eq!(
        stages(OpenCourse { format: Some(Format::Rsm), parsed: None, ..course() })[2..],
        ["parse rsm 3 PARSE ERROR", "TOTAL do_open 30 FAILED"]
    );
    let lost = OpenCourse { read: Err("gone".to_string()), ..course() };
    assert_eq!(stages(lost)[1..], ["read file 2 READ ERROR: gone"]);
    let dwg = OpenCourse { format: Some(Format::Dwg), ..course() };
    assert_eq!(stages(dwg)[1..3], ["dwg→dxf convert 1 external converter", "read file 2 40 bytes"]);
    let stuck = OpenCourse { format: Some(Format::Dwg), converted: false, ..course() };
    assert_eq!(stages(stuck)[1..], ["dwg→dxf convert 1 CONVERT FAILED"]);
    assert_eq!(stages(OpenCourse { format: None, ..course() })[1..], ["TOTAL do_open 30 FAILED"]);
}
