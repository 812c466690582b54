use cad_app::app::CadApp;
use cad_app::doc::{Camera, Color, Geom, GeomKind, Lineweight, Pt, Style, Traits};
use cad_app::factory::{Session, Sketch};
use cad_app::light::Luminaire;
use cad_app::recorder::DbgEvent;
use cad_app::undo::{UndoStep, UNDO_STACK_CAP};

fn app() -> CadApp {
    CadApp::new(Camera { zoom: 1, pan_x: 0, pan_y: 0 }, u64::MAX, 4)
}

fn style() -> Style {
    Style {
        layer: 0,
        color: Color::ByLayer,
        linetype: 0,
        ltscale: 1_000_000,
        lineweight: Lineweight::ByLayer,
        visible: true,
    }
}

fn traits() -> Traits {
    Traits {
        size: 0,
        style: 0,
        flag: false,
        slant: 0,
        label: String::new(),
        font: String::new(),
        params: vec![],
    }
}

fn line(x: i64) -> Geom {
    Geom {
        kind: GeomKind::Line,
        pts: vec![Pt { x, y: 0 }, Pt { x: x + 10, y: 5 }],
        lo: Pt { x, y: 0 },
        hi: Pt { x: x + 10, y: 5 },
        turn: 0,
        traits: traits(),
    }
}

fn fixture(id: u32, x: i64) -> Luminaire {
    Luminaire { id, x, y: 0, z: 3_000_000, turn: 0, tilt: 0, profile: String::new() }
}

#[test]
fn undo_takes_back_an_edit_and_redo_brings_it_again() {
    let mut a = app();
    a.snapshot_doc();
    a.doc.push(line(0), style());
    assert_eq!(a.doc.dobjects.len(), 1);
    a.do_undo();
    assert_eq!(a.doc.dobjects.len(), 0);
    assert_eq!(a.undo.undo_stack.len(), 0);
    assert_eq!(a.undo.redo_stack.len(), 1);
    a.do_redo();
    assert_eq!(a.doc.dobjects.len(), 1);
    assert_eq!(a.doc.dobjects[0].geom.pts[1].x, 10);
    assert_eq!(a.undo.redo_stack.len(), 0);
}

#[test]
fn nothing_to_undo_leaves_the_drawing() {
    let mut a = app();
    a.doc.push(line(0), style());
    a.do_undo();
    a.do_redo();
    assert_eq!(a.doc.dobjects.len(), 1);
}

#[test]
fn a_new_edit_ends_the_redo_branch() {
    let mut a = app();
    a.snapshot_doc();
    a.doc.push(line(0), style());
    a.do_undo();
    a.snapshot_doc();
    assert_eq!(a.undo.redo_stack.len(), 0);
    assert_eq!(a.undo.undo_stack.len(), 1);
}

#[test]
fn the_stack_keeps_the_newest_steps() {
    let mut a = app();
    for _ in 0..(UNDO_STACK_CAP + 10) {
        a.snapshot_doc();
        a.doc.push(line(0), style());
    }
    assert_eq!(a.undo.undo_stack.len(), UNDO_STACK_CAP);
    match a.undo.undo_stack.last() {
        Some(UndoStep::Doc(d)) => assert_eq!(d.dobjects.len(), UNDO_STACK_CAP + 9),
        _ => panic!("the last step keeps a drawing"),
    }
}

#[test]
fn a_small_budget_keeps_the_least_number_of_steps() {
    let mut a = CadApp::new(Camera { zoom: 1, pan_x: 0, pan_y: 0 }, 1, 4);
    for _ in 0..9 {
        a.doc.push(line(0), style());
        a.snapshot_doc();
    }
    assert_eq!(a.undo.undo_stack.len(), 4);
}

#[test]
fn a_rolled_back_operation_leaves_no_step() {
    let mut a = app();
    a.doc.push(line(0), style());
    a.snapshot_doc();
    a.doc.push(line(1), style());
    a.rollback_doc();
    assert_eq!(a.doc.dobjects.len(), 1);
    assert_eq!(a.undo.undo_stack.len(), 0);
}

#[test]
fn an_edit_marks_the_drawing_as_unsaved() {
    let mut a = app();
    assert!(!a.files.unsaved);
    a.snapshot_doc();
    assert!(a.files.unsaved);
    assert_eq!(a.files.edit_seq, 1);
}

#[test]
fn placing_a_fixture_is_one_step() {
    let mut a = app();
    a.light.luminaires.push(fixture(1, 0));
    let id = a.place_fixture_point(fixture(7, 500));
    assert_eq!(id, 7);
    assert_eq!(a.light.luminaires.len(), 2);
    assert_eq!(a.undo.undo_stack.len(), 1);
    assert!(a.light.undo_pending.is_none());
    a.do_undo();
    assert_eq!(a.light.luminaires.len(), 1);
    assert_eq!(a.light.luminaires[0].id, 1);
}

#[test]
fn undoing_a_placement_marks_the_results_as_stale() {
    let mut a = app();
    a.light.results_fingerprint = Some(9);
    a.place_fixture_point(fixture(7, 500));
    a.light.selected = vec![7];
    a.do_undo();
    assert!(a.light.selected.is_empty());
    assert!(a.light.results_stale);
}

#[test]
fn a_step_of_the_model_holds_the_drawing_of_the_open_sketch() {
    let mut a = app();
    let mut sk = cad_app::doc::Document::new();
    sk.push(line(3), style());
    a.factory.data.sketches.push(Sketch { id: 5, name: "wall".to_string(), doc: cad_app::doc::Document::new() });
    a.factory.session = Some(cad_app::factory::Session { plane: 5, saved_doc: cad_app::doc::Document::new() });
    a.doc = sk;
    let m = a.factory_model_for_snapshot();
    assert_eq!(m.sketches[0].doc.dobjects.len(), 1);
    assert_eq!(a.factory.data.sketches[0].doc.dobjects.len(), 0);
}

#[test]
fn both_kinds_of_steps_undo_in_order() {
    let mut a = app();
    a.snapshot_doc_and_lights();
    a.doc.push(line(0), style());
    a.light.luminaires.push(fixture(1, 0));
    a.snapshot_factory();
    a.factory.data.walls.push(77);
    a.do_undo();
    assert!(a.factory.data.walls.is_empty());
    assert_eq!(a.doc.dobjects.len(), 1);
    a.do_undo();
    assert_eq!(a.doc.dobjects.len(), 0);
    assert!(a.light.luminaires.is_empty());
    a.do_redo();
    a.do_redo();
    assert_eq!(a.factory.data.walls, vec![77]);
    assert_eq!(a.doc.dobjects.len(), 1);
    assert_eq!(a.light.luminaires.len(), 1);
}

#[test]
fn redo_brings_the_model_back_while_a_sketch_is_open() {
    let mut a = app();
    a.factory.data.sketches.push(Sketch { id: 5, name: "wall".to_string(), doc: cad_app::doc::Document::new() });
    a.factory.session = Some(Session { plane: 5, saved_doc: cad_app::doc::Document::new() });
    a.snapshot_factory();
    a.factory.data.features.push(77);
    a.do_undo();
    assert!(a.factory.data.features.is_empty());
    a.do_redo();
    assert_eq!(a.factory_model_for_snapshot().features, vec![77]);
}

#[test]
fn every_step_counts_as_an_edit() {
    let mut a = app();
    a.snapshot_doc();
    a.snapshot_lights();
    a.snapshot_doc_and_lights();
    a.snapshot_factory();
    assert_eq!(a.files.edit_seq, 4);
    a.do_undo();
    a.do_redo();
    assert_eq!(a.files.edit_seq, 6);
    a.do_redo();
    assert_eq!(a.files.edit_seq, 6);
}

#[test]
fn the_history_is_recorded() {
    let mut a = app();
    a.snapshot_doc();
    assert!(a.recorder.events.is_empty());
    a.recorder.on = true;
    a.doc.push(line(0), style());
    a.snapshot_doc();
    let bytes = 200 + 64 * (a.doc.layers.len() + a.doc.linetypes.len()) as u128;
    assert_eq!(a.recorder.events.len(), 2);
    assert!(matches!(
        &a.recorder.events[0],
        DbgEvent::UndoSnapshotTaken { undo_depth_after: 2, bytes_estimate } if *bytes_estimate == bytes
    ));
    assert!(matches!(
        &a.recorder.events[1],
        DbgEvent::MemoryEvent { name, bytes: b, took_us: None } if name == "snapshot_doc (Document clone)" && *b == bytes
    ));
    a.time_last_copy(40);
    assert!(matches!(&a.recorder.events[1], DbgEvent::MemoryEvent { took_us: Some(40), .. }));
    a.time_last_copy(50);
    assert!(matches!(&a.recorder.events[1], DbgEvent::MemoryEvent { took_us: Some(40), .. }));
    a.do_undo();
    assert!(matches!(&a.recorder.events[2], DbgEvent::UndoFired { from_depth: 2, to_depth: 1 }));
    a.do_redo();
    assert!(matches!(&a.recorder.events[3], DbgEvent::RedoFired { from_depth: 1, to_depth: 0 }));
    a.do_redo();
    a.snapshot_lights();
    assert_eq!(a.recorder.events.len(), 4);
    a.time_last_copy(60);
    assert_eq!(a.recorder.events.len(), 4);
}
