use cad_app::app::CadApp;
use cad_app::commands::{CircleStep, CmdAction, CommandInfo, Flyout, Method, Mode};
use cad_app::doc::Camera;
use cad_app::palette::{palette_hits, PaletteInput};

fn app() -> CadApp {
    let mut a = CadApp::new(Camera { zoom: 1, pan_x: 0, pan_y: 0 }, u64::MAX, 4);
    let info = |id: &str, dispatch: &str, title: &str| CommandInfo {
        id: id.to_string(),
        dispatch: dispatch.to_string(),
        title: title.to_string(),
        keywords: String::new(),
        icon: 0,
    };
    a.cmds.registry = vec![info("draw.line", "line", "Line"), info("draw.circle", "circle", "Circle")];
    let m = |short: &str, key: &str| Method { short: short.to_string(), full: short.to_string(), key: key.to_string() };
    a.cmds.flyouts = vec![Flyout { cmd: "circle".to_string(), items: vec![m("Centre", "cr"), m("3 points", "3p")] }];
    a
}

fn shown(v: &[CmdAction]) -> Vec<String> {
    v.iter()
        .map(|a| match a {
            CmdAction::Run(s) => format!("run {s}"),
            CmdAction::ShowPrompt => "prompt".to_string(),
            CmdAction::ArcMethod(i) => format!("arc {i}"),
            CmdAction::Circle(CircleStep::P3a) => "circle 3p".to_string(),
            CmdAction::Circle(_) => "circle".to_string(),
            CmdAction::Rail(s) => format!("rail {s}"),
        })
        .collect()
}

#[test]
fn a_chosen_method_is_used_from_then_on() {
    let mut a = app();
    assert_eq!(a.current_method_key("circle"), "cr");
    assert_eq!(a.current_method_short("circle"), "Centre");
    let acts = a.dispatch_method("circle", "3p");
    assert_eq!(shown(&acts), vec!["run circle", "circle 3p", "prompt", "rail circle"]);
    assert_eq!(a.current_method_key("circle"), "3p");
    assert_eq!(a.current_method_short("circle"), "3 points");
    assert_eq!(a.current_method_key("line"), "");
    a.cmds.flyouts[0].items.pop();
    assert_eq!(a.current_method_key("circle"), "cr");
    assert_eq!(a.current_method_short("circle"), "Centre");
}

#[test]
fn the_pointer_and_the_array_run_nothing() {
    let mut a = app();
    assert!(a.dispatch_base("pointer").is_empty());
    assert!(a.dispatch_base("array").is_empty());
    assert!(a.cmds.array_open);
    assert_eq!(shown(&a.dispatch_base("line")), vec!["run line"]);
}

#[test]
fn commands_run_by_id() {
    let mut a = app();
    let acts = a.execute("draw.line");
    assert_eq!(shown(&acts)[0], "run line");
    assert!(a.execute("unknown.id").is_empty());
}

#[test]
fn the_context_tells_what_is_selected() {
    let mut a = app();
    assert!(!a.build_ctx().has_selection);
    a.selection = vec![0, 1];
    let c = a.build_ctx();
    assert!(c.has_selection && c.selection_count == 2 && !c.has_clipboard);
}

#[test]
fn the_palette_runs_enabled_rows_only() {
    let mut a = app();
    a.open_palette();
    assert!(a.cmds.palette_open);
    let inp = |enter: bool| PaletteInput {
        down: false,
        up: false,
        enter,
        esc: false,
        close_clicked: false,
        window_open: true,
        click: None,
        query: String::new(),
        query_changed: false,
    };
    let cands = a.palette_candidates(&vec![true, true], &vec![false, true]);
    let n = cands.len();
    let hits = palette_hits(cands, &vec![true; n]);
    assert_eq!(hits.len(), n);
    assert!(!hits[0].enabled);
    assert!(a.palette_frame(&hits, inp(true)).is_empty());
}

#[test]
fn the_command_line_takes_a_line() {
    let mut a = app();
    a.cmds.cmd = "line".to_string();
    assert_eq!(a.enter_command_line(true, false).as_deref(), Some("line"));
    assert!(a.cmds.cmd.is_empty());
    a.cmds.cmd = "   ".to_string();
    assert_eq!(a.enter_command_line(true, false), None);
    assert_eq!(a.prompt_line(false, false), "command:");
    assert_eq!(a.prompt_line(false, true), "3D command:");
    assert_eq!(
        a.landing_line(false, true, "on the floor").as_deref(),
        Some("new objects → on the floor   ·   type `place` to change")
    );
    assert_eq!(a.landing_line(false, false, "on the floor"), None);
    assert_eq!(a.landing_line(true, true, "on the floor"), None);
    a.cmds.current_prompt = "pick".to_string();
    assert_eq!(a.prompt_line(true, true), "pick");
    assert_eq!(a.landing_line(false, true, "on the floor"), None);
    assert!(a.focus_command_line(false, false));
    assert!(!a.focus_command_line(true, false));
}

#[test]
fn tabs_switch_once() {
    let mut a = app();
    a.cmds.current_prompt = "pick".to_string();
    assert!(a.pick_mode(Mode::Factory, "3D Factory"));
    assert_eq!(a.history.last().map(|s| s.as_str()), Some("  → 3D Factory"));
    assert!(a.cmds.current_prompt.is_empty());
    assert!(!a.pick_mode(Mode::Factory, "3D Factory"));
    assert_eq!(a.history.len(), 1);
}
