use cad_app::app::CadApp;
use cad_app::doc::{Camera, Color, Geom, GeomKind, Layer, Lineweight, Pen, Pt, Style, Traits};
use cad_app::edits::PropEdit;
use cad_app::inspect::{
    entry_name, general_rows, visible_row, visible_toggled, weight_choices, weight_text, Check, Shown,
};
use cad_app::picker::{hover_text, AciPickRequest, DimColorSlot, DimForm, ScriptForm, WallColorSlot, WallForm};
use cad_app::rows::{closed_label, Row};

fn app() -> CadApp {
    CadApp::new(Camera { zoom: 1, pan_x: 0, pan_y: 0 }, u64::MAX, 4)
}

fn style(layer: u32) -> Style {
    Style {
        layer,
        color: Color::ByLayer,
        linetype: 0,
        ltscale: 1_000_000,
        lineweight: Lineweight::ByLayer,
        visible: true,
    }
}

fn geom(kind: GeomKind, pts: Vec<Pt>) -> Geom {
    let lo = pts.iter().fold(Pt { x: i64::MAX, y: i64::MAX }, |a, p| Pt { x: a.x.min(p.x), y: a.y.min(p.y) });
    let hi = pts.iter().fold(Pt { x: i64::MIN, y: i64::MIN }, |a, p| Pt { x: a.x.max(p.x), y: a.y.max(p.y) });
    Geom {
        kind,
        pts,
        lo,
        hi,
        turn: 0,
        traits: Traits {
            size: 0,
            style: 0,
            flag: false,
            slant: 0,
            label: String::new(),
            font: String::new(),
            params: vec![],
        },
    }
}

fn line(x: i64) -> Geom {
    geom(GeomKind::Line, vec![Pt { x, y: 0 }, Pt { x: x + 10, y: 5 }])
}

fn drawn(kinds: &[GeomKind]) -> CadApp {
    let mut a = app();
    for k in kinds {
        a.doc.push(geom(*k, vec![Pt { x: 1, y: 2 }, Pt { x: 3, y: 4 }]), style(0));
    }
    a
}

fn last(a: &CadApp) -> &str {
    a.history.last().map(|s| s.as_str()).unwrap_or("")
}

#[test]
fn groups_hold_each_object_once() {
    let mut a = drawn(&[GeomKind::Line, GeomKind::Line, GeomKind::Line, GeomKind::Line]);
    a.selection = vec![0, 1];
    a.group_selection();
    a.selection = vec![1, 2];
    a.group_selection();
    let mut all: Vec<u64> = a.groups.iter().flatten().copied().collect();
    let n = all.len();
    all.sort();
    all.dedup();
    assert_eq!(all.len(), n);
}

#[test]
fn one_member_selects_the_whole_group() {
    let mut a = drawn(&[GeomKind::Line, GeomKind::Line, GeomKind::Line]);
    a.selection = vec![0, 2];
    a.group_selection();
    a.selection = vec![2];
    a.expand_selection_to_groups();
    assert_eq!(a.selection, vec![0, 2]);
    a.expand_selection_to_groups();
    assert_eq!(a.selection, vec![0, 2]);
}

#[test]
fn an_ungrouped_selection_stays_alone() {
    let mut a = drawn(&[GeomKind::Line, GeomKind::Line]);
    a.selection = vec![0, 1];
    a.group_selection();
    a.ungroup_selection();
    assert!(a.groups.is_empty());
    a.selection = vec![1];
    a.expand_selection_to_groups();
    assert_eq!(a.selection, vec![1]);
}

#[test]
fn adding_to_a_group_takes_the_selection_in() {
    let mut a = drawn(&[GeomKind::Line, GeomKind::Line, GeomKind::Line]);
    a.selection = vec![0, 1];
    a.group_selection();
    a.selection = vec![1, 2];
    a.add_to_group();
    assert_eq!(a.groups.len(), 1);
    assert_eq!(a.groups[0].len(), 3);
}

#[test]
fn pasting_appends_moved_copies_with_fresh_handles() {
    let mut a = app();
    a.doc.push(line(0), style(0));
    a.doc.push(line(100), style(0));
    a.selection = vec![1];
    a.copy_selection();
    assert_eq!(last(&a), "  ⎘ copied 1 dobject(s)");
    a.start_paste();
    a.commit_paste(Pt { x: 100, y: 0 }, Pt { x: 40, y: 7 });
    assert_eq!(a.doc.dobjects.len(), 3);
    assert_eq!(a.doc.dobjects[2].geom.pts, vec![Pt { x: 40, y: 7 }, Pt { x: 50, y: 12 }]);
    assert_eq!(a.doc.dobjects[2].handle, 3);
    assert_eq!(a.selection, vec![2]);
    assert_eq!(last(&a), "  ⎗ pasted 1 dobject(s) (selected)");
    a.do_undo();
    assert_eq!(a.doc.dobjects.len(), 2);
}

#[test]
fn nothing_selected_copies_nothing() {
    let mut a = drawn(&[GeomKind::Line]);
    a.copy_selection();
    assert_eq!(last(&a), "  copy: nothing selected");
    a.start_paste();
    assert_eq!(last(&a), "  paste: clipboard is empty");
}

#[test]
fn a_paste_into_other_units_is_scaled() {
    let mut a = app();
    a.doc.units.nm_per_unit = 1_000_000;
    let mut g = line(2_000_000);
    g.traits.size = 5_000_000;
    a.doc.push(g, style(0));
    a.selection = vec![0];
    a.copy_selection();
    a.doc.units.nm_per_unit = 1_000_000_000;
    let c = a.clipboard_in_active_units();
    assert_eq!(c[0].geom.pts[0].x, 2_000);
    assert_eq!(c[0].geom.traits.size, 5_000);
}

#[test]
fn nearly_equal_units_change_nothing() {
    let mut a = drawn(&[GeomKind::Line]);
    a.doc.units.nm_per_unit = 10_000_000_000_001;
    a.doc.dobjects[0].geom.pts[0].x = -5;
    a.selection = vec![0];
    a.copy_selection();
    a.doc.units.nm_per_unit = 10_000_000_000_000;
    assert_eq!(a.clipboard_in_active_units()[0].geom.pts[0].x, -5);
    a.doc.units.nm_per_unit = 20_000_000_000_002;
    assert_eq!(a.clipboard_in_active_units()[0].geom.pts[0].x, -3);
}

#[test]
fn tags_tell_the_kinds_apart() {
    assert_eq!(CadApp::geom_tag(&geom(GeomKind::Line, vec![])), 0);
    assert_eq!(CadApp::geom_tag(&geom(GeomKind::Hatch, vec![])), 7);
    assert_eq!(CadApp::geom_tag(&geom(GeomKind::Other(4), vec![])), 13);
    let a = drawn(&[GeomKind::Line, GeomKind::Line, GeomKind::Wall]);
    assert_eq!(a.targets_uniform_tag(&vec![0, 1]), Some(0));
    assert_eq!(a.targets_uniform_tag(&vec![0, 2]), None);
    assert_eq!(a.targets_uniform_tag(&vec![9]), None);
    assert_eq!(a.targets_uniform_tag(&vec![2, 9]), Some(9));
    let mut b = drawn(&[GeomKind::Other(1), GeomKind::Other(2), GeomKind::Other(1)]);
    assert_eq!(b.targets_uniform_tag(&vec![0, 2]), Some(13));
    assert_eq!(b.targets_uniform_tag(&vec![0, 1]), None);
    b.selection = vec![0, 1];
    assert_eq!(b.inspector_pill().as_deref(), Some("Mixed (2)"));
    assert_eq!(b.props_kind_breakdown(&vec![0, 1, 2]), "dobjects: 3");
}

#[test]
fn shared_values_are_those_that_all_have() {
    let mut a = app();
    a.doc.push(line(0), style(1));
    a.doc.push(line(1), style(1));
    a.doc.push(line(2), style(4));
    assert_eq!(a.shared_style(&vec![0, 1], |s| s.layer), Some(1));
    assert_eq!(a.shared_style(&vec![0, 1, 2], |s| s.layer), None);
    assert_eq!(a.shared_style(&vec![0, 1, 2], |s| s.visible), Some(true));
    let g = a.shared_general(&vec![0, 2]);
    assert_eq!(g.layer, None);
    assert_eq!(g.linetype, Some(0));
    assert_eq!(g.ltscale, Some(1_000_000));
}

#[test]
fn an_edit_is_shared_afterwards_and_is_one_step() {
    let mut a = drawn(&[GeomKind::Line, GeomKind::Circle, GeomKind::Line]);
    a.props_apply(&vec![0, 2], true, &PropEdit::Layer(3));
    assert_eq!(a.shared_general(&vec![0, 2]).layer, Some(3));
    assert_eq!(a.doc.dobjects[1].style.layer, 0);
    assert_eq!(a.undo.undo_stack.len(), 1);
    assert!(a.canvas.index_dirty);
    a.do_undo();
    assert_eq!(a.doc.dobjects[0].style.layer, 0);
}

#[test]
fn edits_keep_to_their_bounds() {
    let mut a = drawn(&[GeomKind::Circle, GeomKind::Text, GeomKind::BlockRef]);
    a.doc.dobjects[2].geom.traits.params = vec![1, 2];
    let all = vec![0, 1, 2];
    a.props_apply(&all, false, &PropEdit::LtScale(5));
    assert_eq!(a.doc.dobjects[0].style.ltscale, 10_000);
    a.props_apply(&all, false, &PropEdit::Radius(-3));
    assert_eq!(a.doc.dobjects[0].geom.traits.size, 0);
    a.props_apply(&all, false, &PropEdit::Radius(7));
    assert_eq!(a.doc.dobjects[0].geom.lo, Pt { x: -6, y: -5 });
    assert_eq!(a.doc.dobjects[0].geom.hi, Pt { x: 8, y: 9 });
    assert_eq!(a.doc.dobjects[1].geom.traits.size, 0);
    a.props_apply(&all, false, &PropEdit::TextHeight(1));
    assert_eq!(a.doc.dobjects[1].geom.traits.size, 1_000);
    a.props_apply(&all, false, &PropEdit::TextAngle(999_000_000));
    assert_eq!(a.doc.dobjects[1].geom.turn, 360_000_000);
    a.props_apply(&all, false, &PropEdit::TextContent("hall".to_string()));
    assert_eq!(a.doc.dobjects[1].geom.traits.label, "hall");
    a.props_apply(&all, false, &PropEdit::BlockParam(1, 9));
    a.props_apply(&all, false, &PropEdit::BlockParam(5, 9));
    assert_eq!(a.doc.dobjects[2].geom.traits.params, vec![1, 9]);
    assert_eq!(a.undo.undo_stack.len(), 0);
}

#[test]
fn the_ends_of_a_line_can_be_set() {
    let mut a = drawn(&[GeomKind::Line]);
    a.props_apply(&vec![0], false, &PropEdit::LineXs(9, -9));
    assert_eq!(a.doc.dobjects[0].geom.pts, vec![Pt { x: 9, y: 2 }, Pt { x: -9, y: 4 }]);
    a.props_apply(&vec![0], false, &PropEdit::LineYs(8, -8));
    a.props_apply(&vec![0], false, &PropEdit::LineEnd(Pt { x: 0, y: 20 }));
    assert_eq!(a.doc.dobjects[0].geom.lo, Pt { x: 0, y: 8 });
    assert_eq!(a.doc.dobjects[0].geom.hi, Pt { x: 9, y: 20 });
}

#[test]
fn a_wall_style_brings_its_thickness() {
    let mut a = drawn(&[GeomKind::Wall, GeomKind::Line]);
    a.props_apply(&vec![0, 1], true, &PropEdit::WallStyle(4, Some(250_000)));
    assert_eq!(a.doc.dobjects[0].geom.traits.style, 4);
    assert_eq!(a.doc.dobjects[0].geom.traits.size, 250_000);
    assert_eq!(a.doc.dobjects[1].geom.traits.style, 0);
    a.props_apply(&vec![0], true, &PropEdit::WallStyle(5, Some(0)));
    assert_eq!(a.doc.dobjects[0].geom.traits.size, 250_000);
}

#[test]
fn a_gesture_is_one_step() {
    let mut a = drawn(&[GeomKind::Wall]);
    assert!(a.props_field(&vec![0], Some(PropEdit::WallThickness(2_000)), false));
    assert!(!a.props_field(&vec![0], Some(PropEdit::WallThickness(3_000)), false));
    assert!(!a.props_field(&vec![0], None, true));
    assert_eq!(a.undo.undo_stack.len(), 1);
    assert!(a.props_gesture_snapshot(true, true));
    assert!(!a.props.edit_gesture);
    assert_eq!(a.undo.undo_stack.len(), 2);
}

#[test]
fn the_inspector_is_about_sorted_places() {
    let mut a = drawn(&[GeomKind::Line, GeomKind::Line, GeomKind::Circle]);
    a.selection = vec![2, 0, 2, 9];
    assert_eq!(a.inspector_targets(), vec![0, 2]);
    assert_eq!(a.inspector_pill().as_deref(), Some("Mixed (3)"));
    a.selection = vec![1, 0];
    assert_eq!(a.inspector_pill().as_deref(), Some("Line (2)"));
    a.selection = vec![];
    assert!(a.inspector_targets().is_empty());
    assert_eq!(a.inspector_pill(), None);
    a.selected = Some(2);
    assert_eq!(a.inspector_targets(), vec![2]);
    assert_eq!(a.inspector_pill().as_deref(), Some("Circle"));
}

#[test]
fn the_breakdown_counts_by_kind() {
    let a = drawn(&[GeomKind::Line, GeomKind::Circle, GeomKind::Line, GeomKind::Line, GeomKind::Wall]);
    assert_eq!(a.props_kind_breakdown(&vec![0, 1, 2, 3]), "lines: 3  circles: 1");
    assert_eq!(a.props_kind_breakdown(&vec![4, 1, 4, 77]), "circles: 1  walls: 2");
    assert_eq!(a.props_kind_breakdown(&vec![]), "");
}

#[test]
fn colours_are_shown_as_they_resolve() {
    let mut a = app();
    a.doc.layers.push(Layer { name: "walls".to_string(), color: Color::Aci(3) });
    a.doc.layers.push(Layer { name: "doors".to_string(), color: Color::ByBlock });
    a.doc.truecolors = vec![0x12AB0F];
    assert_eq!(a.resolve_color32(Color::ByLayer, 0), Shown::Aci(3));
    assert_eq!(a.resolve_color32(Color::ByLayer, 1), Shown::Rgb(180, 180, 200));
    assert_eq!(a.resolve_color32(Color::ByLayer, 9), Shown::Rgb(180, 180, 200));
    assert_eq!(a.resolve_color32(Color::TrueColorRef(0), 0), Shown::Rgb(0x12, 0xAB, 0x0F));
    assert_eq!(a.resolve_color32(Color::TrueColorRef(7), 0), Shown::Rgb(255, 255, 255));
    assert_eq!(a.resolve_color32(Color::ByBlock, 0), Shown::Rgb(140, 140, 160));
    assert_eq!(a.pen_swatch(Color::TrueColorRef(7)), Shown::Rgb(128, 128, 128));
    a.doc.push(line(0), Style { color: Color::TrueColorRef(0), ..style(0) });
    a.doc.push(line(0), style(1));
    let row = a.color_row(&a.shared_general(&vec![0]));
    assert_eq!(row.text, "RGB #12AB0F");
    assert!(!row.italic);
    let row = a.color_row(&a.shared_general(&vec![0, 1]));
    assert_eq!(row.text, "*VARIES*");
    assert!(row.italic && row.swatch.is_none());
    assert_eq!(a.layer_row(&a.shared_general(&vec![1])).0, "doors");
    assert_eq!(a.linetype_row(&a.shared_general(&vec![1])), "?");
}

#[test]
fn labels_of_rows() {
    assert_eq!(entry_name(Some(1), &vec!["a".to_string(), "b".to_string()]), "b");
    assert_eq!(entry_name(None, &vec![]), "*VARIES*");
    assert_eq!(weight_text(Some(Lineweight::Custom(13))), "0.13 mm");
    assert_eq!(weight_text(Some(Lineweight::Default)), "Default");
    assert_eq!(weight_text(None), "*VARIES*");
    assert_eq!(weight_choices().len(), 13);
    assert!(general_rows("").layer && general_rows(" WEIGHT ").lineweight);
    assert!(!general_rows("weight").layer);
    assert!(general_rows("line type").linetype && general_rows("scale").ltscale);
    let mut a = drawn(&[GeomKind::Line, GeomKind::Line]);
    let g = a.shared_general(&vec![0, 1]);
    assert_eq!(visible_row(&g), Check::On);
    assert!(!visible_toggled(&g));
    a.doc.dobjects[1].style.visible = false;
    let g = a.shared_general(&vec![0, 1]);
    assert_eq!(visible_row(&g), Check::Mixed);
    assert!(visible_toggled(&g));
}

#[test]
fn sections_follow_the_targets() {
    let mut a = drawn(&[GeomKind::Hatch, GeomKind::Hatch, GeomKind::Line]);
    a.doc.dobjects[2].handle = 0xBEEF;
    let s = a.inspector_sections(&vec![2]);
    assert!(s.geometry && !s.mixed && !s.hatch);
    assert_eq!(s.handle.as_deref(), Some("0xBEEF"));
    assert_eq!(s.index.as_deref(), Some("#2"));
    let s = a.inspector_sections(&vec![0]);
    assert!(s.geometry && !s.mixed && s.hatch);
    let s = a.inspector_sections(&vec![0, 1]);
    assert!(!s.geometry && !s.mixed && s.hatch && s.handle.is_none());
    let s = a.inspector_sections(&vec![0, 2]);
    assert!(s.mixed && !s.hatch);
}

#[test]
fn rows_read_what_a_kind_shares() {
    let mut a = drawn(&[GeomKind::Text, GeomKind::Text, GeomKind::Hatch, GeomKind::Polyline]);
    a.doc.dobjects[0].geom.turn = 12_345_678;
    a.doc.dobjects[1].geom.turn = 12_345_999;
    assert_eq!(a.row_value(&vec![0, 1, 2], Row::TextAngle), Some(12_345));
    a.doc.dobjects[1].geom.turn = -12_345_999;
    assert_eq!(a.row_value(&vec![0, 1], Row::TextAngle), None);
    assert_eq!(a.row_value(&vec![1], Row::TextAngle), Some(-12_345));
    assert_eq!(a.row_value(&vec![2], Row::HatchScale), None);
    a.doc.dobjects[2].geom.traits.flag = true;
    a.doc.dobjects[2].geom.traits.label = "ANSI31".to_string();
    a.doc.dobjects[2].geom.turn = 250;
    assert_eq!(a.row_value(&vec![2], Row::HatchAngle), Some(3));
    a.doc.dobjects[2].geom.turn = 60;
    assert_eq!(a.row_value(&vec![2], Row::HatchAngle), Some(1));
    a.doc.dobjects[2].geom.turn = -250;
    assert_eq!(a.row_value(&vec![2], Row::HatchAngle), Some(-3));
    a.doc.dobjects[0].geom.traits.slant = 1;
    assert_eq!(a.row_value(&vec![0], Row::TextItalic), Some(0));
    a.doc.dobjects[0].geom.traits.slant = -2;
    assert_eq!(a.row_value(&vec![0], Row::TextItalic), Some(1));
    assert_eq!(a.hatch_name(&vec![0, 2]), "ANSI31");
    a.doc.dobjects[2].geom.traits.flag = false;
    assert_eq!(a.hatch_name(&vec![0, 2]), "Solid");
    assert_eq!(a.hatch_name(&vec![0]), "—");
    assert_eq!(closed_label(a.row_value(&vec![3], Row::Closed)), "open");
    assert_eq!(closed_label(a.row_value(&vec![0], Row::Closed)), "(varies)");
    assert_eq!(a.font_row(&vec![0, 1], Some("simplex".to_string())), "(inherit) simplex");
    assert_eq!(a.font_row(&vec![0, 1], None), "(inherit) standard");
    a.doc.dobjects[0].geom.traits.font = "mono".to_string();
    assert_eq!(a.font_row(&vec![0], None), "mono");
    assert_eq!(a.font_row(&vec![0, 1], None), "*VARIES*");
}

#[test]
fn block_parameters_fall_back_to_their_definition() {
    let mut a = drawn(&[GeomKind::BlockRef, GeomKind::Line]);
    a.doc.dobjects[0].geom.traits.params = vec![5];
    assert_eq!(a.block_param_values(0, &vec![1, 2, 3]), vec![5, 2, 3]);
    assert!(a.block_param_values(1, &vec![1]).is_empty());
}

#[test]
fn the_first_text_among_targets_wins() {
    let a = drawn(&[GeomKind::Line, GeomKind::Text]);
    let t = a.props_first_geom_string(&vec![0, 1], |g| {
        if g.kind == GeomKind::Text { Some("t".to_string()) } else { None }
    });
    assert_eq!(t.as_deref(), Some("t"));
    let n = a.props_shared_geom(&vec![0, 1], |g| if g.kind == GeomKind::Text { Some(4) } else { None });
    assert_eq!(n, Some(4));
}

#[test]
fn the_picker_says_what_it_is_for() {
    let mut a = drawn(&[GeomKind::Circle]);
    a.doc.layers.push(Layer { name: "walls".to_string(), color: Color::Aci(7) });
    let mut title = |r: AciPickRequest| {
        a.props.aci_request = Some(r);
        a.aci_picker_title().unwrap_or_default()
    };
    assert_eq!(title(AciPickRequest::Layer(0)), "ACI color — walls");
    assert_eq!(title(AciPickRequest::Layer(8)), "ACI color — layer #8");
    assert_eq!(title(AciPickRequest::Dobject(0)), "ACI color — circle #0");
    assert_eq!(title(AciPickRequest::Dobject(5)), "ACI color — dobject #5");
    assert_eq!(title(AciPickRequest::DobjectMany), "ACI color — 0 dobjects");
    assert_eq!(title(AciPickRequest::DimStyleForm(DimColorSlot::ExtLine)), "ACI color — dimension extension lines");
    assert_eq!(title(AciPickRequest::WallStyleForm(WallColorSlot::Face)), "ACI color — wall faces");
    assert_eq!(title(AciPickRequest::BlockForm), "ACI color — block instance");
    assert_eq!(title(AciPickRequest::ScriptParam(2)), "ACI color — script parameter #2");
    assert_eq!(title(AciPickRequest::CurrentColor), "ACI color — current color");
    assert_eq!(title(AciPickRequest::PlotStyleColor), "ACI color — plot color (0 styles)");
}

#[test]
fn a_typed_colour_is_a_small_number() {
    let mut a = app();
    for (text, want) in [(" 12 ", Some(12)), ("255", Some(255)), ("256", None), ("-1", None), ("", None), ("x", None)] {
        a.props.manual_entry = text.to_string();
        assert_eq!(a.enter_aci(), want);
        assert_eq!(a.props.manual_entry.is_empty(), want.is_some() || text.is_empty());
    }
}

#[test]
fn a_picked_colour_goes_to_whoever_asked() {
    let mut a = drawn(&[GeomKind::Line, GeomKind::Line]);
    a.doc.layers.push(Layer { name: "walls".to_string(), color: Color::Aci(7) });
    a.props.aci_request = Some(AciPickRequest::Layer(0));
    a.apply_aci_pick(5);
    assert_eq!(a.doc.layers[0].color, Color::Aci(5));
    assert!(a.props.aci_request.is_none());
    a.ask_color_for(&vec![0, 1]);
    a.apply_aci_pick(6);
    assert_eq!(a.shared_general(&vec![0, 1]).color, Some(Color::Aci(6)));
    assert!(a.props.aci_many.is_empty());
    assert_eq!(a.undo.undo_stack.len(), 1);
    a.props.aci_request = Some(AciPickRequest::CurrentColor);
    a.apply_aci_pick(9);
    assert_eq!(a.doc.current_color, Color::Aci(9));
    assert_eq!(last(&a), "  color: current → ACI 9");
    a.props.dim_form = Some(DimForm { color: None, ext_color: None, text_color: None });
    a.props.aci_request = Some(AciPickRequest::DimStyleForm(DimColorSlot::Text));
    a.apply_aci_pick(4);
    assert_eq!(a.props.dim_form.and_then(|d| d.text_color), Some(4));
    a.props.wall_form = Some(WallForm { fill: None, face: None });
    a.props.aci_request = Some(AciPickRequest::WallStyleForm(WallColorSlot::Fill));
    a.apply_aci_pick(3);
    assert_eq!(a.props.wall_form.and_then(|d| d.fill), Some(3));
    a.props.script_form = Some(ScriptForm { names: vec!["c".to_string()], values: vec!["0".to_string()] });
    a.props.aci_request = Some(AciPickRequest::ScriptParam(0));
    a.apply_aci_pick(44);
    assert_eq!(a.props.script_form.as_ref().map(|f| f.values[0].clone()), Some("44".to_string()));
    assert!(a.props.script_preview_due);
    a.props.plotstyle_sel = vec![1, 2];
    a.props.aci_request = Some(AciPickRequest::PlotStyleColor);
    a.apply_aci_pick(8);
    assert_eq!(a.doc.plot_colors.get(2), Some(Color::Aci(8)));
    assert_eq!(a.doc.plot_colors.get(3), None);
    a.aci_mapping_saved("/m.json", Err("full".to_string()));
    assert_eq!(last(&a), "  ! ACI mapping save failed: full");
    a.aci_mapping_saved("/m.json", Ok(()));
    assert_eq!(last(&a), "  ACI mapping saved → /m.json");
}

#[test]
fn a_pen_sets_three_properties() {
    let mut a = drawn(&[GeomKind::Line, GeomKind::Line]);
    a.doc.pens.push(Pen {
        name: "thin".to_string(),
        color: Color::Aci(2),
        linetype: 3,
        lineweight: Lineweight::Custom(13),
    });
    a.selection = vec![1, 40];
    a.apply_pen(0);
    assert_eq!(a.doc.dobjects[1].style.linetype, 3);
    assert_eq!(a.doc.dobjects[1].style.color, Color::Aci(2));
    assert_eq!(a.doc.dobjects[0].style.linetype, 0);
    assert_eq!(last(&a), "  pen 'thin' applied to 2 dobject(s)");
    let n = a.history.len();
    a.apply_pen(7);
    assert_eq!(a.history.len(), n);
}

#[test]
fn the_picker_reads_out_a_colour() {
    assert_eq!(hover_text(None), "(hover a circle for ACI / RGB)");
    assert_eq!(hover_text(Some((30, 255, 127, 0))), "Hover: ACI 30   RGB 255,127,0   #FF7F00");
}
