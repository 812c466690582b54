use cad_app::app::CadApp;
use cad_app::arch::{
    cabin_cell_label, cabin_doors, cabin_drawers, cupboard_cell_label, cupboard_drawers, ArchEdit, ArchTab, CabinCell,
    CupboardCell, Outline, SweepPath,
};
use cad_app::builders::{
    CabinBuilt, CabinPart, CouchBuilt, CouchPart, CupboardBuilt, CupboardPart, DeskBuilt, DeskPart, KitchenBuilt,
    KitchenPart, LightBuilt, LightPart,
};
use cad_app::doc::{Camera, Document, Pt};
use cad_app::factory::{Asset, BoolOp, Furniture, FurnPaintMode, ProcDef, Rgb, Sketch, Texture};
use cad_app::fields::{keep_in_range, landing_error, Choices, Field, KitchenShape};
use cad_app::furnish::Mesh;
use cad_app::mapsets::{MapKind, SetMap};
use cad_app::materials::CompiledMaterial;
use cad_app::nodes::{find_node, find_socket, node_removable, CanvasEvent, CanvasNode, GraphEdit, Placement};
use cad_app::plans::{
    couch_plan, cupboard_plan, desk_plan, door_plan, helical_plan, light_plan, plan_error, plan_warnings, ramp_plan,
    spiral_plan, stair_plan, CouchPlan, CupboardPlan, DeskPlan, DoorPlan, HelicalPlan, LightPlan, RampPlan, SpiralPlan,
    StairLanding, StairPlan,
};
use cad_app::shading::{
    edit_node, inline_source, mf_edit_procedural, CoatEdit, NodeEdit, NodeKind, Pattern, PatternEdit, Principled,
};
use cad_app::solids::{dogleg_solid, spiral_solid, DoglegPart, Ground, Pt3, Shape, SpiralPart};
use cad_app::stairs::{DoglegBuilt, DoorBuilt, SpiralBuilt, StairPart, StairRole};
use cad_app::table::Table;

fn app() -> CadApp {
    CadApp::new(Camera { zoom: 1, pan_x: 0, pan_y: 0 }, u64::MAX, 4)
}

fn last(a: &CadApp) -> &str {
    a.history.last().map(|s| s.as_str()).unwrap_or("")
}

fn oak() -> ProcDef {
    ProcDef { pattern: 3, params: 9, avg: Rgb { r: 500_000, g: 400_000, b: 200_000 } }
}

fn mesh(tris: usize, parts: Vec<u32>) -> Mesh {
    Mesh { tris, part_ids: parts, faces: (0..tris as u32).collect(), color: None }
}

fn texture(name: &str) -> Texture {
    cad_app::factory::new_pattern_texture(name.to_string(), oak())
}

#[test]
fn the_unit_is_asked_once() {
    let mut a = app();
    a.on_factory_opened("m");
    assert!(a.cmds.cmd_window_open && a.factory.ask_unit);
    assert_eq!(last(&a), "  3D Factory — working unit: m. Everything you type is in m.");
    let o = a.unit_options();
    assert_eq!(o.len(), 5);
    assert_eq!(o[3].label, "Inches   in");
    assert!(o[2].on && !o[0].on);
    a.choose_working_unit(1_000_000, "mm");
    assert_eq!(a.factory.units.nm_per_unit, 1_000_000);
    assert_eq!(a.factory.status, "Working unit: mm. Nothing moved.");
    a.on_factory_opened("mm");
    assert!(!a.factory.ask_unit);
    assert!(a.unit_options().is_empty());
}

#[test]
fn a_plane_is_renamed_by_its_number() {
    let mut a = app();
    for (id, name) in [(7, "a"), (9, "b")] {
        a.factory.data.sketches.push(Sketch { id, name: name.to_string(), doc: Document::new() });
    }
    a.factory.rename_plane = Some((9, "b".to_string()));
    a.type_plane_name("kit");
    assert_eq!(a.factory.rename_plane.as_ref().map(|r| r.1.as_str()), Some("kit"));
    a.factory_commit_plane_rename("  kitchen ");
    assert_eq!(a.factory.data.sketches[1].name, "kitchen");
    assert_eq!(a.factory.data.sketches[0].name, "a");
    assert_eq!(last(&a), "  plane 'b' renamed to 'kitchen'");
    assert!(a.factory.rename_plane.is_none() && a.factory.dirty);
    a.factory.rename_plane = Some((7, "a".to_string()));
    a.factory_commit_plane_rename("   ");
    assert_eq!(a.factory.data.sketches[0].name, "a");
    a.factory.rename_plane = Some((55, "x".to_string()));
    a.factory_commit_plane_rename("gone");
    assert!(a.factory.rename_plane.is_none());
    a.factory.rename_plane = Some((7, "a".to_string()));
    a.cancel_plane_rename();
    a.factory_commit_plane_rename("late");
    assert_eq!(a.factory.data.sketches[0].name, "a");
}

#[test]
fn a_face_gets_one_material_of_its_own() {
    let mut a = app();
    a.factory.data.feature_color.insert(4, Rgb { r: 1_000_000, g: 500_000, b: 0 });
    a.materials_select_surface(4, 40);
    assert_eq!(a.factory.textures.len(), 1);
    assert_eq!(a.factory.textures[0].name, "Surface 1");
    assert_eq!(a.factory.textures[0].rgba, vec![255, 127, 0, 255]);
    assert_eq!(a.factory.data.surface_texture.get(40), Some(0));
    assert_eq!(a.materials.sel, Some(0));
    assert_eq!(last(&a), "  surface given its own material 'Surface 1'");
    assert_eq!(a.undo.undo_stack.len(), 1);
    a.materials_select_surface(4, 40);
    assert_eq!(a.factory.textures.len(), 1);
    assert_eq!(a.factory.status, "Materials Factory: editing 'Surface 1'");
    a.materials_select_surface(4, 41);
    assert_eq!(a.factory.data.surface_texture.get(40), Some(0));
    assert_eq!(a.factory.data.surface_texture.get(41), Some(1));
}

#[test]
fn the_materials_window_seeds_and_closes() {
    let mut a = app();
    a.new_material();
    assert_eq!(a.factory.textures[0].name, "Material 1");
    assert_eq!(a.begin_materials(), Some(0));
    assert_eq!(a.begin_materials(), None);
    a.materials.sel = Some(9);
    assert_eq!(a.begin_materials(), None);
    assert_eq!(a.materials.sel, None);
    a.end_materials(true);
    a.factory.surface_tex_brush = Some(0);
    a.end_materials(false);
    assert_eq!(a.factory.surface_tex_brush, None);
    a.add_library_material(texture("Oak"));
    assert_eq!(a.materials.sel, Some(1));
    assert_eq!(a.factory.status, "material 'Oak' added — tune it, set Apply-to, then ✓ Apply");
    a.choose_material(0);
    assert_eq!(a.materials.sel, Some(0));
}

#[test]
fn a_material_says_where_it_would_go() {
    let mut a = app();
    assert_eq!(a.material_target(), "→ nothing selected — click an object in the 3D view");
    a.factory.selection = vec![1, 2];
    assert_eq!(a.material_target(), "→ 2 selected solid(s)");
    a.factory.furniture_lib.push(Asset {
        name: "Chair".to_string(),
        tris: 0,
        part_ids: vec![],
        face_group: vec![],
        color: None,
        alpha_resolved: true,
    });
    a.factory.data.furniture.push(Furniture { asset: 0, texture: Some(3), surface_texture: Table::new() });
    a.factory.sel_furniture = vec![0];
    assert_eq!(a.material_target(), "→ Chair (whole object)");
    assert_eq!(a.material_button(), "✓  Apply material");
    a.set_paint_mode(FurnPaintMode::Piece);
    assert_eq!(a.material_target(), "→ click a piece on Chair in the 3D view first (or Apply to arm the brush)");
    assert_eq!(a.material_button(), "🖌  Arm face brush");
    a.factory.furn_face_sel = Some((0, 5));
    assert_eq!(a.material_target(), "→ the clicked piece on Chair");
    a.set_paint_mode(FurnPaintMode::WholeObject);
    assert_eq!(a.factory.furn_face_sel, None);
    a.factory.data.surface_texture.insert(1, 3);
    assert_eq!(a.material_uses(3), 2);
    a.materials.sel = Some(3);
    assert_eq!(a.material_note(3).as_deref(), Some("2 uses"));
    assert_eq!(a.material_note(4).as_deref(), Some("unused"));
    a.materials.sel = None;
    assert_eq!(a.material_note(3), None);
}

#[test]
fn a_compiled_graph_settles_on_its_material() {
    let mut a = app();
    a.new_material();
    let c = CompiledMaterial {
        roughness: 1,
        metallic: 2,
        ior: 3,
        opacity: 0,
        reflect: 4,
        normal_map: None,
        emission: Rgb { r: 0, g: 0, b: 0 },
        emission_strength: 5,
        use_image: false,
        proc: Some(oak()),
    };
    a.apply_compiled_material(0, &c);
    assert_eq!(a.factory.textures[0].xform.opacity, 10_000);
    assert_eq!(a.factory.textures[0].rgba, vec![127, 102, 51, 255]);
    assert_eq!(a.factory.textures[0].finish.metallic, 2);
    let once = a.factory.textures[0].finish;
    a.apply_compiled_material(0, &c);
    assert_eq!(a.factory.textures[0].finish, once);
    a.apply_compiled_material(0, &CompiledMaterial { use_image: true, ..c });
    assert!(a.factory.textures[0].finish.proc.is_none());
    a.apply_compiled_material(8, &c);
    assert_eq!(a.factory.textures.len(), 1);
}

fn map(kind: MapKind, label: &str) -> SetMap {
    SetMap { kind, label: label.to_string(), w: 1, h: 1, rgba: vec![9, 8, 7, 255], avg: Rgb { r: 1, g: 2, b: 3 } }
}

#[test]
fn a_set_of_images_goes_to_one_material() {
    let mut a = app();
    a.new_material();
    a.new_material();
    a.mf_pick_texture_set(1);
    assert_eq!(a.dialog.texset_target, Some(1));
    a.mf_load_texture_set(1, Some("Brick".to_string()), Err("empty".to_string()));
    assert_eq!(a.factory.status, "Texture set: empty");
    a.materials.graphs = vec![0, 1];
    a.mf_load_texture_set(
        1,
        Some("Brick".to_string()),
        Ok(vec![
            map(MapKind::Normal, "normal"),
            map(MapKind::BaseColor, "base"),
            map(MapKind::Height, "height"),
            map(MapKind::Metallic, "metal"),
        ]),
    );
    assert_eq!(a.factory.textures.len(), 4);
    assert_eq!(a.factory.textures[1].name, "Brick");
    assert_eq!(a.factory.textures[1].rgba, vec![9, 8, 7, 255]);
    assert_eq!(a.factory.textures[1].finish.normal_map, Some(2));
    assert_eq!(a.factory.textures[1].finish.metal_map, Some(3));
    assert_eq!(a.factory.textures[1].finish.metallic, 1_000_000);
    assert_eq!(a.factory.textures[2].name, "Brick · normal");
    assert_eq!(a.factory.textures[0].name, "Material 1");
    assert_eq!(a.factory.status, "Texture set 'Brick' → normal, base colour, metallic");
    assert_eq!(a.materials.graphs, vec![0]);
    a.mf_load_texture_set(1, None, Ok(vec![map(MapKind::Opacity, "o")]));
    assert_eq!(a.factory.status, "Texture set 'Texture set': nothing usable found");
    assert_eq!(a.map_text(Some(0)), "0: Material 1");
    assert_eq!(a.map_text(Some(99)), "(missing)");
    assert_eq!(a.map_text(None), "(none)");
}

#[test]
fn wires_are_drawn_and_taken_off() {
    let mut a = app();
    let none: Vec<CanvasNode> = vec![];
    assert_eq!(a.mf_canvas(&none, CanvasEvent::Dragged(5, 5)), GraphEdit::Keep);
    assert_eq!(a.materials.pan_x, 0);
    a.new_material();
    a.begin_materials();
    let nodes = vec![
        CanvasNode { id: 1, x: 0, y: 0, ins: 0, outs: 1 },
        CanvasNode { id: 2, x: 300_000, y: 0, ins: 2, outs: 1 },
    ];
    let out = (178_000, 31_000);
    let input = (300_000, 49_000);
    assert_eq!(find_socket(&nodes, true, out.0 + 5_000, out.1), Some((1, 0)));
    assert_eq!(find_socket(&nodes, true, out.0 + 9_001, out.1), None);
    assert_eq!(find_node(&nodes, 310_000, 10_000), Some(2));
    assert_eq!(a.mf_canvas(&nodes, CanvasEvent::DragStarted(out.0, out.1)), GraphEdit::Keep);
    assert_eq!(a.materials.drag_from, Some((1, 0)));
    assert_eq!(a.mf_canvas(&nodes, CanvasEvent::Dragged(5, 5)), GraphEdit::Keep);
    assert_eq!(a.materials.pan_x, 0);
    assert_eq!(a.mf_canvas(&nodes, CanvasEvent::DragStopped(input.0, input.1)), GraphEdit::Connect(1, 0, 2, 1));
    assert_eq!(a.materials.drag_from, None);
    assert_eq!(a.mf_canvas(&nodes, CanvasEvent::Clicked(input.0, input.1)), GraphEdit::Disconnect(2, 1));
    a.mf_canvas(&nodes, CanvasEvent::DragStarted(310_000, 10_000));
    assert_eq!(a.materials.sel_node, Some(2));
    assert_eq!(a.mf_canvas(&nodes, CanvasEvent::Dragged(7, 8)), GraphEdit::Move(2, 7, 8));
    a.mf_canvas(&nodes, CanvasEvent::DragStopped(0, 900_000));
    a.mf_canvas(&nodes, CanvasEvent::DragStarted(0, 900_000));
    a.mf_canvas(&nodes, CanvasEvent::Dragged(7, 8));
    assert_eq!((a.materials.pan_x, a.materials.pan_y), (7, 8));
    assert_eq!(a.new_node_place(7), (39_993, 69_992));
    a.mf_canvas(&nodes, CanvasEvent::ResetView);
    assert_eq!(a.materials.pan_x, 0);
}

#[test]
fn the_main_node_is_edited_first() {
    let mut a = app();
    assert_eq!(a.mf_inspector(Some(5)), None);
    a.materials.sel = Some(0);
    assert_eq!(a.mf_inspector(None), None);
    assert_eq!(a.mf_inspector(Some(5)), Some(5));
    assert_eq!(a.mf_inspector(Some(6)), Some(5));
    a.node_deleted();
    assert_eq!(a.materials.sel_node, None);
    assert!(!node_removable(5, Some(5), false) && !node_removable(6, Some(5), true) && node_removable(6, Some(5), false));
}

#[test]
fn four_quarter_turns_are_a_turn() {
    let mut a = app();
    a.new_material();
    a.mf_edit_placement(0, Placement::Rotate(30_000_000));
    for _ in 0..4 {
        a.mf_edit_placement(0, Placement::QuarterTurn);
    }
    assert_eq!(a.factory.textures[0].xform.rot, 30_000_000);
    a.mf_edit_placement(0, Placement::Rotate(-100_000_000));
    a.mf_edit_placement(0, Placement::QuarterTurn);
    assert_eq!(a.factory.textures[0].xform.rot, 350_000_000);
    a.mf_edit_placement(0, Placement::Tiling(1));
    assert_eq!(a.factory.textures[0].xform.scale, 50_000);
    a.mf_edit_placement(0, Placement::TilesPerMetre(99_000_000));
    assert_eq!(a.factory.textures[0].finish.tiles_per_m, 64_000_000);
}

#[test]
fn a_mesh_is_placed_as_furniture() {
    let mut a = app();
    a.arch_build_and_place(Err("too steep".to_string()), "Ramp");
    assert_eq!(a.factory.status, "Ramp: too steep");
    a.factory_place_furniture_mesh(mesh(0, vec![]), "Ramp", "generated");
    assert_eq!(a.factory.status, "Ramp: no geometry");
    assert!(a.undo.undo_stack.is_empty());
    a.arch_build_and_place(Ok(mesh(2, vec![0, 1])), "Ramp");
    assert_eq!(a.factory.status, "Ramp generated (2 tris) — placed at model centre");
    assert_eq!(last(&a), "  architecture: Ramp generated (2 tris) and placed");
    assert_eq!(a.factory.furniture_lib[0].part_ids, vec![0, 1]);
    assert_eq!(a.factory.sel_furniture, vec![0]);
    a.arch_build_and_place(Ok(mesh(2, vec![0])), "Ramp");
    assert!(a.factory.furniture_lib[1].part_ids.is_empty());
    a.do_undo();
    a.do_undo();
    assert!(a.factory.data.furniture.is_empty());
}

#[test]
fn a_sofa_shows_its_materials() {
    let mut a = app();
    a.new_material();
    a.factory_build_couch(Err("no runs".to_string()), oak());
    assert_eq!(a.factory.status, "Sofa: no runs");
    a.factory_build_couch(
        Ok(CouchBuilt {
            mesh: mesh(3, vec![0, 1, 0]),
            parts: vec![CouchPart::Oak, CouchPart::Fabric],
            runs: 2,
            corners: 1,
            overall: 2_345_678,
            seats: 4,
            features: vec!["arms".to_string(), "frame".to_string()],
            warnings: vec!["w1".to_string(), "w2".to_string(), "w3".to_string()],
        }),
        oak(),
    );
    assert_eq!(a.factory.status, "Sofa: 2 run(s) + 1 corner(s), 2.35 m overall, 4 seats — arms, frame (3 tris)");
    assert_eq!(last(&a), "  furniture: sofa (2 runs, 4 seats, 3 tris) and placed");
    assert!(a.history.iter().any(|h| h == "  ⚠ sofa: w2") && !a.history.iter().any(|h| h == "  ⚠ sofa: w3"));
    assert_eq!(a.factory.textures.len(), 3);
    assert_eq!(a.factory.textures[2].finish.roughness, 900_000);
    let f = &a.factory.data.furniture[0].surface_texture;
    assert_eq!((f.get(0), f.get(1), f.get(2)), (Some(1), Some(2), Some(1)));
    assert_eq!(a.factory.furniture_lib[0].color, Some(Rgb { r: 760_000, g: 690_000, b: 570_000 }));
    assert!(a.canvas.three_d && a.factory.open);
}

#[test]
fn other_furniture_is_reported_in_its_own_words() {
    let mut a = app();
    a.factory_build_desk(
        Ok(DeskBuilt {
            mesh: mesh(1, vec![0]),
            parts: vec![DeskPart::White],
            length: 1_600_400,
            width: 800_000,
            height: 740_500,
            features: vec!["rail".to_string()],
            warnings: vec![],
        }),
        oak(),
    );
    assert_eq!(a.factory.status, "Office desk: 1600×800 mm at 740 mm — rail (1 tris)");
    assert_eq!(a.factory.data.furniture[0].surface_texture.get(0), None);
    a.factory_build_cupboard(Ok(CupboardBuilt {
        mesh: mesh(1, vec![0]),
        parts: vec![CupboardPart::Chrome],
        cols: 2,
        rows: 3,
        doors: 4,
        glazed: 1,
        drawers: 0,
        niches: 1,
        fronts: 6,
    }));
    assert_eq!(a.factory.status, "Cupboard built — 4 doors · 1 glazed · 0 drawers · 1 niches (1 tris)");
    assert_eq!(last(&a), "  architecture: cupboard (2 bays × 3 tiers, 6 fronts, 1 tris) and placed");
    assert_eq!(a.factory.data.furniture[1].surface_texture.get(0), Some(7));
    a.factory_build_kitchen(Ok(KitchenBuilt {
        mesh: mesh(1, vec![0]),
        parts: vec![KitchenPart::Carcass],
        base: 3,
        wall: 2,
        doors: 5,
        drawers: 3,
        upper: true,
    }));
    assert_eq!(last(&a), "  architecture: kitchen run (3 base, 2 wall, upper=true, 1 tris) and placed");
    a.factory_build_cabin(
        Ok(CabinBuilt {
            mesh: mesh(1, vec![0]),
            parts: vec![CabinPart::Front],
            cols: 2,
            rows: 1,
            leaves: 2,
            drawers: 0,
            grip: "J-groove".to_string(),
        }),
        oak(),
    );
    assert_eq!(a.factory.status, "Cabinet unit built — 2×1 cells, 2 door leaves, 0 drawers, grip J-groove (1 tris)");
    for e in ["Office desk", "Cupboard", "Kitchen", "Cabinet unit", "Curved light"] {
        let bad = || "bad".to_string();
        match e {
            "Office desk" => a.factory_build_desk(Err(bad()), oak()),
            "Cupboard" => a.factory_build_cupboard(Err(bad())),
            "Kitchen" => a.factory_build_kitchen(Err(bad())),
            "Cabinet unit" => a.factory_build_cabin(Err(bad()), oak()),
            _ => a.factory_build_sweeplight(Err(bad())),
        }
        assert_eq!(a.factory.status, format!("{e}: bad"));
    }
}

#[test]
fn each_curved_light_has_a_name() {
    let mut a = app();
    let built = |emitters: usize| LightBuilt {
        mesh: mesh(1, vec![0]),
        parts: vec![LightPart::Lens],
        path: 2_500_000,
        hangers: 3,
        spacing: 1_200_000,
        emitters,
        lumens: 1_234_500,
        watts: 14_950,
        cct: 3000,
        tint: Rgb { r: 1, g: 2, b: 3 },
        red: 10,
        green: 20,
        blue: 30,
    };
    a.factory_build_sweeplight(Ok(built(0)));
    assert_eq!(
        a.factory.status,
        "Curved light: 2.50 m path · 3 hangers at 1.20 m · 1 tris — NO LIGHT OUTPUT (set a load and an efficacy above zero)"
    );
    a.factory_build_sweeplight(Ok(built(9)));
    assert_eq!(a.factory.furniture_lib[1].name, "Curved light 2");
    assert_eq!(
        a.factory.status,
        "Curved light: 2.50 m path · 3 hangers at 1.20 m · 1 tris · 1234 lm / 15.0 W over 9 emitters at 3000 K — counted in ⚡ Calculate"
    );
    assert_eq!(a.factory.textures[0].name, "Light lens 3000K (emissive)");
    assert_eq!(a.factory.textures[0].finish.emission_strength, 6_000_000);
    assert_eq!(last(&a), "  built curved light (2.50 m, 3 hangers)");
}

#[test]
fn a_door_binds_its_faces() {
    let mut a = app();
    let mut faces: Table<usize> = Table::new();
    faces.insert(1, 6);
    a.factory_build_door(Ok(DoorBuilt {
        mesh: mesh(2, vec![0, 1]),
        opening_w: 926_400,
        opening_h: 2_110_000,
        handle_note: " with Lever".to_string(),
        glazed: true,
        faces,
    }));
    assert_eq!(
        a.factory.status,
        "Door built with Lever · glazed — structural opening 926 × 2110 mm (leave this hole in the wall)"
    );
    assert_eq!(a.factory.data.furniture[0].surface_texture.get(1), Some(6));
    a.factory_build_door(Err("narrow".to_string()));
    assert_eq!(a.factory.status, "Door: narrow");
}

#[test]
fn stairs_are_editable_solids() {
    let mut a = app();
    let part = |solid, role| StairPart { solid, role };
    a.factory_build_spiral_csg(Ok(SpiralBuilt { parts: vec![part(None, StairRole::Pole)], steps: 9, turns: 150, rise: 1 }));
    assert_eq!(a.factory.status, "Spiral stair produced no solids");
    assert!(a.undo.undo_stack.is_empty() && a.factory.data.features.is_empty());
    a.factory_build_spiral_csg(Ok(SpiralBuilt {
        parts: vec![part(Some(3), StairRole::Pole), part(None, StairRole::Infill), part(Some(4), StairRole::Tread)],
        steps: 9,
        turns: 150,
        rise: 2_704_999,
    }));
    assert_eq!(
        a.factory.status,
        "Spiral stair built — 2 editable solids · 1.50 turns · top tread 2.70 m (cut/union as normal)"
    );
    assert_eq!(a.factory.selection, vec![3, 4]);
    assert_eq!(a.factory.data.feature_op.get(3), Some(BoolOp::Union));
    assert_eq!(a.factory.data.feature_op.get(4), Some(BoolOp::Union));
    assert_eq!(a.factory.data.feature_color.get(4), Some(Rgb { r: 720_000, g: 620_000, b: 460_000 }));
    assert_eq!(a.undo.undo_stack.len(), 1);
    a.factory_build_dogleg(Ok(DoglegBuilt {
        parts: vec![part(Some(8), StairRole::Landing)],
        steps: 16,
        top_tread: 3_000_000,
    }));
    assert_eq!(last(&a), "  architecture: dog-leg stair (1 solids, 16 steps)");
    a.do_undo();
    assert_eq!(a.factory.data.features, vec![3, 4]);
    a.factory_build_dogleg(Err("no rise".to_string()));
    assert_eq!(a.factory.status, "Dog-leg stair: no rise");
    a.factory_build_spiral_csg(Err("no turns".to_string()));
    assert_eq!(a.factory.status, "Spiral stair: no turns");
}

#[test]
fn grids_keep_their_cells_when_resized() {
    let mut a = app();
    a.arch_edit(ArchEdit::CupboardSize(3, 2));
    a.arch_edit(ArchEdit::CupboardCell(0, 1, CupboardCell::Glass));
    a.arch_edit(ArchEdit::CupboardSize(2, 9));
    assert_eq!(a.arch.cupboard.rows.len(), 6);
    assert_eq!(a.arch.cupboard.cols, vec![1_000_000, 1_000_000]);
    assert_eq!(a.arch.cupboard.cell(0, 1), Some(CupboardCell::Glass));
    assert_eq!(a.arch.cupboard.cell(5, 1), Some(CupboardCell::Door));
    assert_eq!(a.arch.cupboard.cell(0, 2), None);
    a.arch_edit(ArchEdit::CabinSize(0, 2));
    assert_eq!(a.arch.cabin.layout.len(), 2);
    a.arch_edit(ArchEdit::CabinCell(1, 0, cabin_drawers(CabinCell::Open)));
    assert_eq!(a.arch.cabin.cell(1, 0), Some(CabinCell::Drawers(3)));
    assert_eq!(cabin_cell_label(CabinCell::Door(2)), "Door×2");
    assert_eq!(cabin_doors(CabinCell::Door(2)), CabinCell::Door(2));
    assert_eq!(cupboard_drawers(CupboardCell::Panel), CupboardCell::Drawers(2));
    assert_eq!(cupboard_cell_label(CupboardCell::Drawers(2)), "Drawers×2");
}

#[test]
fn rows_and_runs_are_never_empty() {
    let mut a = app();
    a.arch_edit(ArchEdit::RemoveBase(0));
    assert_eq!(a.arch.base.len(), 1);
    a.arch_edit(ArchEdit::AddBase);
    assert_eq!(a.arch.base[1].width, 600_000);
    a.arch_edit(ArchEdit::RemoveBase(0));
    a.arch_edit(ArchEdit::AddWall);
    a.arch_edit(ArchEdit::RemoveWall(1));
    a.arch_edit(ArchEdit::AddRun);
    a.arch_edit(ArchEdit::RemoveRun);
    a.arch_edit(ArchEdit::RemoveRun);
    assert_eq!((a.arch.base.len(), a.arch.wall.len(), a.arch.runs.len()), (1, 1, 1));
    a.arch_edit(ArchEdit::AddPort);
    a.arch_edit(ArchEdit::RemovePort);
    a.arch_edit(ArchEdit::RemovePort);
    assert!(a.arch.ports.is_empty());
    a.arch_edit(ArchEdit::Drop(700_000, 300_000));
    assert_eq!(a.arch.drop_end, 700_000);
    a.arch_edit(ArchEdit::Path(SweepPath::SCurve));
    a.arch_edit(ArchEdit::Drop(700_000, 300_000));
    assert_eq!(a.arch.drop_end, 300_000);
}

#[test]
fn the_longest_curve_is_taken() {
    let mut a = app();
    let o = |length, points, ends_meet| Outline { length, points, ends_meet };
    assert_eq!(a.grab_curve(&vec![o(0, 9, false), o(50, 1, false)]), None);
    assert!(a.factory.status.starts_with("no usable 2D curve selected"));
    assert_eq!(a.grab_curve(&vec![o(5, 2, false), o(9, 5, true), o(9, 7, false)]), Some(1));
    assert_eq!(a.factory.status, "2D curve loaded: 4 points (closed) — set the fillet, then Build");
    assert!(a.arch.sweep.closed && a.arch.sweep.fillet == 150_000);
}

#[test]
fn the_dialog_shows_what_its_generator_asks() {
    let mut a = app();
    let c = Choices {
        stair_rails: false,
        u_shape: false,
        spiral_rail: false,
        csg_rail: false,
        kitchen: KitchenShape::L,
        path: SweepPath::Ring,
        screen: false,
        left_drawers: false,
        right_drawers: true,
    };
    assert_eq!(a.arch_title(), "🏛  Architecture");
    assert!(a.arch_tabbed());
    assert!(a.field_shown(Field::StaircaseHeight, c) && !a.field_shown(Field::StaircaseLanding, c));
    assert!(a.field_shown(Field::StaircaseLanding, Choices { u_shape: true, ..c }));
    assert_eq!(a.arch_mesh_name(true), Some("U-Stair"));
    a.arch.tab = ArchTab::Kitchen;
    assert_eq!(a.arch_title(), "🍳  Kitchen cabinets");
    assert!(!a.arch_tabbed());
    assert!(a.field_shown(Field::KitchenLegB, c) && !a.field_shown(Field::KitchenLegC, c));
    assert_eq!(a.arch_mesh_name(false), None);
    a.arch.tab = ArchTab::Desk;
    assert!(a.field_shown(Field::DeskPedestal, c) && !a.field_shown(Field::DeskScreenSpan, c));
    assert_eq!(keep_in_range(Field::DoorHandle, 2_000_000), 1_300_000);
    assert_eq!(keep_in_range(Field::DoorBackset, 0), 50_000);
    assert_eq!(
        landing_error(true, 900_000, 1_000_000).as_deref(),
        Some("landing depth must be ≥ stair width (1.00 m) to turn")
    );
    assert_eq!(landing_error(false, 900_000, 1_000_000), None);
}

#[test]
fn nodes_keep_to_their_ranges() {
    let grey = Rgb { r: 500_000, g: 500_000, b: 500_000 };
    let p = NodeKind::Principled(Principled {
        base: grey,
        metallic: 0,
        roughness: 500_000,
        ior: 1_450_000,
        alpha: 1_000_000,
        emission: grey,
        emission_strength: 0,
    });
    match edit_node(p, NodeEdit::Ior(9_000_000)) {
        NodeKind::Principled(q) => assert_eq!((q.ior, q.roughness), (3_000_000, 500_000)),
        _ => unreachable!(),
    }
    assert_eq!(edit_node(NodeKind::Value(3), NodeEdit::Value(2_000_000)), NodeKind::Value(1_000_000));
    assert_eq!(edit_node(NodeKind::Flat(grey), NodeEdit::Value(1)), NodeKind::Flat(grey));
    assert_eq!(edit_node(NodeKind::NormalMap(None, 7), NodeEdit::Image(Some(2))), NodeKind::NormalMap(Some(2), 7));
    assert_eq!(edit_node(NodeKind::NormalMap(None, 7), NodeEdit::Strength(5_000_000)), NodeKind::NormalMap(None, 2_000_000));
    assert_eq!(edit_node(NodeKind::Output, NodeEdit::Alpha(1)), NodeKind::Output);
    assert_eq!(inline_source(3, Some(3), Some(8)), Some(8));
    assert_eq!(inline_source(4, Some(3), Some(8)), None);
}

#[test]
fn a_pattern_can_be_made_uniform() {
    let c = Rgb { r: 1, g: 2, b: 3 };
    let p = Pattern {
        pattern: 1,
        col_a: c,
        col_b: c,
        grain_x: 1_000_000,
        grain_y: 1_000_000,
        grain_z: 1_000_000,
        contrast: 1_000_000,
        detail: 2_000_000,
        rough_a: 200_000,
        rough_b: 900_000,
        relief: 0,
    };
    let u = mf_edit_procedural(p, PatternEdit::Uniform);
    assert_eq!((u.rough_a, u.rough_b, u.detail), (500_000, 500_000, 2_000_000));
    assert_eq!(mf_edit_procedural(p, PatternEdit::GrainY(1)).grain_y, 100_000);
    assert_eq!(mf_edit_procedural(p, PatternEdit::Relief(2_000_000)).relief, 1_500_000);
    assert_eq!(edit_node(NodeKind::Procedural(p), NodeEdit::Pattern(PatternEdit::Uniform)), NodeKind::Procedural(u));
}

#[test]
fn a_coat_is_set_on_one_material() {
    let mut a = app();
    a.new_material();
    a.new_material();
    assert_eq!(a.coat_rows(1), (false, false));
    a.edit_coat(1, CoatEdit::Clearcoat(2_000_000));
    a.edit_coat(1, CoatEdit::Rough(0));
    a.edit_coat(1, CoatEdit::Sheen(300_000));
    let c = a.factory.textures[1].finish.coat;
    assert_eq!((c.clearcoat, c.rough, c.sheen), (1_000_000, 10_000, 300_000));
    assert_eq!(a.coat_rows(1), (true, true));
    assert_eq!(a.coat_rows(0), (false, false));
    a.bind_rough_map(0, Some(1));
    assert_eq!(a.factory.textures[0].finish.rough_map, Some(1));
    a.bind_rough_map(9, Some(1));
    assert_eq!(a.coat_rows(9), (false, false));
}

#[test]
fn plans_are_read_out_before_they_are_built() {
    let s = StairPlan {
        steps: 16,
        riser: 175_000,
        run: 4_204_999,
        landing: Some(StairLanding { height: 1_400_000, below: 8, above: 8 }),
    };
    assert_eq!(
        stair_plan(s),
        vec!["16 steps · exact riser 0.175 m · run 4.20 m", "landing at 1.40 m · flights 8 + 8 steps"]
    );
    assert_eq!(stair_plan(StairPlan { landing: None, ..s }).len(), 1);
    assert_eq!(
        spiral_plan(SpiralPlan { steps: 14, riser: 192_857, rotation: 359_600_000 }),
        vec!["14 steps · riser 0.193 m · 360° total rotation"]
    );
    assert_eq!(ramp_plan(RampPlan { slope: 4_760_000 }), vec!["slope 4.8°"]);
    assert_eq!(
        door_plan(DoorPlan {
            opening_w: 926_000,
            opening_h: 2_110_000,
            panel_w: 826_000,
            panel_h: 2_040_000,
            overall_w: 1_026_000,
            overall_h: 2_160_000,
            depth: 120_000,
        })[1],
        "panel 826 × 2040 mm · casing 1026 × 2160 mm · depth 120 mm"
    );
    let h = HelicalPlan {
        deck: 1_500_000,
        slope_mean: 83_333,
        slope_inner: 0,
        top: 3_000_000,
        headroom: 2_400_000,
        per_turn: 2_600_000,
        posts_outer: 20,
        posts_inner: 12,
    };
    assert_eq!(helical_plan(h)[0], "deck 1.50 m wide · slope 1:12.0 mean, 1:inf inner · top 3.00 m");
    assert_eq!(helical_plan(h)[1], "headroom 2.40 m · rise/turn 2.60 m · posts 20/12 (outer/inner)");
    assert_eq!(
        couch_plan(CouchPlan { runs: 1, corners: 2, overall: 2_345_678, seats: 3, pitch: 667_000, tris: 900 }),
        vec!["1 run + 2 corners · 2.35 m overall · 3 seats at 667 mm pitch · 900 tris"]
    );
}

#[test]
fn a_dark_or_long_light_is_pointed_out_before_it_is_built() {
    let p = LightPlan {
        path: 2_500_000,
        hangers: 3,
        spacing: 1_250_000,
        asked: 1_200_000,
        min_radius: 150_000,
        tris: 700,
        lumens: 2_400_400,
        watts: 24_040,
        emitters: 50,
        sampled: 50_000,
        usual: 50_000,
    };
    assert_eq!(
        light_plan(p),
        vec![
            "path 2.50 m · 3 hangers at 1.25 m (asked 1.20) · min radius 150 mm · 700 tris",
            "2400 lm · 24.0 W · 50 emitting points at 0.05 m",
        ]
    );
    let dark = LightPlan { emitters: 0, sampled: 100_000, path: 90_400_000, ..p };
    let lines = light_plan(dark);
    assert_eq!(lines[1], "no light output — set a load and an efficacy above zero");
    assert!(lines[2].starts_with("  ⓘ 90 m of run — sampled every 0.10 m instead of 0.05 m"));
    assert!(lines[2].ends_with("within ~0.1 m of the fitting is coarser."));
}

#[test]
fn a_few_warnings_are_shown() {
    let w: Vec<String> = ["a", "b", "c", "d"].iter().map(|s| s.to_string()).collect();
    assert_eq!(plan_warnings(ArchTab::Desk, &w), vec!["  ⚠ a", "  ⚠ b", "  ⚠ c"]);
    assert_eq!(plan_warnings(ArchTab::Dogleg, &w), vec!["  ⚠ a", "  ⚠ b"]);
    assert_eq!(plan_warnings(ArchTab::Door, &w), vec!["  ⚠ b", "  ⚠ c"]);
    assert!(plan_warnings(ArchTab::Door, &vec!["a".to_string()]).is_empty());
    assert_eq!(plan_error("too steep"), "⚠ too steep");
}

#[test]
fn cabinets_are_read_out() {
    let cup = CupboardPlan {
        cols: 2,
        rows: 3,
        width: 1_200_000,
        height: 2_100_000,
        aspect: 571_428,
        doors: 4,
        glazed: 1,
        drawers: 0,
        niches: 1,
        handles: 5,
    };
    assert_eq!(cupboard_plan(cup)[0], "2 bays × 3 tiers · 1200 × 2100 mm overall · aspect 0.571");
    assert_eq!(cupboard_plan(cup)[1], "4 doors · 1 glazed · 0 drawers · 1 niches · 5 handles");
    let desk = DeskPlan {
        length: 1_600_000,
        width: 800_000,
        height: 740_000,
        features: vec!["rail".to_string(), "screen".to_string()],
        tris: 320,
    };
    assert_eq!(desk_plan(&desk), "1600×800 mm at 740 mm · rail, screen · 320 tris");
}

#[test]
fn parts_of_a_half_turn_stair_become_solids() {
    let block = DoglegPart::Block(Pt3 { x: 1, y: -4, z: 10 }, Pt3 { x: 6, y: 4, z: 30 }, StairRole::Landing);
    let (s, role) = dogleg_solid(block);
    assert_eq!(role, StairRole::Landing);
    assert_eq!((s.op, s.on, s.twice_u, s.twice_v, s.lift), (BoolOp::Union, Ground::Floor, 7, 0, 10));
    assert!(matches!(s.shape, Shape::Block { w: 5, d: 8, h: 20 }));
    let profile = vec![Pt { x: 0, y: 0 }, Pt { x: 9, y: 0 }, Pt { x: 9, y: 5 }];
    let (s, role) = dogleg_solid(DoglegPart::Flight(profile, 100, 1_100));
    assert_eq!((role, s.on), (StairRole::FlightBody, Ground::Across(1_100)));
    assert!(matches!(s.shape, Shape::Extrusion { outline, h: 1_000 } if outline.len() == 3));
}

#[test]
fn parts_of_a_spiral_stair_become_solids() {
    let (s, role) = spiral_solid(SpiralPart::Cylinder(Pt { x: 3, y: 4 }, 50, 10, 2_010, 24, StairRole::Pole));
    let s = s.expect("a pole");
    assert_eq!((role, s.twice_u, s.twice_v, s.lift), (StairRole::Pole, 6, 8, 10));
    assert!(matches!(s.shape, Shape::Cylinder { r: 50, h: 2_000, sides: 24 }));
    let (s, _) = spiral_solid(SpiralPart::Prism(vec![Pt { x: 0, y: 0 }], 5, 25, StairRole::Tread));
    assert!(matches!(s.expect("a tread").shape, Shape::Extrusion { h: 20, .. }));
    let at = |x, z| Pt3 { x, y: 0, z };
    let chord = |to| spiral_solid(SpiralPart::Chord(at(0, 0), to, 20, 8, StairRole::Handrail)).0;
    assert!(chord(at(99, 0)).is_none());
    assert!(matches!(chord(at(100, 0)).expect("a chord").shape, Shape::Chord { up_is_x: false, .. }));
    assert!(matches!(chord(at(100, 900)).expect("a chord").shape, Shape::Chord { up_is_x: true, .. }));
}
