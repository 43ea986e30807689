use runebender_shell::model::{
    Annotation, AxisMap, AxisMapping, ChatState, ColorLayer, Designspace, EditorState, EngineOp,
    GlyphEntry, Group, Instance, Layer, Master, Mode, ModelsState, Project, Rule, Sort, StatusNote,
    TextBuffer, Tool, Workspace,
};

fn glyph(name: &str, codepoint: Option<char>) -> GlyphEntry {
    GlyphEntry {
        name: name.to_string(),
        codepoint,
        points: vec![(0, 0), (0, 1), (1, 0)],
        has_image: false,
        masks: vec![],
        annotations: vec![],
    }
}

fn master(names: &[&str]) -> Master {
    Master {
        glyphs: names.iter().map(|n| glyph(n, n.chars().next())).collect(),
        layers: vec![],
        background: None,
        groups: vec![],
        palette: vec![],
        color_layers: vec![],
        dirty: false,
        modified_glyphs: vec![],
        features: String::new(),
        source_path: "/fonts/Sans-Regular.ufo".to_string(),
        family_name: None,
        style_name: None,
    }
}

fn editor() -> EditorState {
    EditorState {
        initialized: false,
        selected: vec![],
        locked_points: vec![],
        dragging: false,
        tool: Tool::Select,
        previous_tool: Tool::Select,
        pen: None,
        hyper_contour: None,
        shape_ellipse: false,
        selected_anchors: vec![],
        selected_component: None,
    }
}

fn workspace(masters: Vec<Master>) -> Workspace {
    Workspace {
        project: Some(Project { masters, active: 0, designspace: None, ds_dirty: false, export_source: None }),
        mode: Mode::Grid,
        selected: None,
        last_editor: None,
        sessions: vec![],
        active_session: 0,
        editor: editor(),
        edit_buffer: TextBuffer { sorts: vec![], active: None },
        status_note: None,
        features_edited: false,
        features_status: None,
        nudging: false,
        sidebar_counts: true,
        clipboard: 0,
        visible_glyph_layers: vec![],
        color_selected: 0,
        show_color_preview: false,
        sample_strings: vec!["abc".to_string(), "xyz".to_string()],
        sample_index: 0,
        roughen_seed: 0,
        chat: ChatState {
            entries: vec![],
            messages: vec![],
            busy: None,
            job: false,
            last_speed: None,
            raw: vec![],
            model: None,
            installed: vec![],
            scanned: false,
        },
        last_save_label: None,
        models: ModelsState {
            installed: vec![],
            binary: None,
            busy: None,
            job: false,
            graph: None,
            dir: None,
            summary: None,
            score: None,
            strength_bits: 1f64.to_bits(),
        },
    }
}

fn names(m: &Master) -> Vec<String> {
    m.glyphs.iter().map(|g| g.name.clone()).collect()
}

use runebender_shell::effects::{extrude_fields, roughen_fields};
use runebender_shell::steps::rotate;

fn editing(index: usize) -> Workspace {
    let mut w = workspace(vec![master(&["a", "b"]), master(&["b", "a"])]);
    w.mode = Mode::Editor(index);
    w
}

#[test]
fn rotate_wraps_both_ways() {
    assert_eq!(rotate(0, 3, 1), 1);
    assert_eq!(rotate(2, 3, 1), 0);
    assert_eq!(rotate(0, 3, -1), 2);
    assert_eq!(rotate(1, 5, -7), 4);
    assert_eq!(rotate(4, 0, 3), 0);
    assert_eq!(rotate(rotate(2, 7, 12), 7, -12), 2);
    assert_eq!(rotate(0, 2, isize::MIN), 0);
    assert_eq!(rotate(1, 3, isize::MAX), (1 + (isize::MAX as usize % 3)) % 3);
}

#[test]
fn nudge_burst_records_once() {
    let mut w = editing(0);
    assert_eq!(w.push_nudge_snapshot(0), vec![EngineOp::RecordUndo(0)]);
    assert!(w.nudging);
    assert!(w.push_nudge_snapshot(0).is_empty());
    assert_eq!(w.push_undo_snapshot(0), vec![EngineOp::RecordUndo(0)]);
    assert!(!w.nudging);
    assert_eq!(w.push_nudge_snapshot(0), vec![EngineOp::RecordUndo(0)]);
}

#[test]
fn undo_redo_only_in_editor() {
    let mut w = editing(1);
    assert_eq!(w.undo(), vec![EngineOp::Undo(1)]);
    assert_eq!(w.redo(), vec![EngineOp::Redo(1)]);
    assert_eq!(w.discard_last_undo(1), vec![EngineOp::DiscardLastUndo(1)]);
    w.mode = Mode::Grid;
    assert!(w.undo().is_empty());
    w.project = None;
    assert!(w.discard_last_undo(1).is_empty());
}

#[test]
fn select_points_all_none_invert() {
    let mut w = editing(0);
    w.editor.locked_points = vec![(0, 1)];
    w.command_select_points(0);
    assert_eq!(w.editor.selected, vec![(0, 0), (1, 0)]);
    w.command_select_points(2);
    assert!(w.editor.selected.is_empty());
    w.editor.selected = vec![(0, 0)];
    w.command_select_points(2);
    assert_eq!(w.editor.selected, vec![(1, 0)]);
    w.command_select_points(2);
    assert_eq!(w.editor.selected, vec![(0, 0)]);
    w.command_select_points(1);
    assert!(w.editor.selected.is_empty());
}

#[test]
fn cycle_point_there_and_back() {
    let mut w = editing(0);
    w.editor.selected = vec![(0, 1)];
    assert!(w.command_cycle_point(false));
    assert_eq!(w.editor.selected, vec![(1, 0)]);
    assert!(w.command_cycle_point(false));
    assert_eq!(w.editor.selected, vec![(0, 0)]);
    assert!(w.command_cycle_point(true));
    assert_eq!(w.editor.selected, vec![(1, 0)]);
    w.editor.selected.clear();
    assert!(w.command_cycle_point(true));
    assert_eq!(w.editor.selected, vec![(1, 0)]);
    w.mode = Mode::Grid;
    assert!(!w.command_cycle_point(false));
}

#[test]
fn tidy_paths_gives_undo_back_when_nothing_removed() {
    let mut w = editing(0);
    let ops = w.command_tidy_paths().unwrap();
    assert_eq!(ops, vec![EngineOp::RecordUndo(0), EngineOp::TidyContours(0)]);
    assert_eq!(w.finish_tidy_paths(0), vec![EngineOp::DiscardLastUndo(0)]);
    assert_eq!(w.status_note, Some(StatusNote::TidyPaths(0)));
    assert!(w.finish_tidy_paths(4).is_empty());
    assert_eq!(w.status_note, Some(StatusNote::TidyPaths(4)));
}

#[test]
fn other_path_commands() {
    let mut w = editing(1);
    assert_eq!(w.command_correct_path_direction().unwrap()[1], EngineOp::CorrectPathDirections(1));
    assert!(w.finish_correct_path_direction(2).is_empty());
    assert_eq!(w.status_note, Some(StatusNote::CorrectPathDirection(2)));
    assert_eq!(w.finish_correct_path_direction(0), vec![EngineOp::DiscardLastUndo(1)]);
    assert!(w.finish_round_coordinates(3).is_empty());
    assert_eq!(w.finish_round_coordinates(0), vec![EngineOp::DiscardLastUndo(1)]);
    assert_eq!(w.command_round_coordinates().unwrap()[1], EngineOp::RoundCoordinates(1));
    w.finish_round_coordinates(0);
    assert_eq!(w.status_note, Some(StatusNote::RoundCoordinates(0)));
    assert_eq!(w.command_add_extremes().unwrap()[1], EngineOp::AddExtremes(1));
    w.finish_add_extremes(false);
    assert_eq!(w.status_note, Some(StatusNote::NoMissingExtremes));
    assert_eq!(w.command_swap_background().unwrap()[1], EngineOp::SwapBackground(1));
    w.finish_swap_background(false);
    assert_eq!(w.status_note, Some(StatusNote::NoBackgroundToSwap));
    assert_eq!(w.command_swap_layer("sketch".into()).unwrap()[1], EngineOp::SwapLayer(1, "sketch".into()));
    w.mode = Mode::Grid;
    assert!(w.command_remove_overlap().is_none());
    assert!(w.command_decompose().is_none());
}

#[test]
fn remove_overlap_journals_changes() {
    let mut w = editing(1);
    w.editor.selected = vec![(0, 0)];
    assert_eq!(w.command_remove_overlap().unwrap(), vec![EngineOp::RecordUndo(1), EngineOp::RemoveOverlap(1)]);
    let (entry, ops) = w.finish_remove_overlap(1, true);
    let entry = entry.unwrap();
    assert!(ops.is_empty());
    assert_eq!(entry.op, "remove overlap");
    assert_eq!(entry.glyph.as_deref(), Some("b"));
    assert!(w.editor.selected.is_empty());
    let (entry, ops) = w.finish_decompose(1, false);
    assert!(entry.is_none());
    assert_eq!(ops, vec![EngineOp::DiscardLastUndo(1)]);
    w.editor.selected = vec![(0, 0)];
    let (entry, ops) = w.finish_remove_overlap(1, false);
    assert!(entry.is_none());
    assert_eq!(ops, vec![EngineOp::DiscardLastUndo(1)]);
    assert_eq!(w.editor.selected, vec![(0, 0)]);
}

#[test]
fn copy_and_paste_routes() {
    let mut w = editing(0);
    w.editor.selected = vec![(1, 0)];
    assert_eq!(w.command_copy().unwrap(), vec![EngineOp::CopyContours(0, vec![(1, 0)])]);
    assert!(w.command_paste().is_empty());
    w.clipboard = 2;
    assert_eq!(w.command_paste(), vec![
        EngineOp::RecordUndo(0),
        EngineOp::PasteContours(0),
        EngineOp::RecheckCompat("a".into()),
    ]);
    w.editor.tool = Tool::Text;
    assert_eq!(w.command_paste_routed(), vec![EngineOp::PasteText]);
    w.mode = Mode::Grid;
    w.selected = Some(1);
    assert_eq!(w.command_paste_routed()[1], EngineOp::PasteContours(1));
    assert_eq!(w.command_copy().unwrap(), vec![EngineOp::CopyContours(1, vec![])]);
}

#[test]
fn convert_and_corner() {
    let mut w = editing(0);
    assert_eq!(w.command_convert_curves(true), vec![
        EngineOp::RecordUndo(0),
        EngineOp::ConvertCurves("a".into(), true),
        EngineOp::ComputeCompat,
    ]);
    w.finish_convert_curves(false, 2);
    assert_eq!(w.status_note, Some(StatusNote::ConvertedCurves(false, 2)));
    assert_eq!(w.command_apply_corner((0, 1), "chamfer"), vec![
        EngineOp::ApplyCorner("_corner.chamfer".into(), "a".into(), (0, 1)),
    ]);
    assert_eq!(w.command_apply_corner((0, 1), "_corner.round"), vec![
        EngineOp::ApplyCorner("_corner.round".into(), "a".into(), (0, 1)),
    ]);
    assert!(w.finish_apply_corner("_corner.round".into(), 0).is_empty());
    assert_eq!(w.status_note, Some(StatusNote::NoCornerApplied("_corner.round".into())));
    assert_eq!(w.finish_apply_corner("_corner.round".into(), 2), vec![EngineOp::ComputeCompat]);
    assert_eq!(w.status_note, Some(StatusNote::CornerApplied("_corner.round".into(), 2)));
}

#[test]
fn extrude_fields_and_request() {
    assert_eq!(extrude_fields("  k15 , 30 "), (true, Some("15".into()), Some("30".into())));
    assert_eq!(extrude_fields("KK 20"), (true, Some("20".into()), None));
    assert_eq!(extrude_fields("12,"), (false, Some("12".into()), Some("".into())));
    let mut w = editing(1);
    assert!(w.command_extrude(None, None, false).is_none());
    let ops = w.command_extrude(Some("15".into()), None, true).unwrap();
    assert_eq!(ops, vec![EngineOp::RecordUndo(1), EngineOp::Extrude(1, "15".into(), None, true)]);
    w.editor.selected = vec![(0, 1)];
    assert_eq!(w.finish_outline_effect(false), vec![EngineOp::DiscardLastUndo(1)]);
    assert_eq!(w.editor.selected, vec![(0, 1)]);
    assert!(w.finish_outline_effect(true).is_empty());
    assert!(w.editor.selected.is_empty());
}

#[test]
fn roughen_fields_and_seed() {
    assert_eq!(roughen_fields(" 10, 4 ,2,9"), (Some("10".into()), Some("4".into()), Some("2".into())));
    assert_eq!(roughen_fields("7"), (Some("7".into()), None, None));
    let mut w = editing(0);
    w.roughen_seed = u64::MAX;
    w.editor.selected = vec![(1, 0), (0, 2), (1, 3)];
    let ops = w.command_roughen(Some("10".into()), None, Some("2".into())).unwrap();
    assert_eq!(w.roughen_seed, 0);
    match &ops[1] {
        EngineOp::Roughen(0, contours, seg, h, v, 0) => {
            let mut c = contours.clone();
            c.sort();
            assert_eq!(c, vec![0, 1]);
            assert_eq!(seg, "10");
            assert_eq!(h, &None);
            assert_eq!(v.as_deref(), Some("2"));
        }
        other => panic!("unexpected {other:?}"),
    }
}

#[test]
fn switch_master_keeps_open_glyph_by_name() {
    let mut w = editing(0);
    let ops = w.switch_master(1);
    assert_eq!(ops, vec![
        EngineOp::SnapLocationToMaster(1),
        EngineOp::SeedEditBuffer(1),
        EngineOp::RebuildTextModels,
    ]);
    assert_eq!(w.mode, Mode::Editor(1));
    assert_eq!(w.project.as_ref().unwrap().active, 1);
    let ops = w.command_step_master(1);
    assert_eq!(ops[0], EngineOp::SnapLocationToMaster(0));
    assert_eq!(w.mode, Mode::Editor(0));
}

#[test]
fn remap_twice_is_remap_once() {
    let mut w = editing(0);
    w.selected = Some(0);
    w.last_editor = Some(0);
    w.remap_glyph_indices(&"b".to_string());
    assert_eq!(w.mode, Mode::Editor(1));
    assert_eq!(w.selected, Some(1));
    assert_eq!(w.last_editor, Some(1));
    w.remap_glyph_indices(&"b".to_string());
    assert_eq!(w.mode, Mode::Editor(1));
    w.remap_glyph_indices(&"missing".to_string());
    assert_eq!(w.selected, Some(1));
}

#[test]
fn fit_once_per_open() {
    let mut w = editing(0);
    assert_eq!(w.ensure_editor_fit(), vec![EngineOp::FitEditor(0)]);
    assert!(w.ensure_editor_fit().is_empty());
    let ops = w.open_editor(1);
    assert_eq!(ops, vec![EngineOp::SeedEditBuffer(1)]);
    assert_eq!(w.ensure_editor_fit(), vec![EngineOp::FitEditor(1)]);
    assert_eq!(w.current_glyph_index(), Some(1));
    assert_eq!(w.sessions.len(), 1);
    assert_eq!(w.sessions[0].glyph_name, "b");
}

#[test]
fn closing_active_tab_loads_neighbor() {
    let mut w = editing(0);
    w.open_editor(0);
    w.park_active_session();
    w.sessions.push(runebender_shell::model::EditSession {
        glyph_name: "b".into(),
        editor: editor(),
        buffer: TextBuffer { sorts: vec![], active: None },
    });
    w.activate_session(1);
    assert_eq!(w.active_session, 1);
    assert_eq!(w.mode, Mode::Editor(1));
    w.close_session(1);
    assert_eq!(w.sessions.len(), 1);
    assert_eq!(w.active_session, 0);
    assert_eq!(w.mode, Mode::Editor(0));
    w.close_session(0);
    assert!(w.sessions.is_empty());
    assert_eq!(w.mode, Mode::Grid);
}

#[test]
fn layer_swap_drops_the_undo_step_when_a_copy_is_missing() {
    let mut w = editing(0);
    assert_eq!(
        w.command_swap_layer("sketch".into()),
        Some(vec![EngineOp::RecordUndo(0), EngineOp::SwapLayer(0, "sketch".into())])
    );
    assert!(w.finish_swap_layer(true).is_empty());
    assert_eq!(w.finish_swap_layer(false), vec![EngineOp::DiscardLastUndo(0)]);
    assert_eq!(w.finish_swap_background(false), vec![EngineOp::DiscardLastUndo(0)]);
    assert_eq!(w.status_note, Some(StatusNote::NoBackgroundToSwap));
    assert_eq!(w.finish_add_extremes(false), vec![EngineOp::DiscardLastUndo(0)]);
    assert_eq!(w.status_note, Some(StatusNote::NoMissingExtremes));
}

#[test]
fn copy_then_paste_pastes_into_the_glyph() {
    let mut w = editing(0);
    assert!(w.command_paste().is_empty());
    w.finish_copy(3);
    assert_eq!(w.clipboard, 3);
    assert_eq!(w.status_note, Some(StatusNote::CopiedContours(3)));
    assert_eq!(w.command_paste(), vec![
        EngineOp::RecordUndo(0),
        EngineOp::PasteContours(0),
        EngineOp::RecheckCompat("a".into()),
    ]);
}

fn tab(name: &str) -> runebender_shell::model::EditSession {
    runebender_shell::model::EditSession {
        glyph_name: name.into(),
        editor: editor(),
        buffer: TextBuffer { sorts: vec![], active: None },
    }
}

#[test]
fn closing_a_tab_before_the_active_one_keeps_it_active() {
    let mut w = editing(1);
    w.sessions = vec![tab("a"), tab("b"), tab("a")];
    w.active_session = 2;
    w.close_session(0);
    assert_eq!(w.sessions.len(), 2);
    assert_eq!(w.active_session, 1);
    assert_eq!(w.sessions[1].glyph_name, "a");
    w.close_session(0);
    assert_eq!(w.sessions.len(), 1);
    assert_eq!(w.active_session, 0);
}

#[test]
fn tab_then_shift_tab_returns_to_the_point() {
    let mut w = editing(0);
    w.editor.selected = vec![(0, 1)];
    assert!(w.command_cycle_point(false));
    assert_eq!(w.editor.selected, vec![(1, 0)]);
    assert!(w.command_cycle_point(true));
    assert_eq!(w.editor.selected, vec![(0, 1)]);
}

#[test]
fn corner_short_and_full_names_ask_the_same() {
    let w = editing(0);
    assert_eq!(w.command_apply_corner((0, 1), "round"), w.command_apply_corner((0, 1), "_corner.round"));
}
