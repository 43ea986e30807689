use runebender_shell::model::{
    Annotation, AxisMap, AxisMapping, ChatState, ColorLayer, Designspace, EditorState, EngineOp,
    GlyphEntry, Group, Instance, Layer, Master, Mode, ModelsState, Project, Rule, Sort, StatusNote,
    TextBuffer, Tool, Workspace,
};

fn glyph(name: &str, codepoint: Option<char>) -> GlyphEntry {
    GlyphEntry {
        name: name.to_string(),
        codepoint,
        points: vec![(0, 0), (0, 1), (1, 0)],
        has_image: false,
        masks: vec![],
        annotations: vec![],
    }
}

fn master(names: &[&str]) -> Master {
    Master {
        glyphs: names.iter().map(|n| glyph(n, n.chars().next())).collect(),
        layers: vec![],
        background: None,
        groups: vec![],
        palette: vec![],
        color_layers: vec![],
        dirty: false,
        modified_glyphs: vec![],
        features: String::new(),
        source_path: "/fonts/Sans-Regular.ufo".to_string(),
        family_name: None,
        style_name: None,
    }
}

fn editor() -> EditorState {
    EditorState {
        initialized: false,
        selected: vec![],
        locked_points: vec![],
        dragging: false,
        tool: Tool::Select,
        previous_tool: Tool::Select,
        pen: None,
        hyper_contour: None,
        shape_ellipse: false,
        selected_anchors: vec![],
        selected_component: None,
    }
}

fn workspace(masters: Vec<Master>) -> Workspace {
    Workspace {
        project: Some(Project { masters, active: 0, designspace: None, ds_dirty: false, export_source: None }),
        mode: Mode::Grid,
        selected: None,
        last_editor: None,
        sessions: vec![],
        active_session: 0,
        editor: editor(),
        edit_buffer: TextBuffer { sorts: vec![], active: None },
        status_note: None,
        features_edited: false,
        features_status: None,
        nudging: false,
        sidebar_counts: true,
        clipboard: 0,
        visible_glyph_layers: vec![],
        color_selected: 0,
        show_color_preview: false,
        sample_strings: vec!["abc".to_string(), "xyz".to_string()],
        sample_index: 0,
        roughen_seed: 0,
        chat: ChatState {
            entries: vec![],
            messages: vec![],
            busy: None,
            job: false,
            last_speed: None,
            raw: vec![],
            model: None,
            installed: vec![],
            scanned: false,
        },
        last_save_label: None,
        models: ModelsState {
            installed: vec![],
            binary: None,
            busy: None,
            job: false,
            graph: None,
            dir: None,
            summary: None,
            score: None,
            strength_bits: 1f64.to_bits(),
        },
    }
}

fn names(m: &Master) -> Vec<String> {
    m.glyphs.iter().map(|g| g.name.clone()).collect()
}

use runebender_shell::keys::{sorted_high_first, Handled};

fn editing(index: usize) -> Workspace {
    let mut w = workspace(vec![master(&["a", "b"]), master(&["b", "a"])]);
    w.mode = Mode::Editor(index);
    w
}

fn press(w: &mut Workspace, key: &str) -> (Handled, Vec<EngineOp>) {
    w.handle_key(key, false, false, false, false, false, false)
}

#[test]
fn tool_keys_switch_tools() {
    let mut w = editing(0);
    assert_eq!(press(&mut w, "p"), (Handled::Yes, vec![]));
    assert_eq!(w.editor.tool, Tool::Pen);
    assert_eq!(press(&mut w, "v"), (Handled::Yes, vec![EngineOp::FinishPen]));
    assert_eq!(w.editor.tool, Tool::Select);
    assert_eq!(press(&mut w, "m").1, vec![EngineOp::FinishPen]);
    assert_eq!(w.editor.tool, Tool::Measure);
    press(&mut w, "k");
    assert_eq!(w.editor.tool, Tool::Knife);
    press(&mut w, "h");
    assert_eq!(w.editor.tool, Tool::HyperPen);
    press(&mut w, "r");
    assert_eq!(w.editor.tool, Tool::Shapes);
    assert!(!w.editor.shape_ellipse);
    press(&mut w, "r");
    assert!(w.editor.shape_ellipse);
    press(&mut w, "r");
    assert!(!w.editor.shape_ellipse);
    assert_eq!(press(&mut w, "space"), (Handled::Yes, vec![]));
    assert_eq!(w.editor.tool, Tool::Preview);
    assert_eq!(w.editor.previous_tool, Tool::Shapes);
    press(&mut w, "space");
    assert_eq!(w.editor.previous_tool, Tool::Shapes);
}

#[test]
fn keys_are_ignored_with_command_or_in_a_field() {
    let mut w = editing(0);
    assert_eq!(w.handle_key("p", true, false, false, false, false, false), (Handled::No, vec![]));
    assert_eq!(w.handle_key("p", false, false, false, false, false, true), (Handled::No, vec![]));
    assert_eq!(w.editor.tool, Tool::Select);
    let mut g = workspace(vec![master(&["a"])]);
    assert_eq!(press(&mut g, "p"), (Handled::No, vec![]));
    assert_eq!(press(&mut g, "q"), (Handled::No, vec![]));
}

#[test]
fn escape_closes_menu_then_pen_then_editor() {
    let mut w = editing(1);
    assert_eq!(
        w.handle_key("escape", false, false, false, false, true, false),
        (Handled::Yes, vec![EngineOp::CloseContextMenu])
    );
    w.editor.pen = Some(3);
    assert_eq!(press(&mut w, "escape"), (Handled::Yes, vec![EngineOp::FinishPen]));
    assert_eq!(press(&mut w, "enter"), (Handled::Yes, vec![EngineOp::FinishPen]));
    w.editor.pen = None;
    w.status_note = Some(StatusNote::Cancelled);
    assert_eq!(press(&mut w, "escape"), (Handled::Yes, vec![EngineOp::RecheckCompat("b".to_string())]));
    assert_eq!(w.mode, Mode::Grid);
    assert_eq!(w.last_editor, Some(1));
    assert_eq!(w.status_note, None);
}

#[test]
fn enter_opens_the_selected_glyph() {
    let mut w = workspace(vec![master(&["a", "b"])]);
    assert_eq!(press(&mut w, "enter"), (Handled::No, vec![]));
    w.selected = Some(1);
    assert_eq!(press(&mut w, "enter"), (Handled::Yes, vec![EngineOp::SeedEditBuffer(1)]));
    assert_eq!(w.mode, Mode::Editor(1));
}

#[test]
fn zero_fits_the_view_again() {
    let mut w = editing(0);
    w.editor.initialized = true;
    assert_eq!(press(&mut w, "0"), (Handled::Yes, vec![EngineOp::FitEditor(0)]));
    assert!(w.editor.initialized);
    w.project = None;
    assert_eq!(press(&mut w, "0"), (Handled::Yes, vec![]));
    assert!(!w.editor.initialized);
}

#[test]
fn arrows_nudge_by_two_eight_or_thirty_two() {
    let mut w = editing(0);
    assert_eq!(press(&mut w, "left"), (Handled::ByEngine, vec![EngineOp::Nudge(-2, 0, false)]));
    assert_eq!(
        w.handle_key("right", false, true, false, false, false, false),
        (Handled::ByEngine, vec![EngineOp::Nudge(8, 0, false)])
    );
    assert_eq!(
        w.handle_key("up", false, true, true, true, false, false),
        (Handled::ByEngine, vec![EngineOp::Nudge(0, 32, true)])
    );
    assert_eq!(press(&mut w, "down"), (Handled::ByEngine, vec![EngineOp::Nudge(0, -2, false)]));
    assert_eq!(press(&mut w, "="), (Handled::Yes, vec![EngineOp::ZoomIn]));
    assert_eq!(press(&mut w, "+"), (Handled::Yes, vec![EngineOp::ZoomIn]));
    assert_eq!(press(&mut w, "-"), (Handled::Yes, vec![EngineOp::ZoomOut]));
    assert_eq!(press(&mut w, "_"), (Handled::Yes, vec![EngineOp::ZoomOut]));
}

#[test]
fn text_tool_takes_every_key() {
    let mut w = editing(0);
    w.editor.tool = Tool::Text;
    assert_eq!(press(&mut w, "p"), (Handled::Yes, vec![EngineOp::EditTextKey]));
    assert_eq!(w.editor.tool, Tool::Text);
    w.project = None;
    assert_eq!(press(&mut w, "p"), (Handled::No, vec![]));
}

#[test]
fn anchors_are_deleted_highest_first() {
    assert_eq!(sorted_high_first(&vec![1, 4, 2, 4, 0]), vec![4, 4, 2, 1, 0]);
    assert_eq!(sorted_high_first(&vec![]), Vec::<usize>::new());
    let mut w = editing(0);
    w.editor.selected_anchors = vec![0, 3, 1];
    let (h, ops) = press(&mut w, "backspace");
    assert_eq!(h, Handled::Yes);
    assert_eq!(ops, vec![EngineOp::RecordUndo(0), EngineOp::DeleteAnchors(0, vec![3, 1, 0])]);
    assert!(w.editor.selected_anchors.is_empty());
}

#[test]
fn delete_and_smooth_act_on_selected_points() {
    let mut w = editing(0);
    assert_eq!(press(&mut w, "delete"), (Handled::No, vec![]));
    assert_eq!(press(&mut w, "s"), (Handled::No, vec![]));
    w.editor.selected = vec![(0, 1), (0, 2)];
    assert_eq!(
        press(&mut w, "delete"),
        (Handled::ByEngine, vec![EngineOp::RecordUndo(0), EngineOp::DeletePoints(0, vec![(0, 1), (0, 2)])])
    );
    assert_eq!(
        press(&mut w, "s"),
        (Handled::ByEngine, vec![EngineOp::RecordUndo(0), EngineOp::ToggleSmooth(0, vec![(0, 1), (0, 2)])])
    );
    w.finish_delete_points(false);
    assert_eq!(w.editor.selected.len(), 2);
    w.finish_delete_points(true);
    assert!(w.editor.selected.is_empty());
}

#[test]
fn component_delete_drops_the_undo_step_when_nothing_changed() {
    let mut w = editing(0);
    w.editor.selected_component = Some(2);
    assert_eq!(
        press(&mut w, "backspace"),
        (Handled::ByEngine, vec![EngineOp::RecordUndo(0), EngineOp::DeleteComponent(0, 2)])
    );
    assert_eq!(w.editor.selected_component, None);
    assert!(w.finish_delete_component(true).is_empty());
    assert_eq!(w.finish_delete_component(false), vec![EngineOp::DiscardLastUndo(0)]);
}

#[test]
fn backspace_while_drawing_removes_the_last_pen_point() {
    let mut w = editing(1);
    w.editor.hyper_contour = Some(4);
    assert_eq!(press(&mut w, "backspace"), (Handled::ByEngine, vec![EngineOp::DeleteLastPenPoint(1, 4)]));
    assert!(w.finish_pen_point(4, Some(2)).is_empty());
    assert_eq!(w.editor.hyper_contour, Some(4));
    assert_eq!(w.finish_pen_point(4, Some(0)), vec![EngineOp::RemoveDegenerateContour(1, 4)]);
    assert_eq!(w.editor.hyper_contour, None);
    assert_eq!(w.editor.pen, None);
}

#[test]
fn a_adds_an_anchor_at_the_cursor() {
    let mut w = editing(1);
    w.nudging = true;
    assert_eq!(press(&mut w, "a"), (Handled::Yes, vec![EngineOp::RecordUndo(1), EngineOp::AddAnchorAtCursor(1)]));
    assert!(!w.nudging);
}

use runebender_shell::text_keys::TextEdit;

#[test]
fn text_strip_keys_edit_at_the_cursor() {
    let w = editing(0);
    assert_eq!(
        w.handle_edit_text_key("backspace", None),
        (true, vec![EngineOp::TextKey(TextEdit::DeleteBefore), EngineOp::SyncSortOffset])
    );
    assert_eq!(
        w.handle_edit_text_key("enter", Some("\n".into())),
        (true, vec![EngineOp::TextKey(TextEdit::LineBreak), EngineOp::SyncSortOffset])
    );
    assert_eq!(w.handle_edit_text_key("up", None), (true, vec![EngineOp::TextKey(TextEdit::Up)]));
    assert_eq!(w.handle_edit_text_key("home", None).1[0], EngineOp::TextKey(TextEdit::Home));
    assert_eq!(w.handle_edit_text_key("escape", None), (true, vec![EngineOp::SyncSortOffset]));
    assert_eq!(w.handle_edit_text_key("f1", None), (true, vec![]));
    assert_eq!(
        w.handle_edit_text_key("a", Some("a\u{7}b".into())),
        (true, vec![EngineOp::TextKey(TextEdit::Insert(vec!['a', 'b']))])
    );
    assert_eq!(w.handle_edit_text_key("x", Some("\u{1b}".into())), (true, vec![]));
    let mut none = editing(0);
    none.project = None;
    assert_eq!(none.handle_edit_text_key("backspace", None), (false, vec![]));
}

#[test]
fn escape_then_enter_reopens_the_glyph() {
    let mut w = workspace(vec![master(&["a", "b"])]);
    w.selected = Some(1);
    press(&mut w, "enter");
    assert_eq!(w.mode, Mode::Editor(1));
    press(&mut w, "escape");
    assert_eq!(w.mode, Mode::Grid);
    assert_eq!(press(&mut w, "enter").0, Handled::Yes);
    assert_eq!(w.mode, Mode::Editor(1));
}

use runebender_shell::press::{Press, PressTarget};

#[test]
fn press_on_a_point_selects_it_and_drags() {
    let mut w = editing(0);
    w.nudging = true;
    w.editor.selected = vec![(1, 0)];
    w.editor.selected_component = Some(2);
    let r = w.select_press(PressTarget::Point((0, 1)), false);
    assert_eq!(r, (Press::DragPoints, vec![EngineOp::RecordUndo(0)]));
    assert_eq!(w.editor.selected, vec![(0, 1)]);
    assert_eq!(w.editor.selected_component, None);
    assert!(w.editor.dragging);
    assert!(!w.nudging);
}

#[test]
fn press_on_a_selected_point_keeps_the_selection() {
    let mut w = editing(0);
    w.editor.selected = vec![(1, 0), (0, 1)];
    let r = w.select_press(PressTarget::Point((0, 1)), false);
    assert_eq!(r.0, Press::DragPoints);
    assert_eq!(w.editor.selected, vec![(1, 0), (0, 1)]);
}

#[test]
fn shift_press_toggles_a_point() {
    let mut w = editing(0);
    w.editor.selected = vec![(1, 0), (0, 1)];
    w.editor.selected_anchors = vec![3];
    let r = w.select_press(PressTarget::Point((0, 1)), true);
    assert_eq!(r, (Press::Nothing, vec![]));
    assert_eq!(w.editor.selected, vec![(1, 0)]);
    assert!(!w.editor.dragging);
    let r = w.select_press(PressTarget::Point((0, 1)), true);
    assert_eq!(r, (Press::DragPoints, vec![EngineOp::RecordUndo(0)]));
    assert_eq!(w.editor.selected, vec![(1, 0), (0, 1)]);
    assert_eq!(w.editor.selected_anchors, vec![3]);
}

#[test]
fn press_on_anchors() {
    let mut w = editing(0);
    w.editor.selected = vec![(1, 0)];
    let r = w.select_press(PressTarget::Anchor(2), true);
    assert_eq!(r, (Press::DragPoints, vec![EngineOp::RecordUndo(0)]));
    assert_eq!(w.editor.selected_anchors, vec![2]);
    assert_eq!(w.editor.selected, vec![(1, 0)]);
    let r = w.select_press(PressTarget::Anchor(2), true);
    assert_eq!(r, (Press::Nothing, vec![]));
    assert!(w.editor.selected_anchors.is_empty());
    let r = w.select_press(PressTarget::Anchor(4), false);
    assert_eq!(r.0, Press::DragPoints);
    assert_eq!(w.editor.selected_anchors, vec![4]);
    assert!(w.editor.selected.is_empty());
}

#[test]
fn press_on_segments() {
    let mut w = editing(0);
    w.editor.selected = vec![(1, 0)];
    w.editor.selected_anchors = vec![1];
    let r = w.select_press(PressTarget::Segment(vec![(0, 0), (0, 1)]), true);
    assert_eq!(r, (Press::DragPoints, vec![EngineOp::RecordUndo(0)]));
    assert_eq!(w.editor.selected, vec![(1, 0), (0, 0), (0, 1)]);
    assert!(w.editor.selected_anchors.is_empty());
    let r = w.select_press(PressTarget::Segment(vec![(0, 0), (0, 1)]), true);
    assert_eq!(r, (Press::Nothing, vec![]));
    assert_eq!(w.editor.selected, vec![(1, 0)]);
    let r = w.select_press(PressTarget::Segment(vec![(0, 1), (0, 1)]), false);
    assert_eq!(r.0, Press::DragPoints);
    assert_eq!(w.editor.selected, vec![(0, 1)]);
}

#[test]
fn press_on_components_and_sidebearings() {
    let mut w = editing(0);
    w.editor.selected = vec![(1, 0)];
    let r = w.select_press(PressTarget::Component(1, true), false);
    assert_eq!(r, (Press::ComponentLocked, vec![]));
    assert_eq!(w.status_note, Some(StatusNote::ComponentAnchorLocked));
    assert_eq!(w.editor.selected_component, Some(1));
    assert!(w.editor.selected.is_empty());
    let r = w.select_press(PressTarget::Component(0, false), false);
    assert_eq!(r, (Press::DragComponent(0), vec![EngineOp::RecordUndo(0)]));
    assert_eq!(w.editor.selected_component, Some(0));
    let r = w.select_press(PressTarget::Sidebearing(true), false);
    assert_eq!(r, (Press::DragSidebearing(true), vec![EngineOp::RecordUndo(0)]));
    assert_eq!(w.editor.selected_component, Some(0));
}

#[test]
fn press_on_another_master_switches_to_it() {
    let mut w = editing(0);
    w.editor.selected = vec![(1, 0)];
    w.editor.selected_anchors = vec![5];
    let r = w.select_press(PressTarget::OtherMaster(1, (0, 1)), false);
    assert_eq!(r.0, Press::MasterSwitched);
    assert_eq!(
        r.1,
        vec![EngineOp::SnapLocationToMaster(1), EngineOp::SeedEditBuffer(1), EngineOp::RebuildTextModels]
    );
    assert_eq!(w.project.as_ref().unwrap().active, 1);
    assert_eq!(w.mode, Mode::Editor(1));
    assert_eq!(w.editor.selected, vec![(0, 1)]);
}

#[test]
fn press_on_guides_and_empty_canvas() {
    let mut w = editing(0);
    w.editor.selected = vec![(1, 0)];
    w.editor.selected_anchors = vec![5];
    let r = w.select_press(PressTarget::Empty, true);
    assert_eq!(r, (Press::Marquee, vec![]));
    assert_eq!(w.editor.selected, vec![(1, 0)]);
    assert!(w.editor.selected_anchors.is_empty());
    let r = w.select_press(PressTarget::Empty, false);
    assert_eq!(r, (Press::Marquee, vec![]));
    assert!(w.editor.selected.is_empty());
    w.editor.selected = vec![(1, 0)];
    let r = w.select_press(PressTarget::Guide(3), false);
    assert_eq!(r, (Press::DragGuide(3), vec![]));
    assert!(w.editor.selected.is_empty());
}

#[test]
fn press_outside_the_editor_does_nothing() {
    let mut w = workspace(vec![master(&["a"])]);
    w.editor.selected = vec![(1, 0)];
    let r = w.select_press(PressTarget::Point((0, 1)), false);
    assert_eq!(r, (Press::Nothing, vec![]));
    assert_eq!(w.editor.selected, vec![(1, 0)]);
}

#[test]
fn step_master_and_back_from_the_overview() {
    let mut w = workspace(vec![master(&["a", "b"]), master(&["a"])]);
    w.selected = Some(1);
    assert_eq!(
        w.command_step_master(1),
        vec![EngineOp::SnapLocationToMaster(1), EngineOp::RebuildTextModels]
    );
    assert_eq!(w.project.as_ref().unwrap().active, 1);
    assert_eq!(w.selected, Some(1));
    assert_eq!(
        w.command_step_master(-1),
        vec![EngineOp::SnapLocationToMaster(0), EngineOp::RebuildTextModels]
    );
    assert_eq!(w.project.as_ref().unwrap().active, 0);
}

use runebender_shell::press::PressRoute;

#[test]
fn presses_go_to_the_tool_that_takes_them() {
    let mut w = editing(0);
    w.nudging = true;
    assert_eq!(w.press_route(false, false), (PressRoute::Select, vec![EngineOp::FitEditor(0)]));
    assert!(!w.nudging);
    assert!(w.editor.initialized);
    assert_eq!(w.press_route(true, false), (PressRoute::AltSelect, vec![]));
    assert_eq!(w.press_route(false, true), (PressRoute::InstancePan, vec![]));
    assert_eq!(w.status_note, Some(StatusNote::InstanceView));
    assert_eq!(
        StatusNote::InstanceView.text().as_deref(),
        Some("Interpolated instance · move an axis onto a master to edit")
    );
    assert!(w.editor.dragging);
    w.editor.tool = Tool::Pen;
    assert_eq!(w.press_route(false, true).0, PressRoute::Pen);
    w.editor.tool = Tool::Knife;
    assert_eq!(w.press_route(false, false).0, PressRoute::Knife);
    w.editor.tool = Tool::Preview;
    assert_eq!(w.press_route(false, false).0, PressRoute::Pan);
    w.editor.tool = Tool::Shapes;
    assert_eq!(w.press_route(true, false).0, PressRoute::Shape);
    w.editor.tool = Tool::Text;
    assert_eq!(w.press_route(false, false).0, PressRoute::TextClick);
    let mut g = workspace(vec![master(&["a"])]);
    assert_eq!(g.press_route(false, false), (PressRoute::Ignored, vec![]));
}

#[test]
fn alt_press_turns_a_line_into_a_curve() {
    let mut w = editing(0);
    assert_eq!(
        w.alt_press(Some(vec![(0, 0), (0, 1)])),
        (Press::LineToCurve, vec![EngineOp::RecordUndo(0), EngineOp::LineToCurve(0, vec![(0, 0), (0, 1)])])
    );
    assert!(w.finish_line_to_curve(Some(vec![(0, 1), (0, 2)])).is_empty());
    assert_eq!(w.editor.selected, vec![(0, 1), (0, 2)]);
    assert_eq!(w.finish_line_to_curve(None), vec![EngineOp::DiscardLastUndo(0)]);
    assert_eq!(w.alt_press(None), (Press::Pan, vec![]));
    assert!(w.editor.dragging);
}

#[test]
fn box_handles_and_knobs_drag() {
    let mut w = editing(0);
    w.editor.selected = vec![(0, 1)];
    assert_eq!(w.select_press(PressTarget::TransformHandle, false), (Press::Transform, vec![EngineOp::RecordUndo(0)]));
    assert_eq!(w.editor.selected, vec![(0, 1)]);
    assert_eq!(w.select_press(PressTarget::TrajectoryKnob, false), (Press::DragKnob, vec![]));
}
