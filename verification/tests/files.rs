use runebender_shell::model::{
    Annotation, AxisMap, AxisMapping, ChatState, ColorLayer, Designspace, EditorState, EngineOp,
    GlyphEntry, Group, Instance, Layer, Master, Mode, ModelsState, Project, Rule, Sort, StatusNote,
    TextBuffer, Tool, Workspace,
};

fn glyph(name: &str, codepoint: Option<char>) -> GlyphEntry {
    GlyphEntry {
        name: name.to_string(),
        codepoint,
        points: vec![(0, 0), (0, 1), (1, 0)],
        has_image: false,
        masks: vec![],
        annotations: vec![],
    }
}

fn master(names: &[&str]) -> Master {
    Master {
        glyphs: names.iter().map(|n| glyph(n, n.chars().next())).collect(),
        layers: vec![],
        background: None,
        groups: vec![],
        palette: vec![],
        color_layers: vec![],
        dirty: false,
        modified_glyphs: vec![],
        features: String::new(),
        source_path: "/fonts/Sans-Regular.ufo".to_string(),
        family_name: None,
        style_name: None,
    }
}

fn editor() -> EditorState {
    EditorState {
        initialized: false,
        selected: vec![],
        locked_points: vec![],
        dragging: false,
        tool: Tool::Select,
        previous_tool: Tool::Select,
        pen: None,
        hyper_contour: None,
        shape_ellipse: false,
        selected_anchors: vec![],
        selected_component: None,
    }
}

fn workspace(masters: Vec<Master>) -> Workspace {
    Workspace {
        project: Some(Project { masters, active: 0, designspace: None, ds_dirty: false, export_source: None }),
        mode: Mode::Grid,
        selected: None,
        last_editor: None,
        sessions: vec![],
        active_session: 0,
        editor: editor(),
        edit_buffer: TextBuffer { sorts: vec![], active: None },
        status_note: None,
        features_edited: false,
        features_status: None,
        nudging: false,
        sidebar_counts: true,
        clipboard: 0,
        visible_glyph_layers: vec![],
        color_selected: 0,
        show_color_preview: false,
        sample_strings: vec!["abc".to_string(), "xyz".to_string()],
        sample_index: 0,
        roughen_seed: 0,
        chat: ChatState {
            entries: vec![],
            messages: vec![],
            busy: None,
            job: false,
            last_speed: None,
            raw: vec![],
            model: None,
            installed: vec![],
            scanned: false,
        },
        last_save_label: None,
        models: ModelsState {
            installed: vec![],
            binary: None,
            busy: None,
            job: false,
            graph: None,
            dir: None,
            summary: None,
            score: None,
            strength_bits: 1f64.to_bits(),
        },
    }
}

fn names(m: &Master) -> Vec<String> {
    m.glyphs.iter().map(|g| g.name.clone()).collect()
}


use runebender_shell::chat::{proposed_tasks, ToolReply};
use runebender_shell::model::{ChatEntry, ChatMessage, GraphState, NodeStatus, RowState};
use runebender_shell::nodes::NodeOutcome;
use runebender_shell::saving::file_name_for;
use runebender_shell::tasks::{ProposalSummary, TaskReport};
use std::collections::BTreeMap;

fn editing(index: usize) -> Workspace {
    let mut w = workspace(vec![master(&["a", "b"]), master(&["b", "a"])]);
    w.mode = Mode::Editor(index);
    w
}

fn outcome(id: u32, kind: &str, status: NodeStatus, error: Option<&str>, summary: &str) -> NodeOutcome {
    NodeOutcome { id, kind: kind.into(), status, error: error.map(|e| e.to_string()), summary: summary.into() }
}

fn graph() -> GraphState {
    let mut rows = BTreeMap::new();
    rows.insert(1, RowState::Waiting);
    rows.insert(9, RowState::Waiting);
    GraphState { path: "/x/bolden.nodes.json".into(), order: vec![1, 2, 3, 9], problems: vec![], rows, running: true }
}

#[test]
fn new_tab_opens_on_the_current_glyph() {
    let mut w = editing(1);
    w.editor.tool = Tool::Pen;
    assert_eq!(w.command_new_session(), vec![EngineOp::SeedEditBuffer(1)]);
    assert_eq!(w.sessions.len(), 1);
    assert_eq!(w.active_session, 0);
    assert_eq!(w.sessions[0].glyph_name, "b");
    assert_eq!(w.mode, Mode::Editor(1));
    assert_eq!(w.editor.tool, Tool::Select);
    w.command_new_session();
    assert_eq!(w.sessions.len(), 2);
    assert_eq!(w.active_session, 1);
    assert_eq!(w.sessions[1].glyph_name, "b");
}

#[test]
fn new_tab_from_the_grid_prefers_the_last_edited_glyph() {
    let mut w = workspace(vec![master(&["a", "b"])]);
    assert!(w.command_new_session().is_empty());
    assert!(w.sessions.is_empty());
    w.selected = Some(1);
    w.last_editor = Some(0);
    assert_eq!(w.command_new_session(), vec![EngineOp::SeedEditBuffer(0)]);
    assert_eq!(w.sessions[0].glyph_name, "a");
    w.mode = Mode::Grid;
    w.last_editor = Some(7);
    assert!(w.command_new_session().is_empty());
}

#[test]
fn finished_run_fills_rows_and_counts() {
    let mut w = workspace(vec![master(&["a"])]);
    w.models.graph = Some(graph());
    w.models.busy = Some("bolden: 1/2 a".into());
    let nodes = vec![
        outcome(1, "core.install", NodeStatus::Ran, None, "bold"),
        outcome(2, "core.measure", NodeStatus::Skipped, None, "ignored"),
        outcome(3, "core.model", NodeStatus::Blocked, None, ""),
        outcome(9, "core.model", NodeStatus::Failed, Some("no model"), ""),
    ];
    let ops = w.nodes_finished(nodes, true);
    assert_eq!(ops, vec![EngineOp::ReloadFromDisk, EngineOp::RefreshProposals]);
    assert_eq!(w.models.busy, None);
    let g = w.models.graph.as_ref().unwrap();
    assert!(!g.running);
    assert_eq!(g.rows[&1], RowState::Done(NodeStatus::Ran, Some("bold".into())));
    assert_eq!(g.rows[&2], RowState::Done(NodeStatus::Skipped, Some("unchanged".into())));
    assert_eq!(g.rows[&3], RowState::Done(NodeStatus::Blocked, None));
    assert_eq!(g.rows[&9], RowState::Done(NodeStatus::Failed, Some("no model".into())));
    assert_eq!(w.status_note, Some(StatusNote::NodesRan(1, 3)));
}

#[test]
fn failed_run_counts_failures_and_later_reports_win() {
    let mut w = workspace(vec![]);
    w.models.graph = Some(graph());
    let nodes = vec![
        outcome(1, "core.install", NodeStatus::Failed, Some("first"), ""),
        outcome(1, "core.install", NodeStatus::Failed, None, ""),
        outcome(4, "core.measure", NodeStatus::Ran, None, "3 rows"),
    ];
    assert_eq!(w.nodes_finished(nodes, false), vec![EngineOp::RefreshProposals]);
    let g = w.models.graph.as_ref().unwrap();
    assert_eq!(g.rows[&1], RowState::Done(NodeStatus::Failed, None));
    assert_eq!(g.rows[&4], RowState::Done(NodeStatus::Ran, Some("3 rows".into())));
    assert_eq!(g.rows[&9], RowState::Waiting);
    assert_eq!(w.status_note, Some(StatusNote::NodesFailed(2)));
    let mut none = workspace(vec![]);
    none.nodes_finished(vec![], true);
    assert!(none.models.graph.is_none());
    assert_eq!(none.status_note, Some(StatusNote::NodesRan(0, 0)));
}

#[test]
fn model_run_on_one_glyph_installs_at_once() {
    let mut w = editing(0);
    w.editor.selected = vec![(0, 1)];
    let report = TaskReport { moved: 3, points: 12, advance: -4 };
    let (ops, entry) = w.task_finished("bolden".into(), Some(1), Ok(ProposalSummary { glyphs: 1, compatible: 1 }), report);
    assert_eq!(ops, vec![EngineOp::InstallProposal("bolden".into(), Some(vec!["b".into()]))]);
    let entry = entry.unwrap();
    assert_eq!(entry.op, "run model task");
    assert_eq!(entry.glyph.as_deref(), Some("b"));
    assert_eq!(entry.detail.as_deref(), Some("3/12 points moved, advance -4"));
    assert!(w.editor.selected.is_empty());
    assert_eq!(w.status_note, Some(StatusNote::ModelRan("bolden".into(), "b".into(), 3, 12, -4)));
    let report = TaskReport { moved: 0, points: 5, advance: 0 };
    let (_, entry) = w.task_finished("t".into(), Some(0), Ok(ProposalSummary { glyphs: 1, compatible: 0 }), report);
    assert_eq!(entry.unwrap().detail.as_deref(), Some("0/5 points moved, advance +0"));
}

#[test]
fn model_run_on_many_glyphs_waits_in_the_panel() {
    let mut w = editing(0);
    let report = TaskReport { moved: 0, points: 0, advance: 0 };
    let (ops, entry) = w.task_finished("x".into(), None, Ok(ProposalSummary { glyphs: 7, compatible: 5 }), report);
    assert_eq!(ops, vec![EngineOp::RefreshProposals]);
    assert!(entry.is_none());
    assert_eq!(w.status_note, Some(StatusNote::ModelProposed(7, 5)));
    let report = TaskReport { moved: 0, points: 0, advance: 0 };
    let (ops, entry) = w.task_finished("x".into(), Some(0), Err("no layer".into()), report);
    assert!(ops.is_empty() && entry.is_none());
    assert_eq!(w.status_note, Some(StatusNote::ModelFailed("no layer".into())));
}

#[test]
fn finished_turn_drops_empty_replies_and_reads_tool_messages() {
    let mut w = workspace(vec![]);
    w.chat.raw = vec!['x'];
    w.chat.entries = vec![
        ChatEntry::User("hi".into()),
        ChatEntry::Assistant("".into()),
        ChatEntry::Assistant("ok".into()),
        ChatEntry::Error("e".into()),
        ChatEntry::Assistant("".into()),
    ];
    w.chat.messages = vec![
        ChatMessage { json: "{}".into(), role: Some("user".into()), content: Some("hi".into()) },
        ChatMessage { json: "{}".into(), role: Some("tool".into()), content: Some("{\"name\":\"propose\"}".into()) },
        ChatMessage { json: "{}".into(), role: Some("tool".into()), content: None },
        ChatMessage { json: "{}".into(), role: Some("tool".into()), content: Some("second".into()) },
    ];
    let texts = w.chat_finished();
    assert_eq!(texts, vec!["{\"name\":\"propose\"}".to_string(), "second".to_string()]);
    assert!(w.chat.raw.is_empty());
    assert_eq!(
        w.chat.entries,
        vec![ChatEntry::User("hi".into()), ChatEntry::Assistant("ok".into()), ChatEntry::Error("e".into())]
    );
    assert_eq!(w.chat.messages.len(), 4);
}

#[test]
fn only_propose_replies_name_tasks() {
    let replies = vec![
        ToolReply { name: Some("propose".into()), task: Some("bolden".into()) },
        ToolReply { name: Some("measure".into()), task: Some("nope".into()) },
        ToolReply { name: Some("propose".into()), task: None },
        ToolReply { name: None, task: Some("nope".into()) },
        ToolReply { name: Some("propose".into()), task: Some("slant".into()) },
    ];
    assert_eq!(proposed_tasks(&replies), vec!["bolden".to_string(), "slant".to_string()]);
    let mut w = workspace(vec![]);
    assert_eq!(w.finish_chat_proposals(vec![]), vec![EngineOp::RefreshProposals]);
    assert_eq!(w.status_note, None);
    w.finish_chat_proposals(vec!["a".into(), "b".into()]);
    assert_eq!(w.status_note, Some(StatusNote::Text("b".into())));
}

#[test]
fn save_writes_dirty_masters_and_says_what() {
    let mut w = workspace(vec![master(&["a"]), master(&["a"]), master(&["a"])]);
    assert!(w.masters_to_save().is_empty());
    {
        let p = w.project.as_mut().unwrap();
        p.masters[0].dirty = true;
        p.masters[0].modified_glyphs = vec!["a".into()];
        p.masters[2].dirty = true;
        p.masters[2].source_path = "/fonts/Sans-Bold.ufo".into();
    }
    assert_eq!(w.masters_to_save(), vec![0, 2]);
    assert_eq!(w.designspace_to_save(), None);
    w.finish_save(vec![(0, Ok(())), (2, Ok(()))], None);
    let p = w.project.as_ref().unwrap();
    assert!(!p.masters[0].dirty && p.masters[0].modified_glyphs.is_empty());
    assert!(!p.masters[2].dirty);
    assert!(w.last_save_label.is_some());
    assert_eq!(
        w.status_note,
        Some(StatusNote::Saved(vec!["/fonts/Sans-Regular.ufo".into(), "/fonts/Sans-Bold.ufo".into()]))
    );
    w.finish_save(vec![], None);
    assert_eq!(w.status_note, Some(StatusNote::NothingToSave));
}

#[test]
fn save_failures_win_and_keep_masters_dirty() {
    let mut w = workspace(vec![master(&["a"]), master(&["a"])]);
    w.project.as_mut().unwrap().masters[1].dirty = true;
    w.finish_save(vec![(0, Ok(())), (1, Err("disk full".into()))], Some(Err("read only".into())));
    assert!(w.project.as_ref().unwrap().masters[1].dirty);
    assert_eq!(w.status_note, Some(StatusNote::SaveFailed(vec!["disk full".into(), "read only".into()])));
    let mut none = Workspace { project: None, ..workspace(vec![]) };
    none.finish_save(vec![], None);
    assert_eq!(none.status_note, None);
    assert!(none.last_save_label.is_none());
}

#[test]
fn designspace_saves_only_from_a_designspace_file() {
    let mut w = workspace(vec![master(&["a"])]);
    {
        let p = w.project.as_mut().unwrap();
        p.designspace = Some(Designspace { rules: vec![], instances: vec![], first_axis: None });
        p.export_source = Some("/fonts/Sans.designspace".into());
    }
    assert_eq!(w.designspace_to_save(), None);
    w.project.as_mut().unwrap().ds_dirty = true;
    assert_eq!(w.designspace_to_save(), Some("/fonts/Sans.designspace".into()));
    w.project.as_mut().unwrap().export_source = Some("/fonts/.designspace".into());
    assert_eq!(w.designspace_to_save(), None);
    w.project.as_mut().unwrap().export_source = Some("/fonts/Sans.designspace.bak".into());
    assert_eq!(w.designspace_to_save(), None);
    w.project.as_mut().unwrap().export_source = Some("/fonts/Sans.ufo".into());
    assert_eq!(w.designspace_to_save(), None);
    w.project.as_mut().unwrap().export_source = Some("/fonts/Sans.designspace".into());
    w.finish_save(vec![], Some(Ok(())));
    assert!(!w.project.as_ref().unwrap().ds_dirty);
    assert_eq!(w.status_note, Some(StatusNote::Saved(vec!["/fonts/Sans.designspace".into()])));
}

#[test]
fn save_as_names_and_moves() {
    let mut m = master(&["a"]);
    assert_eq!(file_name_for(&m), "Untitled-Regular.ufo");
    m.family_name = Some("Noto Sans Arabic".into());
    m.style_name = Some("Semi Bold".into());
    assert_eq!(file_name_for(&m), "NotoSansArabic-SemiBold.ufo");
    let mut w = workspace(vec![m, master(&["a"])]);
    assert_eq!(w.save_as_names(), vec!["NotoSansArabic-SemiBold.ufo".to_string(), "Untitled-Regular.ufo".to_string()]);
    w.move_masters(vec!["/d/A.ufo".into(), "/d/B.ufo".into()]);
    let p = w.project.as_ref().unwrap();
    assert_eq!(p.masters[0].source_path, "/d/A.ufo");
    assert_eq!(p.masters[1].source_path, "/d/B.ufo");
    assert!(p.masters[0].dirty && p.masters[1].dirty);
}

#[test]
fn new_font_replaces_the_project() {
    let mut w = editing(1);
    w.command_new_session();
    w.selected = Some(1);
    let fresh = Project { masters: vec![master(&[])], active: 0, designspace: None, ds_dirty: false, export_source: None };
    assert_eq!(w.adopt_new_font(fresh), vec![EngineOp::RebuildTextModels]);
    assert!(w.sessions.is_empty());
    assert_eq!(w.mode, Mode::Grid);
    assert_eq!(w.selected, None);
    assert_eq!(w.last_editor, None);
    assert_eq!(w.status_note, Some(StatusNote::NewFont));
    assert_eq!(w.project.as_ref().unwrap().masters[0].glyphs.len(), 0);
}

#[test]
fn missing_glyphs_are_generated_where_lacking() {
    let mut w = workspace(vec![master(&["a", "beh-ar"]), master(&["a"])]);
    let targets = vec![("beh-ar".to_string(), 0x628), ("teh-ar".to_string(), 0x62A), ("beh-ar".to_string(), 0x628)];
    let ops = w.command_generate_missing(targets.clone());
    assert_eq!(ops, vec![EngineOp::GenerateGlyphs(targets)]);
    let p = w.project.as_ref().unwrap();
    assert_eq!(names(&p.masters[0]), vec!["a", "beh-ar", "teh-ar"]);
    assert_eq!(names(&p.masters[1]), vec!["a", "beh-ar", "teh-ar"]);
    assert_eq!(p.masters[0].glyphs[2].codepoint, Some('\u{62A}'));
    assert_eq!(p.masters[1].glyphs[1].codepoint, Some('\u{628}'));
    assert!(p.masters[1].glyphs[1].points.is_empty());
    assert_eq!(p.masters[0].modified_glyphs, vec!["teh-ar".to_string()]);
    assert_eq!(p.masters[1].modified_glyphs, vec!["beh-ar".to_string(), "teh-ar".to_string()]);
    assert!(p.masters[0].dirty && p.masters[1].dirty);
    assert_eq!(w.status_note, Some(StatusNote::GeneratedMissing(3)));
}

#[test]
fn nothing_to_generate_changes_nothing() {
    let mut w = workspace(vec![master(&["a"])]);
    assert!(w.command_generate_missing(vec![]).is_empty());
    assert_eq!(w.status_note, None);
    let ops = w.command_generate_missing(vec![("a".to_string(), 0xD800)]);
    assert_eq!(ops.len(), 1);
    assert!(!w.project.as_ref().unwrap().masters[0].dirty);
    assert_eq!(w.status_note, Some(StatusNote::GeneratedMissing(1)));
    let mut v = workspace(vec![master(&[])]);
    v.command_generate_missing(vec![("x".to_string(), 0xD800), ("y".to_string(), 0x110000)]);
    let m = &v.project.as_ref().unwrap().masters[0];
    assert_eq!(m.glyphs[0].codepoint, None);
    assert_eq!(m.glyphs[1].codepoint, None);
}


use runebender_shell::outline::{BooleanOp, Duplicated};

#[test]
fn round_corners_request_and_answer() {
    let mut w = editing(0);
    assert!(workspace(vec![]).command_round_corners().is_none());
    w.editor.selected = vec![(0, 2)];
    w.nudging = true;
    assert_eq!(
        w.command_round_corners(),
        Some(vec![EngineOp::RecordUndo(0), EngineOp::RoundCorners(0, vec![(0, 2)])])
    );
    assert!(!w.nudging);
    w.finish_round_corners(Some(vec![(0, 2), (0, 3)]));
    assert_eq!(w.editor.selected, vec![(0, 2), (0, 3)]);
    assert_eq!(w.finish_round_corners(None), vec![EngineOp::DiscardLastUndo(0)]);
    assert_eq!(w.editor.selected, vec![(0, 2), (0, 3)]);
}

#[test]
fn duplicate_picks_component_then_anchor_then_points() {
    let mut w = editing(1);
    w.editor.selected = vec![(1, 0)];
    assert_eq!(w.command_duplicate(), Some(vec![EngineOp::RecordUndo(1), EngineOp::DuplicatePoints(1, vec![(1, 0)])]));
    w.editor.selected_anchors = vec![4];
    assert_eq!(w.command_duplicate(), Some(vec![EngineOp::RecordUndo(1), EngineOp::DuplicateAnchor(1, 4)]));
    w.editor.selected_anchors = vec![4, 5];
    assert_eq!(w.command_duplicate().unwrap()[1], EngineOp::DuplicatePoints(1, vec![(1, 0)]));
    w.editor.selected_component = Some(2);
    assert_eq!(w.command_duplicate(), Some(vec![EngineOp::RecordUndo(1), EngineOp::DuplicateComponent(1, 2)]));
    assert!(w.finish_duplicate(Some(Duplicated::Component(3)), false).is_empty());
    assert_eq!(w.editor.selected_component, Some(3));
    w.finish_duplicate(Some(Duplicated::Anchor(6)), false);
    assert_eq!(w.editor.selected_anchors, vec![6]);
    let ops = w.finish_duplicate(Some(Duplicated::Points(vec![(2, 0), (2, 1)])), true);
    assert_eq!(w.editor.selected, vec![(2, 0), (2, 1)]);
    assert_eq!(ops, vec![EngineOp::TransformAgain(1, vec![(2, 0), (2, 1)])]);
    assert_eq!(w.finish_duplicate(None, true), vec![EngineOp::DiscardLastUndo(1)]);
    assert_eq!(w.editor.selected, vec![(2, 0), (2, 1)]);
}

#[test]
fn boolean_offset_stroke_and_fit_requests() {
    let mut w = editing(0);
    assert_eq!(w.command_boolean(BooleanOp::Xor), Some(vec![EngineOp::RecordUndo(0), EngineOp::Boolean(0, BooleanOp::Xor)]));
    assert_eq!(w.command_offset("-12".into()), Some(vec![EngineOp::RecordUndo(0), EngineOp::Offset(0, "-12".into())]));
    assert_eq!(w.command_expand_stroke(None), None);
    w.editor.selected = vec![(3, 0), (1, 4), (3, 2)];
    let ops = w.command_expand_stroke(Some("40".into())).unwrap();
    match &ops[1] {
        EngineOp::ExpandStroke(0, contours, width) => {
            let mut c = contours.clone();
            c.sort();
            assert_eq!(c, vec![1, 3]);
            assert_eq!(width, "40");
        }
        other => panic!("unexpected {other:?}"),
    }
    assert_eq!(
        w.command_fit_curve("0.6".into()),
        Some(vec![EngineOp::RecordUndo(0), EngineOp::FitCurve(0, vec![(3, 0), (1, 4), (3, 2)], "0.6".into())])
    );
    assert!(w.finish_fit_curve(true).is_empty());
    assert_eq!(w.editor.selected.len(), 3);
    assert_eq!(w.finish_fit_curve(false), vec![EngineOp::DiscardLastUndo(0)]);
    assert_eq!(w.finish_set_start_point(1, false), vec![EngineOp::DiscardLastUndo(0)]);
    assert_eq!(w.editor.selected.len(), 3);
    w.project = None;
    assert_eq!(w.command_offset("3".into()), Some(vec![]));
}

#[test]
fn start_point_needs_exactly_one_point() {
    let mut w = editing(0);
    assert_eq!(w.command_set_start_point(), None);
    w.editor.selected = vec![(2, 5)];
    assert_eq!(w.command_set_start_point(), Some(vec![EngineOp::RecordUndo(0), EngineOp::SetStartPoint(0, (2, 5))]));
    w.finish_set_start_point(2, true);
    assert_eq!(w.editor.selected, vec![(2, 0)]);
    w.editor.selected = vec![(2, 5), (2, 6)];
    assert_eq!(w.command_set_start_point(), None);
}

#[test]
fn axis_mapping_needs_a_designspace_axis() {
    let mut w = workspace(vec![master(&["a"])]);
    w.command_add_axis_mapping(vec![], 1, 2);
    assert_eq!(w.status_note, Some(StatusNote::AxisMapNeedsDesignspace));
    w.status_note = None;
    w.project.as_mut().unwrap().designspace = Some(Designspace { rules: vec![], instances: vec![], first_axis: None });
    w.command_add_axis_mapping(vec![], 1, 2);
    assert_eq!(w.status_note, None);
    w.project.as_mut().unwrap().designspace.as_mut().unwrap().first_axis = Some(AxisMap { map: None });
    let map = vec![AxisMapping { input_bits: 100f64.to_bits(), output_bits: 40f64.to_bits() }];
    w.command_add_axis_mapping(map, 100f64.to_bits(), 40f64.to_bits());
    let p = w.project.as_ref().unwrap();
    assert!(p.ds_dirty);
    let got = p.designspace.as_ref().unwrap().first_axis.as_ref().unwrap().map.as_ref().unwrap();
    assert_eq!(got.len(), 1);
    assert_eq!(f64::from_bits(got[0].output_bits), 40.0);
    assert_eq!(w.status_note, Some(StatusNote::AxisMapped(100f64.to_bits(), 40f64.to_bits())));
}

#[test]
fn annotations_are_added_to_the_current_glyph() {
    let mut w = editing(1);
    w.command_add_annotation(12f64.to_bits(), (-3f64).to_bits(), "note".into(), "check".into());
    let m = &w.project.as_ref().unwrap().masters[0];
    let notes: &Vec<Annotation> = &m.glyphs[1].annotations;
    assert_eq!(notes.len(), 1);
    assert_eq!(notes[0].kind, "note");
    assert_eq!(f64::from_bits(notes[0].x_bits), 12.0);
    assert_eq!(f64::from_bits(notes[0].y_bits), -3.0);
    assert_eq!(notes[0].text, "check");
    assert!(m.dirty);
    assert_eq!(m.modified_glyphs, vec!["b".to_string()]);
    let mut g = workspace(vec![master(&["a"])]);
    g.command_add_annotation(0, 0, "x".into(), "y".into());
    assert!(g.project.as_ref().unwrap().masters[0].glyphs[0].annotations.is_empty());
}

#[test]
fn colrv1_counts_glyphs_with_mapped_copies() {
    let mut w = workspace(vec![master(&["a", "b", "a.color.red"]), master(&["a", "b"])]);
    assert!(w.command_convert_to_colrv1().is_empty());
    assert_eq!(w.status_note, Some(StatusNote::NoColorLayers));
    {
        let m = &mut w.project.as_mut().unwrap().masters[0];
        m.color_layers = vec![ColorLayer { layer: "color.red".into(), color: 0 }];
        m.layers = vec![Layer { name: "color.red".into(), glyphs: vec!["a".into(), "a.color.red".into(), "zzz".into()] }];
    }
    assert_eq!(
        w.command_convert_to_colrv1(),
        vec![EngineOp::ConvertToColrV1(vec![(0, vec![ColrEntry {
            glyph: "a".into(),
            paints: vec![("a.color.red".into(), 0)],
        }])])]
    );
    assert_eq!(w.status_note, Some(StatusNote::ColrV1Written(1)));
    let p = w.project.as_ref().unwrap();
    assert!(p.masters[0].dirty);
    assert!(!p.masters[1].dirty);
}

#[test]
fn opened_graph_rows_wait() {
    let g = GraphState::open("/f/x.nodes.json".into(), vec![3, 1, 3], None, vec!["x".into(), "y".into()]);
    assert_eq!(g.rows.len(), 2);
    assert_eq!(g.rows[&1], RowState::Waiting);
    assert_eq!(g.rows[&3], RowState::Waiting);
    assert!(g.order.is_empty());
    assert_eq!(g.problems.len(), 2);
    assert!(!g.running);
    let g = GraphState::open("p".into(), vec![], Some(vec![2, 1]), vec![]);
    assert_eq!(g.order, vec![2, 1]);
}

use runebender_shell::local_models::{ModelConfig, ScoreRequest};

#[test]
fn chosen_model_gets_a_summary_line() {
    let mut w = workspace(vec![]);
    w.models.score = Some(("a".into(), 1, 2));
    let c = ModelConfig { kind: Some("outline-v2".into()), layers: Some("4".into()), dims: Some("256".into()) };
    assert_eq!(w.load_model("/models/bolden".into(), Ok(c)), vec![EngineOp::RescanModels]);
    assert_eq!(w.models.summary.as_deref(), Some("bolden: outline-v2, 4 layers × 256"));
    assert_eq!(w.models.dir.as_deref(), Some("/models/bolden"));
    assert_eq!(w.models.score, None);
    assert_eq!(w.status_note, Some(StatusNote::ModelChosen));
    let c = ModelConfig { kind: None, layers: Some("4".into()), dims: None };
    w.load_model("/".into(), Ok(c));
    assert_eq!(w.models.summary.as_deref(), Some("model: outline"));
    assert!(w.load_model("/x".into(), Err("config.json: bad".into())).is_empty());
    assert_eq!(w.status_note, Some(StatusNote::ModelError("config.json: bad".into())));
    assert_eq!(w.models.dir.as_deref(), Some("/"));
}

#[test]
fn scoring_targets_the_other_end_master() {
    let mut w = workspace(vec![master(&["a", "b"])]);
    assert!(w.score_request(Some("font-ml".into())).is_none());
    assert_eq!(w.status_note, Some(StatusNote::OpenGlyphFirst));
    w.mode = Mode::Editor(1);
    w.status_note = None;
    assert!(w.score_request(Some("font-ml".into())).is_none());
    assert_eq!(w.status_note, None);
    w.models.dir = Some("/m".into());
    assert!(w.score_request(None).is_none());
    assert_eq!(w.status_note, Some(StatusNote::FontMlNotFound));
    assert!(w.score_request(Some("font-ml".into())).is_none());
    assert_eq!(w.status_note, Some(StatusNote::OneMaster));
    let mut bold = master(&["a", "b"]);
    bold.source_path = "/fonts/Sans-Bold.ufo".into();
    let mut light = master(&["a", "b"]);
    light.source_path = "/fonts/Sans-Light.ufo".into();
    w.project.as_mut().unwrap().masters.push(light);
    w.project.as_mut().unwrap().masters.push(bold);
    let r: ScoreRequest = w.score_request(Some("font-ml".into())).unwrap();
    assert_eq!(r.bold, "/fonts/Sans-Bold.ufo");
    assert_eq!(r.regular, "/fonts/Sans-Regular.ufo");
    assert_eq!(r.glyph, "b");
    assert_eq!(r.model, "/m");
    assert_eq!(r.binary, "font-ml");
    assert_eq!(f64::from_bits(r.strength_bits), 1.0);
    assert_eq!(w.status_note, Some(StatusNote::Scoring("b".into())));
    w.project.as_mut().unwrap().active = 2;
    assert_eq!(w.score_request(Some("font-ml".into())).unwrap().bold, "/fonts/Sans-Regular.ufo");
}

#[test]
fn score_results_are_kept_and_shown() {
    let mut w = workspace(vec![]);
    w.finish_score("a".into(), Ok(Some((3, 4))));
    assert_eq!(w.models.score, Some(("a".into(), 3, 4)));
    assert_eq!(w.status_note, Some(StatusNote::ModelScore("a".into(), 3, 4)));
    w.finish_score("a".into(), Ok(None));
    assert_eq!(w.status_note, Some(StatusNote::NotPointCompatible));
    w.finish_score("a".into(), Err("eval failed".into()));
    assert_eq!(w.status_note, Some(StatusNote::ModelFailed("eval failed".into())));
    assert_eq!(w.models.score, Some(("a".into(), 3, 4)));
    let mut g = workspace(vec![master(&["a"])]);
    assert_eq!(g.command_bolden_with_model(), None);
    assert_eq!(g.status_note, Some(StatusNote::OpenGlyphFirst));
    g.mode = Mode::Editor(0);
    assert_eq!(g.command_bolden_with_model(), Some(0));
}

use runebender_shell::model::AxisMap as SwitchAxis;

fn with_axis(w: &mut Workspace) {
    w.project.as_mut().unwrap().designspace =
        Some(Designspace { rules: vec![], instances: vec![], first_axis: Some(SwitchAxis { map: None }) });
}

#[test]
fn shape_switch_copies_and_adds_a_rule() {
    let mut w = workspace(vec![master(&["a", "b"]), master(&["b"])]);
    w.mode = Mode::Editor(0);
    assert!(w.command_add_shape_switch(7, true).is_empty());
    assert_eq!(w.status_note, Some(StatusNote::ShapeSwitchNeedsDesignspace));
    with_axis(&mut w);
    w.status_note = None;
    assert!(w.command_add_shape_switch(7, false).is_empty());
    assert_eq!(w.status_note, Some(StatusNote::SwitchOffAxis(7)));
    let ops = w.command_add_shape_switch(7, true);
    assert_eq!(ops, vec![EngineOp::ProcessRulesLast, EngineOp::SwitchFrom("a".into(), 7), EngineOp::ComputeCompat]);
    let p = w.project.as_ref().unwrap();
    assert_eq!(names(&p.masters[0]), vec!["a", "b", "a.bold"]);
    assert_eq!(p.masters[0].glyphs[2].points, p.masters[0].glyphs[0].points);
    assert_eq!(p.masters[0].glyphs[2].codepoint, None);
    assert_eq!(names(&p.masters[1]), vec!["b"]);
    assert!(p.masters[0].dirty && !p.masters[1].dirty);
    let rules = &p.designspace.as_ref().unwrap().rules;
    assert_eq!(rules.len(), 1);
    assert_eq!(rules[0].name.as_deref(), Some("a bold"));
    assert_eq!(rules[0].substitutions, vec![("a".to_string(), "a.bold".to_string())]);
    assert!(p.ds_dirty);
    assert_eq!(w.status_note, Some(StatusNote::ShapeSwitchAdded("a".into(), "a.bold".into(), 7)));
}

#[test]
fn shape_switch_twice_adds_nothing_more() {
    let mut w = workspace(vec![master(&["a"])]);
    w.mode = Mode::Editor(0);
    with_axis(&mut w);
    w.command_add_shape_switch(1, true);
    assert_eq!(w.command_add_shape_switch(2, true), vec![EngineOp::ProcessRulesLast, EngineOp::ComputeCompat]);
    let p = w.project.as_ref().unwrap();
    assert_eq!(names(&p.masters[0]), vec!["a", "a.bold"]);
    assert_eq!(p.designspace.as_ref().unwrap().rules.len(), 1);
    w.command_remove_shape_switch();
    assert!(w.project.as_ref().unwrap().designspace.as_ref().unwrap().rules.is_empty());
}

#[test]
fn shape_switch_without_an_axis_does_nothing() {
    let mut w = workspace(vec![master(&["a"])]);
    w.mode = Mode::Editor(0);
    w.project.as_mut().unwrap().designspace = Some(Designspace { rules: vec![], instances: vec![], first_axis: None });
    assert!(w.command_add_shape_switch(1, false).is_empty());
    assert_eq!(w.status_note, None);
    assert_eq!(names(&w.project.as_ref().unwrap().masters[0]), vec!["a"]);
}

use runebender_shell::nodes::{summary_line, RunOutput};

#[test]
fn node_lines_say_what_a_node_gave() {
    let outs = vec![
        ("layer".to_string(), RunOutput::Layer("com.runebender.proposal.bolden".into())),
        ("rows".to_string(), RunOutput::Rows(3)),
        ("file".to_string(), RunOutput::Path("/x/run.nodes.json".into())),
        ("none".to_string(), RunOutput::Glyphs(0)),
        ("some".to_string(), RunOutput::Glyphs(12)),
        ("other".to_string(), RunOutput::Other),
    ];
    assert_eq!(
        summary_line(&outs, Some("model 1.2 vs unchanged 3.4".into()), "0.5s".into()),
        "bolden · 3 rows · run · 12 glyphs · model 1.2 vs unchanged 3.4"
    );
    assert_eq!(summary_line(&vec![], None, "0.5s".into()), "0.5s");
    assert_eq!(summary_line(&vec![("x".to_string(), RunOutput::Other)], Some("s".into()), "1s".into()), "s");
    let twice = vec![("l".to_string(), RunOutput::Layer("com.runebender.proposal.com.runebender.proposal.x".into()))];
    assert_eq!(summary_line(&twice, None, "t".into()), "x");
}

#[test]
fn reverse_request_names_the_selection() {
    let mut w = editing(0);
    assert!(workspace(vec![]).command_reverse().is_none());
    w.editor.selected = vec![(1, 1)];
    assert_eq!(w.command_reverse(), Some(vec![EngineOp::RecordUndo(0), EngineOp::ReverseContours(0, vec![(1, 1)])]));
}

use runebender_shell::tasks::TaskRun;

#[test]
fn task_preflight_checks_model_tool_and_busy() {
    let mut w = workspace(vec![master(&["a"])]);
    assert_eq!(w.task_preflight(), None);
    assert_eq!(w.status_note, Some(StatusNote::ChooseModelFirst));
    w.models.dir = Some("/m".into());
    assert_eq!(w.task_preflight(), None);
    assert_eq!(w.status_note, Some(StatusNote::FontMlMissing));
    w.models.binary = Some("/bin/font-ml".into());
    w.models.busy = Some("x".into());
    assert_eq!(w.task_preflight(), None);
    assert_eq!(w.status_note, Some(StatusNote::ModelRunning));
    w.models.busy = None;
    assert_eq!(w.task_preflight(), Some(false));
    w.project.as_mut().unwrap().masters[0].dirty = true;
    assert_eq!(w.task_preflight(), Some(true));
}

#[test]
fn task_request_describes_the_run() {
    let mut w = workspace(vec![master(&["a", "b"])]);
    w.models.dir = Some("/m".into());
    w.models.binary = Some("/bin/font-ml".into());
    assert!(w.task_request("bolden".into(), None, false).is_none());
    assert_eq!(w.status_note, Some(StatusNote::SaveBeforeRunning));
    assert!(w.task_request("bolden".into(), Some(5), true).is_none());
    let r: TaskRun = w.task_request("bolden".into(), Some(1), true).unwrap();
    assert_eq!(r.glyph.as_deref(), Some("b"));
    assert_eq!(r.reference, None);
    assert_eq!(r.source, "/fonts/Sans-Regular.ufo");
    assert_eq!(r.model, "/m");
    assert_eq!(w.models.busy.as_deref(), Some("Running bolden on b…"));
    assert!(w.models.job);
    assert_eq!(w.status_note, Some(StatusNote::RunningTask("bolden".into(), Some("b".into()))));
    let mut other = master(&["a", "b"]);
    other.source_path = "/fonts/Sans-Bold.ufo".into();
    w.project.as_mut().unwrap().masters.push(other);
    let r = w.task_request("slant".into(), None, true).unwrap();
    assert_eq!(r.reference.as_deref(), Some("/fonts/Sans-Bold.ufo"));
    assert_eq!(w.models.busy.as_deref(), Some("Running slant on every glyph…"));
    w.task_progress("slant", 3, 40, "c");
    assert_eq!(w.models.busy.as_deref(), Some("slant: 3/40 (c)"));
    w.finish_task_run(Some("crashed".into()));
    assert_eq!(w.models.busy, None);
    assert!(!w.models.job);
    assert_eq!(w.status_note, Some(StatusNote::ModelFailed("crashed".into())));
    w.finish_task_run(None);
    assert_eq!(w.status_note, Some(StatusNote::ModelFailed("crashed".into())));
}

use runebender_shell::chat::ChatStep;
use runebender_shell::model::ChatBusy;

#[test]
fn chat_model_scan_prefers_4b() {
    let mut w = workspace(vec![]);
    w.scan_chat_models(vec![("qwen-1b".into(), "/m/1b".into()), ("qwen-4b".into(), "/m/4b".into())]);
    assert_eq!(w.chat.model.as_deref(), Some("/m/4b"));
    assert!(w.chat.scanned);
    assert_eq!(w.chat.installed.len(), 2);
    w.scan_chat_models(vec![("other".into(), "/m/o".into())]);
    assert_eq!(w.chat.model.as_deref(), Some("/m/4b"));
    let mut v = workspace(vec![]);
    v.scan_chat_models(vec![("a".into(), "/m/a".into()), ("b".into(), "/m/b".into())]);
    assert_eq!(v.chat.model.as_deref(), Some("/m/a"));
    let mut e = workspace(vec![]);
    e.scan_chat_models(vec![]);
    assert_eq!(e.chat.model, None);
}

#[test]
fn chat_send_checks_then_starts_a_turn() {
    let mut w = workspace(vec![master(&["a"])]);
    assert!(matches!(w.chat_send("   ", Some("core".into()), false), ChatStep::Refused));
    assert_eq!(w.status_note, None);
    assert!(matches!(w.chat_send("hi", Some("core".into()), false), ChatStep::Refused));
    assert_eq!(w.status_note, Some(StatusNote::NoChatModel));
    w.chat.model = Some("/m/4b".into());
    w.chat_send("hi", Some("core".into()), false);
    assert_eq!(w.status_note, Some(StatusNote::FontMlNotFound));
    w.models.binary = Some("font-ml".into());
    w.chat_send("hi", None, false);
    assert_eq!(w.status_note, Some(StatusNote::CoreMissing));
    w.project.as_mut().unwrap().masters[0].dirty = true;
    assert!(matches!(w.chat_send("hi", Some("core".into()), false), ChatStep::SaveFirst));
    match w.chat_send("  make it bolder ", Some("core".into()), true) {
        ChatStep::Started(run) => {
            assert_eq!(run.font, "/fonts/Sans-Regular.ufo");
            assert_eq!(run.source, "/fonts/Sans-Regular.ufo");
            assert_eq!(run.core, "core");
            assert_eq!(run.model, "/m/4b");
        }
        other => panic!("unexpected {other:?}"),
    }
    assert_eq!(w.chat.entries, vec![ChatEntry::User("make it bolder".into()), ChatEntry::Assistant("".into())]);
    assert_eq!(w.chat.messages[0].json, "{\"content\":\"make it bolder\",\"role\":\"user\"}");
    assert_eq!(w.chat.messages[0].role.as_deref(), Some("user"));
    assert_eq!(w.chat.busy, Some(ChatBusy::Loading));
    assert!(w.chat.job);
    assert!(matches!(w.chat_send("again", Some("core".into()), true), ChatStep::Refused));
    assert_eq!(w.status_note, Some(StatusNote::StillAnswering));
    let texts = w.end_chat_turn(Some("tool died".into()));
    assert!(texts.is_empty());
    assert_eq!(w.chat.busy, None);
    assert!(!w.chat.job);
    assert_eq!(
        w.chat.entries,
        vec![ChatEntry::User("make it bolder".into()), ChatEntry::Error("tool died".into())]
    );
    let mut none = Workspace { project: None, ..workspace(vec![]) };
    none.chat.model = Some("m".into());
    none.models.binary = Some("b".into());
    assert!(matches!(none.chat_send("x", Some("c".into()), false), ChatStep::Refused));
    assert_eq!(none.status_note, Some(StatusNote::OpenFontFirst));
}

use runebender_shell::nodes::NodesStep;

#[test]
fn nodes_run_checks_then_resets_rows() {
    let mut w = workspace(vec![master(&["a"])]);
    assert!(matches!(w.nodes_request(false, None), NodesStep::Refused));
    assert_eq!(w.status_note, None);
    let mut g = graph();
    g.running = false;
    g.rows.insert(9, RowState::Done(NodeStatus::Ran, Some("x".into())));
    g.problems = vec!["node 4: unknown type".into()];
    w.models.graph = Some(g);
    assert!(matches!(w.nodes_request(false, None), NodesStep::Refused));
    assert_eq!(w.status_note, Some(StatusNote::Text("node 4: unknown type".into())));
    w.models.graph.as_mut().unwrap().problems.clear();
    w.models.busy = Some("busy".into());
    assert!(matches!(w.nodes_request(false, None), NodesStep::Refused));
    assert_eq!(w.status_note, Some(StatusNote::ModelRunning));
    w.models.busy = None;
    w.project.as_mut().unwrap().masters[0].dirty = true;
    assert!(matches!(w.nodes_request(false, None), NodesStep::SaveFirst));
    w.models.binary = Some("/bin/font-ml".into());
    w.project.as_mut().unwrap().masters[0].style_name = Some("Bold".into());
    w.selected = Some(0);
    match w.nodes_request(true, Some("/models".into())) {
        NodesStep::Started(run) => {
            assert_eq!(run.path, "/x/bolden.nodes.json");
            assert_eq!(run.font, "/fonts/Sans-Regular.ufo");
            assert_eq!(run.tools, vec![("font-ml".to_string(), "/bin/font-ml".to_string())]);
            assert_eq!(run.master.as_deref(), Some("Bold"));
            assert_eq!(run.glyphs, vec!["a".to_string()]);
            assert_eq!(run.models_dir.as_deref(), Some("/models"));
        }
        other => panic!("unexpected {other:?}"),
    }
    let g = w.models.graph.as_ref().unwrap();
    assert!(g.running);
    assert_eq!(g.rows.len(), 2);
    assert!(g.rows.values().all(|r| *r == RowState::Waiting));
    assert_eq!(w.models.busy.as_deref(), Some("Running bolden…"));
    assert!(matches!(w.nodes_request(true, None), NodesStep::Refused));
    assert_eq!(w.status_note, Some(StatusNote::NodesRunning));
}

use runebender_shell::smart::smart_axis_fields;

#[test]
fn smart_axis_makes_a_part_with_a_top_pole() {
    assert_eq!(smart_axis_fields(" Width , 0,100 "), (Some("Width".into()), Some("0".into()), Some("100".into())));
    assert_eq!(smart_axis_fields("Height"), (Some("Height".into()), None, None));
    let mut w = editing(1);
    assert!(w.command_make_smart_axis(String::new(), 0, 0).is_empty());
    let ops = w.command_make_smart_axis("Width".into(), 0f64.to_bits(), 100f64.to_bits());
    assert_eq!(ops, vec![EngineOp::MakeSmartAxis("b".into(), "Width".into(), 0f64.to_bits(), 100f64.to_bits())]);
    let m = &w.project.as_ref().unwrap().masters[0];
    assert_eq!(m.layers.len(), 1);
    assert_eq!(m.layers[0].name, "part.top");
    assert_eq!(m.layers[0].glyphs, vec!["b".to_string()]);
    assert!(m.dirty);
    assert_eq!(m.modified_glyphs, vec!["b".to_string()]);
    assert_eq!(w.visible_glyph_layers, vec!["part.top".to_string()]);
    assert_eq!(w.status_note, Some(StatusNote::SmartPart("b".into(), "Width".into(), 0f64.to_bits(), 100f64.to_bits())));
    w.command_make_smart_axis("Width".into(), 0, 0);
    assert_eq!(w.project.as_ref().unwrap().masters[0].layers[0].glyphs.len(), 1);
    assert_eq!(w.visible_glyph_layers.len(), 1);
}

use runebender_shell::grid::{positional_families, unicode_label};

#[test]
fn code_point_labels_are_padded_hex() {
    assert_eq!(unicode_label('A'), "U+0041");
    assert_eq!(unicode_label('\u{628}'), "U+0628");
    assert_eq!(unicode_label('\u{1F600}'), "U+1F600");
    assert_eq!(unicode_label('\u{0}'), "U+0000");
    assert_eq!(unicode_label('\u{FFFF}'), "U+FFFF");
}

#[test]
fn joining_matrix_groups_forms_by_base() {
    let m = master(&["beh", "beh.init", "alef.fina", "beh.fina", "a", "teh.medi", "beh.init", "x.initial"]);
    let rows = positional_families(&m.glyphs);
    let bases: Vec<&str> = rows.iter().map(|r| r.base.as_str()).collect();
    assert_eq!(bases, vec!["alef", "beh", "teh"]);
    assert_eq!((rows[0].isol, rows[0].init, rows[0].medi, rows[0].fina), (None, None, None, Some(2)));
    assert_eq!((rows[1].isol, rows[1].init, rows[1].medi, rows[1].fina), (Some(0), Some(6), None, Some(3)));
    assert_eq!((rows[2].isol, rows[2].init, rows[2].medi, rows[2].fina), (None, None, Some(5), None));
    assert!(positional_families(&master(&["a", "b"]).glyphs).is_empty());
    let w = workspace(vec![master(&["B.init", "a.init", "A.fina"])]);
    let bases: Vec<String> = w.form_matrix().into_iter().map(|r| r.base).collect();
    assert_eq!(bases, vec!["A".to_string(), "B".to_string(), "a".to_string()]);
    assert!(Workspace { project: None, ..workspace(vec![]) }.form_matrix().is_empty());
}

use runebender_shell::smart::smart_value_fields;

#[test]
fn smart_values_name_an_axis_or_take_the_first() {
    assert_eq!(smart_value_fields(" 30 "), (None, "30".to_string()));
    assert_eq!(smart_value_fields("Height = 30"), (Some("Height".to_string()), "30".to_string()));
    assert_eq!(smart_value_fields("a=b=c"), (Some("a".to_string()), "b=c".to_string()));
    let mut w = editing(0);
    assert!(w.command_set_smart_value(None, Some(1), Some(vec!["Width".into()])).is_empty());
    assert_eq!(w.status_note, None);
    w.editor.selected_component = Some(1);
    assert!(w.command_set_smart_value(None, None, Some(vec!["Width".into()])).is_empty());
    assert_eq!(w.status_note, Some(StatusNote::SmartValueHelp));
    assert!(w.command_set_smart_value(Some("Depth".into()), Some(3), Some(vec!["Width".into()])).is_empty());
    assert_eq!(w.status_note, Some(StatusNote::NotSmart));
    assert!(w.command_set_smart_value(None, Some(3), None).is_empty());
    assert_eq!(w.status_note, Some(StatusNote::NotSmart));
    let axes = vec!["Width".to_string(), "Height".to_string()];
    let ops = w.command_set_smart_value(Some("HEIGHT".into()), Some(30f64.to_bits()), Some(axes.clone()));
    assert_eq!(ops, vec![EngineOp::SetSmartValue("a".into(), 1, "Height".into(), 30f64.to_bits())]);
    assert_eq!(w.status_note, Some(StatusNote::SmartValueSet("Height".into(), 30f64.to_bits())));
    let m = &w.project.as_ref().unwrap().masters[0];
    assert!(m.dirty);
    assert_eq!(m.modified_glyphs, vec!["a".to_string()]);
    let ops = w.command_set_smart_value(None, Some(5), Some(axes));
    assert_eq!(ops, vec![EngineOp::SetSmartValue("a".into(), 1, "Width".into(), 5)]);
}



#[test]
fn instances_are_renamed_or_added_at_the_location() {
    let mut w = workspace(vec![master(&["a"])]);
    assert!(w.command_instance_upsert("  ", None).is_empty());
    assert!(w.command_instance_upsert("Bold", None).is_empty());
    assert_eq!(w.status_note, Some(StatusNote::InstancesNeedDesignspace));
    w.project.as_mut().unwrap().designspace = Some(Designspace {
        rules: vec![],
        instances: vec![Instance { stylename: Some("Regular".into()), name: Some("Old Regular".into()) }],
        first_axis: None,
    });
    let ops = w.command_instance_upsert(" Light ", Some(0));
    assert_eq!(ops, vec![EngineOp::RefreshInstances]);
    {
        let ds = w.project.as_ref().unwrap().designspace.as_ref().unwrap();
        assert_eq!(ds.instances[0].stylename.as_deref(), Some("Light"));
        assert_eq!(ds.instances[0].name.as_deref(), Some("Old Regular"));
    }
    assert_eq!(w.status_note, Some(StatusNote::InstanceRenamed("Light".into())));
    assert!(w.project.as_ref().unwrap().ds_dirty);
    w.project.as_mut().unwrap().masters[0].family_name = Some("Noto Sans".into());
    let ops = w.command_instance_upsert("Black", Some(9));
    assert_eq!(ops, vec![EngineOp::PlaceInstance(1), EngineOp::LinkInstanceStyle(1), EngineOp::RefreshInstances]);
    let ds = w.project.as_ref().unwrap().designspace.as_ref().unwrap();
    assert_eq!(ds.instances.len(), 2);
    assert_eq!(ds.instances[1].stylename.as_deref(), Some("Black"));
    assert_eq!(ds.instances[1].name.as_deref(), Some("Noto Sans Black"));
    assert_eq!(w.status_note, Some(StatusNote::InstanceAdded("Black".into())));
}

#[test]
fn laws_on_concrete_values() {
    // Generating twice adds nothing the second time.
    let mut w = workspace(vec![master(&["a"]), master(&[])]);
    let targets = vec![("b".to_string(), 0x62), ("c".to_string(), 0x63)];
    w.command_generate_missing(targets.clone());
    let once: Vec<Vec<String>> = w.project.as_ref().unwrap().masters.iter().map(names).collect();
    w.command_generate_missing(targets);
    let twice: Vec<Vec<String>> = w.project.as_ref().unwrap().masters.iter().map(names).collect();
    assert_eq!(once, twice);
    // A second clean-up of a finished turn changes nothing.
    w.chat.entries = vec![ChatEntry::Assistant("".into()), ChatEntry::User("u".into())];
    w.chat_finished();
    w.chat_finished();
    assert_eq!(w.chat.entries, vec![ChatEntry::User("u".into())]);
    // A save that wrote every dirty master leaves none to save.
    let plan = w.masters_to_save();
    assert_eq!(plan, vec![0, 1]);
    w.finish_save(plan.into_iter().map(|k| (k, Ok(()))).collect(), None);
    assert!(w.masters_to_save().is_empty());
    // After Save As every master is saved, in order.
    w.move_masters(vec!["/d/A.ufo".into(), "/d/B.ufo".into()]);
    assert_eq!(w.masters_to_save(), vec![0, 1]);
}

use runebender_shell::tasks::{is_error_line, run_end};

#[test]
fn model_run_endings() {
    assert!(!is_error_line("progress 3/10 a"));
    assert!(!is_error_line("   "));
    assert!(is_error_line("error: no model"));
    assert_eq!(run_end(true, true, Some("x".into()), "y".into()), Ok(()));
    assert_eq!(run_end(false, false, Some("x".into()), "y".into()), Err("cancelled".to_string()));
    assert_eq!(run_end(false, true, Some("x".into()), "y".into()), Err("x".to_string()));
    assert_eq!(run_end(false, true, None, "y".into()), Err("y".to_string()));
}

#[test]
fn the_same_instance_twice_adds_one() {
    let mut w = workspace(vec![master(&["a"])]);
    w.project.as_mut().unwrap().designspace = Some(Designspace { rules: vec![], instances: vec![], first_axis: None });
    w.command_instance_upsert("Bold", None);
    w.command_instance_upsert("Bold", Some(0));
    assert_eq!(w.project.as_ref().unwrap().designspace.as_ref().unwrap().instances.len(), 1);
}

use runebender_shell::color::ColrEntry;

#[test]
fn colrv1_paints_follow_the_mapping() {
    let mut w = workspace(vec![master(&["a", "b"])]);
    {
        let m = &mut w.project.as_mut().unwrap().masters[0];
        m.color_layers = vec![
            ColorLayer { layer: "color.1".into(), color: 2 },
            ColorLayer { layer: "color.0".into(), color: 0 },
        ];
        m.layers = vec![
            Layer { name: "color.0".into(), glyphs: vec!["a".into(), "b".into()] },
            Layer { name: "color.1".into(), glyphs: vec!["a".into()] },
        ];
    }
    assert_eq!(
        w.command_convert_to_colrv1(),
        vec![EngineOp::ConvertToColrV1(vec![(0, vec![
            ColrEntry { glyph: "a".into(), paints: vec![("a.color.1".into(), 2), ("a.color.0".into(), 0)] },
            ColrEntry { glyph: "b".into(), paints: vec![("b.color.0".into(), 0)] },
        ])])]
    );
    assert_eq!(w.status_note, Some(StatusNote::ColrV1Written(2)));
}
