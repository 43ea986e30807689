use runebender_shell::model::{
    Annotation, AxisMap, AxisMapping, ChatState, ColorLayer, Designspace, EditorState, EngineOp,
    GlyphEntry, Group, Instance, Layer, Master, Mode, ModelsState, Project, Rule, Sort, StatusNote,
    TextBuffer, Tool, Workspace,
};

fn glyph(name: &str, codepoint: Option<char>) -> GlyphEntry {
    GlyphEntry {
        name: name.to_string(),
        codepoint,
        points: vec![(0, 0), (0, 1), (1, 0)],
        has_image: false,
        masks: vec![],
        annotations: vec![],
    }
}

fn master(names: &[&str]) -> Master {
    Master {
        glyphs: names.iter().map(|n| glyph(n, n.chars().next())).collect(),
        layers: vec![],
        background: None,
        groups: vec![],
        palette: vec![],
        color_layers: vec![],
        dirty: false,
        modified_glyphs: vec![],
        features: String::new(),
        source_path: "/fonts/Sans-Regular.ufo".to_string(),
        family_name: None,
        style_name: None,
    }
}

fn editor() -> EditorState {
    EditorState {
        initialized: false,
        selected: vec![],
        locked_points: vec![],
        dragging: false,
        tool: Tool::Select,
        previous_tool: Tool::Select,
        pen: None,
        hyper_contour: None,
        shape_ellipse: false,
        selected_anchors: vec![],
        selected_component: None,
    }
}

fn workspace(masters: Vec<Master>) -> Workspace {
    Workspace {
        project: Some(Project { masters, active: 0, designspace: None, ds_dirty: false, export_source: None }),
        mode: Mode::Grid,
        selected: None,
        last_editor: None,
        sessions: vec![],
        active_session: 0,
        editor: editor(),
        edit_buffer: TextBuffer { sorts: vec![], active: None },
        status_note: None,
        features_edited: false,
        features_status: None,
        nudging: false,
        sidebar_counts: true,
        clipboard: 0,
        visible_glyph_layers: vec![],
        color_selected: 0,
        show_color_preview: false,
        sample_strings: vec!["abc".to_string(), "xyz".to_string()],
        sample_index: 0,
        roughen_seed: 0,
        chat: ChatState {
            entries: vec![],
            messages: vec![],
            busy: None,
            job: false,
            last_speed: None,
            raw: vec![],
            model: None,
            installed: vec![],
            scanned: false,
        },
        last_save_label: None,
        models: ModelsState {
            installed: vec![],
            binary: None,
            busy: None,
            job: false,
            graph: None,
            dir: None,
            summary: None,
            score: None,
            strength_bits: 1f64.to_bits(),
        },
    }
}

fn names(m: &Master) -> Vec<String> {
    m.glyphs.iter().map(|g| g.name.clone()).collect()
}

use runebender_shell::chat::{visible_text, ChatEvent};
use runebender_shell::model::{ChatBusy, ChatEntry, ChatMessage, GraphState, InstalledModel, NodeStatus, RowState};
use runebender_shell::nodes::{file_label, NodeEvent};
use runebender_shell::tasks::{parse_progress, InstallReport, TaskInput, TaskRow};
use runebender_shell::decimal::{decimal, padded_decimal, parse_usize};
use runebender_shell::glyphs::{free_name, next_glyph_name};
use runebender_shell::text::trimmed;
use std::collections::BTreeMap;

fn chars(s: &str) -> Vec<char> {
    s.chars().collect()
}

#[test]
fn visible_text_cuts_tool_blocks() {
    assert_eq!(visible_text("Hello <tool_call>{\"x\":1}</tool_call> world"), "Hello  world");
    assert_eq!(visible_text("  a<tool_call>b</tool_call>c<tool_call>d"), "ac");
    assert_eq!(visible_text("\n\t plain"), "plain");
    assert_eq!(visible_text("</tool_call>x"), "</tool_call>x");
    assert_eq!(visible_text(""), "");
}

#[test]
fn chat_events_fill_transcript() {
    let mut w = workspace(vec![]);
    w.chat.entries.push(ChatEntry::User("hi".into()));
    w.chat.entries.push(ChatEntry::Assistant("".into()));
    w.chat_event(ChatEvent::Loaded("metal".into()));
    assert_eq!(w.chat.busy, Some(ChatBusy::ThinkingOn("metal".into())));
    w.chat_event(ChatEvent::Token("Sure".into()));
    w.chat_event(ChatEvent::Token(" <tool_call>{}".into()));
    assert_eq!(w.chat.entries[1], ChatEntry::Assistant("Sure ".into()));
    assert_eq!(w.chat.raw, chars("Sure <tool_call>{}"));
    w.chat_event(ChatEvent::ToolCall("measure".into()));
    assert_eq!(w.chat.busy, Some(ChatBusy::Running("measure".into())));
    assert_eq!(w.chat.entries[2], ChatEntry::Tool { name: "measure".into(), ok: true, note: "\u{2026}".into() });
    w.chat_event(ChatEvent::ToolResult { ok: false, note: "no glyph".into() });
    assert_eq!(w.chat.entries[2], ChatEntry::Tool { name: "measure".into(), ok: false, note: "no glyph".into() });
    assert_eq!(w.chat.entries[3], ChatEntry::Assistant("".into()));
    assert!(w.chat.raw.is_empty());
    assert_eq!(w.chat.busy, Some(ChatBusy::Thinking));
    w.chat_event(ChatEvent::Done { speed: "12 tokens, 3.0 tok/s".into(), text: Some("Done.".into()) });
    assert_eq!(w.chat.entries[3], ChatEntry::Assistant("Done.".into()));
    assert_eq!(w.chat.last_speed.as_deref(), Some("12 tokens, 3.0 tok/s"));
    w.chat_event(ChatEvent::Messages(vec![ChatMessage { json: "{}".into(), role: None, content: None }]));
    assert_eq!(w.chat.messages.len(), 1);
    w.chat_clear();
    assert!(w.chat.entries.is_empty());
    assert!(w.chat.messages.is_empty());
    assert_eq!(w.chat.last_speed, None);
}

#[test]
fn chat_cancel_only_when_running() {
    let mut w = workspace(vec![]);
    assert!(w.chat_cancel().is_empty());
    assert_eq!(w.status_note, None);
    w.chat.job = true;
    w.chat.busy = Some(ChatBusy::Thinking);
    assert_eq!(w.chat_cancel(), vec![EngineOp::KillChatJob]);
    assert!(!w.chat.job);
    assert_eq!(w.chat.busy, None);
    assert_eq!(w.status_note, Some(StatusNote::Cancelled));
}

#[test]
fn task_rows_read_their_inputs() {
    let row = TaskRow {
        name: "bolden".into(),
        title: "Bolden".into(),
        help: String::new(),
        implemented: true,
        inputs: vec![
            TaskInput { name: "source".into(), kind: "source".into() },
            TaskInput { name: "glyph".into(), kind: "glyph".into() },
        ],
    };
    assert!(!row.takes_glyphs());
    assert!(row.takes_glyph());
    let many = TaskRow { inputs: vec![TaskInput { name: "g".into(), kind: "glyphs".into() }], ..row };
    assert!(many.takes_glyphs());
    assert!(many.takes_glyph());
}

#[test]
fn progress_lines() {
    assert_eq!(parse_progress("progress 3/10  a.alt "), Some((3, 10, "a.alt".to_string())));
    assert_eq!(parse_progress("progress +3/10 x"), Some((3, 10, "x".to_string())));
    assert_eq!(parse_progress("progress 3/10"), None);
    assert_eq!(parse_progress("progress 3-10 x"), None);
    assert_eq!(parse_progress("progress /10 x"), None);
    assert_eq!(parse_progress("Progress 3/10 x"), None);
    assert_eq!(parse_progress("progress 99999999999999999999999/1 x"), None);
}

#[test]
fn counts_parse_like_std() {
    for s in ["0", "42", "+7", "007", "", "+", "-1", "1 ", "18446744073709551615", "18446744073709551616"] {
        assert_eq!(parse_usize(&chars(s)), s.parse::<usize>().ok(), "{s}");
    }
    assert_eq!(decimal(0), chars("0"));
    assert_eq!(decimal(1205), chars("1205"));
    assert_eq!(padded_decimal(7, 3), chars("007"));
    assert_eq!(padded_decimal(1234, 3), chars("1234"));
}

#[test]
fn proposals_and_tasks() {
    let mut w = workspace(vec![master(&["a"])]);
    assert_eq!(w.install_proposal("bolden".into(), None), vec![EngineOp::InstallProposal("bolden".into(), None)]);
    w.selected = Some(0);
    let (ops, entry) = w.finish_install_proposal(Ok(InstallReport { task: "bolden".into(), installed: 3, skipped: 1 }));
    assert_eq!(ops, vec![EngineOp::RebuildEntry(0), EngineOp::RefreshProposals]);
    let entry = entry.unwrap();
    assert_eq!(entry.op, "install proposal");
    assert_eq!(entry.detail.as_deref(), Some("bolden: 3 installed, 1 skipped"));
    assert_eq!(w.status_note, Some(StatusNote::InstalledProposal("bolden".into(), 3, 1)));
    let (ops, entry) = w.finish_install_proposal(Err("no proposal".into()));
    assert_eq!(ops, vec![EngineOp::RefreshProposals]);
    assert!(entry.is_none());
    assert_eq!(w.discard_proposal("bolden".into()), vec![EngineOp::DiscardProposal("bolden".into())]);
    w.finish_discard_proposal(Ok(4));
    assert_eq!(w.status_note, Some(StatusNote::DiscardedProposal(4)));
    assert!(w.cancel_task().is_empty());
    w.models.job = true;
    assert_eq!(w.cancel_task(), vec![EngineOp::KillTaskJob]);
    assert_eq!(w.status_note, Some(StatusNote::Cancelled));
    w.rescan_models(vec![InstalledModel { name: "m".into(), path: "/m".into() }], Some("/bin/font-ml".into()));
    assert_eq!(w.models.installed.len(), 1);
    w.project = None;
    assert_eq!(w.install_proposal("bolden".into(), None), vec![EngineOp::RefreshProposals]);
}

#[test]
fn nodes_file_label_and_events() {
    assert_eq!(file_label("/fonts/nodes/bolden.nodes.json"), "bolden");
    assert_eq!(file_label("x.nodes.json.nodes.json"), "x");
    assert_eq!(file_label("/fonts/plain.json"), "plain.json");
    assert_eq!(file_label("/fonts/.."), "");
    let mut w = workspace(vec![]);
    w.node_event(NodeEvent::Start(1));
    assert!(w.models.graph.is_none());
    let mut rows = BTreeMap::new();
    rows.insert(1, RowState::Waiting);
    let state = GraphState { path: "/f/b.nodes.json".into(), order: vec![1], problems: vec![], rows, running: false };
    w.open_nodes_file("/f/b.nodes.json", Ok(state));
    assert_eq!(w.status_note, Some(StatusNote::OpenedNodes("b".into())));
    w.node_event(NodeEvent::Progress { id: 1, done: 2, total: 5, label: "a".into(), title: "Bolden".into() });
    assert_eq!(w.models.graph.as_ref().unwrap().rows[&1], RowState::Running(Some("2/5 a".into())));
    assert_eq!(w.models.busy.as_deref(), Some("Bolden: 2/5 a"));
    w.node_event(NodeEvent::End { id: 1, status: NodeStatus::Ran, took: "1.5s".into(), error: None });
    assert_eq!(w.models.graph.as_ref().unwrap().rows[&1], RowState::Done(NodeStatus::Ran, Some("1.5s".into())));
    w.node_event(NodeEvent::End { id: 2, status: NodeStatus::Skipped, took: "0.0s".into(), error: None });
    assert_eq!(w.models.graph.as_ref().unwrap().rows[&2], RowState::Done(NodeStatus::Skipped, None));
    w.node_event(NodeEvent::End { id: 2, status: NodeStatus::Failed, took: "0.0s".into(), error: Some("bad".into()) });
    assert_eq!(w.models.graph.as_ref().unwrap().rows[&2], RowState::Done(NodeStatus::Failed, Some("bad".into())));
    w.close_nodes_file();
    assert!(w.models.graph.is_none());
    let mut rows = BTreeMap::new();
    rows.insert(1, RowState::Waiting);
    let state = GraphState { path: "p".into(), order: vec![], problems: vec!["a".into(), "b".into()], rows, running: false };
    w.open_nodes_file("/f/b.nodes.json", Ok(state));
    assert_eq!(w.status_note, Some(StatusNote::NodeProblems("b".into(), 2)));
    w.open_nodes_file("/f/c.nodes.json", Err("cannot read".into()));
    assert_eq!(w.status_note, Some(StatusNote::Text("cannot read".into())));
}

#[test]
fn free_names_and_strings() {
    let taken = vec!["glyph".to_string(), "glyph.001".to_string()];
    assert_eq!(next_glyph_name(&taken), "glyph.002");
    assert_eq!(next_glyph_name(&vec![]), "glyph");
    let (count, name) = free_name(&vec!["a.001".to_string()], &chars("a"), 1);
    assert_eq!((count, name.as_str()), (2, "a.002"));
    let (count, name) = free_name(&vec![], &chars("x"), 0);
    assert_eq!((count, name.as_str()), (0, "x.000"));
    let (count, name) = free_name(&vec![], &chars("Ünï"), 0);
    assert_eq!((count, name.as_str()), (0, "Ünï.000"));
    assert_eq!(trimmed(&chars("\u{3000} a b\u{85}")), chars("a b"));
}

use runebender_shell::chat::user_message_json;
use runebender_shell::saving::save_time_format;
use runebender_shell::layers::backup_time_format as backup_format_again;

#[test]
fn user_message_is_the_json_of_role_and_content() {
    assert_eq!(user_message_json("hello"), r#"{"content":"hello","role":"user"}"#);
    assert_eq!(
        user_message_json("say \"hi\"\\\n\u{1}\té"),
        r#"{"content":"say \"hi\"\\\n\u0001\té","role":"user"}"#
    );
}

#[test]
fn file_labels_follow_the_last_named_component() {
    assert_eq!(file_label("/fonts/bolden.nodes.json"), "bolden");
    assert_eq!(file_label("/fonts/bolden.nodes.json/"), "bolden");
    assert_eq!(file_label("/fonts/bolden.nodes.json/."), "bolden");
    assert_eq!(file_label("/fonts/.."), "");
    assert_eq!(file_label("/"), "");
}

#[test]
fn stamp_formats() {
    assert_eq!(save_time_format(), "%-I:%M %p");
    assert_eq!(backup_format_again(), "%b %-d, %H.%M");
}

use runebender_shell::model::StatusNote as Note;

#[test]
fn status_notes_read_as_the_status_bar_says() {
    assert_eq!(Note::TidyPaths(3).text().as_deref(), Some("Tidy up Paths: 3 point(s) removed"));
    assert_eq!(Note::MetricsAdjusted(0).text().as_deref(), Some("Metrics keys: everything in sync"));
    assert_eq!(Note::MetricsAdjusted(12).text().as_deref(), Some("Metrics keys: 12 sidebearings adjusted"));
    assert_eq!(
        Note::InstalledProposal("bolden".into(), 4, 0).text().as_deref(),
        Some("Installed 4 glyphs from bolden. Undo takes them back one at a time.")
    );
    assert_eq!(
        Note::InstalledProposal("bolden".into(), 4, 2).text().as_deref(),
        Some("Installed 4 glyphs from bolden, 2 skipped. Undo takes them back one at a time.")
    );
    assert_eq!(Note::CopiedCharacters(1).text().as_deref(), Some("Copied 1 character"));
    assert_eq!(Note::CopiedCharacters(2).text().as_deref(), Some("Copied 2 characters"));
    assert_eq!(Note::GeneratedMissing(1).text().as_deref(), Some("Added 1 missing glyph"));
    assert_eq!(
        Note::Saved(vec!["a.ufo".into(), "b.ufo".into()]).text().as_deref(),
        Some("Saved a.ufo, b.ufo")
    );
    assert_eq!(
        Note::SaveFailed(vec!["disk full".into()]).text().as_deref(),
        Some("Save failed: disk full")
    );
    assert_eq!(
        Note::ModelRan("bolden".into(), "a".into(), 3, 10, -4).text().as_deref(),
        Some("bolden on a: 3/10 points moved, advance -4. Undo to reject.")
    );
    assert_eq!(
        Note::ModelRan("bolden".into(), "a".into(), 0, 10, 0).text().as_deref(),
        Some("bolden on a: 0/10 points moved, advance +0. Undo to reject.")
    );
    assert_eq!(
        Note::GeneratedFeatures(vec!["liga".into(), "kern".into()]).text().as_deref(),
        Some("Generated liga, kern · review and Apply")
    );
    assert_eq!(Note::ConvertedCurves(true, 0).text().as_deref(), Some("Nothing to convert to cubic"));
    assert_eq!(Note::ConvertedCurves(false, 2).text().as_deref(), Some("Converted to quadratic in 2 master(s)"));
    assert_eq!(Note::RunningTask("bolden".into(), None).text().as_deref(), Some("Running bolden on every glyph…"));
    assert_eq!(Note::ModelScore("a".into(), 0, 0).text(), None);
}

use runebender_shell::chat::{tool_result_note, ToolOutput};

fn output() -> ToolOutput {
    ToolOutput {
        error: None,
        family: "Sans".into(),
        style: "Bold".into(),
        glyph_total: 250,
        glyph: "a".into(),
        advance: "512".into(),
        contours: 2,
        proposal: None,
        proofed: 3,
        passages: 4,
    }
}

#[test]
fn tool_result_notes() {
    let r = output();
    assert_eq!(tool_result_note(&"font_info".into(), &r), "Sans Bold, 250 glyphs");
    assert_eq!(tool_result_note(&"read_glyph".into(), &r), "a: advance 512, 2 contours");
    assert_eq!(tool_result_note(&"propose".into(), &r), "ran, no proposal written");
    assert_eq!(tool_result_note(&"proof".into(), &r), "3 glyphs proofed");
    assert_eq!(tool_result_note(&"docs".into(), &r), "4 passages");
    assert_eq!(tool_result_note(&"other".into(), &r), "done");
    let mut p = output();
    p.proposal = Some(5);
    assert_eq!(tool_result_note(&"propose".into(), &p), "proposed 5 glyphs, install or discard below");
    p.error = Some("no such glyph".into());
    assert_eq!(tool_result_note(&"read_glyph".into(), &p), "no such glyph");
}

#[test]
fn one_tool_block_is_cut_out() {
    assert_eq!(visible_text("  Sure.<tool_call>{\"name\":\"proof\"}</tool_call> Done."), "Sure. Done.");
    assert_eq!(visible_text("<tool_call>x</tool_call>\n after"), "after");
}

#[test]
fn an_unclosed_tool_block_hides_the_rest() {
    assert_eq!(visible_text("  Let me look.<tool_call>{\"name\":"), "Let me look.");
}

#[test]
fn chat_turn_endings() {
    assert_eq!(chat_end(true, true, &vec!["x".into()]), None);
    assert_eq!(chat_end(false, false, &vec![]), Some("cancelled".to_string()));
    assert_eq!(chat_end(false, true, &vec!["a".into(), "b".into()]), Some("b".to_string()));
    assert_eq!(chat_end(false, true, &vec![]), Some("font-ml chat failed".to_string()));
}

use runebender_shell::chat::chat_end;
