use runebender_shell::model::{
    Annotation, AxisMap, AxisMapping, ChatState, ColorLayer, Designspace, EditorState, EngineOp,
    GlyphEntry, Group, Instance, Layer, Master, Mode, ModelsState, Project, Rule, Sort, StatusNote,
    TextBuffer, Tool, Workspace,
};

fn glyph(name: &str, codepoint: Option<char>) -> GlyphEntry {
    GlyphEntry {
        name: name.to_string(),
        codepoint,
        points: vec![(0, 0), (0, 1), (1, 0)],
        has_image: false,
        masks: vec![],
        annotations: vec![],
    }
}

fn master(names: &[&str]) -> Master {
    Master {
        glyphs: names.iter().map(|n| glyph(n, n.chars().next())).collect(),
        layers: vec![],
        background: None,
        groups: vec![],
        palette: vec![],
        color_layers: vec![],
        dirty: false,
        modified_glyphs: vec![],
        features: String::new(),
        source_path: "/fonts/Sans-Regular.ufo".to_string(),
        family_name: None,
        style_name: None,
    }
}

fn editor() -> EditorState {
    EditorState {
        initialized: false,
        selected: vec![],
        locked_points: vec![],
        dragging: false,
        tool: Tool::Select,
        previous_tool: Tool::Select,
        pen: None,
        hyper_contour: None,
        shape_ellipse: false,
        selected_anchors: vec![],
        selected_component: None,
    }
}

fn workspace(masters: Vec<Master>) -> Workspace {
    Workspace {
        project: Some(Project { masters, active: 0, designspace: None, ds_dirty: false, export_source: None }),
        mode: Mode::Grid,
        selected: None,
        last_editor: None,
        sessions: vec![],
        active_session: 0,
        editor: editor(),
        edit_buffer: TextBuffer { sorts: vec![], active: None },
        status_note: None,
        features_edited: false,
        features_status: None,
        nudging: false,
        sidebar_counts: true,
        clipboard: 0,
        visible_glyph_layers: vec![],
        color_selected: 0,
        show_color_preview: false,
        sample_strings: vec!["abc".to_string(), "xyz".to_string()],
        sample_index: 0,
        roughen_seed: 0,
        chat: ChatState {
            entries: vec![],
            messages: vec![],
            busy: None,
            job: false,
            last_speed: None,
            raw: vec![],
            model: None,
            installed: vec![],
            scanned: false,
        },
        last_save_label: None,
        models: ModelsState {
            installed: vec![],
            binary: None,
            busy: None,
            job: false,
            graph: None,
            dir: None,
            summary: None,
            score: None,
            strength_bits: 1f64.to_bits(),
        },
    }
}

fn names(m: &Master) -> Vec<String> {
    m.glyphs.iter().map(|g| g.name.clone()).collect()
}

#[test]
fn add_glyph_takes_plain_name_first() {
    let mut w = workspace(vec![master(&["a", "b"]), master(&["a"])]);
    let ops = w.command_add_glyph();
    assert_eq!(ops, vec![EngineOp::AddGlyph("glyph".into()), EngineOp::RecheckCompat("glyph".into())]);
    let p = w.project.as_ref().unwrap();
    assert_eq!(names(&p.masters[0]), vec!["a", "b", "glyph"]);
    assert_eq!(names(&p.masters[1]), vec!["a", "glyph"]);
    assert_eq!(w.selected, Some(2));
    assert!(!w.sidebar_counts);
    assert_eq!(w.status_note, Some(StatusNote::AddedGlyph("glyph".into())));
}

#[test]
fn add_glyph_counts_past_taken_names() {
    let mut w = workspace(vec![master(&["glyph", "glyph.001"]), master(&["glyph.002"])]);
    let ops = w.command_add_glyph();
    assert_eq!(ops[0], EngineOp::AddGlyph("glyph.003".into()));
    w.command_add_glyph();
    let p = w.project.as_ref().unwrap();
    assert_eq!(names(&p.masters[1]), vec!["glyph.002", "glyph.003", "glyph.004"]);
}

#[test]
fn add_then_remove_glyph_restores_lists() {
    let mut w = workspace(vec![master(&["a", "b"]), master(&["b"])]);
    w.command_add_glyph();
    let ops = w.command_remove_glyph();
    assert_eq!(ops, vec![EngineOp::RemoveGlyph("glyph".into())]);
    let p = w.project.as_ref().unwrap();
    assert_eq!(names(&p.masters[0]), vec!["a", "b"]);
    assert_eq!(names(&p.masters[1]), vec!["b"]);
    assert_eq!(w.selected, None);
    assert_eq!(w.status_note, Some(StatusNote::RemovedGlyph("glyph".into())));
}

#[test]
fn remove_glyph_without_selection_asks_for_one() {
    let mut w = workspace(vec![master(&["a"])]);
    let ops = w.command_remove_glyph();
    assert!(ops.is_empty());
    assert_eq!(w.status_note, Some(StatusNote::SelectGlyphToRemove));
    assert_eq!(names(&w.project.as_ref().unwrap().masters[0]), vec!["a"]);
}

#[test]
fn duplicate_glyph_uses_stem_and_copies_drawing() {
    let mut m0 = master(&["a.ss01", "a.001"]);
    m0.glyphs[0].masks = vec![2];
    let m1 = master(&["b"]);
    let mut w = workspace(vec![m0, m1]);
    w.selected = Some(0);
    let ops = w.command_duplicate_glyph();
    assert_eq!(ops, vec![
        EngineOp::DuplicateGlyph("a.ss01".into(), "a.002".into()),
        EngineOp::RecheckCompat("a.002".into()),
    ]);
    let p = w.project.as_ref().unwrap();
    let copy = &p.masters[0].glyphs[2];
    assert_eq!(copy.name, "a.002");
    assert_eq!(copy.codepoint, None);
    assert_eq!(copy.points, p.masters[0].glyphs[0].points);
    assert_eq!(copy.masks, vec![2]);
    assert!(p.masters[0].dirty);
    assert_eq!(p.masters[0].modified_glyphs, vec!["a.002".to_string()]);
    assert_eq!(names(&p.masters[1]), vec!["b"]);
    assert!(!p.masters[1].dirty);
    assert_eq!(w.selected, Some(2));
    assert_eq!(w.status_note, Some(StatusNote::DuplicatedGlyph("a.ss01".into(), "a.002".into())));
}

#[test]
fn remove_from_group_drops_emptied_group() {
    let mut m = master(&["a"]);
    m.groups = vec![
        Group { name: "public.kern1.o".into(), members: vec!["o".into()] },
        Group { name: "public.kern1.n".into(), members: vec!["n".into(), "m".into()] },
    ];
    let mut w = workspace(vec![m]);
    let ops = w.command_remove_from_group("public.kern1.o", "o");
    assert_eq!(ops, vec![EngineOp::RebuildTextModels]);
    w.command_remove_from_group("public.kern1.n", "n");
    let p = w.project.as_ref().unwrap();
    assert_eq!(p.masters[0].groups.len(), 1);
    assert_eq!(p.masters[0].groups[0].members, vec!["m".to_string()]);
    assert!(p.masters[0].dirty);
}

#[test]
fn add_selection_to_group_creates_and_counts() {
    let mut w = workspace(vec![master(&["a"]), master(&["a"])]);
    let sel = vec!["n".to_string(), "m".to_string(), "n".to_string()];
    let ops = w.command_add_selection_to_group(&sel, true, "n");
    assert_eq!(ops, vec![EngineOp::RebuildTextModels]);
    let p = w.project.as_ref().unwrap();
    assert_eq!(p.masters[0].groups[0].name, "public.kern1.n");
    assert_eq!(p.masters[0].groups[0].members, vec!["n".to_string(), "m".to_string()]);
    assert_eq!(w.status_note, Some(StatusNote::GroupMembersAdded("n".into(), 4)));
}

#[test]
fn add_selection_to_group_rejects_bad_names() {
    let mut w = workspace(vec![master(&["a"])]);
    let none: Vec<String> = vec![];
    w.command_add_selection_to_group(&none, false, "x");
    assert_eq!(w.status_note, Some(StatusNote::SelectGlyphsFirst));
    let mut w = workspace(vec![master(&["a"])]);
    let sel = vec!["bad\u{7}name".to_string(), "ok".to_string()];
    w.command_add_selection_to_group(&sel, false, "x");
    let p = w.project.as_ref().unwrap();
    assert_eq!(p.masters[0].groups[0].name, "public.kern2.x");
    assert_eq!(p.masters[0].groups[0].members, vec!["ok".to_string()]);
    let mut w = workspace(vec![master(&["a"])]);
    let ops = w.command_add_selection_to_group(&sel, false, "tab\tname");
    assert!(ops.is_empty());
    assert!(w.project.as_ref().unwrap().masters[0].groups.is_empty());
}

#[test]
fn copy_selection_text_skips_unencoded() {
    let mut m = master(&["a", "b"]);
    m.glyphs[1].codepoint = None;
    let mut w = workspace(vec![m]);
    let ops = w.command_copy_selection_text(&vec!["b".into(), "a".into(), "zz".into(), "a".into()]);
    assert_eq!(ops, vec![EngineOp::WriteClipboard("aa".into())]);
    assert_eq!(w.status_note, Some(StatusNote::CopiedCharacters(2)));
    let ops = w.command_copy_selection_text(&vec!["b".into()]);
    assert!(ops.is_empty());
    assert_eq!(w.status_note, Some(StatusNote::NothingEncodedToCopy));
}

#[test]
fn toggle_mask_twice_restores() {
    let mut w = workspace(vec![master(&["a"])]);
    w.selected = Some(0);
    w.command_toggle_mask(3);
    assert_eq!(w.project.as_ref().unwrap().masters[0].glyphs[0].masks, vec![3]);
    assert!(w.project.as_ref().unwrap().masters[0].dirty);
    w.command_toggle_mask(3);
    assert!(w.project.as_ref().unwrap().masters[0].glyphs[0].masks.is_empty());
}

#[test]
fn delete_annotation_in_range_only() {
    let mut m = master(&["a"]);
    m.glyphs[0].annotations = vec![
        Annotation { kind: "note".into(), x_bits: 0, y_bits: 0, text: "one".into() },
        Annotation { kind: "note".into(), x_bits: 0, y_bits: 0, text: "two".into() },
    ];
    let mut w = workspace(vec![m]);
    w.mode = Mode::Editor(0);
    w.command_delete_annotation(5);
    assert_eq!(w.project.as_ref().unwrap().masters[0].glyphs[0].annotations.len(), 2);
    assert!(!w.project.as_ref().unwrap().masters[0].dirty);
    w.command_delete_annotation(0);
    let g = &w.project.as_ref().unwrap().masters[0].glyphs[0];
    assert_eq!(g.annotations.len(), 1);
    assert_eq!(g.annotations[0].text, "two");
}

#[test]
fn remove_image_unlinks() {
    let mut m = master(&["a"]);
    m.glyphs[0].has_image = true;
    let mut w = workspace(vec![m]);
    w.command_remove_image();
    assert!(w.project.as_ref().unwrap().masters[0].glyphs[0].has_image);
    w.mode = Mode::Editor(0);
    w.command_remove_image();
    let p = w.project.as_ref().unwrap();
    assert!(!p.masters[0].glyphs[0].has_image);
    assert_eq!(p.masters[0].modified_glyphs, vec!["a".to_string()]);
}

#[test]
fn palette_add_and_remove_shift_rows() {
    let mut w = workspace(vec![master(&["a"]), master(&["a"])]);
    assert!(!w.command_add_palette_color(None));
    assert_eq!(w.status_note, Some(StatusNote::ColorFormat));
    assert!(w.command_add_palette_color(Some(0xff0000ff)));
    assert!(w.command_add_palette_color(Some(0x00ff00ff)));
    assert!(w.command_add_palette_color(Some(0x0000ffff)));
    for m in w.project.as_mut().unwrap().masters.iter_mut() {
        m.color_layers = vec![ColorLayer { layer: "color.0".into(), color: 2 }];
    }
    w.color_selected = 2;
    w.command_remove_palette_color(2);
    assert_eq!(w.status_note, Some(StatusNote::ColorInUse));
    assert_eq!(w.project.as_ref().unwrap().masters[0].palette.len(), 3);
    w.command_remove_palette_color(0);
    let p = w.project.as_ref().unwrap();
    assert_eq!(p.masters[1].palette, vec![0x00ff00ff, 0x0000ffff]);
    assert_eq!(p.masters[1].color_layers[0].color, 1);
    assert_eq!(w.color_selected, 1);
}

#[test]
fn remove_color_layer_row() {
    let mut m = master(&["a"]);
    m.color_layers = vec![
        ColorLayer { layer: "color.0".into(), color: 0 },
        ColorLayer { layer: "color.1".into(), color: 1 },
    ];
    let mut w = workspace(vec![m]);
    w.command_remove_color_layer(7);
    assert!(!w.project.as_ref().unwrap().masters[0].dirty);
    w.command_remove_color_layer(0);
    let p = w.project.as_ref().unwrap();
    assert_eq!(p.masters[0].color_layers.len(), 1);
    assert_eq!(p.masters[0].color_layers[0].layer, "color.1");
    assert!(p.masters[0].dirty);
}

#[test]
fn add_color_layer_finds_free_name() {
    let mut m = master(&["a"]);
    m.palette = vec![1, 2];
    m.color_layers = vec![
        ColorLayer { layer: "color.0".into(), color: 0 },
        ColorLayer { layer: "color.2".into(), color: 1 },
    ];
    let mut w = workspace(vec![m]);
    w.selected = Some(0);
    w.color_selected = 1;
    let ops = w.command_add_color_layer();
    assert_eq!(ops, vec![EngineOp::SeedColorLayer("a".into(), "color.1".into())]);
    assert!(w.show_color_preview);
    assert_eq!(w.status_note, Some(StatusNote::ColorLayerAdded("color.1".into())));
    let rows = &w.project.as_ref().unwrap().masters[0].color_layers;
    assert_eq!(rows[2].layer, "color.1");
    assert_eq!(rows[2].color, 1);
}

#[test]
fn add_color_layer_needs_palette() {
    let mut w = workspace(vec![master(&["a"])]);
    w.selected = Some(0);
    assert!(w.command_add_color_layer().is_empty());
    assert_eq!(w.status_note, Some(StatusNote::AddPaletteColorFirst));
}

#[test]
fn layer_gradient_converts_first_when_needed() {
    let mut w = workspace(vec![master(&["a"])]);
    w.selected = Some(0);
    w.color_selected = 4;
    assert_eq!(w.command_layer_gradient(1, false), vec![
        EngineOp::ConvertToColrV1(vec![]),
        EngineOp::LayerGradient("a".into(), 1, 4),
    ]);
    assert_eq!(w.command_layer_gradient(1, true), vec![EngineOp::LayerGradient("a".into(), 1, 4)]);
    w.finish_layer_gradient(1, 0);
    assert_eq!(w.status_note, Some(StatusNote::GradientNeedsV1));
    w.finish_layer_gradient(1, 2);
    assert_eq!(w.status_note, Some(StatusNote::Gradient(1, 4, 2)));
}

fn with_designspace(w: &mut Workspace) {
    w.project.as_mut().unwrap().designspace = Some(Designspace {
        rules: vec![
            Rule { name: Some("bold a".into()), substitutions: vec![("a".into(), "a.bold".into())] },
            Rule { name: None, substitutions: vec![("b".into(), "b.alt".into())] },
        ],
        instances: vec![
            Instance { stylename: Some("Regular".into()), name: None },
            Instance { stylename: Some("Bold".into()), name: None },
        ],
        first_axis: Some(AxisMap {
            map: Some(vec![AxisMapping { input_bits: 1, output_bits: 2 }]),
        }),
    });
}

#[test]
fn remove_shape_switch_drops_rules_of_glyph() {
    let mut w = workspace(vec![master(&["a", "c"])]);
    with_designspace(&mut w);
    w.selected = Some(1);
    w.command_remove_shape_switch();
    assert!(!w.project.as_ref().unwrap().ds_dirty);
    assert_eq!(w.status_note, None);
    w.selected = Some(0);
    w.command_remove_shape_switch();
    let p = w.project.as_ref().unwrap();
    assert!(p.ds_dirty);
    assert_eq!(p.designspace.as_ref().unwrap().rules.len(), 1);
    assert_eq!(w.status_note, Some(StatusNote::ShapeSwitchRemoved("a".into())));
}

#[test]
fn remove_last_axis_mapping_clears_map() {
    let mut w = workspace(vec![master(&["a"])]);
    with_designspace(&mut w);
    w.command_remove_axis_mapping(3);
    assert!(!w.project.as_ref().unwrap().ds_dirty);
    w.command_remove_axis_mapping(0);
    let p = w.project.as_ref().unwrap();
    assert!(p.ds_dirty);
    assert!(p.designspace.as_ref().unwrap().first_axis.as_ref().unwrap().map.is_none());
}

#[test]
fn instance_delete_refreshes() {
    let mut w = workspace(vec![master(&["a"])]);
    with_designspace(&mut w);
    assert!(w.command_instance_delete(2).is_empty());
    assert_eq!(w.command_instance_delete(0), vec![EngineOp::RefreshInstances]);
    let ds = w.project.as_ref().unwrap().designspace.as_ref().unwrap();
    assert_eq!(ds.instances.len(), 1);
    assert_eq!(ds.instances[0].stylename.as_deref(), Some("Bold"));
}

#[test]
fn reinterpolate_round() {
    let mut w = workspace(vec![master(&["a"]), master(&["a"])]);
    assert!(w.command_reinterpolate().is_empty());
    w.mode = Mode::Editor(0);
    assert_eq!(w.command_reinterpolate(), vec![EngineOp::Reinterpolate("a".into())]);
    let ops = w.finish_reinterpolate(Err("needs two masters".into()));
    assert!(ops.is_empty());
    assert_eq!(w.status_note, Some(StatusNote::Text("needs two masters".into())));
    let ops = w.finish_reinterpolate(Ok(()));
    assert_eq!(ops, vec![EngineOp::RecordUndo(0), EngineOp::WriteReinterpolated("a".into())]);
    assert!(w.project.as_ref().unwrap().masters[0].dirty);
    assert_eq!(w.status_note, Some(StatusNote::Reinterpolated("a".into())));
}

#[test]
fn sync_metrics_notes() {
    let mut w = workspace(vec![master(&["a"])]);
    assert_eq!(w.command_sync_metrics(), vec![EngineOp::SyncMetrics]);
    assert_eq!(w.finish_sync_metrics(0), vec![EngineOp::RebuildTextModels]);
    assert_eq!(w.status_note, Some(StatusNote::MetricsInSync));
    w.finish_sync_metrics(3);
    assert_eq!(w.status_note, Some(StatusNote::MetricsAdjusted(3)));
}

#[test]
fn features_generate_and_apply() {
    let mut w = workspace(vec![master(&["a"])]);
    assert!(w.command_generate_features(vec![]).is_empty());
    assert_eq!(w.features_status, Some(StatusNote::NothingToGenerate));
    let ops = w.command_generate_features(vec!["liga".into(), "init".into()]);
    assert_eq!(ops, vec![EngineOp::GenerateFeatures]);
    assert!(w.features_edited);
    let ops = w.command_apply_features("feature liga {} liga;".into(), Some(Err("\n  \r\nerror: bad\r\nmore".into())));
    assert_eq!(ops, vec![EngineOp::ApplyFeatures, EngineOp::RebuildTextModels]);
    assert!(!w.features_edited);
    assert_eq!(w.features_status, Some(StatusNote::SavedNotCompiling("error: bad".into())));
    assert!(w.project.as_ref().unwrap().masters[0].dirty);
    assert_eq!(w.project.as_ref().unwrap().masters[0].features, "feature liga {} liga;");
    w.command_apply_features("x".into(), Some(Err("   ".into())));
    assert_eq!(w.features_status, Some(StatusNote::SavedNotCompiling("error".into())));
    w.command_apply_features("x".into(), Some(Ok(())));
    assert_eq!(w.features_status, Some(StatusNote::CompiledClean));
}

#[test]
fn apply_same_features_keeps_master_clean() {
    let mut m = master(&["a"]);
    m.features = "languagesystem DFLT dflt;".into();
    let mut w = workspace(vec![m]);
    w.command_apply_features("languagesystem DFLT dflt;".into(), None);
    assert!(!w.project.as_ref().unwrap().masters[0].dirty);
    assert_eq!(w.features_status, Some(StatusNote::Applied));
}

#[test]
fn sample_string_steps_and_fills_strip() {
    let mut w = workspace(vec![master(&["a"])]);
    w.mode = Mode::Editor(0);
    let ops = w.command_sample_string(1);
    assert_eq!(ops, vec![EngineOp::SyncSortOffset]);
    assert_eq!(w.sample_index, 1);
    assert_eq!(w.edit_buffer.sorts, vec![
        Sort::Glyph("a".into()),
        Sort::Letter('x'),
        Sort::Letter('y'),
        Sort::Letter('z'),
    ]);
    assert_eq!(w.edit_buffer.active, Some(0));
    assert_eq!(w.status_note, Some(StatusNote::Sample("xyz".into())));
    w.command_sample_string(-3);
    assert_eq!(w.sample_index, 0);
}

#[test]
fn layers_clear_background_and_delete() {
    let mut m = master(&["a"]);
    m.background = Some("public.background".into());
    m.layers = vec![
        Layer { name: "public.background".into(), glyphs: vec!["a".into(), "b".into()] },
        Layer { name: "sketch".into(), glyphs: vec!["a".into()] },
    ];
    let mut w = workspace(vec![m]);
    w.visible_glyph_layers = vec!["sketch".into()];
    w.mode = Mode::Editor(0);
    let ops = w.command_clear_background();
    assert_eq!(ops, vec![EngineOp::RemoveLayerGlyph("public.background".into(), "a".into())]);
    assert_eq!(w.project.as_ref().unwrap().masters[0].layers[0].glyphs, vec!["b".to_string()]);
    let ops = w.command_delete_layer_glyph("sketch");
    assert_eq!(ops, vec![EngineOp::RemoveLayerGlyph("sketch".into(), "a".into())]);
    assert_eq!(w.project.as_ref().unwrap().masters[0].layers.len(), 1);
    assert!(w.visible_glyph_layers.is_empty());
}

#[test]
fn send_to_background_makes_layer() {
    let mut w = workspace(vec![master(&["a"])]);
    w.mode = Mode::Editor(0);
    assert_eq!(w.command_send_to_background(), vec![EngineOp::SendToBackground(0)]);
    let m = &w.project.as_ref().unwrap().masters[0];
    assert_eq!(m.layers[0].name, "public.background");
    assert_eq!(m.layers[0].glyphs, vec!["a".to_string()]);
    assert!(m.dirty);
    assert_eq!(w.status_note, Some(StatusNote::SentToBackground));
}

#[test]
fn backup_layer_counts_up_from_stamp() {
    let mut m = master(&["a"]);
    m.layers = vec![
        Layer { name: "Jan 2, 10.05".into(), glyphs: vec!["a".into()] },
        Layer { name: "Jan 2, 10.05 (1)".into(), glyphs: vec!["a".into()] },
        Layer { name: "Jan 2, 10.05 (2)".into(), glyphs: vec!["b".into()] },
    ];
    let mut w = workspace(vec![m]);
    w.selected = Some(0);
    let ops = w.backup_layer_from(&"Jan 2, 10.05".to_string());
    assert_eq!(ops, vec![EngineOp::CopyToLayer(0, "Jan 2, 10.05 (2)".into())]);
    let layers = &w.project.as_ref().unwrap().masters[0].layers;
    assert_eq!(layers[2].glyphs, vec!["b".to_string(), "a".to_string()]);
    assert_eq!(w.visible_glyph_layers, vec!["Jan 2, 10.05 (2)".to_string()]);
    assert_eq!(w.status_note, Some(StatusNote::CopiedTo("Jan 2, 10.05 (2)".into())));
}

#[test]
fn backup_layer_with_clock_copies() {
    let mut w = workspace(vec![master(&["a"])]);
    w.selected = Some(0);
    let ops = w.command_backup_layer();
    assert_eq!(ops.len(), 1);
    match &ops[0] {
        EngineOp::CopyToLayer(0, layer) => {
            assert!(layer.contains(", "));
            assert_eq!(w.visible_glyph_layers, vec![layer.clone()]);
        }
        other => panic!("unexpected {other:?}"),
    }
}

#[test]
fn brace_layer_decisions() {
    let mut w = workspace(vec![master(&["a"])]);
    w.selected = Some(0);
    assert!(w.command_brace_layer(false).is_empty());
    assert_eq!(w.status_note, Some(StatusNote::IntermediateNeedsDesignspace));
    with_designspace(&mut w);
    assert!(w.command_brace_layer(true).is_empty());
    assert_eq!(w.status_note, Some(StatusNote::IntermediateOffMaster));
    w.status_note = None;
    assert_eq!(w.command_brace_layer(false), vec![EngineOp::BraceLayer("a".into())]);
    w.finish_brace_layer(Some("{500}".into()));
    assert_eq!(w.visible_glyph_layers, vec!["{500}".to_string()]);
    assert_eq!(w.status_note, Some(StatusNote::IntermediateAdded("{500}".into(), "a".into())));
}

#[test]
fn bake_masks_records_undo_in_editor() {
    let mut w = workspace(vec![master(&["a"])]);
    w.mode = Mode::Editor(0);
    w.nudging = true;
    let ops = w.command_bake_masks();
    assert_eq!(ops, vec![EngineOp::RecordUndo(0), EngineOp::BakeMasks("a".into()), EngineOp::ComputeCompat]);
    assert!(!w.nudging);
    w.editor.selected = vec![(0, 0)];
    w.finish_bake_masks(0);
    assert!(w.editor.selected.is_empty());
    assert_eq!(w.status_note, Some(StatusNote::MasksBaked(0)));
}

#[test]
fn export_steps() {
    let mut w = workspace(vec![master(&["a"])]);
    let (ops, source) = w.export_request();
    assert!(ops.is_empty());
    assert_eq!(source.as_deref(), Some("/fonts/Sans-Regular.ufo"));
    w.project.as_mut().unwrap().masters[0].dirty = true;
    w.project.as_mut().unwrap().export_source = Some("/fonts/Sans.designspace".into());
    let (ops, source) = w.export_request();
    assert_eq!(ops, vec![EngineOp::Save]);
    assert_eq!(source.as_deref(), Some("/fonts/Sans.designspace"));
    assert_eq!(w.command_export(false, None, true), None);
    assert_eq!(w.status_note, Some(StatusNote::SaveBeforeExport));
    assert_eq!(w.command_export(true, None, false), None);
    assert_eq!(w.status_note, Some(StatusNote::FontcMissing));
    assert_eq!(
        w.command_export(true, Some("/fonts/sources/build.sh".into()), true),
        Some(ExportRoute::BuildScript("build.sh".into()))
    );
    assert_eq!(w.status_note, Some(StatusNote::ExportingThrough("build.sh".into())));
    assert_eq!(w.command_export(true, None, true), Some(ExportRoute::Compiler("Sans".into())));
    assert_eq!(w.status_note, Some(StatusNote::Exporting("Sans".into())));
    w.project.as_mut().unwrap().export_source = Some("/fonts/.hidden".into());
    assert_eq!(w.command_export(true, None, true), Some(ExportRoute::Compiler(".hidden".into())));
    w.project.as_mut().unwrap().export_source = Some("/".into());
    assert_eq!(w.command_export(true, None, true), Some(ExportRoute::Compiler("font".into())));
    assert_eq!(w.command_export(true, Some("/".into()), true), Some(ExportRoute::BuildScript("build script".into())));
    w.finish_export(ExportEnd::NotStarted("boom".into()));
    assert_eq!(w.status_note, Some(StatusNote::ExportFailed("boom".into())));
    w.finish_export(ExportEnd::Compiler { path: "/fonts/exports/Sans.ttf".into(), success: true, fixed: true, stderr: vec![] });
    assert_eq!(w.status_note, Some(StatusNote::Exported("Exported /fonts/exports/Sans.ttf (gftools fixes applied)".into())));
    w.finish_export(ExportEnd::Compiler { path: "/f/S.ttf".into(), success: true, fixed: false, stderr: vec![] });
    assert_eq!(w.status_note, Some(StatusNote::Exported("Exported /f/S.ttf (no gftools on PATH: skipped GF fixes)".into())));
    w.finish_export(ExportEnd::Compiler {
        path: "/f/S.ttf".into(),
        success: false,
        fixed: false,
        stderr: vec!["warning".into(), "error: bad glyph".into(), "  ".into()],
    });
    assert_eq!(w.status_note, Some(StatusNote::ExportFailed("error: bad glyph".into())));
    w.finish_export(ExportEnd::Compiler { path: "/f/S.ttf".into(), success: false, fixed: false, stderr: vec![] });
    assert_eq!(w.status_note, Some(StatusNote::ExportFailed("fontc failed".into())));
    w.finish_export(ExportEnd::Script { label: "build.sh".into(), workdir: "/repo".into(), success: true, stderr: vec![] });
    assert_eq!(w.status_note, Some(StatusNote::Exported("Exported through build.sh → /repo/fonts".into())));
    w.finish_export(ExportEnd::Script { label: "build.sh".into(), workdir: "/repo/".into(), success: false, stderr: vec!["".into()] });
    assert_eq!(w.status_note, Some(StatusNote::ExportFailed("build script failed".into())));
    let mut none = workspace(vec![]);
    none.project = None;
    assert_eq!(none.command_export(true, None, true), None);
    assert_eq!(none.status_note, None);
}
use runebender_shell::export::{ExportEnd, ExportRoute};
