//! The workspace state that the decisions read and change, as plain values.
//!
//! Glyph outlines, text shaping and interpolation live in the outline
//! engine. What is here is what the shell decides with: which glyph is
//! open, the edit tabs, the point selection, and the parts of the project
//! (glyph names, layers, groups, palette, designspace lists) that commands
//! edit directly.
use std::collections::BTreeMap;
use vstd::prelude::*;

verus! {

/// A point of the open glyph: (contour index, point index).
pub type PointId = (usize, usize);

/// What the window shows.
#[derive(PartialEq, Eq, Structural, Clone, Copy, Debug)]
pub enum Mode {
    /// The glyph overview.
    Grid,
    /// The node canvas.
    Nodes,
    /// The editor, open on the glyph at this index of the active master.
    Editor(usize),
}

/// The editor's tools.
#[derive(PartialEq, Eq, Structural, Clone, Copy, Debug)]
pub enum Tool {
    Select,
    Pen,
    HyperPen,
    Text,
    Knife,
    Shapes,
    Measure,
    Preview,
}

/// A note left on a glyph. Its position is kept as the bit patterns of the
/// two coordinates, which is all the shell ever does with them.
#[derive(Debug)]
pub struct Annotation {
    pub kind: String,
    pub x_bits: u64,
    pub y_bits: u64,
    pub text: String,
}

/// One glyph of a master, as the shell sees it.
#[derive(Debug)]
pub struct GlyphEntry {
    pub name: String,
    pub codepoint: Option<char>,
    /// Every point, in contour order.
    pub points: Vec<PointId>,
    /// Whether a background image is linked.
    pub has_image: bool,
    /// Contours flagged as masks.
    pub masks: Vec<usize>,
    pub annotations: Vec<Annotation>,
}

/// A named layer besides the default one, by the glyphs it holds.
#[derive(Debug)]
pub struct Layer {
    pub name: String,
    pub glyphs: Vec<String>,
}

/// A kerning group and its members.
#[derive(Debug)]
pub struct Group {
    pub name: String,
    pub members: Vec<String>,
}

/// One row of the color-layer mapping: a layer name and a palette index.
#[derive(Debug)]
pub struct ColorLayer {
    pub layer: String,
    pub color: usize,
}

/// One source of the project.
#[derive(Debug)]
pub struct Master {
    /// The glyph list, in the order the engine keeps it.
    pub glyphs: Vec<GlyphEntry>,
    /// The named layers.
    pub layers: Vec<Layer>,
    /// The layer that serves as the background, when there is one.
    pub background: Option<String>,
    pub groups: Vec<Group>,
    /// The color palette, one packed RGBA value per entry.
    pub palette: Vec<u32>,
    pub color_layers: Vec<ColorLayer>,
    /// Whether there are unsaved edits.
    pub dirty: bool,
    /// Glyphs edited since the last save.
    pub modified_glyphs: Vec<String>,
    /// The feature code.
    pub features: String,
    /// Where the master's source lives.
    pub source_path: String,
    /// The family and style names of its font info, where it has them.
    pub family_name: Option<String>,
    pub style_name: Option<String>,
}

/// A designspace substitution rule, by the glyph names it replaces.
#[derive(Debug)]
pub struct Rule {
    pub name: Option<String>,
    /// (replaced glyph, replacement) pairs.
    pub substitutions: Vec<(String, String)>,
}

/// A designspace instance, by its names.
#[derive(Debug)]
pub struct Instance {
    pub stylename: Option<String>,
    pub name: Option<String>,
}

/// An avar pair on an axis, each value kept as its bit pattern.
#[derive(Debug, Clone, Copy)]
pub struct AxisMapping {
    pub input_bits: u64,
    pub output_bits: u64,
}

/// The mapping of the designspace's first axis.
#[derive(Debug)]
pub struct AxisMap {
    pub map: Option<Vec<AxisMapping>>,
}

/// The parts of a designspace document the commands edit.
#[derive(Debug)]
pub struct Designspace {
    pub rules: Vec<Rule>,
    pub instances: Vec<Instance>,
    /// The first axis, when the document has any.
    pub first_axis: Option<AxisMap>,
}

/// An open project: its masters and the designspace that ties them.
#[derive(Debug)]
pub struct Project {
    pub masters: Vec<Master>,
    /// The master being edited.
    pub active: usize,
    pub designspace: Option<Designspace>,
    /// Whether the designspace has unsaved edits.
    pub ds_dirty: bool,
    /// The file exports start from, when it is not the active master's.
    pub export_source: Option<String>,
}

/// One item of the editor's text strip.
#[derive(PartialEq, Eq, Debug)]
pub enum Sort {
    /// A glyph placed by name.
    Glyph(String),
    /// A typed character.
    Letter(char),
}

/// The editor's text strip.
#[derive(Debug)]
pub struct TextBuffer {
    pub sorts: Vec<Sort>,
    /// The sort the editor edits.
    pub active: Option<usize>,
}

/// The editor's per-tab state.
#[derive(Debug)]
pub struct EditorState {
    /// Whether the view was fitted to the open glyph.
    pub initialized: bool,
    pub selected: Vec<PointId>,
    /// Points that selection skips.
    pub locked_points: Vec<PointId>,
    /// Whether a drag gesture is under way.
    pub dragging: bool,
    pub tool: Tool,
    /// The tool to return to when a held tool is released.
    pub previous_tool: Tool,
    /// The contour the pen is drawing, while it draws.
    pub pen: Option<usize>,
    /// The contour the hyper pen is drawing.
    pub hyper_contour: Option<usize>,
    /// Whether the shapes tool draws ellipses rather than rectangles.
    pub shape_ellipse: bool,
    pub selected_anchors: Vec<usize>,
    pub selected_component: Option<usize>,
}

/// An edit tab: the glyph it is on, and its parked editor and buffer.
#[derive(Debug)]
pub struct EditSession {
    pub glyph_name: String,
    pub editor: EditorState,
    pub buffer: TextBuffer,
}

/// What the status bar says. Each variant carries what its message shows.
#[derive(PartialEq, Eq, Debug)]
pub enum StatusNote {
    NoBackgroundToSwap,
    TidyPaths(usize),
    CorrectPathDirection(usize),
    RoundCoordinates(usize),
    NoMissingExtremes,
    CopiedContours(usize),
    Cancelled,
    AddedGlyph(String),
    RemovedGlyph(String),
    SelectGlyphToRemove,
    DuplicatedGlyph(String, String),
    ShapeSwitchRemoved(String),
    ShapeSwitchNeedsDesignspace,
    /// The switch point, by its bits, is off the first axis.
    SwitchOffAxis(u64),
    /// The glyph now switches to the alternate past the point whose
    /// bits are given.
    ShapeSwitchAdded(String, String, u64),
    ColorFormat,
    ColorInUse,
    Sample(String),
    Reinterpolated(String),
    Text(String),
    ConvertedCurves(bool, usize),
    CornerApplied(String, usize),
    NoCornerApplied(String),
    MasksBaked(usize),
    IntermediateNeedsDesignspace,
    AxisMapNeedsDesignspace,
    InstancesNeedDesignspace,
    /// The instance at the preview location now has this style.
    InstanceRenamed(String),
    /// An instance of this style was added at the preview location.
    InstanceAdded(String),
    /// An axis mapping pair was set: the bits of its input and output.
    AxisMapped(u64, u64),
    IntermediateOffMaster,
    IntermediateAdded(String, String),
    GradientNeedsV1,
    NoColorLayers,
    /// The glyph is a smart part on the axis, from the value whose bits
    /// are given to the other; its top pole is edited in `part.top`.
    SmartPart(String, String, u64, u64),
    /// The Smart field takes `30` or `Height=30`.
    SmartValueHelp,
    /// The selected component's base has no such smart axis.
    NotSmart,
    /// The axis was set on the component to the value whose bits are given.
    SmartValueSet(String, u64),
    /// Explicit color entries were written for this many glyphs.
    ColrV1Written(usize),
    Gradient(usize, usize, usize),
    NothingToGenerate,
    OpenedNodes(String),
    /// A run ended well: how many nodes ran, how many did not.
    NodesRan(usize, usize),
    /// A run failed: how many nodes failed.
    NodesFailed(usize),
    /// A run of the nodes file is going already.
    NodesRunning,
    /// A save failed; what each failure said.
    SaveFailed(Vec<String>),
    NothingToSave,
    /// These files were saved.
    Saved(Vec<String>),
    /// A new font waits, in memory, for Save As to give it a place.
    NewFont,
    /// This many glyphs a language filter missed were generated.
    GeneratedMissing(usize),
    /// A model run on one glyph was installed: the task, the glyph,
    /// points moved, points in all, the change of advance.
    ModelRan(String, String, u64, u64, i64),
    /// A model run proposed glyphs: how many, and how many keep structure.
    ModelProposed(usize, usize),
    /// The model tool's proposal could not be adopted; why.
    ModelFailed(String),
    NodeProblems(String, usize),
    ModelChosen,
    /// A model could not be read; why.
    ModelError(String),
    OpenGlyphFirst,
    ChooseModelFirst,
    /// The chat model has not finished its answer.
    StillAnswering,
    /// No chat model is on disk; where to put one.
    NoChatModel,
    /// The outline engine's tool is not installed; how to get it.
    CoreMissing,
    OpenFontFirst,
    /// The model tool is not installed; how to get it.
    FontMlMissing,
    /// A model run is going already.
    ModelRunning,
    SaveBeforeRunning,
    /// The task starts, on the named glyph or on every glyph.
    RunningTask(String, Option<String>),
    FontMlNotFound,
    /// Scoring needs a second master.
    OneMaster,
    /// Scoring the named glyph.
    Scoring(String),
    /// The named glyph's score: the bits of the model's error and of the
    /// baseline's.
    ModelScore(String, u64, u64),
    /// The masters' outlines of the glyph do not match point for point.
    NotPointCompatible,
    /// The component follows its anchor; it is unlocked in the Selection
    /// panel before it moves.
    ComponentAnchorLocked,
    /// The preview shows an interpolated instance, which is not edited.
    InstanceView,
    InstalledProposal(String, usize, usize),
    DiscardedProposal(usize),
    /// The features compiled.
    CompiledClean,
    /// The features were saved; the first line of the compiler's complaint.
    SavedNotCompiling(String),
    /// The features were saved with no verdict.
    Applied,
    /// These feature blocks were generated.
    GeneratedFeatures(Vec<String>),
    MetricsInSync,
    MetricsAdjusted(usize),
    SelectGlyphsFirst,
    SentToBackground,
    NothingEncodedToCopy,
    /// This many characters went to the clipboard.
    CopiedCharacters(usize),
    /// The drawing was copied to the named layer.
    CopiedTo(String),
    /// A color layer of this name was added.
    ColorLayerAdded(String),
    AddPaletteColorFirst,
    /// Memberships added to the named group.
    GroupMembersAdded(String, usize),
    SaveBeforeExport,
    /// Exporting through the build script of this name.
    ExportingThrough(String),
    FontcMissing,
    /// Exporting this file stem.
    Exporting(String),
    /// An export ended as this line says.
    Exported(String),
    ExportFailed(String),
}

/// An operation the shell hands to the outline engine, in order.
#[derive(PartialEq, Eq, Debug)]
pub enum EngineOp {
    /// Record the glyph's state as an undo step.
    RecordUndo(usize),
    /// Drop the step just recorded.
    DiscardLastUndo(usize),
    Undo(usize),
    Redo(usize),
    /// Move the preview location onto the master.
    SnapLocationToMaster(usize),
    RebuildTextModels,
    /// Fill the edit buffer around the glyph.
    SeedEditBuffer(usize),
    /// Fit the view to the glyph's metrics.
    FitEditor(usize),
    /// Lay the text strip out again.
    SyncSortOffset,
    /// Exchange the glyph's outline with the background copy.
    SwapBackground(usize),
    /// Exchange the glyph's outline with the named layer's copy.
    SwapLayer(usize, String),
    TidyContours(usize),
    CorrectPathDirections(usize),
    RoundCoordinates(usize),
    RemoveOverlap(usize),
    Decompose(usize),
    AddExtremes(usize),
    /// Convert the named glyph's curves in every master (true: to cubic).
    ConvertCurves(String, bool),
    /// Apply the named corner glyph at a node of the named glyph, in every master.
    ApplyCorner(String, String, PointId),
    /// Make the masks of the named glyph real, in every master.
    BakeMasks(String),
    /// Rebuild the named glyph from the other masters.
    Reinterpolate(String),
    /// Check the named glyph's compatibility across masters.
    RecheckCompat(String),
    ComputeCompat,
    /// Process the designspace rules last.
    ProcessRulesLast,
    /// Make the designspace rule for the named glyph apply from the point
    /// whose bits are given to the end of the first axis.
    SwitchFrom(String, u64),
    /// Copy the glyph's contours holding these points (all, when none).
    CopyContours(usize, Vec<PointId>),
    PasteContours(usize),
    /// Paste the system clipboard's text into the edit buffer.
    PasteText,
    /// Freeze the interpolation of the named glyph into a brace layer.
    BraceLayer(String),
    /// Rewrite the automatic feature blocks into the editor text.
    GenerateFeatures,
    /// Write the features text into the active master.
    ApplyFeatures,
    /// Write the explicit color entries of each master listed, making
    /// each suffixed glyph a paint draws from its color layer's copy when
    /// the master lacks it.
    ConvertToColrV1(Vec<(usize, Vec<crate::color::ColrEntry>)>),
    /// Make a color layer of the named glyph a gradient (row, stop color).
    LayerGradient(String, usize, usize),
    KillChatJob,
    KillTaskJob,
    RefreshProposals,
    /// Look for the installed models again.
    RescanModels,
    /// Read the masters that did not change in the editor again from disk.
    ReloadFromDisk,
    /// Apply every metrics key in every master.
    SyncMetrics,
    /// Re-read the instance list from the designspace.
    RefreshInstances,
    /// Put the instance at this index at the preview location.
    PlaceInstance(usize),
    /// Write the style-linking names of the instance at this index from
    /// its family and style.
    LinkInstanceStyle(usize),
    /// Add an empty glyph of this name to every master.
    AddGlyph(String),
    /// Add each of these glyphs, empty and encoded as given, to every
    /// master that lacks it.
    GenerateGlyphs(Vec<(String, u32)>),
    /// Remove the named glyph from every master.
    RemoveGlyph(String),
    /// Copy the first glyph's drawing to a new glyph of the second name.
    DuplicateGlyph(String, String),
    /// Drop the named glyph's copy in the named layer.
    RemoveLayerGlyph(String, String),
    /// Install the named proposal (only these glyphs, when given).
    InstallProposal(String, Option<Vec<String>>),
    DiscardProposal(String),
    /// End the contour the pen or hyper pen is drawing.
    FinishPen,
    /// Close the open context menu.
    CloseContextMenu,
    /// Hand the key to the text strip.
    EditTextKey,
    /// Edit the text strip at its cursor.
    TextKey(crate::text_keys::TextEdit),
    /// Add an anchor to the glyph at the pointer.
    AddAnchorAtCursor(usize),
    /// Take the last point off the contour being drawn.
    DeleteLastPenPoint(usize, usize),
    /// Delete the glyph's component at this index.
    DeleteComponent(usize, usize),
    /// Delete the glyph's anchors at these indices, highest first.
    DeleteAnchors(usize, Vec<usize>),
    /// Delete these points of the glyph.
    DeletePoints(usize, Vec<PointId>),
    /// Toggle smoothness of these points of the glyph.
    ToggleSmooth(usize, Vec<PointId>),
    /// Move the selection by this many units (with alt: handles only).
    Nudge(i32, i32, bool),
    ZoomIn,
    ZoomOut,
    /// Drop a contour left with no points.
    RemoveDegenerateContour(usize, usize),
    /// Rebuild the glyph's list entry from the font.
    RebuildEntry(usize),
    /// Save every master.
    Save,
    /// Put this text on the system clipboard.
    WriteClipboard(String),
    /// Copy the glyph's outline into the `public.background` layer.
    SendToBackground(usize),
    /// Copy the glyph's drawing into the named layer.
    CopyToLayer(usize, String),
    /// Seed the named color layer with each master's outline of the glyph.
    SeedColorLayer(String, String),
    /// Store the outline the engine rebuilt for the named glyph.
    WriteReinterpolated(String),
    /// Round the glyph's selected corners into fillets.
    RoundCorners(usize, Vec<PointId>),
    /// Copy the glyph's component at this index.
    DuplicateComponent(usize, usize),
    /// Copy the glyph's anchor at this index.
    DuplicateAnchor(usize, usize),
    /// Copy the glyph's contours holding these points, offset.
    DuplicatePoints(usize, Vec<PointId>),
    /// Apply the last flip or rotate again to these points of the glyph.
    TransformAgain(usize, Vec<PointId>),
    /// Combine the glyph's contours by a boolean operation.
    Boolean(usize, crate::outline::BooleanOp),
    /// Turn the line segment through these points into a curve.
    LineToCurve(usize, Vec<PointId>),
    /// Offset the glyph's contours by this many units, as typed.
    Offset(usize, String),
    /// Stroke the glyph's contours (only these, when any) this wide, as typed.
    ExpandStroke(usize, Vec<usize>, String),
    /// Fit the handles of these points' segments to this fraction, as typed.
    FitCurve(usize, Vec<PointId>, String),
    /// Reverse the glyph's contours holding these points (all, when none).
    ReverseContours(usize, Vec<PointId>),
    /// Write the named glyph's smart axis (its name, and the bits of its
    /// bottom and top values) and seed its top pole in `part.top`.
    MakeSmartAxis(String, String, u64, u64),
    /// Set the named glyph's component at this index to the value whose
    /// bits are given on the named axis.
    SetSmartValue(String, usize, String, u64),
    /// Make this point its contour's start.
    SetStartPoint(usize, PointId),
    /// Extrude the glyph's contours: offset, angle (30 when not given),
    /// whether the front face stays. The numbers are as typed.
    Extrude(usize, String, Option<String>, bool),
    /// Roughen the glyph's contours (only these, when any): segment
    /// length, horizontal and vertical amounts (the segment length and
    /// half of it when not given), and the seed. The numbers are as typed.
    Roughen(usize, Vec<usize>, String, Option<String>, Option<String>, u64),
}

/// The chat pane's transcript rows.
#[derive(PartialEq, Eq, Debug)]
pub enum ChatEntry {
    User(String),
    Assistant(String),
    Tool { name: String, ok: bool, note: String },
    Error(String),
}

/// One message of the conversation the model is sent back: the message
/// as the model wrote it, and its role and text where it has them.
#[derive(Debug)]
pub struct ChatMessage {
    pub json: String,
    pub role: Option<String>,
    pub content: Option<String>,
}

/// What the chat pane says while a turn runs.
#[derive(PartialEq, Eq, Debug)]
pub enum ChatBusy {
    /// The model is loading.
    Loading,
    /// The model is loaded on this device.
    ThinkingOn(String),
    /// A tool of this name is running.
    Running(String),
    Thinking,
}

/// The chat pane.
#[derive(Debug)]
pub struct ChatState {
    pub entries: Vec<ChatEntry>,
    pub messages: Vec<ChatMessage>,
    pub busy: Option<ChatBusy>,
    /// Whether a turn is running.
    pub job: bool,
    pub last_speed: Option<String>,
    /// The reply so far, with its tool blocks.
    pub raw: Vec<char>,
    /// The chat model in use, by path.
    pub model: Option<String>,
    /// The chat models on disk: name and path.
    pub installed: Vec<(String, String)>,
    /// Whether the disk was looked at for them.
    pub scanned: bool,
}

/// A model directory found on disk: its name and path.
#[derive(Debug)]
pub struct InstalledModel {
    pub name: String,
    pub path: String,
}

/// How a node row looks between runs.
#[derive(PartialEq, Eq, Debug)]
pub enum RowState {
    Waiting,
    Running(Option<String>),
    Done(NodeStatus, Option<String>),
}

/// How a node ended.
#[derive(PartialEq, Eq, Structural, Debug, Clone, Copy)]
pub enum NodeStatus {
    Ran,
    Skipped,
    Failed,
    Blocked,
}

/// A nodes file open in the panel.
#[derive(Debug)]
pub struct GraphState {
    pub path: String,
    /// Node ids in run order.
    pub order: Vec<u32>,
    /// What stops it running, one line per problem. None means it runs.
    pub problems: Vec<String>,
    /// Per node, by id.
    pub rows: BTreeMap<u32, RowState>,
    pub running: bool,
}

/// The local-models panel.
#[derive(Debug)]
pub struct ModelsState {
    pub installed: Vec<InstalledModel>,
    /// Where the model tool is, when it is installed.
    pub binary: Option<String>,
    pub busy: Option<String>,
    /// Whether a task is running.
    pub job: bool,
    pub graph: Option<GraphState>,
    /// The chosen model's directory.
    pub dir: Option<String>,
    /// What the chosen model is, in a line.
    pub summary: Option<String>,
    /// The last score: the glyph, and the bits of the model's error and
    /// of the baseline's.
    pub score: Option<(String, u64, u64)>,
    /// The bits of the strength a model runs at.
    pub strength_bits: u64,
}

/// The whole workspace.
#[derive(Debug)]
pub struct Workspace {
    pub project: Option<Project>,
    pub mode: Mode,
    /// The glyph selected in the grid.
    pub selected: Option<usize>,
    /// The glyph the editor last had open.
    pub last_editor: Option<usize>,
    pub sessions: Vec<EditSession>,
    pub active_session: usize,
    pub editor: EditorState,
    pub edit_buffer: TextBuffer,
    pub status_note: Option<StatusNote>,
    /// Whether the features editor holds text not yet applied.
    pub features_edited: bool,
    /// What the features section says.
    pub features_status: Option<StatusNote>,
    /// Whether arrow presses are in a nudge burst.
    pub nudging: bool,
    /// Whether the sidebar's glyph counts are cached.
    pub sidebar_counts: bool,
    /// Contours waiting in the outline clipboard.
    pub clipboard: usize,
    pub visible_glyph_layers: Vec<String>,
    pub color_selected: usize,
    /// Whether glyphs show in color.
    pub show_color_preview: bool,
    pub sample_strings: Vec<String>,
    pub sample_index: usize,
    pub roughen_seed: u64,
    pub chat: ChatState,
    pub models: ModelsState,
    /// When the last save happened, as the title bar shows it.
    pub last_save_label: Option<String>,
}

impl Project {
    /// Whether the active master exists.
    pub open spec fn wf(&self) -> bool {
        self.active < self.masters@.len()
    }

    pub open spec fn active_master(&self) -> Master {
        self.masters@[self.active as int]
    }

    /// The glyph names of the active master.
    pub open spec fn names(&self) -> Seq<Seq<char>> {
        self.active_master().glyphs@.map_values(|g: GlyphEntry| g.name@)
    }
}

impl Workspace {
    /// Whether every glyph index the state holds points into the active
    /// master's glyph list.
    pub open spec fn refs_ok(&self) -> bool {
        &&& self.open_glyph_ok()
        &&& match self.project {
            None => true,
            Some(p) => self.selected matches Some(i) ==> i < p.active_master().glyphs@.len(),
        }
    }

    /// Whether the active master exists and the glyph open in the editor,
    /// if any, is one of its glyphs.
    pub open spec fn open_glyph_ok(&self) -> bool {
        match self.project {
            None => true,
            Some(p) => {
                &&& p.wf()
                &&& (self.mode matches Mode::Editor(i) ==> i < p.active_master().glyphs@.len())
            },
        }
    }

    /// The glyph a command acts on: the open one, or the grid selection.
    pub open spec fn current_glyph(&self) -> Option<usize> {
        match self.mode {
            Mode::Editor(i) => Some(i),
            _ => self.selected,
        }
    }

    /// The name of the glyph at `i` in the active master.
    pub open spec fn glyph_name(&self, i: int) -> Seq<char> {
        self.project->0.active_master().glyphs@[i].name@
    }
}

} // verus!
