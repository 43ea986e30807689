//! Which glyph is open, the edit tabs over it, and undo requests.
use vstd::prelude::*;
use crate::model::{EditSession, EditorState, EngineOp, Mode, Project, TextBuffer, Tool, Workspace};
use crate::steps::{rotate, rotated};
use crate::names::{find_glyph, index_of, names_of};

verus! {

/// One line of the edit journal: the operation, the glyph, and what else
/// is worth keeping.
#[derive(Debug)]
pub struct JournalEntry {
    pub op: String,
    pub glyph: Option<String>,
    pub detail: Option<String>,
}

impl EditorState {
    /// Whether this is the state of a freshly opened editor.
    pub open spec fn is_fresh(&self) -> bool {
        &&& !self.initialized
        &&& self.selected@.len() == 0
        &&& self.locked_points@.len() == 0
        &&& !self.dragging
        &&& self.tool == Tool::Select
        &&& self.previous_tool == Tool::Select
        &&& self.pen is None
        &&& self.hyper_contour is None
        &&& !self.shape_ellipse
        &&& self.selected_anchors@.len() == 0
        &&& self.selected_component is None
    }

    /// A fresh editor: Select tool, nothing selected or locked, no pen
    /// path, the shapes tool on rectangles, not yet fitted.
    pub fn new() -> (r: EditorState)
        ensures
            r.is_fresh(),
    {
        EditorState {
            initialized: false,
            selected: Vec::new(),
            locked_points: Vec::new(),
            dragging: false,
            tool: Tool::Select,
            previous_tool: Tool::Select,
            pen: None,
            hyper_contour: None,
            shape_ellipse: false,
            selected_anchors: Vec::new(),
            selected_component: None,
        }
    }
}

impl TextBuffer {
    pub open spec fn is_empty(&self) -> bool {
        self.sorts@.len() == 0 && self.active is None
    }

    /// An empty text strip.
    pub fn new() -> (r: TextBuffer)
        ensures
            r.is_empty(),
    {
        TextBuffer { sorts: Vec::new(), active: None }
    }
}

impl Workspace {
    /// The open glyph in the editor, or the grid selection.
    pub fn current_glyph_index(&self) -> (r: Option<usize>)
        ensures
            r == self.current_glyph(),
    {
        match self.mode {
            Mode::Editor(index) => Some(index),
            _ => self.selected,
        }
    }

    /// The name of the glyph at `index` in the active master, when a
    /// project is open and the glyph exists.
    pub open spec fn name_at(&self, index: int) -> Option<Seq<char>> {
        match self.project {
            Some(p) => if p.wf() && 0 <= index < p.active_master().glyphs@.len() {
                Some(p.active_master().glyphs@[index].name@)
            } else {
                None
            },
            None => None,
        }
    }

    /// Where the glyph named `name` sits in the active master.
    pub open spec fn index_named(&self, name: Seq<char>) -> Option<int> {
        match self.project {
            Some(p) => if p.wf() {
                index_of(names_of(p.active_master().glyphs@), name)
            } else {
                None
            },
            None => None,
        }
    }

    /// The name of the glyph at `index` in the active master.
    pub fn glyph_name_at(&self, index: usize) -> (r: Option<String>)
        ensures
            r matches Some(s) ==> self.name_at(index as int) == Some(s@),
            r is None ==> self.name_at(index as int) is None,
    {
        match &self.project {
            Some(p) => {
                if p.active < p.masters.len() && index < p.masters[p.active].glyphs.len() {
                    Some(p.masters[p.active].glyphs[index].name.clone())
                } else {
                    None
                }
            },
            None => None,
        }
    }

    /// Where the glyph named `name` sits in the active master.
    pub fn glyph_index_named(&self, name: &String) -> (r: Option<usize>)
        ensures
            r matches Some(i) ==> self.index_named(name@) == Some(i as int),
            r is None ==> self.index_named(name@) is None,
    {
        match &self.project {
            Some(p) => {
                if p.active < p.masters.len() {
                    find_glyph(&p.masters[p.active].glyphs, name)
                } else {
                    None
                }
            },
            None => None,
        }
    }

    /// Whether a project with an active master is open.
    pub open spec fn has_font(&self) -> bool {
        self.project matches Some(p) && p.wf()
    }

    pub fn font_open(&self) -> (r: bool)
        ensures
            r == self.has_font(),
    {
        match &self.project {
            Some(p) => p.active < p.masters.len(),
            None => false,
        }
    }

    /// Record the glyph's state as an undo step in the engine, before an
    /// edit. Any other edit ends a nudge burst, so the next arrow press
    /// opens a fresh undo group.
    pub fn push_undo_snapshot(&mut self, index: usize) -> (ops: Vec<EngineOp>)
        ensures
            *final(self) == (Workspace { nudging: false, ..*old(self) }),
            old(self).has_font() ==> ops@ == seq![EngineOp::RecordUndo(index)],
            !old(self).has_font() ==> ops@.len() == 0,
    {
        self.nudging = false;
        let mut ops = Vec::new();
        if self.font_open() {
            ops.push(EngineOp::RecordUndo(index));
        }
        ops
    }

    /// Drop the undo step just recorded, for an edit that changed nothing.
    pub fn discard_last_undo(&self, index: usize) -> (ops: Vec<EngineOp>)
        ensures
            self.has_font() ==> ops@ == seq![EngineOp::DiscardLastUndo(index)],
            !self.has_font() ==> ops@.len() == 0,
    {
        let mut ops = Vec::new();
        if self.font_open() {
            ops.push(EngineOp::DiscardLastUndo(index));
        }
        ops
    }

    /// The state after a nudge's snapshot: in a burst.
    pub open spec fn nudged(&self) -> Workspace {
        Workspace { nudging: true, ..*self }
    }

    /// The undo request of a nudge: only the first of a burst records one.
    pub open spec fn nudge_ops(&self, index: usize) -> Seq<EngineOp> {
        if self.nudging || !self.has_font() { Seq::empty() } else { seq![EngineOp::RecordUndo(index)] }
    }

    /// Snapshot for a nudge: a run of arrow presses is one undo step.
    pub fn push_nudge_snapshot(&mut self, index: usize) -> (ops: Vec<EngineOp>)
        ensures
            *final(self) == old(self).nudged(),
            ops@ == old(self).nudge_ops(index),
    {
        if self.nudging {
            return Vec::new();
        }
        let ops = self.push_undo_snapshot(index);
        self.nudging = true;
        ops
    }

    /// Undo the open glyph's latest step.
    pub fn undo(&self) -> (ops: Vec<EngineOp>)
        ensures
            (self.mode is Editor && self.has_font()) ==> ops@ == seq![EngineOp::Undo(self.mode->0)],
            !(self.mode is Editor && self.has_font()) ==> ops@.len() == 0,
    {
        let mut ops = Vec::new();
        if let Mode::Editor(index) = self.mode {
            if self.font_open() {
                ops.push(EngineOp::Undo(index));
            }
        }
        ops
    }

    /// Redo the open glyph's latest undone step.
    pub fn redo(&self) -> (ops: Vec<EngineOp>)
        ensures
            (self.mode is Editor && self.has_font()) ==> ops@ == seq![EngineOp::Redo(self.mode->0)],
            !(self.mode is Editor && self.has_font()) ==> ops@.len() == 0,
    {
        let mut ops = Vec::new();
        if let Mode::Editor(index) = self.mode {
            if self.font_open() {
                ops.push(EngineOp::Redo(index));
            }
        }
        ops
    }

    /// The state with its glyph references moved to the glyph named `name`.
    pub open spec fn remapped(&self, name: Seq<char>) -> Workspace {
        match self.index_named(name) {
            None => *self,
            Some(i) => Workspace {
                selected: if self.selected is Some { Some(i as usize) } else { None },
                mode: if self.mode is Editor { Mode::Editor(i as usize) } else { self.mode },
                last_editor: if self.last_editor is Some { Some(i as usize) } else { None },
                ..*self
            },
        }
    }

    /// Re-point the selection, the open editor and the last-open glyph at
    /// the glyph named `name`, after a rename or a unicode change reorders
    /// the glyph list. Nothing changes when no glyph has that name.
    pub fn remap_glyph_indices(&mut self, name: &String)
        ensures
            *final(self) == old(self).remapped(name@),
    {
        let Some(index) = self.glyph_index_named(name) else {
            return;
        };
        if self.selected.is_some() {
            self.selected = Some(index);
        }
        if let Mode::Editor(_) = self.mode {
            self.mode = Mode::Editor(index);
        }
        if self.last_editor.is_some() {
            self.last_editor = Some(index);
        }
    }

    /// Fit the editor view to the open glyph's metrics, once per open.
    /// Fitting marks the editor fitted.
    pub fn ensure_editor_fit(&mut self) -> (ops: Vec<EngineOp>)
        requires
            old(self).refs_ok(),
        ensures
            (!old(self).editor.initialized && old(self).mode is Editor && old(self).has_font()) ==> {
                &&& *final(self) == (Workspace {
                    editor: EditorState { initialized: true, ..old(self).editor },
                    ..*old(self)
                })
                &&& ops@ == seq![EngineOp::FitEditor(old(self).mode->0)]
            },
            !(!old(self).editor.initialized && old(self).mode is Editor && old(self).has_font()) ==> {
                *final(self) == *old(self) && ops@.len() == 0
            },
    {
        let mut ops = Vec::new();
        if self.editor.initialized {
            return ops;
        }
        let Mode::Editor(index) = self.mode else {
            return ops;
        };
        if !self.font_open() {
            return ops;
        }
        self.editor.initialized = true;
        ops.push(EngineOp::FitEditor(index));
        ops
    }

    /// The glyph whose name a parked tab keeps: the open one, else the
    /// one last open.
    pub open spec fn parking_glyph(&self) -> Option<usize> {
        match self.mode {
            Mode::Editor(i) => Some(i),
            _ => self.last_editor,
        }
    }

    /// The name the active tab keeps when parked, when there is one.
    pub open spec fn parking_name(&self) -> Option<Seq<char>> {
        match self.parking_glyph() {
            Some(i) => self.name_at(i as int),
            None => None,
        }
    }

    /// What parking does: the live editor and buffer move into the
    /// active tab, which keeps the open glyph's name; the live ones start
    /// over.
    pub open spec fn parked(&self, f: Workspace) -> bool {
        let a = self.active_session as int;
        if a < self.sessions@.len() {
            &&& f.sessions@.len() == self.sessions@.len()
            &&& forall|j: int| 0 <= j < self.sessions@.len() && j != a ==> f.sessions@[j] == self.sessions@[j]
            &&& f.sessions@[a].glyph_name@ == match self.parking_name() {
                Some(n) => n,
                None => self.sessions@[a].glyph_name@,
            }
            &&& f.sessions@[a].editor == self.editor
            &&& f.sessions@[a].buffer == self.edit_buffer
            &&& f.editor.is_fresh()
            &&& f.edit_buffer.is_empty()
            &&& f == (Workspace { sessions: f.sessions, editor: f.editor, edit_buffer: f.edit_buffer, ..*self })
        } else {
            f == *self
        }
    }

    /// The glyph a new tab opens on: the open one, else the last one
    /// edited, else the grid selection.
    pub open spec fn new_tab_glyph(&self) -> Option<usize> {
        match self.mode {
            Mode::Editor(i) => Some(i),
            _ => if self.last_editor is Some { self.last_editor } else { self.selected },
        }
    }

    /// `f` is `self` with one more tab, active, on the glyph named `name`,
    /// with a fresh editor and an empty text strip.
    pub open spec fn tab_added(&self, name: Seq<char>, f: Workspace) -> bool {
        &&& f.sessions@.len() == self.sessions@.len() + 1
        &&& f.sessions@.subrange(0, self.sessions@.len() as int) == self.sessions@
        &&& f.sessions@.last().glyph_name@ == name
        &&& f.sessions@.last().editor.is_fresh()
        &&& f.sessions@.last().buffer.is_empty()
        &&& f.active_session == self.sessions@.len()
        &&& f == (Workspace { sessions: f.sessions, active_session: f.active_session, ..*self })
    }

    /// The tab strip's "+": the live tab is parked, a new tab on the
    /// current glyph is added and made active, and the glyph opens in it.
    /// With no glyph to open, or none by that index, nothing changes.
    pub fn command_new_session(&mut self) -> (ops: Vec<EngineOp>)
        ensures
            ({
                let g = old(self).new_tab_glyph();
                if g is Some && old(self).name_at(g->0 as int) is Some {
                    &&& exists|p: Workspace, q: Workspace| #![trigger old(self).parked(p), p.tab_added(old(self).name_at(g->0 as int)->0, q)]
                        old(self).parked(p) && p.tab_added(old(self).name_at(g->0 as int)->0, q)
                        && q.opened(g->0, *final(self))
                    &&& ops@ == seq![EngineOp::SeedEditBuffer(g->0)]
                } else {
                    *final(self) == *old(self) && ops@.len() == 0
                }
            }),
    {
        let glyph = match self.mode {
            Mode::Editor(i) => Some(i),
            _ => if self.last_editor.is_some() { self.last_editor } else { self.selected },
        };
        let Some(glyph) = glyph else {
            return Vec::new();
        };
        let Some(name) = self.glyph_name_at(glyph) else {
            return Vec::new();
        };
        let ghost o = *self;
        self.park_active_session();
        let ghost p = *self;
        assert(p.name_at(glyph as int) == o.name_at(glyph as int));
        self.sessions.push(EditSession { glyph_name: name, editor: EditorState::new(), buffer: TextBuffer::new() });
        self.active_session = self.sessions.len() - 1;
        let ghost q = *self;
        assert(q.sessions@.subrange(0, p.sessions@.len() as int) =~= p.sessions@);
        assert(p.tab_added(o.name_at(glyph as int)->0, q));
        let ops = self.open_editor(glyph);
        assert(o.parked(p) && p.tab_added(o.name_at(glyph as int)->0, q) && q.opened(glyph, *self));
        ops
    }

    /// Write the live editor state back into the active tab before
    /// switching to another one.
    pub fn park_active_session(&mut self)
        ensures
            old(self).parked(*final(self)),
    {
        let glyph = match self.mode {
            Mode::Editor(i) => Some(i),
            _ => self.last_editor,
        };
        let name = match glyph {
            Some(i) => self.glyph_name_at(i),
            None => None,
        };
        let a = self.active_session;
        if a >= self.sessions.len() {
            return;
        }
        if let Some(name) = name {
            self.sessions[a].glyph_name = name;
        }
        let mut editor = EditorState::new();
        core::mem::swap(&mut self.editor, &mut editor);
        self.sessions[a].editor = editor;
        let mut buffer = TextBuffer::new();
        core::mem::swap(&mut self.edit_buffer, &mut buffer);
        self.sessions[a].buffer = buffer;
    }

    /// What opening a glyph does to the live editor: fit again, nothing
    /// selected, no gesture, the Select tool, no contour being drawn.
    pub open spec fn reopened(e: EditorState, f: EditorState) -> bool {
        &&& f.selected@.len() == 0
        &&& f.selected_anchors@.len() == 0
        &&& f == (EditorState {
            initialized: false,
            selected: f.selected,
            dragging: false,
            tool: Tool::Select,
            pen: None,
            hyper_contour: None,
            selected_anchors: f.selected_anchors,
            ..e
        })
    }

    /// What opening the glyph at `index` does to the tabs: the first open
    /// creates a tab; the active tab takes the glyph's name.
    pub open spec fn tabs_after_open(&self, index: int, f: Workspace) -> bool {
        let name = self.name_at(index);
        if self.sessions@.len() == 0 {
            &&& f.sessions@.len() == 1
            &&& f.active_session == 0
            &&& f.sessions@[0].editor.is_fresh()
            &&& f.sessions@[0].buffer.is_empty()
            &&& f.sessions@[0].glyph_name@ == match name { Some(n) => n, None => Seq::<char>::empty() }
        } else {
            let a = self.active_session as int;
            &&& f.active_session == self.active_session
            &&& f.sessions@.len() == self.sessions@.len()
            &&& forall|j: int| 0 <= j < self.sessions@.len() && j != a ==> f.sessions@[j] == self.sessions@[j]
            &&& a < self.sessions@.len() ==> {
                &&& f.sessions@[a] == (EditSession { glyph_name: f.sessions@[a].glyph_name, ..self.sessions@[a] })
                &&& f.sessions@[a].glyph_name@ == match name { Some(n) => n, None => self.sessions@[a].glyph_name@ }
            }
        }
    }

    /// Everything opening the glyph at `index` changes.
    pub open spec fn opened(&self, index: usize, f: Workspace) -> bool {
        &&& self.tabs_after_open(index as int, f)
        &&& Self::reopened(self.editor, f.editor)
        &&& f == (Workspace {
            sessions: f.sessions,
            active_session: f.active_session,
            mode: Mode::Editor(index),
            selected: Some(index),
            editor: f.editor,
            ..*self
        })
    }

    /// Open the glyph at `index` in the editor, resetting the tool and the
    /// selection. Opening from the grid lands in the active tab; the first
    /// open creates it.
    pub fn open_editor(&mut self, index: usize) -> (ops: Vec<EngineOp>)
        ensures
            old(self).opened(index, *final(self)),
            ops@ == seq![EngineOp::SeedEditBuffer(index)],
    {
        if self.sessions.len() == 0 {
            self.sessions.push(EditSession {
                glyph_name: String::new(),
                editor: EditorState::new(),
                buffer: TextBuffer::new(),
            });
            self.active_session = 0;
        }
        if let Some(name) = self.glyph_name_at(index) {
            let a = self.active_session;
            if a < self.sessions.len() {
                self.sessions[a].glyph_name = name;
            }
        }
        self.mode = Mode::Editor(index);
        self.selected = Some(index);
        let mut ops = Vec::new();
        ops.push(EngineOp::SeedEditBuffer(index));
        self.editor.initialized = false;
        self.editor.selected.clear();
        self.editor.dragging = false;
        self.editor.tool = Tool::Select;
        self.editor.pen = None;
        self.editor.hyper_contour = None;
        self.editor.selected_anchors.clear();
        ops
    }

    /// The indices 0..n.
    pub open spec fn ids(n: nat) -> Seq<int> {
        Seq::new(n, |i: int| i)
    }

    /// Whether the tab at `slot` is on a glyph the active master has.
    pub open spec fn tab_alive(&self, slot: int) -> bool {
        self.index_named(self.sessions@[slot].glyph_name@) is Some
    }

    /// Closing goes on after a tab is removed: with tabs `r` left (their
    /// positions before the close) and the removed one at `t`, the
    /// neighbor is loaded; a tab whose glyph is gone is closed in turn.
    /// The result is the tabs that stay and which of them is loaded.
    pub open spec fn walk_after(&self, r: Seq<int>, t: int) -> (Seq<int>, Option<int>)
        decreases r.len(),
    {
        if r.len() == 0 {
            (r, None)
        } else {
            let next = if t < r.len() { t } else { r.len() - 1 };
            if next < 0 || self.tab_alive(r[next]) {
                (r, Some(next))
            } else {
                self.walk_after(r.remove(next), next)
            }
        }
    }

    /// What closing the active tab at `target` leaves.
    pub open spec fn closing_active(&self, target: int) -> (Seq<int>, Option<int>) {
        self.walk_after(Self::ids(self.sessions@.len()).remove(target), target)
    }

    /// The state after closing the active tab, from what the walk left.
    pub open spec fn closed_active(&self, target: int, f: Workspace) -> bool {
        let (surv, loaded) = self.closing_active(target);
        &&& f.sessions@.len() == surv.len()
        &&& forall|k: int| 0 <= k < surv.len() && loaded != Some(k) ==> f.sessions@[k] == self.sessions@[surv[k]]
        &&& match loaded {
            Some(l) => {
                let src = self.sessions@[surv[l]];
                let idx = self.index_named(src.glyph_name@)->0 as usize;
                &&& f.sessions@[l] == (EditSession { editor: f.sessions@[l].editor, buffer: f.sessions@[l].buffer, ..src })
                &&& f.sessions@[l].editor.is_fresh()
                &&& f.sessions@[l].buffer.is_empty()
                &&& f == (Workspace {
                    sessions: f.sessions,
                    editor: src.editor,
                    edit_buffer: src.buffer,
                    active_session: l as usize,
                    mode: if self.mode is Editor { Mode::Editor(idx) } else { self.mode },
                    selected: Some(idx),
                    last_editor: Some(idx),
                    ..*self
                })
            },
            None => {
                &&& f.editor.is_fresh()
                &&& f.edit_buffer.is_empty()
                &&& f == (Workspace {
                    sessions: f.sessions,
                    editor: f.editor,
                    edit_buffer: f.edit_buffer,
                    active_session: 0,
                    mode: Mode::Grid,
                    last_editor: None,
                    ..*self
                })
            },
        }
    }

    /// Everything closing the tab at `target` changes.
    pub open spec fn closed(&self, target: int, f: Workspace) -> bool {
        let n = self.sessions@.len();
        if target < 0 || target >= n {
            f == *self
        } else if n == 1 {
            &&& f.sessions@.len() == 0
            &&& f.editor.is_fresh()
            &&& f.edit_buffer.is_empty()
            &&& f == (Workspace {
                sessions: f.sessions,
                editor: f.editor,
                edit_buffer: f.edit_buffer,
                active_session: 0,
                mode: Mode::Grid,
                last_editor: None,
                ..*self
            })
        } else if target < self.active_session {
            &&& f.sessions@ == self.sessions@.remove(target)
            &&& f == (Workspace { sessions: f.sessions, active_session: (self.active_session - 1) as usize, ..*self })
        } else if target > self.active_session {
            &&& f.sessions@ == self.sessions@.remove(target)
            &&& f == (Workspace { sessions: f.sessions, ..*self })
        } else {
            self.closed_active(target, f)
        }
    }

    /// Close an edit tab. Closing the active one loads its neighbor
    /// (closing that too when its glyph is gone); closing the last one
    /// returns to the overview.
    pub fn close_session(&mut self, target: usize)
        ensures
            old(self).closed(target as int, *final(self)),
    {
        if target >= self.sessions.len() {
            return;
        }
        let ghost old_ws = *self;
        let ghost n = self.sessions@.len();
        self.sessions.remove(target);
        if self.sessions.len() == 0 {
            self.active_session = 0;
            self.editor = EditorState::new();
            self.edit_buffer = TextBuffer::new();
            self.last_editor = None;
            self.mode = Mode::Grid;
            return;
        }
        if target < self.active_session {
            self.active_session = self.active_session - 1;
            return;
        }
        if target > self.active_session {
            return;
        }
        // The live state belonged to the removed tab: load the neighbor
        // without parking.
        let ghost mut rem: Seq<int> = Self::ids(n).remove(target as int);
        let mut t: usize = target;
        assert(rem.len() == self.sessions@.len());
        assert forall|k: int| 0 <= k < rem.len() implies self.sessions@[k] == old_ws.sessions@[rem[k]] && 0 <= rem[k] < n by {
            if k < target { assert(rem[k] == k); } else { assert(rem[k] == k + 1); }
        }
        loop
            invariant_except_break
                rem.len() == self.sessions@.len(),
                rem.len() > 0,
                forall|k: int| 0 <= k < rem.len() ==> self.sessions@[k] == old_ws.sessions@[rem[k]] && 0 <= rem[k] < n,
                old_ws.walk_after(rem, t as int) == old_ws.closing_active(target as int),
                *self == (Workspace {
                    sessions: self.sessions,
                    editor: self.editor,
                    edit_buffer: self.edit_buffer,
                    active_session: self.active_session,
                    ..old_ws
                }),
            invariant
                old_ws.sessions@.len() == n,
                0 <= target < n,
                old_ws.active_session == target,
            ensures
                old_ws.closed_active(target as int, *self),
            decreases rem.len(),
        {
            let ghost pre = self.sessions@;
            let ghost pre_rem = rem;
            let len = self.sessions.len();
            let next = if t < len { t } else { len - 1 };
            let mut editor = EditorState::new();
            core::mem::swap(&mut editor, &mut self.sessions[next].editor);
            self.editor = editor;
            let mut buffer = TextBuffer::new();
            core::mem::swap(&mut buffer, &mut self.sessions[next].buffer);
            self.edit_buffer = buffer;
            self.active_session = next;
            let name = self.sessions[next].glyph_name.clone();
            assert(name@ == old_ws.sessions@[rem[next as int]].glyph_name@);
            assert(self.index_named(name@) == old_ws.index_named(name@));
            match self.glyph_index_named(&name) {
                Some(index) => {
                    if let Mode::Editor(_) = self.mode {
                        self.mode = Mode::Editor(index);
                    }
                    self.selected = Some(index);
                    self.last_editor = Some(index);
                    assert(old_ws.walk_after(rem, t as int) == (rem, Some(next as int)));
                    break;
                },
                None => {
                    assert(old_ws.walk_after(rem, t as int) == old_ws.walk_after(rem.remove(next as int), next as int));
                    assert forall|k: int| 0 <= k < pre.len() && k != next implies self.sessions@[k] == pre[k] by {}
                    let ghost mid = self.sessions@;
                    self.sessions.remove(next);
                    proof { rem = rem.remove(next as int); }
                    t = next;
                    if self.sessions.len() == 0 {
                        self.active_session = 0;
                        self.editor = EditorState::new();
                        self.edit_buffer = TextBuffer::new();
                        self.last_editor = None;
                        self.mode = Mode::Grid;
                        assert(old_ws.walk_after(rem, t as int) == (rem, None::<int>));
                        break;
                    }
                    assert forall|k: int| 0 <= k < rem.len() implies self.sessions@[k] == old_ws.sessions@[rem[k]] && 0 <= rem[k] < n by {
                        if k < next {
                            assert(rem[k] == pre_rem[k]);
                            assert(self.sessions@[k] == mid[k]);
                        } else {
                            assert(rem[k] == pre_rem[k + 1]);
                            assert(self.sessions@[k] == mid[k + 1]);
                        }
                    }
                },
            }
        }
    }

    /// The tab at `target` loaded as the live one: its editor and buffer
    /// move out (the tab keeps fresh ones) and it becomes active.
    pub open spec fn loaded(&self, target: int, m: Workspace) -> bool {
        &&& 0 <= target < self.sessions@.len()
        &&& m.sessions@.len() == self.sessions@.len()
        &&& forall|j: int| 0 <= j < self.sessions@.len() && j != target ==> m.sessions@[j] == self.sessions@[j]
        &&& m.sessions@[target] == (EditSession {
            editor: m.sessions@[target].editor,
            buffer: m.sessions@[target].buffer,
            ..self.sessions@[target]
        })
        &&& m.sessions@[target].editor.is_fresh()
        &&& m.sessions@[target].buffer.is_empty()
        &&& m == (Workspace {
            sessions: m.sessions,
            editor: self.sessions@[target].editor,
            edit_buffer: self.sessions@[target].buffer,
            active_session: target as usize,
            ..*self
        })
    }

    /// The state once the tab at `target` is the live one: unchanged when
    /// it already is; otherwise the active tab is parked and `target`
    /// loaded.
    pub open spec fn switched_to(&self, target: int, m: Workspace) -> bool {
        if target == self.active_session {
            m == *self
        } else {
            exists|p: Workspace| #[trigger] self.parked(p) && p.loaded(target, m)
        }
    }

    /// Everything switching to the tab at `target` changes: the tab's
    /// glyph opens, or, when the glyph is gone, the dead tab is closed.
    pub open spec fn activated(&self, target: int, f: Workspace) -> bool {
        if target < 0 || target >= self.sessions@.len() {
            f == *self
        } else {
            exists|m: Workspace| #[trigger] self.switched_to(target, m) && match m.index_named(self.sessions@[target].glyph_name@) {
                Some(i) => f == (Workspace {
                    mode: Mode::Editor(i as usize),
                    selected: Some(i as usize),
                    last_editor: Some(i as usize),
                    status_note: None,
                    ..m
                }),
                None => m.closed(target, f),
            }
        }
    }

    /// Switch to another edit tab, restoring its buffer, tool, selection
    /// and view as they were left. A tab whose glyph is gone (removed, or
    /// absent from this master) is closed.
    pub fn activate_session(&mut self, target: usize)
        ensures
            old(self).activated(target as int, *final(self)),
    {
        if target >= self.sessions.len() {
            return;
        }
        let ghost o = *self;
        if target != self.active_session {
            self.park_active_session();
            let ghost p = *self;
            let mut editor = EditorState::new();
            core::mem::swap(&mut editor, &mut self.sessions[target].editor);
            self.editor = editor;
            let mut buffer = TextBuffer::new();
            core::mem::swap(&mut buffer, &mut self.sessions[target].buffer);
            self.edit_buffer = buffer;
            self.active_session = target;
            assert(p.loaded(target as int, *self));
            assert(o.parked(p));
        }
        let ghost m = *self;
        assert(o.switched_to(target as int, m));
        let name = self.sessions[target].glyph_name.clone();
        assert(name@ == o.sessions@[target as int].glyph_name@);
        match self.glyph_index_named(&name) {
            None => {
                self.close_session(target);
            },
            Some(index) => {
                self.mode = Mode::Editor(index);
                self.selected = Some(index);
                self.last_editor = Some(index);
                self.status_note = None;
            },
        }
    }

    /// The master switch: the active master changes and the preview
    /// moves onto it.
    pub open spec fn with_master(&self, master: usize) -> Workspace {
        Workspace {
            sidebar_counts: false,
            project: Some(Project { active: master, ..self.project->0 }),
            ..*self
        }
    }

    /// Everything switching to `master` changes, and the engine
    /// operations it asks for.
    pub open spec fn master_switched(&self, master: usize, f: Workspace, ops: Seq<EngineOp>) -> bool {
        match self.project {
            None => f == (Workspace { sidebar_counts: false, ..*self }) && ops.len() == 0,
            Some(p) => if master >= p.masters@.len() || master == p.active {
                f == (Workspace { sidebar_counts: false, ..*self }) && ops.len() == 0
            } else {
                let m = self.with_master(master);
                match self.mode {
                    Mode::Editor(i) => {
                        let name = p.active_master().glyphs@[i as int].name@;
                        match m.index_named(name) {
                            Some(j) => m.opened(j as usize, f) && ops == seq![
                                EngineOp::SnapLocationToMaster(master),
                                EngineOp::SeedEditBuffer(j as usize),
                                EngineOp::RebuildTextModels,
                            ],
                            None => f == (Workspace { mode: Mode::Grid, ..m }) && ops == seq![
                                EngineOp::SnapLocationToMaster(master),
                                EngineOp::RebuildTextModels,
                            ],
                        }
                    },
                    _ => f == m && ops == seq![
                        EngineOp::SnapLocationToMaster(master),
                        EngineOp::RebuildTextModels,
                    ],
                }
            },
        }
    }

    /// Switch the active master, keeping the open glyph (by name) when the
    /// target master has it, and returning to the overview when it does
    /// not.
    pub fn switch_master(&mut self, master: usize) -> (ops: Vec<EngineOp>)
        requires
            old(self).open_glyph_ok(),
        ensures
            old(self).master_switched(master, *final(self), ops@),
            final(self).open_glyph_ok(),
    {
        let ghost o = *self;
        self.sidebar_counts = false;
        let mut ops = Vec::new();
        let open_name: Option<String>;
        match &mut self.project {
            None => {
                return ops;
            },
            Some(project) => {
                if master >= project.masters.len() || master == project.active {
                    return ops;
                }
                open_name = match self.mode {
                    Mode::Editor(i) => Some(project.masters[project.active].glyphs[i].name.clone()),
                    _ => None,
                };
                project.active = master;
            },
        }
        assert(*self == o.with_master(master));
        assert(open_name matches Some(n) ==> o.mode is Editor && n@ == o.project->0.active_master().glyphs@[o.mode->0 as int].name@);
        assert(open_name is None ==> !(o.mode is Editor));
        ops.push(EngineOp::SnapLocationToMaster(master));
        if let Some(name) = open_name {
            match self.glyph_index_named(&name) {
                Some(index) => {
                    proof {
                        let g = self.project->0.active_master().glyphs@;
                        crate::names::lemma_index_of(crate::names::names_of(g), name@);
                    }
                    let mut more = self.open_editor(index);
                    ops.append(&mut more);
                    ops.push(EngineOp::RebuildTextModels);
                    assert(ops@ =~= seq![
                        EngineOp::SnapLocationToMaster(master),
                        EngineOp::SeedEditBuffer(index),
                        EngineOp::RebuildTextModels,
                    ]);
                    return ops;
                },
                None => {
                    self.mode = Mode::Grid;
                },
            }
        }
        ops.push(EngineOp::RebuildTextModels);
        assert(ops@ =~= seq![EngineOp::SnapLocationToMaster(master), EngineOp::RebuildTextModels]);
        ops
    }

    /// What stepping `delta` masters on, wrapping, leaves: the effect of
    /// switching to that master; nothing with fewer than two masters.
    pub open spec fn master_stepped(&self, delta: int, f: Workspace, ops: Seq<EngineOp>) -> bool {
        match self.project {
            None => f == *self && ops.len() == 0,
            Some(p) => if p.masters@.len() < 2 {
                f == *self && ops.len() == 0
            } else {
                self.master_switched(
                    rotated(p.active as int, p.masters@.len() as int, delta) as usize,
                    f,
                    ops,
                )
            },
        }
    }

    /// Step to the next or previous master, wrapping.
    pub fn command_step_master(&mut self, delta: isize) -> (ops: Vec<EngineOp>)
        requires
            old(self).open_glyph_ok(),
        ensures
            old(self).master_stepped(delta as int, *final(self), ops@),
            final(self).open_glyph_ok(),
    {
        let (active, n) = match &self.project {
            None => {
                return Vec::new();
            },
            Some(project) => (project.active, project.masters.len()),
        };
        if n < 2 {
            return Vec::new();
        }
        let next = rotate(active, n, delta);
        self.switch_master(next)
    }

    /// Whether `e` is the journal line for `op` on the glyph at `index`.
    pub open spec fn journal_says(
        &self,
        e: JournalEntry,
        op: Seq<char>,
        index: Option<usize>,
        detail: Option<Seq<char>>,
    ) -> bool {
        &&& e.op@ == op
        &&& match index {
            Some(i) => if self.has_font() {
                e.glyph matches Some(g) && g@ == self.project->0.active_master().glyphs@[i as int].name@
            } else {
                e.glyph is None
            },
            None => e.glyph is None,
        }
        &&& match detail {
            Some(d) => e.detail matches Some(x) && x@ == d,
            None => e.detail is None,
        }
    }

    /// The journal line for an edit: the glyph is named here rather than
    /// at each call site, which keeps the callers to one line.
    pub fn journal(&self, op: &str, index: Option<usize>, detail: Option<String>) -> (e: JournalEntry)
        requires
            (index is Some && self.has_font()) ==> index->0 < self.project->0.active_master().glyphs@.len(),
        ensures
            self.journal_says(e, op@, index, match detail { Some(d) => Some(d@), None => None }),
    {
        let glyph = match index {
            Some(i) => match &self.project {
                Some(p) => if p.active < p.masters.len() {
                    Some(p.masters[p.active].glyphs[i].name.clone())
                } else {
                    None
                },
                None => None,
            },
            None => None,
        };
        JournalEntry { op: String::from_str(op), glyph, detail }
    }
}

} // verus!
