//! Keys pressed over the workspace: which tool, which edit, which view
//! change. What the outline engine does with an edit, and whether it
//! changed anything, it reports back.
use vstd::prelude::*;
use crate::model::{EditorState, EngineOp, Mode, Tool, Workspace};
use crate::points::copy_points;

verus! {

/// Whether a key press was handled.
#[derive(PartialEq, Eq, Structural, Clone, Copy, Debug)]
pub enum Handled {
    Yes,
    No,
    /// The engine's answer to the edit decides.
    ByEngine,
}

/// `v` sorted highest first, the same items.
pub fn sorted_high_first(v: &Vec<usize>) -> (r: Vec<usize>)
    ensures
        r@.to_multiset() == v@.to_multiset(),
        forall|i: int, j: int| 0 <= i < j < r@.len() ==> r@[i] >= r@[j],
{
    broadcast use vstd::seq_lib::group_to_multiset_ensures;
    let mut rest: Vec<usize> = Vec::new();
    let mut k: usize = 0;
    while k < v.len()
        invariant
            k <= v@.len(),
            rest@ == v@.subrange(0, k as int),
        decreases v@.len() - k,
    {
        rest.push(v[k]);
        k += 1;
        assert(rest@ =~= v@.subrange(0, k as int));
    }
    assert(rest@ =~= v@);
    let mut out: Vec<usize> = Vec::new();
    while rest.len() > 0
        invariant
            out@.to_multiset().add(rest@.to_multiset()) == v@.to_multiset(),
            forall|i: int, j: int| 0 <= i < j < out@.len() ==> out@[i] >= out@[j],
            forall|i: int, j: int| 0 <= i < out@.len() && 0 <= j < rest@.len() ==> out@[i] >= rest@[j],
        decreases rest@.len(),
    {
        let mut best: usize = 0;
        let mut i: usize = 1;
        while i < rest.len()
            invariant
                best < rest@.len(),
                1 <= i <= rest@.len(),
                forall|j: int| 0 <= j < i ==> rest@[best as int] >= rest@[j],
            decreases rest@.len() - i,
        {
            if rest[i] > rest[best] {
                best = i;
            }
            i += 1;
        }
        let ghost before_out = out@;
        let ghost before_rest = rest@;
        let x = rest.remove(best);
        out.push(x);
        proof {
            assert(before_rest =~= rest@.insert(best as int, x));
            vstd::seq_lib::to_multiset_insert(rest@, best as int, x);
            vstd::seq_lib::to_multiset_build(before_out, x);
            assert(out@ =~= before_out.push(x));
            assert(out@.to_multiset().add(rest@.to_multiset()) =~= v@.to_multiset());
            assert forall|a: int, b: int| 0 <= a < out@.len() && 0 <= b < rest@.len() implies out@[a] >= rest@[b] by {
                if b < best {
                    assert(rest@[b] == before_rest[b]);
                } else {
                    assert(rest@[b] == before_rest[b + 1]);
                }
            }
        }
    }
    out
}

/// The keys the workspace reads.
#[derive(PartialEq, Eq, Structural, Clone, Copy, Debug)]
pub enum Key {
    Escape,
    Enter,
    Zero,
    V,
    P,
    R,
    M,
    T,
    K,
    H,
    Space,
    A,
    Backspace,
    Delete,
    S,
    Left,
    Right,
    Up,
    Down,
    Plus,
    Equals,
    Minus,
    Underscore,
    /// Any other key.
    Other,
}

/// The key a key name names.
pub open spec fn key_named(name: Seq<char>) -> Key {
    if name == seq!['e', 's', 'c', 'a', 'p', 'e'] {
        Key::Escape
    } else if name == seq!['e', 'n', 't', 'e', 'r'] {
        Key::Enter
    } else if name == seq!['0'] {
        Key::Zero
    } else if name == seq!['v'] {
        Key::V
    } else if name == seq!['p'] {
        Key::P
    } else if name == seq!['r'] {
        Key::R
    } else if name == seq!['m'] {
        Key::M
    } else if name == seq!['t'] {
        Key::T
    } else if name == seq!['k'] {
        Key::K
    } else if name == seq!['h'] {
        Key::H
    } else if name == seq!['s', 'p', 'a', 'c', 'e'] {
        Key::Space
    } else if name == seq!['a'] {
        Key::A
    } else if name == seq!['b', 'a', 'c', 'k', 's', 'p', 'a', 'c', 'e'] {
        Key::Backspace
    } else if name == seq!['d', 'e', 'l', 'e', 't', 'e'] {
        Key::Delete
    } else if name == seq!['s'] {
        Key::S
    } else if name == seq!['l', 'e', 'f', 't'] {
        Key::Left
    } else if name == seq!['r', 'i', 'g', 'h', 't'] {
        Key::Right
    } else if name == seq!['u', 'p'] {
        Key::Up
    } else if name == seq!['d', 'o', 'w', 'n'] {
        Key::Down
    } else if name == seq!['+'] {
        Key::Plus
    } else if name == seq!['='] {
        Key::Equals
    } else if name == seq!['-'] {
        Key::Minus
    } else if name == seq!['_'] {
        Key::Underscore
    } else {
        Key::Other
    }
}

/// The key a key name names.
pub fn key_of(name: &str) -> (k: Key)
    ensures
        k == key_named(name@),
{
    let c = crate::text::chars_of(name);
    let w = vec!['e', 's', 'c', 'a', 'p', 'e'];
    assert(w@ =~= seq!['e', 's', 'c', 'a', 'p', 'e']);
    if crate::tasks::same_chars(&c, &w) {
        return Key::Escape;
    }
    let w = vec!['e', 'n', 't', 'e', 'r'];
    assert(w@ =~= seq!['e', 'n', 't', 'e', 'r']);
    if crate::tasks::same_chars(&c, &w) {
        return Key::Enter;
    }
    let w = vec!['0'];
    assert(w@ =~= seq!['0']);
    if crate::tasks::same_chars(&c, &w) {
        return Key::Zero;
    }
    let w = vec!['v'];
    assert(w@ =~= seq!['v']);
    if crate::tasks::same_chars(&c, &w) {
        return Key::V;
    }
    let w = vec!['p'];
    assert(w@ =~= seq!['p']);
    if crate::tasks::same_chars(&c, &w) {
        return Key::P;
    }
    let w = vec!['r'];
    assert(w@ =~= seq!['r']);
    if crate::tasks::same_chars(&c, &w) {
        return Key::R;
    }
    let w = vec!['m'];
    assert(w@ =~= seq!['m']);
    if crate::tasks::same_chars(&c, &w) {
        return Key::M;
    }
    let w = vec!['t'];
    assert(w@ =~= seq!['t']);
    if crate::tasks::same_chars(&c, &w) {
        return Key::T;
    }
    let w = vec!['k'];
    assert(w@ =~= seq!['k']);
    if crate::tasks::same_chars(&c, &w) {
        return Key::K;
    }
    let w = vec!['h'];
    assert(w@ =~= seq!['h']);
    if crate::tasks::same_chars(&c, &w) {
        return Key::H;
    }
    let w = vec!['s', 'p', 'a', 'c', 'e'];
    assert(w@ =~= seq!['s', 'p', 'a', 'c', 'e']);
    if crate::tasks::same_chars(&c, &w) {
        return Key::Space;
    }
    let w = vec!['a'];
    assert(w@ =~= seq!['a']);
    if crate::tasks::same_chars(&c, &w) {
        return Key::A;
    }
    let w = vec!['b', 'a', 'c', 'k', 's', 'p', 'a', 'c', 'e'];
    assert(w@ =~= seq!['b', 'a', 'c', 'k', 's', 'p', 'a', 'c', 'e']);
    if crate::tasks::same_chars(&c, &w) {
        return Key::Backspace;
    }
    let w = vec!['d', 'e', 'l', 'e', 't', 'e'];
    assert(w@ =~= seq!['d', 'e', 'l', 'e', 't', 'e']);
    if crate::tasks::same_chars(&c, &w) {
        return Key::Delete;
    }
    let w = vec!['s'];
    assert(w@ =~= seq!['s']);
    if crate::tasks::same_chars(&c, &w) {
        return Key::S;
    }
    let w = vec!['l', 'e', 'f', 't'];
    assert(w@ =~= seq!['l', 'e', 'f', 't']);
    if crate::tasks::same_chars(&c, &w) {
        return Key::Left;
    }
    let w = vec!['r', 'i', 'g', 'h', 't'];
    assert(w@ =~= seq!['r', 'i', 'g', 'h', 't']);
    if crate::tasks::same_chars(&c, &w) {
        return Key::Right;
    }
    let w = vec!['u', 'p'];
    assert(w@ =~= seq!['u', 'p']);
    if crate::tasks::same_chars(&c, &w) {
        return Key::Up;
    }
    let w = vec!['d', 'o', 'w', 'n'];
    assert(w@ =~= seq!['d', 'o', 'w', 'n']);
    if crate::tasks::same_chars(&c, &w) {
        return Key::Down;
    }
    let w = vec!['+'];
    assert(w@ =~= seq!['+']);
    if crate::tasks::same_chars(&c, &w) {
        return Key::Plus;
    }
    let w = vec!['='];
    assert(w@ =~= seq!['=']);
    if crate::tasks::same_chars(&c, &w) {
        return Key::Equals;
    }
    let w = vec!['-'];
    assert(w@ =~= seq!['-']);
    if crate::tasks::same_chars(&c, &w) {
        return Key::Minus;
    }
    let w = vec!['_'];
    assert(w@ =~= seq!['_']);
    if crate::tasks::same_chars(&c, &w) {
        return Key::Underscore;
    }
    Key::Other
}

/// Whether `f` is `w` with the editor's tool set to `t`, handled.
pub open spec fn tool_set(w: Workspace, f: Workspace, h: Handled, t: Tool) -> bool {
    f == (Workspace { editor: EditorState { tool: t, ..w.editor }, ..w }) && h == Handled::Yes
}

/// Whether `f`, `h` and `ops` are what a key press over `w` does: the
/// state after it, whether it was handled, and the engine operations, in
/// order. `menu` says whether a context menu is open; `field` whether a
/// text field has the keyboard.
pub open spec fn key_done(w: Workspace, k: Key, cmd: bool, shift: bool, ctrl: bool, alt: bool,
    menu: bool, field: bool, f: Workspace, h: Handled, ops: Seq<EngineOp>) -> bool {
    let in_editor = w.mode is Editor;
    let i = w.mode->0;
    let drawing = w.editor.pen is Some || w.editor.hyper_contour is Some;
    let e = w.editor;
    let font = w.has_font();
    let step: int = if ctrl { 32 } else if shift { 8 } else { 2 };
    let same = f == w && h == Handled::Yes;
    let undo = w.undo_ops(i);
    let w_undo = Workspace { nudging: false, ..w };
    if field {
        f == w && h == Handled::No && ops.len() == 0
    } else if k == Key::Escape && in_editor {
        if menu {
            same && ops == seq![EngineOp::CloseContextMenu]
        } else if drawing {
            same && ops == seq![EngineOp::FinishPen]
        } else {
            &&& f == (Workspace { last_editor: Some(i), mode: Mode::Grid, status_note: None, ..w })
            &&& h == Handled::Yes
            &&& ops == if font {
                seq![EngineOp::RecheckCompat(w.project->0.active_master().glyphs@[i as int].name)]
            } else {
                Seq::empty()
            }
        }
    } else if k == Key::Enter && in_editor && drawing {
        same && ops == seq![EngineOp::FinishPen]
    } else if k == Key::Enter && !cmd && !in_editor {
        match w.selected {
            Some(j) => w.opened(j, f) && h == Handled::Yes && ops == seq![EngineOp::SeedEditBuffer(j)],
            None => f == w && h == Handled::No && ops.len() == 0,
        }
    } else if !cmd && in_editor && e.tool == Tool::Text {
        f == w && h == (if font { Handled::Yes } else { Handled::No })
            && ops == (if font { seq![EngineOp::EditTextKey] } else { Seq::empty() })
    } else if k == Key::Zero && in_editor {
        &&& f == (Workspace { editor: EditorState { initialized: font, ..e }, ..w })
        &&& h == Handled::Yes
        &&& ops == if font { seq![EngineOp::FitEditor(i)] } else { Seq::empty() }
    } else if cmd || !in_editor {
        f == w && h == Handled::No && ops.len() == 0
    } else {
        editor_key_done(w, k, shift, ctrl, alt, f, h, ops)
    }
}

/// Whether `f`, `h` and `ops` are what key `k` does in the editor with
/// no command modifier, past the keys every mode reads.
pub open spec fn editor_key_done(w: Workspace, k: Key, shift: bool, ctrl: bool, alt: bool,
    f: Workspace, h: Handled, ops: Seq<EngineOp>) -> bool {
    if k == Key::V || k == Key::P || k == Key::R || k == Key::M || k == Key::T || k == Key::K || k == Key::H
        || k == Key::Space {
        tool_key_done(w, k, f, h, ops)
    } else if k == Key::A || k == Key::Backspace || k == Key::Delete || k == Key::S {
        edit_key_done(w, k, f, h, ops)
    } else {
        view_key_done(w, k, shift, ctrl, alt, f, h, ops)
    }
}

/// Whether `f`, `h` and `ops` are what a tool key does.
pub open spec fn tool_key_done(w: Workspace, k: Key, f: Workspace, h: Handled, ops: Seq<EngineOp>) -> bool {
    let e = w.editor;
    if k == Key::V {
        tool_set(w, f, h, Tool::Select) && ops == seq![EngineOp::FinishPen]
    } else if k == Key::P {
        tool_set(w, f, h, Tool::Pen) && ops.len() == 0
    } else if k == Key::R {
        &&& f == (Workspace { editor: EditorState {
            tool: Tool::Shapes,
            shape_ellipse: if e.tool == Tool::Shapes { !e.shape_ellipse } else { e.shape_ellipse },
            ..e
        }, ..w })
        &&& h == Handled::Yes
        &&& ops == seq![EngineOp::FinishPen]
    } else if k == Key::M {
        tool_set(w, f, h, Tool::Measure) && ops == seq![EngineOp::FinishPen]
    } else if k == Key::T {
        tool_set(w, f, h, Tool::Text) && ops == seq![EngineOp::FinishPen]
    } else if k == Key::K {
        tool_set(w, f, h, Tool::Knife) && ops == seq![EngineOp::FinishPen]
    } else if k == Key::H {
        tool_set(w, f, h, Tool::HyperPen) && ops == seq![EngineOp::FinishPen]
    } else if k == Key::Space {
        &&& f == (if e.tool != Tool::Preview {
            Workspace { editor: EditorState { previous_tool: e.tool, tool: Tool::Preview, ..e }, ..w }
        } else {
            w
        })
        &&& h == Handled::Yes
        &&& ops.len() == 0
    } else {
        f == w && h == Handled::No && ops.len() == 0
    }
}

/// Whether `f`, `h` and `ops` are what an editing key does.
pub open spec fn edit_key_done(w: Workspace, k: Key, f: Workspace, h: Handled, ops: Seq<EngineOp>) -> bool {
    let i = w.mode->0;
    let drawing = w.editor.pen is Some || w.editor.hyper_contour is Some;
    let e = w.editor;
    let font = w.has_font();
    let undo = w.undo_ops(i);
    let w_undo = Workspace { nudging: false, ..w };
    if k == Key::A {
        f == w_undo && h == Handled::Yes
            && ops == (if font { seq![EngineOp::RecordUndo(i), EngineOp::AddAnchorAtCursor(i)] } else { Seq::empty() })
    } else if k == Key::Backspace && drawing {
        f == w && h == (if font { Handled::ByEngine } else { Handled::No })
            && ops == (if font {
                seq![EngineOp::DeleteLastPenPoint(i, if e.pen is Some { e.pen->0 } else { e.hyper_contour->0 })]
            } else {
                Seq::empty()
            })
    } else if (k == Key::Backspace || k == Key::Delete) && e.selected_component is Some {
        let taken = Workspace { nudging: false, editor: EditorState { selected_component: None, ..e }, ..w };
        if font {
            &&& f == taken
            &&& h == Handled::ByEngine
            &&& ops == seq![EngineOp::RecordUndo(i), EngineOp::DeleteComponent(i, e.selected_component->0)]
        } else {
            &&& f == taken
            &&& h == Handled::No
            &&& ops.len() == 0
        }
    } else if (k == Key::Backspace || k == Key::Delete) && e.selected_anchors@.len() > 0 {
        &&& f == (Workspace { nudging: false, editor: EditorState { selected_anchors: f.editor.selected_anchors, ..e }, ..w })
        &&& f.editor.selected_anchors@.len() == 0
        &&& h == Handled::Yes
        &&& if font {
            &&& ops.len() == 2
            &&& ops[0] == EngineOp::RecordUndo(i)
            &&& ops[1] matches EngineOp::DeleteAnchors(at, order)
            &&& at == i
            &&& order@.to_multiset() == e.selected_anchors@.to_multiset()
            &&& forall|a: int, b: int| 0 <= a < b < order@.len() ==> order@[a] >= order@[b]
        } else {
            ops.len() == 0
        }
    } else if k == Key::Backspace || k == Key::Delete {
        if e.selected@.len() == 0 {
            f == w && h == Handled::No && ops.len() == 0
        } else {
            &&& f == w_undo
            &&& h == (if font { Handled::ByEngine } else { Handled::No })
            &&& if font {
                ops.len() == 2 && ops[0] == EngineOp::RecordUndo(i)
                    && (ops[1] matches EngineOp::DeletePoints(j, v) && j == i && v@ == e.selected@)
            } else {
                ops.len() == 0
            }
        }
    } else if k == Key::S {
        if e.selected@.len() == 0 {
            f == w && h == Handled::No && ops.len() == 0
        } else {
            &&& f == w_undo
            &&& h == (if font { Handled::ByEngine } else { Handled::No })
            &&& if font {
                ops.len() == 2 && ops[0] == EngineOp::RecordUndo(i)
                    && (ops[1] matches EngineOp::ToggleSmooth(j, v) && j == i && v@ == e.selected@)
            } else {
                ops.len() == 0
            }
        }
    } else {
        f == w && h == Handled::No && ops.len() == 0
    }
}

/// Whether `f`, `h` and `ops` are what a view key does.
pub open spec fn view_key_done(w: Workspace, k: Key, shift: bool, ctrl: bool, alt: bool, f: Workspace, h: Handled,
    ops: Seq<EngineOp>) -> bool {
    let step: int = if ctrl { 32 } else if shift { 8 } else { 2 };
    let same = f == w && h == Handled::Yes;
    if k == Key::Left || k == Key::Right || k == Key::Up || k == Key::Down {
        let (dx, dy) = if k == Key::Left {
            (-step, 0)
        } else if k == Key::Right {
            (step, 0)
        } else if k == Key::Up {
            (0, step)
        } else {
            (0, -step)
        };
        f == w && h == Handled::ByEngine && ops == seq![EngineOp::Nudge(dx as i32, dy as i32, alt)]
    } else if k == Key::Plus || k == Key::Equals {
        same && ops == seq![EngineOp::ZoomIn]
    } else if k == Key::Minus || k == Key::Underscore {
        same && ops == seq![EngineOp::ZoomOut]
    } else {
        f == w && h == Handled::No && ops.len() == 0
    }
}

impl Workspace {
    /// A key press over the workspace. `cmd`, `shift`, `ctrl` and `alt`
    /// are the modifiers held; `menu` says whether a context menu is open,
    /// `field` whether a text field has the keyboard. Nudges step 2
    /// units, 8 with shift, 32 with control.
    pub fn handle_key(&mut self, key: &str, cmd: bool, shift: bool, ctrl: bool, alt: bool, menu: bool, field: bool)
        -> (r: (Handled, Vec<EngineOp>))
        requires
            old(self).refs_ok(),
        ensures
            key_done(*old(self), key_named(key@), cmd, shift, ctrl, alt, menu, field, *final(self), r.0, r.1@),
    {
        let k = key_of(key);
        let mut ops: Vec<EngineOp> = Vec::new();
        if field {
            return (Handled::No, ops);
        }
        let in_editor = match self.mode {
            Mode::Editor(_) => true,
            _ => false,
        };
        let i = match self.mode {
            Mode::Editor(i) => i,
            _ => 0,
        };
        let drawing = self.editor.pen.is_some() || self.editor.hyper_contour.is_some();
        let font = self.font_open();
        let step: i32 = if ctrl { 32 } else if shift { 8 } else { 2 };
        if k == Key::Escape && in_editor {
            if menu {
                ops.push(EngineOp::CloseContextMenu);
            } else if drawing {
                ops.push(EngineOp::FinishPen);
            } else {
                if let Some(p) = &self.project {
                    if p.active < p.masters.len() {
                        ops.push(EngineOp::RecheckCompat(p.masters[p.active].glyphs[i].name.clone()));
                    }
                }
                self.last_editor = Some(i);
                self.mode = Mode::Grid;
                self.status_note = None;
            }
            return (Handled::Yes, ops);
        }
        if k == Key::Enter && in_editor && drawing {
            ops.push(EngineOp::FinishPen);
            return (Handled::Yes, ops);
        }
        if k == Key::Enter && !cmd && !in_editor {
            return match self.selected {
                Some(j) => (Handled::Yes, self.open_editor(j)),
                None => (Handled::No, ops),
            };
        }
        if !cmd && in_editor && self.editor.tool == Tool::Text {
            if font {
                ops.push(EngineOp::EditTextKey);
                return (Handled::Yes, ops);
            }
            return (Handled::No, ops);
        }
        if k == Key::Zero && in_editor {
            self.editor.initialized = false;
            let fit = self.ensure_editor_fit();
            assert(!font ==> fit@ =~= Seq::<EngineOp>::empty());
            return (Handled::Yes, fit);
        }
        if cmd || !in_editor {
            return (Handled::No, ops);
        }
        self.editor_key(k, shift, ctrl, alt)
    }

    fn editor_key(&mut self, k: Key, shift: bool, ctrl: bool, alt: bool) -> (r: (Handled, Vec<EngineOp>))
        requires
            old(self).refs_ok(),
            old(self).mode is Editor,
        ensures
            editor_key_done(*old(self), k, shift, ctrl, alt, *final(self), r.0, r.1@),
    {
        if k == Key::V || k == Key::P || k == Key::R || k == Key::M || k == Key::T || k == Key::K || k == Key::H
            || k == Key::Space {
            self.tool_key(k)
        } else if k == Key::A || k == Key::Backspace || k == Key::Delete || k == Key::S {
            self.edit_key(k)
        } else {
            let step: i32 = if ctrl { 32 } else if shift { 8 } else { 2 };
            let mut ops: Vec<EngineOp> = Vec::new();
            if k == Key::Left {
                ops.push(EngineOp::Nudge(-step, 0, alt));
                return (Handled::ByEngine, ops);
            }
            if k == Key::Right {
                ops.push(EngineOp::Nudge(step, 0, alt));
                return (Handled::ByEngine, ops);
            }
            if k == Key::Up {
                ops.push(EngineOp::Nudge(0, step, alt));
                return (Handled::ByEngine, ops);
            }
            if k == Key::Down {
                ops.push(EngineOp::Nudge(0, -step, alt));
                return (Handled::ByEngine, ops);
            }
            if k == Key::Plus || k == Key::Equals {
                ops.push(EngineOp::ZoomIn);
                return (Handled::Yes, ops);
            }
            if k == Key::Minus || k == Key::Underscore {
                ops.push(EngineOp::ZoomOut);
                return (Handled::Yes, ops);
            }
            (Handled::No, ops)
        }
    }

    fn tool_key(&mut self, k: Key) -> (r: (Handled, Vec<EngineOp>))
        ensures
            tool_key_done(*old(self), k, *final(self), r.0, r.1@),
    {
        let mut ops: Vec<EngineOp> = Vec::new();
        let finish_to = if k == Key::V {
            Some(Tool::Select)
        } else if k == Key::M {
            Some(Tool::Measure)
        } else if k == Key::T {
            Some(Tool::Text)
        } else if k == Key::K {
            Some(Tool::Knife)
        } else if k == Key::H {
            Some(Tool::HyperPen)
        } else {
            None
        };
        if k == Key::P {
            self.editor.tool = Tool::Pen;
            return (Handled::Yes, ops);
        }
        if k == Key::R {
            if self.editor.tool == Tool::Shapes {
                self.editor.shape_ellipse = !self.editor.shape_ellipse;
            }
            ops.push(EngineOp::FinishPen);
            self.editor.tool = Tool::Shapes;
            return (Handled::Yes, ops);
        }
        if let Some(t) = finish_to {
            ops.push(EngineOp::FinishPen);
            self.editor.tool = t;
            return (Handled::Yes, ops);
        }
        if k == Key::Space {
            if self.editor.tool != Tool::Preview {
                self.editor.previous_tool = self.editor.tool;
                self.editor.tool = Tool::Preview;
            }
            return (Handled::Yes, ops);
        }
        (Handled::No, ops)
    }

    #[verifier::rlimit(60)]
    fn edit_key(&mut self, k: Key) -> (r: (Handled, Vec<EngineOp>))
        requires
            old(self).refs_ok(),
            old(self).mode is Editor,
        ensures
            edit_key_done(*old(self), k, *final(self), r.0, r.1@),
    {
        let mut ops: Vec<EngineOp> = Vec::new();
        let i = match self.mode {
            Mode::Editor(i) => i,
            _ => 0,
        };
        let drawing = self.editor.pen.is_some() || self.editor.hyper_contour.is_some();
        let font = self.font_open();
        if k == Key::A {
            let mut ops = self.push_undo_snapshot(i);
            if font {
                ops.push(EngineOp::AddAnchorAtCursor(i));
                assert(ops@ =~= seq![EngineOp::RecordUndo(i), EngineOp::AddAnchorAtCursor(i)]);
            } else {
                assert(ops@ =~= Seq::<EngineOp>::empty());
            }
            return (Handled::Yes, ops);
        }
        let deleting = k == Key::Backspace || k == Key::Delete;
        if k == Key::Backspace && drawing {
            if font {
                let contour = match self.editor.pen {
                    Some(c) => c,
                    None => match self.editor.hyper_contour {
                        Some(c) => c,
                        None => 0,
                    },
                };
                ops.push(EngineOp::DeleteLastPenPoint(i, contour));
                return (Handled::ByEngine, ops);
            }
            return (Handled::No, ops);
        }
        if deleting && self.editor.selected_component.is_some() {
            let ci = match self.editor.selected_component {
                Some(c) => c,
                None => 0,
            };
            self.editor.selected_component = None;
            let mut ops = self.push_undo_snapshot(i);
            if font {
                ops.push(EngineOp::DeleteComponent(i, ci));
                assert(ops@ =~= seq![EngineOp::RecordUndo(i), EngineOp::DeleteComponent(i, ci)]);
                return (Handled::ByEngine, ops);
            }
            return (Handled::No, ops);
        }
        if deleting && self.editor.selected_anchors.len() > 0 {
            let mut anchors: Vec<usize> = Vec::new();
            core::mem::swap(&mut anchors, &mut self.editor.selected_anchors);
            let order = sorted_high_first(&anchors);
            let mut ops = self.push_undo_snapshot(i);
            if font {
                ops.push(EngineOp::DeleteAnchors(i, order));
            }
            assert(self.editor.selected_anchors@.len() == 0);
            return (Handled::Yes, ops);
        }
        if deleting || k == Key::S {
            if self.editor.selected.len() == 0 {
                return (Handled::No, ops);
            }
            let mut ops = self.push_undo_snapshot(i);
            if !font {
                assert(ops@ =~= Seq::<EngineOp>::empty());
                return (Handled::No, ops);
            }
            let selected = copy_points(&self.editor.selected);
            if deleting {
                ops.push(EngineOp::DeletePoints(i, selected));
            } else {
                ops.push(EngineOp::ToggleSmooth(i, selected));
            }
            return (Handled::ByEngine, ops);
        }
        (Handled::No, ops)
    }

    /// A component delete, once the engine says whether it changed the
    /// glyph: nothing changed drops the undo step again.
    pub fn finish_delete_component(&self, changed: bool) -> (ops: Vec<EngineOp>)
        ensures
            ops@ == self.settle_ops(changed),
    {
        if !changed {
            self.discard_request()
        } else {
            Vec::new()
        }
    }

    /// A point delete, once the engine says whether it changed the glyph:
    /// a change clears the point selection.
    pub fn finish_delete_points(&mut self, changed: bool)
        ensures
            !changed ==> *final(self) == *old(self),
            changed ==> final(self).editor.selected@.len() == 0 && *final(self) == (Workspace {
                editor: EditorState { selected: final(self).editor.selected, ..old(self).editor },
                ..*old(self)
            }),
    {
        if changed {
            self.editor.selected.clear();
        }
    }

    /// Backspace while drawing, once the engine says how many points the
    /// contour has left: none left drops the contour and ends drawing.
    pub fn finish_pen_point(&mut self, contour: usize, remaining: Option<usize>) -> (ops: Vec<EngineOp>)
        ensures
            remaining == Some(0usize) && old(self).mode is Editor ==> {
                &&& ops@ == seq![EngineOp::RemoveDegenerateContour(old(self).mode->0, contour)]
                &&& *final(self) == (Workspace {
                    editor: EditorState { pen: None, hyper_contour: None, ..old(self).editor },
                    ..*old(self)
                })
            },
            !(remaining == Some(0usize) && old(self).mode is Editor) ==> *final(self) == *old(self) && ops@.len() == 0,
    {
        let mut ops = Vec::new();
        if let Some(0) = remaining {
            if let Mode::Editor(i) = self.mode {
                ops.push(EngineOp::RemoveDegenerateContour(i, contour));
                self.editor.pen = None;
                self.editor.hyper_contour = None;
            }
        }
        ops
    }
}

} // verus!
