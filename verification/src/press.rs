//! A press on the editor canvas: which tool takes it, and, for the
//! select tool, what it selects and which drag it starts. The canvas finds
//! what lies under the pointer, in the order the select tool ranks it: a
//! free-transform handle, a trajectory knob, a point, an anchor, a
//! sidebearing edge, a segment, a component, a point of another master, a
//! guide. What the press then does is decided here.
use vstd::prelude::*;
use crate::model::{EditorState, EngineOp, Mode, PointId, StatusNote, Tool, Workspace};
use crate::points::has_point;

verus! {

/// What the canvas found under a press, the best-ranked thing only.
pub enum PressTarget {
    /// A corner, edge or rotation ring of the selection's box.
    TransformHandle,
    /// A trajectory knob, while the trajectories show.
    TrajectoryKnob,
    /// A point of the open glyph that is not locked.
    Point(PointId),
    /// An anchor, by its position in the glyph's anchor list.
    Anchor(usize),
    /// The advance edge (`true`) or the origin edge (`false`).
    Sidebearing(bool),
    /// The points of the segment under the press.
    Segment(Vec<PointId>),
    /// A component, by position, and whether it follows an anchor.
    Component(usize, bool),
    /// A point of another master, and that master.
    OtherMaster(usize, PointId),
    /// A guide, by position.
    Guide(usize),
    Empty,
}

/// What a press starts.
#[derive(PartialEq, Eq, Debug)]
pub enum Press {
    /// Scaling or rotating the selection by its box.
    Transform,
    /// Moving a trajectory knob.
    DragKnob,
    /// Moving the view.
    Pan,
    /// Waiting for the engine to turn a line into a curve.
    LineToCurve,
    /// Dragging the selected points and anchors.
    DragPoints,
    DragSidebearing(bool),
    DragComponent(usize),
    /// The component follows its anchor and stays put.
    ComponentLocked,
    /// The editor went to another master, with the point selected there.
    MasterSwitched,
    DragGuide(usize),
    /// A selection rectangle, from the selection left in place.
    Marquee,
    /// No drag: the press took something out of the selection, or no
    /// glyph is open.
    Nothing,
}

/// Whether `after` holds what `before` holds, less `x`.
pub open spec fn less_one<T>(before: Seq<T>, x: T, after: Seq<T>) -> bool {
    forall|q: T| #[trigger] after.contains(q) <==> (before.contains(q) && q != x)
}

/// Whether `after` holds what `before` or `more` holds.
pub open spec fn with_all<T>(before: Seq<T>, more: Seq<T>, after: Seq<T>) -> bool {
    forall|q: T| #[trigger] after.contains(q) <==> (before.contains(q) || more.contains(q))
}

/// Whether `after` holds what `before` holds and `gone` does not.
pub open spec fn less_all<T>(before: Seq<T>, gone: Seq<T>, after: Seq<T>) -> bool {
    forall|q: T| #[trigger] after.contains(q) <==> (before.contains(q) && !gone.contains(q))
}

/// Whether every item of `part` is in `whole`.
pub open spec fn covered<T>(whole: Seq<T>, part: Seq<T>) -> bool {
    forall|q: T| #[trigger] part.contains(q) ==> whole.contains(q)
}

proof fn lemma_push_contains<T>(s: Seq<T>, a: T, q: T)
    ensures
        s.push(a).contains(q) <==> (s.contains(q) || q == a),
{
    if s.push(a).contains(q) {
        let k = choose|k: int| 0 <= k < s.push(a).len() && s.push(a)[k] == q;
        if k < s.len() {
            assert(s[k] == q);
        }
    }
    if s.contains(q) {
        let k = choose|k: int| 0 <= k < s.len() && s[k] == q;
        assert(s.push(a)[k] == q);
    }
    if q == a {
        assert(s.push(a)[s.len() as int] == q);
    }
}

proof fn lemma_prefix_contains<T>(v: Seq<T>, i: int, q: T)
    requires
        0 <= i < v.len(),
    ensures
        v.subrange(0, i + 1).contains(q) <==> (v.subrange(0, i).contains(q) || q == v[i]),
{
    assert(v.subrange(0, i + 1) =~= v.subrange(0, i).push(v[i]));
    lemma_push_contains(v.subrange(0, i), v[i], q);
}

fn without_point(v: &Vec<PointId>, x: PointId) -> (r: Vec<PointId>)
    ensures
        less_one(v@, x, r@),
{
    let mut r: Vec<PointId> = Vec::new();
    let mut i: usize = 0;
    while i < v.len()
        invariant
            i <= v@.len(),
            forall|q: PointId| #[trigger] r@.contains(q) <==> (v@.subrange(0, i as int).contains(q) && q != x),
        decreases v@.len() - i,
    {
        let p = v[i];
        let ghost before = r@;
        let keep = !(p.0 == x.0 && p.1 == x.1);
        if keep {
            r.push(p);
        }
        assert forall|q: PointId| #[trigger] r@.contains(q) <==> (v@.subrange(0, i + 1).contains(q) && q != x) by {
            lemma_prefix_contains(v@, i as int, q);
            if keep {
                lemma_push_contains(before, p, q);
            }
        }
        i += 1;
    }
    assert(v@.subrange(0, v@.len() as int) =~= v@);
    r
}

fn with_points(v: &Vec<PointId>, more: &Vec<PointId>) -> (r: Vec<PointId>)
    ensures
        with_all(v@, more@, r@),
{
    let mut r: Vec<PointId> = Vec::new();
    let mut i: usize = 0;
    while i < v.len()
        invariant
            i <= v@.len(),
            r@ == v@.subrange(0, i as int),
        decreases v@.len() - i,
    {
        r.push(v[i]);
        i += 1;
        assert(r@ =~= v@.subrange(0, i as int));
    }
    assert(r@ =~= v@);
    assert(more@.subrange(0, 0) =~= Seq::<PointId>::empty());
    let mut j: usize = 0;
    while j < more.len()
        invariant
            j <= more@.len(),
            forall|q: PointId| #[trigger] r@.contains(q) <==> (v@.contains(q) || more@.subrange(0, j as int).contains(q)),
        decreases more@.len() - j,
    {
        let p = more[j];
        let ghost before = r@;
        let fresh = !has_point(&r, p);
        if fresh {
            r.push(p);
        }
        assert forall|q: PointId| #[trigger] r@.contains(q) <==> (v@.contains(q) || more@.subrange(0, j + 1).contains(q)) by {
            lemma_prefix_contains(more@, j as int, q);
            if fresh {
                lemma_push_contains(before, p, q);
            }
        }
        j += 1;
    }
    assert(more@.subrange(0, more@.len() as int) =~= more@);
    r
}

fn without_points(v: &Vec<PointId>, gone: &Vec<PointId>) -> (r: Vec<PointId>)
    ensures
        less_all(v@, gone@, r@),
{
    let mut r: Vec<PointId> = Vec::new();
    let mut i: usize = 0;
    while i < v.len()
        invariant
            i <= v@.len(),
            forall|q: PointId| #[trigger] r@.contains(q) <==> (v@.subrange(0, i as int).contains(q) && !gone@.contains(q)),
        decreases v@.len() - i,
    {
        let p = v[i];
        let ghost before = r@;
        let keep = !has_point(gone, p);
        if keep {
            r.push(p);
        }
        assert forall|q: PointId| #[trigger] r@.contains(q) <==> (v@.subrange(0, i + 1).contains(q) && !gone@.contains(q)) by {
            lemma_prefix_contains(v@, i as int, q);
            if keep {
                lemma_push_contains(before, p, q);
            }
        }
        i += 1;
    }
    assert(v@.subrange(0, v@.len() as int) =~= v@);
    r
}

fn covers(whole: &Vec<PointId>, part: &Vec<PointId>) -> (r: bool)
    ensures
        r == covered(whole@, part@),
{
    let mut i: usize = 0;
    while i < part.len()
        invariant
            i <= part@.len(),
            forall|k: int| 0 <= k < i ==> whole@.contains(#[trigger] part@[k]),
        decreases part@.len() - i,
    {
        if !has_point(whole, part[i]) {
            assert(part@.contains(part@[i as int]));
            return false;
        }
        i += 1;
    }
    assert forall|q: PointId| #[trigger] part@.contains(q) implies whole@.contains(q) by {
        let k = choose|k: int| 0 <= k < part@.len() && part@[k] == q;
    }
    true
}

fn has_anchor(v: &Vec<usize>, a: usize) -> (r: bool)
    ensures
        r == v@.contains(a),
{
    let mut i: usize = 0;
    while i < v.len()
        invariant
            i <= v@.len(),
            forall|k: int| 0 <= k < i ==> v@[k] != a,
        decreases v@.len() - i,
    {
        if v[i] == a {
            assert(v@[i as int] == a);
            return true;
        }
        i += 1;
    }
    false
}

fn without_anchor(v: &Vec<usize>, a: usize) -> (r: Vec<usize>)
    ensures
        less_one(v@, a, r@),
{
    let mut r: Vec<usize> = Vec::new();
    let mut i: usize = 0;
    while i < v.len()
        invariant
            i <= v@.len(),
            forall|q: usize| #[trigger] r@.contains(q) <==> (v@.subrange(0, i as int).contains(q) && q != a),
        decreases v@.len() - i,
    {
        let p = v[i];
        let ghost before = r@;
        let keep = p != a;
        if keep {
            r.push(p);
        }
        assert forall|q: usize| #[trigger] r@.contains(q) <==> (v@.subrange(0, i + 1).contains(q) && q != a) by {
            lemma_prefix_contains(v@, i as int, q);
            if keep {
                lemma_push_contains(before, p, q);
            }
        }
        i += 1;
    }
    assert(v@.subrange(0, v@.len() as int) =~= v@);
    r
}

impl Workspace {
    /// The undo step a press that starts an edit records.
    pub open spec fn press_undo(&self, index: usize) -> Seq<EngineOp> {
        if self.has_font() { seq![EngineOp::RecordUndo(index)] } else { Seq::empty() }
    }

    /// `f` is this state with the editor's selections, component, drag
    /// flag, nudge burst and status changed as a press leaves them: the
    /// component becomes `comp`, a drag starts when `drag`, an undo step
    /// is recorded (ending any nudge burst) when `undo`, and the status
    /// becomes `note` when there is one.
    pub open spec fn pressed_to(&self, f: Workspace, comp: Option<usize>, drag: bool, undo: bool,
        note: Option<StatusNote>, ops: Seq<EngineOp>) -> bool {
        &&& f == (Workspace {
            editor: EditorState {
                selected: f.editor.selected,
                selected_anchors: f.editor.selected_anchors,
                selected_component: comp,
                dragging: if drag { true } else { self.editor.dragging },
                ..self.editor
            },
            nudging: if undo { false } else { self.nudging },
            status_note: if note is Some { note } else { self.status_note },
            ..*self
        })
        &&& ops == (if undo { self.press_undo(self.mode->0) } else { Seq::empty() })
    }

    /// A press on a point: with shift it toggles the point, and taking it
    /// out starts nothing; without shift it selects the point alone
    /// unless it was selected already. The points then drag.
    pub open spec fn pressed_point(&self, id: PointId, shift: bool, f: Workspace, press: Press,
        ops: Seq<EngineOp>) -> bool {
        let sel = self.editor.selected@;
        let fs = f.editor.selected@;
        &&& f.editor.selected_anchors@ == self.editor.selected_anchors@
        &&& if shift && sel.contains(id) {
            less_one(sel, id, fs) && press == Press::Nothing
                && self.pressed_to(f, None, false, false, None, ops)
        } else {
            &&& (shift ==> with_all(sel, seq![id], fs))
            &&& (!shift && sel.contains(id) ==> fs == sel)
            &&& (!shift && !sel.contains(id) ==> fs == seq![id])
            &&& press == Press::DragPoints
            &&& self.pressed_to(f, None, true, true, None, ops)
        }
    }

    /// A press on an anchor, in the same way as on a point; a plain press
    /// on an unselected anchor also drops the point selection.
    pub open spec fn pressed_anchor(&self, a: usize, shift: bool, f: Workspace, press: Press,
        ops: Seq<EngineOp>) -> bool {
        let sel = self.editor.selected@;
        let anch = self.editor.selected_anchors@;
        let fs = f.editor.selected@;
        let fa = f.editor.selected_anchors@;
        if shift && anch.contains(a) {
            fs == sel && less_one(anch, a, fa) && press == Press::Nothing
                && self.pressed_to(f, None, false, false, None, ops)
        } else {
            &&& (shift ==> fs == sel && fa == anch.push(a))
            &&& (!shift && anch.contains(a) ==> fs == sel && fa == anch)
            &&& (!shift && !anch.contains(a) ==> fs.len() == 0 && fa == seq![a])
            &&& press == Press::DragPoints
            &&& self.pressed_to(f, None, true, true, None, ops)
        }
    }

    /// A press on a segment: its points become the selection (with shift
    /// they join it, or leave it when all of them were in it).
    pub open spec fn pressed_segment(&self, ids: Seq<PointId>, shift: bool, f: Workspace, press: Press,
        ops: Seq<EngineOp>) -> bool {
        let sel = self.editor.selected@;
        let fs = f.editor.selected@;
        let comp = self.editor.selected_component;
        &&& f.editor.selected_anchors@.len() == 0
        &&& if shift && covered(sel, ids) {
            less_all(sel, ids, fs) && press == Press::Nothing
                && self.pressed_to(f, comp, false, false, None, ops)
        } else {
            &&& (shift ==> with_all(sel, ids, fs))
            &&& (!shift ==> with_all(Seq::empty(), ids, fs))
            &&& press == Press::DragPoints
            &&& self.pressed_to(f, comp, true, true, None, ops)
        }
    }

    /// A press on a point of master `m`: the anchor selection clears, the
    /// editor switches to `m` as Switch Master does, and the point is
    /// selected alone.
    pub open spec fn pressed_other_master(&self, m: usize, id: PointId, f: Workspace, press: Press,
        ops: Seq<EngineOp>) -> bool {
        &&& press == Press::MasterSwitched
        &&& f.editor.selected@ == seq![id]
        &&& exists|c: Workspace, mid: Workspace| {
            &&& c == (Workspace {
                editor: EditorState { selected_anchors: c.editor.selected_anchors, ..self.editor },
                ..*self
            })
            &&& c.editor.selected_anchors@.len() == 0
            &&& #[trigger] c.master_switched(m, mid, ops)
            &&& f == (Workspace { editor: EditorState { selected: f.editor.selected, ..mid.editor }, ..mid })
        }
    }

    /// What a press on `target`, with shift held or not, leaves in the
    /// editor: the state `f`, the drag `press` and the engine operations
    /// `ops`. A press past the points and anchors clears the anchor
    /// selection; a sidebearing edge drags; a component is selected alone
    /// and drags unless it follows an anchor; a guide drags with nothing
    /// selected; nothing under the press starts a selection rectangle,
    /// clearing the selection unless shift is held.
    pub open spec fn pressed(&self, target: PressTarget, shift: bool, f: Workspace, press: Press,
        ops: Seq<EngineOp>) -> bool {
        let sel = self.editor.selected@;
        let fs = f.editor.selected@;
        let fa = f.editor.selected_anchors@;
        match target {
            PressTarget::TransformHandle => {
                fs == sel && fa == self.editor.selected_anchors@ && press == Press::Transform
                    && self.pressed_to(f, self.editor.selected_component, true, true, None, ops)
            },
            PressTarget::TrajectoryKnob => {
                fs == sel && fa == self.editor.selected_anchors@ && press == Press::DragKnob
                    && self.pressed_to(f, self.editor.selected_component, true, false, None, ops)
            },
            PressTarget::Point(id) => self.pressed_point(id, shift, f, press, ops),
            PressTarget::Anchor(a) => self.pressed_anchor(a, shift, f, press, ops),
            PressTarget::Sidebearing(right) => {
                fs == sel && fa.len() == 0 && press == Press::DragSidebearing(right)
                    && self.pressed_to(f, self.editor.selected_component, true, true, None, ops)
            },
            PressTarget::Segment(ids) => self.pressed_segment(ids@, shift, f, press, ops),
            PressTarget::Component(c, aligned) => {
                &&& fs.len() == 0
                &&& fa.len() == 0
                &&& if aligned {
                    press == Press::ComponentLocked
                        && self.pressed_to(f, Some(c), false, false, Some(StatusNote::ComponentAnchorLocked), ops)
                } else {
                    press == Press::DragComponent(c) && self.pressed_to(f, Some(c), true, true, None, ops)
                }
            },
            PressTarget::OtherMaster(m, id) => self.pressed_other_master(m, id, f, press, ops),
            PressTarget::Guide(g) => {
                fs.len() == 0 && fa.len() == 0 && press == Press::DragGuide(g)
                    && self.pressed_to(f, None, true, false, None, ops)
            },
            PressTarget::Empty => {
                &&& fa.len() == 0
                &&& (shift ==> fs == sel)
                &&& (!shift ==> fs.len() == 0)
                &&& press == Press::Marquee
                &&& self.pressed_to(f, None, true, false, None, ops)
            },
        }
    }

    fn start_edit_drag(&mut self, index: usize) -> (ops: Vec<EngineOp>)
        ensures
            *final(self) == (Workspace {
                editor: EditorState { dragging: true, ..old(self).editor },
                nudging: false,
                ..*old(self)
            }),
            ops@ == old(self).press_undo(index),
    {
        let ops = self.push_undo_snapshot(index);
        assert(ops@ =~= old(self).press_undo(index));
        self.editor.dragging = true;
        ops
    }

    fn press_point(&mut self, index: usize, id: PointId, shift: bool) -> (r: (Press, Vec<EngineOp>))
        requires
            old(self).mode == Mode::Editor(index),
        ensures
            old(self).pressed_point(id, shift, *final(self), r.0, r.1@),
    {
        let ghost o = *self;
        self.editor.selected_component = None;
        let had = has_point(&self.editor.selected, id);
        if shift {
            if had {
                self.editor.selected = without_point(&self.editor.selected, id);
                return (Press::Nothing, Vec::new());
            }
            self.editor.selected.push(id);
            assert forall|q: PointId| #[trigger] self.editor.selected@.contains(q)
                <==> (o.editor.selected@.contains(q) || seq![id].contains(q)) by {
                lemma_push_contains(o.editor.selected@, id, q);
                if q == id {
                    assert(seq![id][0] == q);
                }
            }
        } else if !had {
            self.editor.selected.clear();
            self.editor.selected.push(id);
            assert(self.editor.selected@ =~= seq![id]);
        }
        let ops = self.start_edit_drag(index);
        (Press::DragPoints, ops)
    }

    fn press_anchor(&mut self, index: usize, a: usize, shift: bool) -> (r: (Press, Vec<EngineOp>))
        requires
            old(self).mode == Mode::Editor(index),
        ensures
            old(self).pressed_anchor(a, shift, *final(self), r.0, r.1@),
    {
        self.editor.selected_component = None;
        let already = has_anchor(&self.editor.selected_anchors, a);
        if shift {
            if already {
                self.editor.selected_anchors = without_anchor(&self.editor.selected_anchors, a);
                return (Press::Nothing, Vec::new());
            }
            self.editor.selected_anchors.push(a);
        } else if !already {
            self.editor.selected.clear();
            self.editor.selected_anchors.clear();
            self.editor.selected_anchors.push(a);
            assert(self.editor.selected_anchors@ =~= seq![a]);
        }
        let ops = self.start_edit_drag(index);
        (Press::DragPoints, ops)
    }

    fn press_segment(&mut self, index: usize, ids: Vec<PointId>, shift: bool) -> (r: (Press, Vec<EngineOp>))
        requires
            old(self).mode == Mode::Editor(index),
        ensures
            old(self).pressed_segment(ids@, shift, *final(self), r.0, r.1@),
    {
        self.editor.selected_anchors.clear();
        if shift {
            if covers(&self.editor.selected, &ids) {
                self.editor.selected = without_points(&self.editor.selected, &ids);
                return (Press::Nothing, Vec::new());
            }
            self.editor.selected = with_points(&self.editor.selected, &ids);
        } else {
            let none: Vec<PointId> = Vec::new();
            self.editor.selected = with_points(&none, &ids);
        }
        let ops = self.start_edit_drag(index);
        (Press::DragPoints, ops)
    }

    fn press_other_master(&mut self, m: usize, id: PointId) -> (r: (Press, Vec<EngineOp>))
        requires
            old(self).refs_ok(),
        ensures
            old(self).pressed_other_master(m, id, *final(self), r.0, r.1@),
    {
        self.editor.selected_anchors.clear();
        let ghost c = *self;
        let ops = self.switch_master(m);
        let ghost mid = *self;
        self.editor.selected.clear();
        self.editor.selected.push(id);
        assert(self.editor.selected@ =~= seq![id]);
        assert(c.master_switched(m, mid, ops@));
        (Press::MasterSwitched, ops)
    }

    /// A press of the select tool, once the canvas has found what lies
    /// under it; see `pressed` for what it selects and starts. A drag
    /// that edits records an undo step first. Nothing happens when no
    /// glyph is open in the editor.
    pub fn select_press(&mut self, target: PressTarget, shift: bool) -> (r: (Press, Vec<EngineOp>))
        requires
            old(self).refs_ok(),
        ensures
            !(old(self).mode is Editor) ==> *final(self) == *old(self) && r.0 == Press::Nothing && r.1@.len() == 0,
            old(self).mode is Editor ==> old(self).pressed(target, shift, *final(self), r.0, r.1@),
    {
        let Mode::Editor(index) = self.mode else {
            return (Press::Nothing, Vec::new());
        };
        match target {
            PressTarget::TransformHandle => {
                let ops = self.start_edit_drag(index);
                (Press::Transform, ops)
            },
            PressTarget::TrajectoryKnob => {
                self.editor.dragging = true;
                (Press::DragKnob, Vec::new())
            },
            PressTarget::Point(id) => self.press_point(index, id, shift),
            PressTarget::Anchor(a) => self.press_anchor(index, a, shift),
            PressTarget::Sidebearing(right) => {
                self.editor.selected_anchors.clear();
                let ops = self.start_edit_drag(index);
                (Press::DragSidebearing(right), ops)
            },
            PressTarget::Segment(ids) => self.press_segment(index, ids, shift),
            PressTarget::Component(c, aligned) => {
                self.editor.selected_anchors.clear();
                self.editor.selected_component = Some(c);
                self.editor.selected.clear();
                if aligned {
                    self.status_note = Some(StatusNote::ComponentAnchorLocked);
                    return (Press::ComponentLocked, Vec::new());
                }
                let ops = self.start_edit_drag(index);
                (Press::DragComponent(c), ops)
            },
            PressTarget::OtherMaster(m, id) => self.press_other_master(m, id),
            PressTarget::Guide(g) => {
                self.editor.selected_anchors.clear();
                self.editor.selected_component = None;
                self.editor.selected.clear();
                self.editor.dragging = true;
                (Press::DragGuide(g), Vec::new())
            },
            PressTarget::Empty => {
                self.editor.selected_anchors.clear();
                self.editor.selected_component = None;
                if !shift {
                    self.editor.selected.clear();
                }
                self.editor.dragging = true;
                (Press::Marquee, Vec::new())
            },
        }
    }
}


/// Which tool takes a press in the editor.
#[derive(PartialEq, Eq, Debug)]
pub enum PressRoute {
    /// No glyph is open in the editor.
    Ignored,
    /// The text tool places the cursor.
    TextClick,
    /// A knife line starts.
    Knife,
    HyperPen,
    Pen,
    /// The preview shows an interpolated instance: the view moves, and
    /// the status bar says why nothing else does.
    InstancePan,
    /// The preview tool moves the view.
    Pan,
    /// A rectangle or ellipse starts.
    Shape,
    /// A measuring line starts.
    Measure,
    /// The select tool with alt: a line under the press turns into a
    /// curve, else the view moves.
    AltSelect,
    /// The select tool: see `select_press`.
    Select,
}

/// The tool a press goes to, for the current `tool`, with alt held or
/// not, when the preview does or does not show an interpolated instance.
/// The drawing tools come first; an instance is never edited.
pub open spec fn route_of(tool: Tool, alt: bool, instance: bool) -> PressRoute {
    if tool == Tool::Text {
        PressRoute::TextClick
    } else if tool == Tool::Knife {
        PressRoute::Knife
    } else if tool == Tool::HyperPen {
        PressRoute::HyperPen
    } else if tool == Tool::Pen {
        PressRoute::Pen
    } else if instance {
        PressRoute::InstancePan
    } else if tool == Tool::Preview {
        PressRoute::Pan
    } else if tool == Tool::Shapes {
        PressRoute::Shape
    } else if tool == Tool::Measure {
        PressRoute::Measure
    } else if alt {
        PressRoute::AltSelect
    } else {
        PressRoute::Select
    }
}

/// Whether the route starts a drag at once.
pub open spec fn route_drags(r: PressRoute) -> bool {
    r == PressRoute::Knife || r == PressRoute::InstancePan || r == PressRoute::Pan || r == PressRoute::Shape
        || r == PressRoute::Measure
}

impl Workspace {
    /// The state, and the engine operations, once a press has ended any
    /// nudge burst and fitted the view to the open glyph if it was not
    /// yet.
    pub open spec fn press_fitted(&self) -> (Workspace, Seq<EngineOp>) {
        let w = Workspace { nudging: false, ..*self };
        if !w.editor.initialized && w.mode is Editor && w.has_font() {
            (Workspace { editor: EditorState { initialized: true, ..w.editor }, ..w }, seq![EngineOp::FitEditor(w.mode->0)])
        } else {
            (w, Seq::empty())
        }
    }

    /// Whether `f`, `r` and `ops` are what routing a press leaves.
    pub open spec fn routed(&self, alt: bool, instance: bool, f: Workspace, r: PressRoute, ops: Seq<EngineOp>) -> bool {
        let (g, fit) = self.press_fitted();
        &&& ops == fit
        &&& if !(self.mode is Editor) {
            r == PressRoute::Ignored && f == g
        } else {
            &&& r == route_of(self.editor.tool, alt, instance)
            &&& f == if route_drags(r) {
                Workspace {
                    editor: EditorState { dragging: true, ..g.editor },
                    status_note: if r == PressRoute::InstancePan { Some(StatusNote::InstanceView) } else { g.status_note },
                    ..g
                }
            } else {
                g
            }
        }
    }

    /// A press in the editor: it ends any nudge burst and fits the view
    /// to the open glyph when that was not done, then goes to the tool
    /// that takes it. `instance` says whether the preview shows an
    /// interpolated instance.
    pub fn press_route(&mut self, alt: bool, instance: bool) -> (r: (PressRoute, Vec<EngineOp>))
        requires
            old(self).refs_ok(),
        ensures
            old(self).routed(alt, instance, *final(self), r.0, r.1@),
    {
        self.nudging = false;
        let ops = self.ensure_editor_fit();
        proof {
            if ops@.len() == 0 {
                assert(ops@ =~= Seq::<EngineOp>::empty());
            }
        }
        let Mode::Editor(_) = self.mode else {
            return (PressRoute::Ignored, ops);
        };
        let tool = self.editor.tool;
        let route = if tool == Tool::Text {
            PressRoute::TextClick
        } else if tool == Tool::Knife {
            PressRoute::Knife
        } else if tool == Tool::HyperPen {
            PressRoute::HyperPen
        } else if tool == Tool::Pen {
            PressRoute::Pen
        } else if instance {
            PressRoute::InstancePan
        } else if tool == Tool::Preview {
            PressRoute::Pan
        } else if tool == Tool::Shapes {
            PressRoute::Shape
        } else if tool == Tool::Measure {
            PressRoute::Measure
        } else if alt {
            PressRoute::AltSelect
        } else {
            PressRoute::Select
        };
        match route {
            PressRoute::Knife | PressRoute::Pan | PressRoute::Shape | PressRoute::Measure => {
                self.editor.dragging = true;
            },
            PressRoute::InstancePan => {
                self.editor.dragging = true;
                self.status_note = Some(StatusNote::InstanceView);
            },
            _ => {},
        }
        (route, ops)
    }

    /// An alt-press of the select tool: a line segment under it (its
    /// points) turns into a curve, undoably; with none the view moves.
    /// Nothing happens outside the editor.
    pub fn alt_press(&mut self, line: Option<Vec<PointId>>) -> (r: (Press, Vec<EngineOp>))
        ensures
            !(old(self).mode is Editor) ==> *final(self) == *old(self) && r.0 == Press::Nothing && r.1@.len() == 0,
            old(self).mode is Editor ==> match line {
                Some(seg) => r.0 == Press::LineToCurve
                    && r.1@ == old(self).edit_ops(old(self).mode->0, EngineOp::LineToCurve(old(self).mode->0, seg))
                    && *final(self) == (Workspace { nudging: false, ..*old(self) }),
                None => r.0 == Press::Pan && r.1@.len() == 0
                    && *final(self) == (Workspace { editor: EditorState { dragging: true, ..old(self).editor }, ..*old(self) }),
            },
    {
        let Mode::Editor(index) = self.mode else {
            return (Press::Nothing, Vec::new());
        };
        match line {
            Some(seg) => (Press::LineToCurve, self.edit_request(index, EngineOp::LineToCurve(index, seg))),
            None => {
                self.editor.dragging = true;
                (Press::Pan, Vec::new())
            },
        }
    }

    /// A line turned into a curve, once the engine answers with the new
    /// handles, which become the selection; none means nothing changed,
    /// and the undo step is dropped again.
    pub fn finish_line_to_curve(&mut self, handles: Option<Vec<PointId>>) -> (ops: Vec<EngineOp>)
        ensures
            match handles {
                Some(h) => *final(self) == (Workspace { editor: EditorState { selected: h, ..old(self).editor }, ..*old(self) })
                    && ops@.len() == 0,
                None => *final(self) == *old(self) && ops@ == old(self).discard_ops(),
            },
    {
        match handles {
            Some(h) => {
                self.editor.selected = h;
                Vec::new()
            },
            None => self.discard_request(),
        }
    }
}

} // verus!
