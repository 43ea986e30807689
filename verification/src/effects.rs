//! Outline edits the engine computes: curve conversion, corner glyphs,
//! paste, extrude and roughen. The shell parses the fields, decides,
//! records undo, and settles the answer.
use vstd::prelude::*;
use crate::model::{EditorState, EngineOp, Mode, PointId, StatusNote, Tool, Workspace};
use crate::text::{chars_of, find, find_at, joined, slice, starts_with, has_prefix, string_of, trim, trimmed};

verus! {

/// The name of a corner glyph: `chamfer` and `_corner.chamfer` both
/// name `_corner.chamfer`.
pub open spec fn corner_name(name: Seq<char>) -> Seq<char> {
    if starts_with(name, "_corner."@) { name } else { "_corner."@ + name }
}

/// Text up to the first comma.
pub open spec fn first_piece(s: Seq<char>) -> Seq<char> {
    match find(s, seq![',']) {
        Some(i) => s.subrange(0, i),
        None => s,
    }
}

/// Text after the first comma, when there is one.
pub open spec fn after_comma(s: Seq<char>) -> Option<Seq<char>> {
    match find(s, seq![',']) {
        Some(i) => Some(s.subrange(i + 1, s.len() as int)),
        None => None,
    }
}

/// The `n`-th comma-separated field of `s`, trimmed, when there is one.
pub open spec fn field(s: Seq<char>, n: nat) -> Option<Seq<char>>
    decreases n,
{
    if n == 0 {
        Some(trim(first_piece(s)))
    } else {
        match after_comma(s) {
            Some(rest) => field(rest, (n - 1) as nat),
            None => None,
        }
    }
}

/// `s` without its leading `k`s and `K`s.
pub open spec fn strip_k(s: Seq<char>) -> Seq<char>
    decreases s.len(),
{
    if s.len() > 0 && (s[0] == 'k' || s[0] == 'K') { strip_k(s.drop_first()) } else { s }
}

/// The extrude field without its keep-front mark.
pub open spec fn extrude_body(text: Seq<char>) -> Seq<char> {
    trim(strip_k(trim(text)))
}

/// Whether the extrude field asks to keep the front face.
pub open spec fn keeps_front(text: Seq<char>) -> bool {
    let t = trim(text);
    t.len() > 0 && (t[0] == 'k' || t[0] == 'K')
}

fn comma() -> (r: Vec<char>)
    ensures
        r@ == seq![','],
{
    let mut r = Vec::new();
    r.push(',');
    r
}

/// The `n`-th comma-separated field of `s`, trimmed.
pub(crate) fn field_of(s: &Vec<char>, n: usize) -> (r: Option<Vec<char>>)
    ensures
        r matches Some(f) ==> field(s@, n as nat) == Some(f@),
        r is None ==> field(s@, n as nat) is None,
    decreases n,
{
    let c = comma();
    proof { crate::chat::lemma_find_from_zero(s@, c@); }
    let at = find_at(s, &c, 0);
    if n == 0 {
        let first = match at {
            Some(i) => slice(s, 0, i),
            None => slice(s, 0, s.len()),
        };
        assert(at is None ==> first@ =~= s@);
        return Some(trimmed(&first));
    }
    match at {
        Some(i) => {
            assert(find(s@, c@) == Some(i as int));
            assert(c@.len() == 1);
            assert(i + 1 <= s@.len());
            assert(s@.len() == s.len());
            let rest = slice(s, i + 1, s.len());
            field_of(&rest, n - 1)
        },
        None => None,
    }
}

/// The fields of the extrude text: whether the front face stays, the
/// offset field and the angle field, each trimmed, when present.
pub fn extrude_fields(text: &str) -> (r: (bool, Option<String>, Option<String>))
    ensures
        r.0 == keeps_front(text@),
        r.1 matches Some(f) ==> field(extrude_body(text@), 0) == Some(f@),
        r.1 is None ==> field(extrude_body(text@), 0) is None,
        r.2 matches Some(f) ==> field(extrude_body(text@), 1) == Some(f@),
        r.2 is None ==> field(extrude_body(text@), 1) is None,
{
    let t = trimmed(&chars_of(text));
    let keep = t.len() > 0 && (t[0] == 'k' || t[0] == 'K');
    let mut k: usize = 0;
    assert(t@.subrange(0, t@.len() as int) =~= t@);
    while k < t.len() && (t[k] == 'k' || t[k] == 'K')
        invariant
            k <= t@.len(),
            strip_k(t@) == strip_k(t@.subrange(k as int, t@.len() as int)),
        decreases t@.len() - k,
    {
        let ghost rest = t@.subrange(k as int, t@.len() as int);
        assert(rest.drop_first() =~= t@.subrange(k + 1, t@.len() as int));
        k += 1;
    }
    let body = trimmed(&slice(&t, k, t.len()));
    let offset = match field_of(&body, 0) {
        Some(f) => Some(string_of(&f)),
        None => None,
    };
    let angle = match field_of(&body, 1) {
        Some(f) => Some(string_of(&f)),
        None => None,
    };
    (keep, offset, angle)
}

/// The fields of the roughen text: segment length, horizontal and
/// vertical amounts, each trimmed, when present.
pub fn roughen_fields(text: &str) -> (r: (Option<String>, Option<String>, Option<String>))
    ensures
        r.0 matches Some(f) ==> field(trim(text@), 0) == Some(f@),
        r.0 is None ==> field(trim(text@), 0) is None,
        r.1 matches Some(f) ==> field(trim(text@), 1) == Some(f@),
        r.1 is None ==> field(trim(text@), 1) is None,
        r.2 matches Some(f) ==> field(trim(text@), 2) == Some(f@),
        r.2 is None ==> field(trim(text@), 2) is None,
{
    let t = trimmed(&chars_of(text));
    let a = match field_of(&t, 0) {
        Some(f) => Some(string_of(&f)),
        None => None,
    };
    let b = match field_of(&t, 1) {
        Some(f) => Some(string_of(&f)),
        None => None,
    };
    let c = match field_of(&t, 2) {
        Some(f) => Some(string_of(&f)),
        None => None,
    };
    (a, b, c)
}

/// The contour indices of a point selection, once each.
pub open spec fn contours_of(sel: Seq<PointId>, r: Seq<usize>) -> bool {
    &&& r.no_duplicates()
    &&& forall|c: usize| #[trigger] r.contains(c) <==> exists|i: int| 0 <= i < sel.len() && sel[i].0 == c
}

pub(crate) fn selected_contours(sel: &Vec<PointId>) -> (r: Vec<usize>)
    ensures
        contours_of(sel@, r@),
{
    let mut r: Vec<usize> = Vec::new();
    let mut i: usize = 0;
    while i < sel.len()
        invariant
            i <= sel@.len(),
            r@.no_duplicates(),
            forall|c: usize| #[trigger] r@.contains(c) <==> exists|j: int| 0 <= j < i && sel@[j].0 == c,
        decreases sel@.len() - i,
    {
        let c = sel[i].0;
        let ghost before = r@;
        let mut seen = false;
        let mut k: usize = 0;
        while k < r.len()
            invariant
                k <= r@.len(),
                r@ == before,
                seen == exists|j: int| 0 <= j < k && r@[j] == c,
            decreases r@.len() - k,
        {
            if r[k] == c {
                seen = true;
            }
            k += 1;
        }
        if !seen {
            r.push(c);
        }
        proof {
            assert forall|x: usize| #[trigger] r@.contains(x) <==> exists|j: int| 0 <= j < i + 1 && sel@[j].0 == x by {
                if r@.contains(x) {
                    let w = choose|w: int| 0 <= w < r@.len() && r@[w] == x;
                    if w < before.len() {
                        assert(before.contains(x));
                    } else {
                        assert(sel@[i as int].0 == x);
                    }
                }
                if exists|j: int| 0 <= j < i + 1 && sel@[j].0 == x {
                    let j = choose|j: int| 0 <= j < i + 1 && sel@[j].0 == x;
                    if j < i {
                        assert(before.contains(x));
                        let w = choose|w: int| 0 <= w < before.len() && before[w] == x;
                        assert(r@[w] == x);
                    } else if seen {
                        let w = choose|w: int| 0 <= w < before.len() && before[w] == c;
                        assert(r@[w] == x);
                    } else {
                        assert(r@[before.len() as int] == x);
                    }
                }
            }
            if !seen {
                assert forall|a: int, b: int| 0 <= a < b < r@.len() implies r@[a] != r@[b] by {
                    if b == before.len() {
                        assert(before[a] == r@[a]);
                    }
                }
            }
        }
        i += 1;
    }
    r
}

impl Workspace {
    /// Convert the current glyph's curves (to cubic, or to quadratic) in
    /// every master: the request. In the editor the step is undoable.
    pub fn command_convert_curves(&mut self, to_cubic: bool) -> (ops: Vec<EngineOp>)
        requires
            old(self).refs_ok(),
        ensures
            old(self).current_glyph() is None ==> *final(self) == *old(self) && ops@.len() == 0,
            old(self).current_glyph() is Some ==> {
                let undo = if old(self).mode is Editor { old(self).undo_ops(old(self).mode->0) } else { Seq::empty() };
                &&& *final(self) == (Workspace {
                    nudging: if old(self).mode is Editor { false } else { old(self).nudging },
                    ..*old(self)
                })
                &&& ops@ == if old(self).project is Some {
                    undo + seq![
                        EngineOp::ConvertCurves(old(self).project->0.active_master().glyphs@[old(self).current_glyph()->0 as int].name, to_cubic),
                        EngineOp::ComputeCompat,
                    ]
                } else {
                    undo
                }
            },
    {
        let Some(index) = self.current_glyph_index() else {
            return Vec::new();
        };
        let mut ops = if let Mode::Editor(i) = self.mode {
            self.push_undo_snapshot(i)
        } else {
            Vec::new()
        };
        if let Some(p) = &self.project {
            let name = p.masters[p.active].glyphs[index].name.clone();
            ops.push(EngineOp::ConvertCurves(name, to_cubic));
            ops.push(EngineOp::ComputeCompat);
        }
        ops
    }

    /// The conversion, once the engine says in how many masters it
    /// converted: the point selection is cleared either way.
    pub fn finish_convert_curves(&mut self, to_cubic: bool, converted: usize)
        ensures
            final(self).editor.selected@.len() == 0,
            *final(self) == (Workspace {
                editor: EditorState { selected: final(self).editor.selected, ..old(self).editor },
                status_note: Some(StatusNote::ConvertedCurves(to_cubic, converted)),
                ..*old(self)
            }),
    {
        self.editor.selected.clear();
        self.status_note = Some(StatusNote::ConvertedCurves(to_cubic, converted));
    }

    /// The request to apply the corner glyph `name` at `node`: none
    /// without a current glyph; else the corner, by its full name, at the
    /// node of the current glyph.
    pub open spec fn corner_request(&self, node: PointId, name: Seq<char>, ops: Seq<EngineOp>) -> bool {
        if !(self.current_glyph() is Some && self.project is Some) {
            ops.len() == 0
        } else {
            &&& ops.len() == 1
            &&& ops[0] matches EngineOp::ApplyCorner(corner, glyph, at)
            &&& corner@ == corner_name(name)
            &&& glyph == self.project->0.active_master().glyphs@[self.current_glyph()->0 as int].name
            &&& at == node
        }
    }

    /// Apply a corner glyph at a node of the current glyph, in every
    /// master: the request. The name may leave out `_corner.`.
    pub fn command_apply_corner(&self, node: PointId, name: &str) -> (ops: Vec<EngineOp>)
        requires
            self.refs_ok(),
        ensures
            self.corner_request(node, name@, ops@),
    {
        let mut ops = Vec::new();
        let Some(index) = self.current_glyph_index() else {
            return ops;
        };
        let Some(p) = &self.project else {
            return ops;
        };
        let glyph = p.masters[p.active].glyphs[index].name.clone();
        let given = chars_of(name);
        let prefix = chars_of("_corner.");
        let corner = if has_prefix(&given, &prefix) {
            given
        } else {
            joined(&prefix, &given)
        };
        ops.push(EngineOp::ApplyCorner(string_of(&corner), glyph, node));
        ops
    }

    /// The corner, once the engine says in how many masters it applied.
    /// None: the status bar says what is needed. Otherwise compatibility
    /// is checked again and the point selection cleared.
    pub fn finish_apply_corner(&mut self, corner: String, applied: usize) -> (ops: Vec<EngineOp>)
        ensures
            applied == 0 ==> ops@.len() == 0
                && *final(self) == (Workspace { status_note: Some(StatusNote::NoCornerApplied(corner)), ..*old(self) }),
            applied > 0 ==> {
                &&& ops@ == seq![EngineOp::ComputeCompat]
                &&& final(self).editor.selected@.len() == 0
                &&& *final(self) == (Workspace {
                    editor: EditorState { selected: final(self).editor.selected, ..old(self).editor },
                    status_note: Some(StatusNote::CornerApplied(corner, applied)),
                    ..*old(self)
                })
            },
    {
        let mut ops = Vec::new();
        if applied == 0 {
            self.status_note = Some(StatusNote::NoCornerApplied(corner));
            return ops;
        }
        ops.push(EngineOp::ComputeCompat);
        self.editor.selected.clear();
        self.status_note = Some(StatusNote::CornerApplied(corner, applied));
        ops
    }

    /// Whether `f` and `ops` are what pasting leaves.
    pub open spec fn pasted(&self, f: Workspace, ops: Seq<EngineOp>) -> bool {
        if !(self.current_glyph() is Some && self.clipboard > 0) {
            f == *self && ops.len() == 0
        } else {
            let i = self.current_glyph()->0;
            &&& f == (Workspace { nudging: false, ..*self })
            &&& ops == if self.has_font() {
                seq![EngineOp::RecordUndo(i), EngineOp::PasteContours(i),
                    EngineOp::RecheckCompat(self.project->0.active_master().glyphs@[i as int].name)]
            } else {
                Seq::empty()
            }
        }
    }

    /// Paste the copied contours into the current glyph, undoably, and
    /// check its compatibility again. Nothing happens with nothing
    /// copied.
    pub fn command_paste(&mut self) -> (ops: Vec<EngineOp>)
        requires
            old(self).refs_ok(),
        ensures
            old(self).pasted(*final(self), ops@),
    {
        let Some(index) = self.current_glyph_index() else {
            return Vec::new();
        };
        if self.clipboard == 0 {
            return Vec::new();
        }
        let mut ops = self.push_undo_snapshot(index);
        if let Some(p) = &self.project {
            ops.push(EngineOp::PasteContours(index));
            let name = p.masters[p.active].glyphs[index].name.clone();
            ops.push(EngineOp::RecheckCompat(name));
        }
        proof {
            if !old(self).has_font() {
                assert(ops@ =~= Seq::<EngineOp>::empty());
            } else {
                assert(ops@ =~= seq![EngineOp::RecordUndo(index), EngineOp::PasteContours(index),
                    EngineOp::RecheckCompat(old(self).project->0.active_master().glyphs@[index as int].name)]);
            }
        }
        ops
    }

    /// Route Cmd+V: copied contours paste unless the Text tool is in
    /// hand in the editor; otherwise the system clipboard's text types
    /// into the edit buffer.
    pub fn command_paste_routed(&mut self) -> (ops: Vec<EngineOp>)
        requires
            old(self).refs_ok(),
        ensures
            ((old(self).clipboard > 0 && old(self).editor.tool != Tool::Text) || !(old(self).mode is Editor)) ==> {
                let mut_copy = old(self).current_glyph() is Some && old(self).clipboard > 0;
                if mut_copy {
                    &&& *final(self) == (Workspace { nudging: false, ..*old(self) })
                    &&& ops@ == if old(self).has_font() {
                        let i = old(self).current_glyph()->0;
                        seq![EngineOp::RecordUndo(i), EngineOp::PasteContours(i),
                            EngineOp::RecheckCompat(old(self).project->0.active_master().glyphs@[i as int].name)]
                    } else {
                        Seq::empty()
                    }
                } else {
                    *final(self) == *old(self) && ops@.len() == 0
                }
            },
            !((old(self).clipboard > 0 && old(self).editor.tool != Tool::Text) || !(old(self).mode is Editor)) ==> {
                *final(self) == *old(self) && ops@ == seq![EngineOp::PasteText]
            },
    {
        let text_target = match self.mode {
            Mode::Editor(_) => true,
            _ => false,
        };
        if (self.clipboard > 0 && self.editor.tool != Tool::Text) || !text_target {
            return self.command_paste();
        }
        let mut ops = Vec::new();
        ops.push(EngineOp::PasteText);
        ops
    }

    /// Extrude the open glyph: the request, given the offset and angle
    /// fields that read as numbers (see `extrude_fields`). Nothing happens
    /// outside the editor or without an offset; a missing angle is left
    /// to its default.
    pub fn command_extrude(&mut self, offset: Option<String>, angle: Option<String>, keep_front: bool)
        -> (ops: Option<Vec<EngineOp>>)
        ensures
            !(old(self).mode is Editor && offset is Some) ==> *final(self) == *old(self) && ops is None,
            (old(self).mode is Editor && offset is Some) ==> {
                let i = old(self).mode->0;
                &&& *final(self) == (Workspace { nudging: false, ..*old(self) })
                &&& ops matches Some(v) && v@ == old(self).edit_ops(i, EngineOp::Extrude(i, offset->0, angle, keep_front))
            },
    {
        let Mode::Editor(index) = self.mode else {
            return None;
        };
        let offset = offset?;
        let mut ops = self.push_undo_snapshot(index);
        if self.font_open() {
            ops.push(EngineOp::Extrude(index, offset, angle, keep_front));
            assert(ops@ =~= seq![EngineOp::RecordUndo(index), ops@[1]]);
        }
        Some(ops)
    }

    /// Extrude or roughen, once the engine says whether the outline
    /// changed: nothing changed drops the undo step again, a change clears
    /// the point selection.
    pub fn finish_outline_effect(&mut self, changed: bool) -> (ops: Vec<EngineOp>)
        ensures
            old(self).edit_settled(changed, *final(self), ops@),
    {
        self.settle_edit(changed)
    }

    /// Roughen the open glyph: the request, given the fields that read
    /// as numbers (see `roughen_fields`). Nothing happens outside the
    /// editor or without a segment length; missing amounts are left to
    /// their defaults. Each apply takes the next seed, and only the
    /// contours with selected points roughen, when there are any.
    pub fn command_roughen(&mut self, segment: Option<String>, h: Option<String>, v: Option<String>)
        -> (ops: Option<Vec<EngineOp>>)
        ensures
            !(old(self).mode is Editor && segment is Some) ==> *final(self) == *old(self) && ops is None,
            (old(self).mode is Editor && segment is Some) ==> {
                let i = old(self).mode->0;
                let seed = if old(self).roughen_seed == u64::MAX { 0 } else { (old(self).roughen_seed + 1) as u64 };
                &&& *final(self) == (Workspace { nudging: false, roughen_seed: seed, ..*old(self) })
                &&& ops matches Some(r)
                &&& r@ == if old(self).has_font() {
                    seq![EngineOp::RecordUndo(i), r@[1]]
                } else {
                    Seq::empty()
                }
                &&& old(self).has_font() ==> (r@[1] matches EngineOp::Roughen(at, contours, seg, hh, vv, s)
                    && at == i
                    && contours_of(old(self).editor.selected@, contours@)
                    && seg == segment->0 && hh == h && vv == v && s == seed)
            },
    {
        let Mode::Editor(index) = self.mode else {
            return None;
        };
        let segment = segment?;
        let mut ops = self.push_undo_snapshot(index);
        self.roughen_seed = self.roughen_seed.wrapping_add(1);
        let seed = self.roughen_seed;
        if self.font_open() {
            let contours = selected_contours(&self.editor.selected);
            ops.push(EngineOp::Roughen(index, contours, segment, h, v, seed));
        }
        Some(ops)
    }
}

} // verus!
