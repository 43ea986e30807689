//! Commands that edit the open glyph through the outline engine.
//!
//! Each runs in two steps. The command decides whether there is anything
//! to do, records the undo step, and returns the engine operations in
//! order. Once the engine has run them, the matching `finish_` function
//! takes its answer: an edit that changed nothing asks the engine to drop
//! the undo step it recorded.
use vstd::prelude::*;
use crate::model::{EditorState, EngineOp, Mode, PointId, StatusNote, Workspace};
use crate::points::copy_points;

verus! {

impl Workspace {
    /// The undo request an edit of glyph `i` starts with.
    pub open spec fn undo_ops(&self, i: usize) -> Seq<EngineOp> {
        if self.has_font() { seq![EngineOp::RecordUndo(i)] } else { Seq::empty() }
    }

    /// The undo request followed by the edit itself, when a font is open.
    pub open spec fn edit_ops(&self, i: usize, op: EngineOp) -> Seq<EngineOp> {
        if self.has_font() { seq![EngineOp::RecordUndo(i), op] } else { Seq::empty() }
    }

    /// The request that drops the undo step just recorded for the current
    /// glyph, for an edit that changed nothing.
    pub open spec fn discard_ops(&self) -> Seq<EngineOp> {
        match self.current_glyph() {
            Some(i) => if self.has_font() { seq![EngineOp::DiscardLastUndo(i)] } else { Seq::empty() },
            None => Seq::empty(),
        }
    }

    pub(crate) fn discard_request(&self) -> (ops: Vec<EngineOp>)
        ensures
            ops@ == self.discard_ops(),
    {
        match self.current_glyph_index() {
            Some(i) => {
                let ops = self.discard_last_undo(i);
                assert(ops@ =~= self.discard_ops());
                ops
            },
            None => Vec::new(),
        }
    }

    /// The engine operations an edit's answer leads to: the recorded undo
    /// step dropped when nothing changed, nothing otherwise.
    pub open spec fn settle_ops(&self, changed: bool) -> Seq<EngineOp> {
        if changed { Seq::empty() } else { self.discard_ops() }
    }

    /// The undo request, then `op` when a font is open.
    pub(crate) fn edit_request(&mut self, index: usize, op: EngineOp) -> (ops: Vec<EngineOp>)
        ensures
            *final(self) == (Workspace { nudging: false, ..*old(self) }),
            ops@ == old(self).edit_ops(index, op),
    {
        let mut ops = self.push_undo_snapshot(index);
        if self.font_open() {
            ops.push(op);
            assert(ops@ =~= seq![EngineOp::RecordUndo(index), op]);
        }
        ops
    }

    /// Path > Tidy up Paths on the current glyph: the request.
    pub fn command_tidy_paths(&mut self) -> (ops: Option<Vec<EngineOp>>)
        ensures
            old(self).current_glyph() is None ==> *final(self) == *old(self) && ops is None,
            old(self).current_glyph() matches Some(i) ==> {
                &&& *final(self) == (Workspace { nudging: false, ..*old(self) })
                &&& ops matches Some(v) && v@ == old(self).edit_ops(i, EngineOp::TidyContours(i))
            },
    {
        let index = self.current_glyph_index()?;
        Some(self.edit_request(index, EngineOp::TidyContours(index)))
    }

    /// Tidy up Paths, once the engine says how many points went: nothing
    /// removed drops the undo step again.
    pub fn finish_tidy_paths(&mut self, removed: usize) -> (ops: Vec<EngineOp>)
        ensures
            *final(self) == (Workspace { status_note: Some(StatusNote::TidyPaths(removed)), ..*old(self) }),
            ops@ == old(self).settle_ops(removed > 0),
    {
        let ops = if removed == 0 { self.discard_request() } else { Vec::new() };
        self.status_note = Some(StatusNote::TidyPaths(removed));
        ops
    }

    /// Path > Correct Path Direction on the current glyph: the request.
    pub fn command_correct_path_direction(&mut self) -> (ops: Option<Vec<EngineOp>>)
        ensures
            old(self).current_glyph() is None ==> *final(self) == *old(self) && ops is None,
            old(self).current_glyph() matches Some(i) ==> {
                &&& *final(self) == (Workspace { nudging: false, ..*old(self) })
                &&& ops matches Some(v) && v@ == old(self).edit_ops(i, EngineOp::CorrectPathDirections(i))
            },
    {
        let index = self.current_glyph_index()?;
        Some(self.edit_request(index, EngineOp::CorrectPathDirections(index)))
    }

    /// Correct Path Direction, once the engine says how many contours it
    /// reversed.
    pub fn finish_correct_path_direction(&mut self, flipped: usize) -> (ops: Vec<EngineOp>)
        ensures
            *final(self) == (Workspace { status_note: Some(StatusNote::CorrectPathDirection(flipped)), ..*old(self) }),
            ops@ == old(self).settle_ops(flipped > 0),
    {
        let ops = if flipped == 0 { self.discard_request() } else { Vec::new() };
        self.status_note = Some(StatusNote::CorrectPathDirection(flipped));
        ops
    }

    /// Path > Round Coordinates on the current glyph: the request.
    pub fn command_round_coordinates(&mut self) -> (ops: Option<Vec<EngineOp>>)
        ensures
            old(self).current_glyph() is None ==> *final(self) == *old(self) && ops is None,
            old(self).current_glyph() matches Some(i) ==> {
                &&& *final(self) == (Workspace { nudging: false, ..*old(self) })
                &&& ops matches Some(v) && v@ == old(self).edit_ops(i, EngineOp::RoundCoordinates(i))
            },
    {
        let index = self.current_glyph_index()?;
        Some(self.edit_request(index, EngineOp::RoundCoordinates(index)))
    }

    /// Round Coordinates, once the engine says how many points moved.
    pub fn finish_round_coordinates(&mut self, moved: usize) -> (ops: Vec<EngineOp>)
        ensures
            *final(self) == (Workspace { status_note: Some(StatusNote::RoundCoordinates(moved)), ..*old(self) }),
            ops@ == old(self).settle_ops(moved > 0),
    {
        let ops = if moved == 0 { self.discard_request() } else { Vec::new() };
        self.status_note = Some(StatusNote::RoundCoordinates(moved));
        ops
    }

    /// The request of an editor-only edit: nothing outside the editor.
    pub open spec fn editor_edit(&self, f: Workspace, ops: Option<Vec<EngineOp>>, op: EngineOp) -> bool {
        match self.mode {
            Mode::Editor(i) => {
                &&& f == (Workspace { nudging: false, ..*self })
                &&& ops matches Some(v) && v@ == self.edit_ops(i, op)
            },
            _ => f == *self && ops is None,
        }
    }

    /// Whether `f` and `ops` are what an editor edit leaves: the undo
    /// step dropped when nothing changed, the point selection cleared
    /// otherwise.
    pub open spec fn edit_settled(&self, changed: bool, f: Workspace, ops: Seq<EngineOp>) -> bool {
        &&& ops == self.settle_ops(changed)
        &&& if changed {
            &&& f.editor.selected@.len() == 0
            &&& f == (Workspace { editor: EditorState { selected: f.editor.selected, ..self.editor }, ..*self })
        } else {
            f == *self
        }
    }

    pub(crate) fn settle_edit(&mut self, changed: bool) -> (ops: Vec<EngineOp>)
        ensures
            old(self).edit_settled(changed, *final(self), ops@),
    {
        if !changed {
            self.discard_request()
        } else {
            self.editor.selected.clear();
            Vec::new()
        }
    }

    /// Remove overlap on the open glyph: the request.
    pub fn command_remove_overlap(&mut self) -> (ops: Option<Vec<EngineOp>>)
        ensures
            old(self).editor_edit(*final(self), ops, EngineOp::RemoveOverlap(old(self).mode->0)),
    {
        let Mode::Editor(index) = self.mode else {
            return None;
        };
        Some(self.edit_request(index, EngineOp::RemoveOverlap(index)))
    }

    /// Remove overlap, once the engine says whether the outline changed.
    /// A change is noted in the journal.
    pub fn finish_remove_overlap(&mut self, index: usize, changed: bool)
        -> (r: (Option<crate::session::JournalEntry>, Vec<EngineOp>))
        requires
            old(self).has_font() ==> index < old(self).project->0.active_master().glyphs@.len(),
        ensures
            old(self).edit_settled(changed, *final(self), r.1@),
            !changed ==> r.0 is None,
            changed ==> (r.0 matches Some(e) && old(self).journal_says(e, "remove overlap"@, Some(index), None)),
    {
        let ops = self.settle_edit(changed);
        if changed {
            (Some(self.journal("remove overlap", Some(index), None)), ops)
        } else {
            (None, ops)
        }
    }

    /// Decompose the open glyph's components: the request.
    pub fn command_decompose(&mut self) -> (ops: Option<Vec<EngineOp>>)
        ensures
            old(self).editor_edit(*final(self), ops, EngineOp::Decompose(old(self).mode->0)),
    {
        let Mode::Editor(index) = self.mode else {
            return None;
        };
        Some(self.edit_request(index, EngineOp::Decompose(index)))
    }

    /// Decompose, once the engine says whether anything changed: nothing
    /// drops the undo step again; a change is noted in the journal.
    pub fn finish_decompose(&mut self, index: usize, changed: bool)
        -> (r: (Option<crate::session::JournalEntry>, Vec<EngineOp>))
        requires
            old(self).has_font() ==> index < old(self).project->0.active_master().glyphs@.len(),
        ensures
            *final(self) == *old(self),
            r.1@ == old(self).settle_ops(changed),
            !changed ==> r.0 is None,
            changed ==> (r.0 matches Some(e) && old(self).journal_says(e, "decompose"@, Some(index), None)),
    {
        if !changed {
            (None, self.discard_request())
        } else {
            (Some(self.journal("decompose", Some(index), None)), Vec::new())
        }
    }

    /// Path > Add Extremes on the open glyph: the request.
    pub fn command_add_extremes(&mut self) -> (ops: Option<Vec<EngineOp>>)
        ensures
            old(self).editor_edit(*final(self), ops, EngineOp::AddExtremes(old(self).mode->0)),
    {
        let Mode::Editor(index) = self.mode else {
            return None;
        };
        Some(self.edit_request(index, EngineOp::AddExtremes(index)))
    }

    /// Add Extremes, once the engine says whether it added any.
    pub fn finish_add_extremes(&mut self, changed: bool) -> (ops: Vec<EngineOp>)
        ensures
            changed ==> old(self).edit_settled(true, *final(self), ops@),
            !changed ==> *final(self) == (Workspace { status_note: Some(StatusNote::NoMissingExtremes), ..*old(self) })
                && ops@ == old(self).discard_ops(),
    {
        if !changed {
            let ops = self.discard_request();
            self.status_note = Some(StatusNote::NoMissingExtremes);
            ops
        } else {
            self.editor.selected.clear();
            Vec::new()
        }
    }

    /// Exchange the open glyph's outline with its background copy: the
    /// request.
    pub fn command_swap_background(&mut self) -> (ops: Option<Vec<EngineOp>>)
        ensures
            old(self).editor_edit(*final(self), ops, EngineOp::SwapBackground(old(self).mode->0)),
    {
        let Mode::Editor(index) = self.mode else {
            return None;
        };
        Some(self.edit_request(index, EngineOp::SwapBackground(index)))
    }

    /// The background swap, once the engine says whether there was a
    /// background copy to swap with.
    pub fn finish_swap_background(&mut self, swapped: bool) -> (ops: Vec<EngineOp>)
        ensures
            swapped ==> *final(self) == *old(self),
            !swapped ==> *final(self) == (Workspace { status_note: Some(StatusNote::NoBackgroundToSwap), ..*old(self) }),
            ops@ == old(self).settle_ops(swapped),
    {
        if !swapped {
            let ops = self.discard_request();
            self.status_note = Some(StatusNote::NoBackgroundToSwap);
            ops
        } else {
            Vec::new()
        }
    }

    /// Exchange the drawing with a named layer's copy: the request.
    pub fn command_swap_layer(&mut self, layer_name: String) -> (ops: Option<Vec<EngineOp>>)
        ensures
            old(self).editor_edit(*final(self), ops, EngineOp::SwapLayer(old(self).mode->0, layer_name)),
    {
        let Mode::Editor(index) = self.mode else {
            return None;
        };
        Some(self.edit_request(index, EngineOp::SwapLayer(index, layer_name)))
    }

    /// The layer swap, once the engine says whether both copies existed.
    pub fn finish_swap_layer(&self, swapped: bool) -> (ops: Vec<EngineOp>)
        ensures
            ops@ == self.settle_ops(swapped),
    {
        if !swapped {
            self.discard_request()
        } else {
            Vec::new()
        }
    }

    /// Copy the selected contours (the whole glyph when nothing is
    /// selected, or from the grid): the request.
    pub fn command_copy(&self) -> (ops: Option<Vec<EngineOp>>)
        ensures
            (self.current_glyph() is Some && self.has_font()) ==> (ops matches Some(v) && v@.len() == 1
                && (v@[0] matches EngineOp::CopyContours(i, sel) && i == self.current_glyph()->0
                && sel@ == if self.mode is Editor { self.editor.selected@ } else { Seq::<PointId>::empty() })),
            !(self.current_glyph() is Some && self.has_font()) ==> ops is None,
    {
        let index = self.current_glyph_index()?;
        if !self.font_open() {
            return None;
        }
        let selected = match self.mode {
            Mode::Editor(_) => copy_points(&self.editor.selected),
            _ => Vec::new(),
        };
        let mut ops = Vec::new();
        ops.push(EngineOp::CopyContours(index, selected));
        Some(ops)
    }

    /// The state once `n` contours were copied.
    pub open spec fn copied(&self, n: usize) -> Workspace {
        Workspace { clipboard: n, status_note: Some(StatusNote::CopiedContours(n)), ..*self }
    }

    /// Copy, once the engine says how many contours it put in the outline
    /// clipboard: the clipboard holds that many, and the status bar says
    /// so.
    pub fn finish_copy(&mut self, copied: usize)
        ensures
            *final(self) == old(self).copied(copied),
    {
        self.clipboard = copied;
        self.status_note = Some(StatusNote::CopiedContours(copied));
    }
}

} // verus!
