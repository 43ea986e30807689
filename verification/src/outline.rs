//! Path commands that reshape the open glyph's contours: duplicate,
//! round corners, boolean operations, offset, stroke, fit curve, and the
//! start point. Each asks the outline engine and settles on its answer.
use vstd::prelude::*;
use crate::model::{EditorState, EngineOp, Mode, PointId, Workspace};
use crate::effects::{contours_of, selected_contours};
use crate::points::copy_points;

verus! {

/// The boolean operations on contours.
#[derive(PartialEq, Eq, Structural, Clone, Copy, Debug)]
pub enum BooleanOp {
    Union,
    Intersection,
    Difference,
    Xor,
}

/// What a duplicate made, as the engine reports it.
#[derive(Debug)]
pub enum Duplicated {
    /// The copy of the selected component, at this index.
    Component(usize),
    /// The copy of the selected anchor, at this index.
    Anchor(usize),
    /// The copies of the selected points.
    Points(Vec<PointId>),
}

/// The anchor a duplicate copies: the selected one, when exactly one is.
pub open spec fn sole_anchor(e: EditorState) -> Option<usize> {
    if e.selected_anchors@.len() == 1 { Some(e.selected_anchors@[0]) } else { None }
}

impl Workspace {
    /// Round the selected corners of the open glyph: the request.
    pub fn command_round_corners(&mut self) -> (ops: Option<Vec<EngineOp>>)
        ensures
            !(old(self).mode is Editor) ==> *final(self) == *old(self) && ops is None,
            old(self).mode matches Mode::Editor(i) ==> {
                &&& *final(self) == (Workspace { nudging: false, ..*old(self) })
                &&& ops matches Some(v)
                &&& v@ == old(self).edit_ops(i, EngineOp::RoundCorners(i, v@[1]->RoundCorners_1))
                &&& old(self).has_font() ==> v@[1]->RoundCorners_1@ == old(self).editor.selected@
            },
    {
        let Mode::Editor(index) = self.mode else {
            return None;
        };
        let selected = copy_points(&self.editor.selected);
        Some(self.edit_request(index, EngineOp::RoundCorners(index, selected)))
    }

    /// Round corners, once the engine answers with the new selection, or
    /// none when nothing changed, which drops the undo step again.
    pub fn finish_round_corners(&mut self, selection: Option<Vec<PointId>>) -> (ops: Vec<EngineOp>)
        ensures
            match selection {
                Some(s) => *final(self) == (Workspace { editor: EditorState { selected: s, ..old(self).editor }, ..*old(self) })
                    && ops@.len() == 0,
                None => *final(self) == *old(self) && ops@ == old(self).discard_ops(),
            },
    {
        match selection {
            Some(s) => {
                self.editor.selected = s;
                Vec::new()
            },
            None => self.discard_request(),
        }
    }

    /// Duplicate the selection of the open glyph: the selected component
    /// when there is one, else the sole selected anchor, else the
    /// contours holding selected points. The request.
    pub fn command_duplicate(&mut self) -> (ops: Option<Vec<EngineOp>>)
        ensures
            !(old(self).mode is Editor) ==> *final(self) == *old(self) && ops is None,
            old(self).mode matches Mode::Editor(i) ==> {
                let e = old(self).editor;
                &&& *final(self) == (Workspace { nudging: false, ..*old(self) })
                &&& ops matches Some(v)
                &&& match e.selected_component {
                    Some(c) => v@ == old(self).edit_ops(i, EngineOp::DuplicateComponent(i, c)),
                    None => match sole_anchor(e) {
                        Some(a) => v@ == old(self).edit_ops(i, EngineOp::DuplicateAnchor(i, a)),
                        None => {
                            &&& v@ == old(self).edit_ops(i, EngineOp::DuplicatePoints(i, v@[1]->DuplicatePoints_1))
                            &&& old(self).has_font() ==> v@[1]->DuplicatePoints_1@ == e.selected@
                        },
                    },
                }
            },
    {
        let Mode::Editor(index) = self.mode else {
            return None;
        };
        let op = match self.editor.selected_component {
            Some(c) => EngineOp::DuplicateComponent(index, c),
            None => if self.editor.selected_anchors.len() == 1 {
                EngineOp::DuplicateAnchor(index, self.editor.selected_anchors[0])
            } else {
                EngineOp::DuplicatePoints(index, copy_points(&self.editor.selected))
            },
        };
        Some(self.edit_request(index, op))
    }

    /// A duplicate, once the engine answers with what it made: the copy
    /// becomes the selection; nothing made drops the undo step again. With
    /// `repeat`, a copy made in the editor gets the last flip or rotate
    /// again, on the new selection.
    pub fn finish_duplicate(&mut self, made: Option<Duplicated>, repeat: bool) -> (ops: Vec<EngineOp>)
        ensures
            match made {
                None => *final(self) == *old(self) && ops@ == old(self).discard_ops(),
                Some(d) => {
                    &&& match d {
                        Duplicated::Component(c) => *final(self) == (Workspace {
                            editor: EditorState { selected_component: Some(c), ..old(self).editor },
                            ..*old(self)
                        }),
                        Duplicated::Anchor(a) => final(self).editor.selected_anchors@ == seq![a]
                            && *final(self) == (Workspace {
                                editor: EditorState { selected_anchors: final(self).editor.selected_anchors, ..old(self).editor },
                                ..*old(self)
                            }),
                        Duplicated::Points(s) => *final(self) == (Workspace {
                            editor: EditorState { selected: s, ..old(self).editor },
                            ..*old(self)
                        }),
                    }
                    &&& ops@.len() == if repeat && old(self).mode is Editor { 1int } else { 0int }
                    &&& (repeat && old(self).mode is Editor) ==> (ops@[0] matches EngineOp::TransformAgain(at, sel)
                        && at == old(self).mode->0 && sel@ == final(self).editor.selected@)
                },
            },
    {
        let mut ops = Vec::new();
        match made {
            None => {
                return self.discard_request();
            },
            Some(Duplicated::Component(c)) => self.editor.selected_component = Some(c),
            Some(Duplicated::Anchor(a)) => {
                let mut v = Vec::new();
                v.push(a);
                self.editor.selected_anchors = v;
            },
            Some(Duplicated::Points(s)) => self.editor.selected = s,
        }
        if repeat {
            if let Mode::Editor(index) = self.mode {
                ops.push(EngineOp::TransformAgain(index, copy_points(&self.editor.selected)));
            }
        }
        ops
    }

    /// Combine the open glyph's contours by `op`: the request. It
    /// settles as an outline effect does.
    pub fn command_boolean(&mut self, op: BooleanOp) -> (ops: Option<Vec<EngineOp>>)
        ensures
            !(old(self).mode is Editor) ==> *final(self) == *old(self) && ops is None,
            old(self).mode matches Mode::Editor(i) ==> {
                &&& *final(self) == (Workspace { nudging: false, ..*old(self) })
                &&& ops matches Some(v) && v@ == old(self).edit_ops(i, EngineOp::Boolean(i, op))
            },
    {
        let Mode::Editor(index) = self.mode else {
            return None;
        };
        Some(self.edit_request(index, EngineOp::Boolean(index, op)))
    }

    /// Offset the open glyph's contours bolder or lighter by `delta`
    /// units, as typed: the request. It settles as an outline effect
    /// does.
    pub fn command_offset(&mut self, delta: String) -> (ops: Option<Vec<EngineOp>>)
        ensures
            !(old(self).mode is Editor) ==> *final(self) == *old(self) && ops is None,
            old(self).mode matches Mode::Editor(i) ==> {
                &&& *final(self) == (Workspace { nudging: false, ..*old(self) })
                &&& ops matches Some(v) && v@ == old(self).edit_ops(i, EngineOp::Offset(i, delta))
            },
    {
        let Mode::Editor(index) = self.mode else {
            return None;
        };
        Some(self.edit_request(index, EngineOp::Offset(index, delta)))
    }

    /// Stroke the contours holding selected points (all, when none) to
    /// `width` units, as typed; `width` is the typed field when it reads
    /// as a number above zero. The request; it settles as an outline
    /// effect does.
    pub fn command_expand_stroke(&mut self, width: Option<String>) -> (ops: Option<Vec<EngineOp>>)
        ensures
            !(old(self).mode is Editor && width is Some) ==> *final(self) == *old(self) && ops is None,
            (old(self).mode is Editor && width is Some) ==> {
                let i = old(self).mode->0;
                &&& *final(self) == (Workspace { nudging: false, ..*old(self) })
                &&& ops matches Some(v)
                &&& v@ == old(self).edit_ops(i, EngineOp::ExpandStroke(i, v@[1]->ExpandStroke_1, width->0))
                &&& old(self).has_font() ==> contours_of(old(self).editor.selected@, v@[1]->ExpandStroke_1@)
            },
    {
        let Mode::Editor(index) = self.mode else {
            return None;
        };
        let width = width?;
        let contours = selected_contours(&self.editor.selected);
        Some(self.edit_request(index, EngineOp::ExpandStroke(index, contours, width)))
    }

    /// Fit the selected segments' handles to `fraction` of their
    /// greatest length, as typed: the request.
    pub fn command_fit_curve(&mut self, fraction: String) -> (ops: Option<Vec<EngineOp>>)
        ensures
            !(old(self).mode is Editor) ==> *final(self) == *old(self) && ops is None,
            old(self).mode matches Mode::Editor(i) ==> {
                &&& *final(self) == (Workspace { nudging: false, ..*old(self) })
                &&& ops matches Some(v)
                &&& v@ == old(self).edit_ops(i, EngineOp::FitCurve(i, v@[1]->FitCurve_1, fraction))
                &&& old(self).has_font() ==> v@[1]->FitCurve_1@ == old(self).editor.selected@
            },
    {
        let Mode::Editor(index) = self.mode else {
            return None;
        };
        let selected = copy_points(&self.editor.selected);
        Some(self.edit_request(index, EngineOp::FitCurve(index, selected, fraction)))
    }

    /// Fit curve, once the engine says whether the handles moved:
    /// nothing moved drops the undo step again.
    pub fn finish_fit_curve(&self, changed: bool) -> (ops: Vec<EngineOp>)
        ensures
            ops@ == self.settle_ops(changed),
    {
        if !changed {
            self.discard_request()
        } else {
            Vec::new()
        }
    }

    /// Make the one selected point its contour's start: the request.
    /// Nothing happens outside the editor, or unless exactly one point is
    /// selected.
    pub fn command_set_start_point(&mut self) -> (ops: Option<Vec<EngineOp>>)
        ensures
            !(old(self).mode is Editor && old(self).editor.selected@.len() == 1) ==> *final(self) == *old(self)
                && ops is None,
            (old(self).mode is Editor && old(self).editor.selected@.len() == 1) ==> {
                let i = old(self).mode->0;
                let p = old(self).editor.selected@[0];
                &&& *final(self) == (Workspace { nudging: false, ..*old(self) })
                &&& ops matches Some(v) && v@ == old(self).edit_ops(i, EngineOp::SetStartPoint(i, p))
            },
    {
        let Mode::Editor(index) = self.mode else {
            return None;
        };
        if self.editor.selected.len() != 1 {
            return None;
        }
        let p = self.editor.selected[0];
        Some(self.edit_request(index, EngineOp::SetStartPoint(index, p)))
    }

    /// The start point, once the engine says whether it moved: the
    /// selection becomes the contour's first point; nothing moved drops
    /// the undo step again.
    pub fn finish_set_start_point(&mut self, contour: usize, changed: bool) -> (ops: Vec<EngineOp>)
        ensures
            changed ==> final(self).editor.selected@ == seq![(contour, 0usize)] && *final(self) == (Workspace {
                editor: EditorState { selected: final(self).editor.selected, ..old(self).editor },
                ..*old(self)
            }),
            !changed ==> *final(self) == *old(self),
            ops@ == old(self).settle_ops(changed),
    {
        if changed {
            let mut v = Vec::new();
            v.push((contour, 0usize));
            self.editor.selected = v;
            Vec::new()
        } else {
            self.discard_request()
        }
    }

    /// Reverse the direction of the contours holding selected points
    /// (all, when none): the request. It settles as an outline effect
    /// does.
    pub fn command_reverse(&mut self) -> (ops: Option<Vec<EngineOp>>)
        ensures
            !(old(self).mode is Editor) ==> *final(self) == *old(self) && ops is None,
            old(self).mode matches Mode::Editor(i) ==> {
                &&& *final(self) == (Workspace { nudging: false, ..*old(self) })
                &&& ops matches Some(v)
                &&& v@ == old(self).edit_ops(i, EngineOp::ReverseContours(i, v@[1]->ReverseContours_1))
                &&& old(self).has_font() ==> v@[1]->ReverseContours_1@ == old(self).editor.selected@
            },
    {
        let Mode::Editor(index) = self.mode else {
            return None;
        };
        let selected = copy_points(&self.editor.selected);
        Some(self.edit_request(index, EngineOp::ReverseContours(index, selected)))
    }
}

} // verus!
