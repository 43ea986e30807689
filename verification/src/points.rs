//! The point selection on the open glyph.
use vstd::prelude::*;
use crate::model::{EditorState, Mode, PointId, Workspace};

verus! {

/// Whether `p` is in `v`.
pub fn has_point(v: &Vec<PointId>, p: PointId) -> (r: bool)
    ensures
        r == v@.contains(p),
{
    let mut i: usize = 0;
    while i < v.len()
        invariant
            i <= v@.len(),
            forall|j: int| 0 <= j < i ==> v@[j] != p,
        decreases v@.len() - i,
    {
        if v[i].0 == p.0 && v[i].1 == p.1 {
            assert(v@[i as int] == p);
            return true;
        }
        i += 1;
    }
    false
}

/// A copy of a point list.
pub fn copy_points(v: &Vec<PointId>) -> (r: Vec<PointId>)
    ensures
        r@ == v@,
{
    let mut r = Vec::new();
    let mut i: usize = 0;
    while i < v.len()
        invariant
            i <= v@.len(),
            r@ == v@.subrange(0, i as int),
        decreases v@.len() - i,
    {
        r.push(v[i]);
        i += 1;
        assert(r@ =~= v@.subrange(0, i as int));
    }
    assert(r@ =~= v@);
    r
}

/// Whether position `i` of `ids` holds a selected point.
pub open spec fn hit(ids: Seq<PointId>, sel: Seq<PointId>, i: int) -> bool {
    0 <= i < ids.len() && sel.contains(ids[i])
}

/// The first selected position.
pub open spec fn first_hit(ids: Seq<PointId>, sel: Seq<PointId>) -> int {
    choose|i: int| hit(ids, sel, i) && forall|j: int| hit(ids, sel, j) ==> i <= j
}

/// The last selected position.
pub open spec fn last_hit(ids: Seq<PointId>, sel: Seq<PointId>) -> int {
    choose|i: int| hit(ids, sel, i) && forall|j: int| hit(ids, sel, j) ==> j <= i
}

/// Where Tab (or shift-Tab when `back`) moves the point selection: the
/// point after the last selected one, or before the first, wrapping; the
/// first (or last) point when nothing is selected.
pub open spec fn cycle_target(ids: Seq<PointId>, sel: Seq<PointId>, back: bool) -> int {
    if !(exists|i: int| hit(ids, sel, i)) {
        if back { ids.len() - 1 } else { 0 }
    } else if back {
        let f = first_hit(ids, sel);
        if f == 0 { ids.len() - 1 } else { f - 1 }
    } else {
        (last_hit(ids, sel) + 1) % (ids.len() as int)
    }
}

/// The position Tab (or shift-Tab) moves the selection to.
pub fn cycle_index(ids: &Vec<PointId>, selected: &Vec<PointId>, back: bool) -> (target: usize)
    requires
        ids@.len() > 0,
    ensures
        target == cycle_target(ids@, selected@, back),
        target < ids@.len(),
{
    let n = ids.len();
        let ghost sel = selected@;
        let mut first: Option<usize> = None;
        let mut last: usize = 0;
        let mut i: usize = 0;
        while i < n
            invariant
                n == ids@.len(),
                i <= n,
                sel == selected@,
                first is None ==> forall|j: int| 0 <= j < i ==> !hit(ids@, sel, j),
                first matches Some(f) ==> f < i && hit(ids@, sel, f as int)
                    && (forall|j: int| 0 <= j < f ==> !hit(ids@, sel, j))
                    && hit(ids@, sel, last as int) && last < i
                    && (forall|j: int| last < j < i ==> !hit(ids@, sel, j)),
            decreases n - i,
        {
            if has_point(selected, ids[i]) {
                if first.is_none() {
                    first = Some(i);
                }
                last = i;
            }
            i += 1;
        }
        let target = match first {
            None => if back { n - 1 } else { 0 },
            Some(f) => if back {
                if f == 0 { n - 1 } else { f - 1 }
            } else {
                (last + 1) % n
            },
        };
        proof {
            match first {
                None => {
                    assert(!(exists|j: int| hit(ids@, sel, j)));
                },
                Some(f) => {
                    assert(hit(ids@, sel, f as int) && forall|j: int| hit(ids@, sel, j) ==> f <= j);
                    assert(hit(ids@, sel, last as int) && forall|j: int| hit(ids@, sel, j) ==> j <= last);
                    let c1 = first_hit(ids@, sel);
                    let c2 = last_hit(ids@, sel);
                    assert(c1 == f as int);
                    assert(c2 == last as int);
                },
            }
        }
        target
}

/// What Select All (0), Deselect All (1) or Invert Selection (any other
/// value) leaves selected, of points `all` with `locked` ones skipped,
/// when `before` was selected.
pub open spec fn selection_after(all: Seq<PointId>, locked: Seq<PointId>, before: Seq<PointId>, mode: u8,
    after: Seq<PointId>) -> bool {
    &&& mode == 1 ==> after.len() == 0
    &&& mode == 0 ==> forall|p: PointId| #[trigger] after.contains(p) <==> (all.contains(p) && !locked.contains(p))
    &&& mode > 1 ==> forall|p: PointId| #[trigger] after.contains(p)
        <==> (all.contains(p) && !before.contains(p) && !locked.contains(p))
}

impl Workspace {
    /// The points of the glyph at `index` of the active master, or none.
    pub open spec fn glyph_points(&self, index: int) -> Seq<PointId> {
        if self.has_font() {
            self.project->0.active_master().glyphs@[index].points@
        } else {
            Seq::empty()
        }
    }

    fn points_of(&self, index: usize) -> (r: Vec<PointId>)
        requires
            self.refs_ok(),
            self.mode == Mode::Editor(index),
        ensures
            r@ == self.glyph_points(index as int),
    {
        match &self.project {
            Some(p) => {
                if p.active < p.masters.len() {
                    copy_points(&p.masters[p.active].glyphs[index].points)
                } else {
                    Vec::new()
                }
            },
            None => Vec::new(),
        }
    }

    /// Select All (0), Deselect All (1) or Invert Selection (any other
    /// value) on the open glyph's points. Locked points are never
    /// selected.
    pub fn command_select_points(&mut self, mode: u8)
        requires
            old(self).refs_ok(),
        ensures
            !(old(self).mode is Editor) ==> *final(self) == *old(self),
            old(self).mode is Editor ==> {
                let all = old(self).glyph_points(old(self).mode->0 as int);
                let locked = old(self).editor.locked_points@;
                let before = old(self).editor.selected@;
                &&& *final(self) == (Workspace {
                    editor: EditorState { selected: final(self).editor.selected, ..old(self).editor },
                    ..*old(self)
                })
                &&& selection_after(all, locked, before, mode, final(self).editor.selected@)
            },
    {
        let Mode::Editor(index) = self.mode else {
            return;
        };
        let all = self.points_of(index);
        if mode == 1 {
            self.editor.selected.clear();
            return;
        }
        let mut current: Vec<PointId> = Vec::new();
        core::mem::swap(&mut current, &mut self.editor.selected);
        let ghost before = current@;
        let mut chosen: Vec<PointId> = Vec::new();
        let mut i: usize = 0;
        while i < all.len()
            invariant
                i <= all@.len(),
                mode != 1,
                forall|p: PointId| #[trigger] chosen@.contains(p) <==> (exists|j: int| 0 <= j < i && all@[j] == p)
                    && !self.editor.locked_points@.contains(p) && (mode > 1 ==> !before.contains(p)),
                current@ == before,
            decreases all@.len() - i,
        {
            let p = all[i];
            let locked = has_point(&self.editor.locked_points, p);
            let keep = if mode == 0 { !locked } else { !locked && !has_point(&current, p) };
            assert(keep == (!self.editor.locked_points@.contains(p) && (mode > 1 ==> !before.contains(p))));
            let ghost prev = chosen@;
            if keep {
                chosen.push(p);
                assert(chosen@[chosen@.len() - 1] == p);
            }
            assert forall|q: PointId| #[trigger] chosen@.contains(q) <==> (exists|j: int| 0 <= j < i + 1 && all@[j] == q)
                && !self.editor.locked_points@.contains(q) && (mode > 1 ==> !before.contains(q)) by {
                if chosen@.contains(q) {
                    if q == p {
                        assert(all@[i as int] == q);
                    } else {
                        assert(prev.contains(q));
                        let j = choose|j: int| 0 <= j < i && all@[j] == q;
                        assert(0 <= j < i + 1 && all@[j] == q);
                    }
                }
                if (exists|j: int| 0 <= j < i + 1 && all@[j] == q)
                    && !self.editor.locked_points@.contains(q) && (mode > 1 ==> !before.contains(q)) {
                    let j = choose|j: int| 0 <= j < i + 1 && all@[j] == q;
                    if j < i {
                        assert(prev.contains(q));
                        let k = choose|k: int| 0 <= k < prev.len() && prev[k] == q;
                        assert(chosen@[k] == q);
                    } else {
                        assert(q == p);
                        assert(chosen@[chosen@.len() - 1] == q);
                    }
                }
            }
            i += 1;
        }
        self.editor.selected = chosen;
        assert forall|p: PointId| (exists|j: int| 0 <= j < all@.len() && all@[j] == p) <==> all@.contains(p) by {}
    }

    /// What Tab (or shift-Tab when `back`) leaves, and whether there was
    /// a point to select.
    pub open spec fn cycled(&self, back: bool, f: Workspace, r: bool) -> bool {
        if !(self.mode is Editor) {
            f == *self && !r
        } else {
            let ids = self.glyph_points(self.mode->0 as int);
            if ids.len() == 0 {
                f == *self && !r
            } else {
                &&& r
                &&& f.editor.selected@ == seq![ids[cycle_target(ids, self.editor.selected@, back)]]
                &&& f == (Workspace {
                    editor: EditorState {
                        selected: f.editor.selected,
                        selected_component: None,
                        ..self.editor
                    },
                    ..*self
                })
            }
        }
    }

    /// Tab or shift-Tab: step the point selection through the open
    /// glyph's points in contour order. Returns whether there was a point
    /// to select.
    pub fn command_cycle_point(&mut self, back: bool) -> (r: bool)
        requires
            old(self).refs_ok(),
        ensures
            old(self).cycled(back, *final(self), r),
    {
        let Mode::Editor(index) = self.mode else {
            return false;
        };
        let ids = self.points_of(index);
        let n = ids.len();
        if n == 0 {
            return false;
        }
        let target = cycle_index(&ids, &self.editor.selected, back);
        self.editor.selected_component = None;
        let mut one = Vec::new();
        one.push(ids[target]);
        self.editor.selected = one;
        true
    }
}

} // verus!
