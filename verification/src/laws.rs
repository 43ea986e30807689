//! Properties that span several operations of the workspace.
use vstd::prelude::*;
use crate::model::{EngineOp, Master, PointId, Project, Workspace};
use crate::steps::rotated;
use crate::points::{cycle_target, first_hit, hit, last_hit, selection_after};
use crate::glyph_data::toggled;
use crate::color::{color_used, palette_removed};
use crate::chat::{lemma_find_from, shown_text, strip_tool_blocks, tool_close, tool_open};
use crate::text::{find, find_from, occurs_at, trim, trim_start};
use crate::glyphs::{appended_everywhere, taken_in, without_name};
use crate::names::{index_of, lemma_index_of, names_of};
use crate::decimal::{dec, lemma_dec, parse_count};
use crate::effects::corner_name;
use crate::chat::{empty_reply, kept_rows};
use crate::saving::{clean, dirty_masters, written};
use crate::generate::{generated, missing, target_names};
use crate::names::{has_name, texts};
use crate::switches::{bold_alt, switch_copied, switched, switch_rule};
use crate::designspace::{keeps_rule, substitutes};
use crate::model::{ChatEntry, Mode, Rule};
use crate::keys::{key_done, key_named, Handled, Key};
use crate::model::{EditorState, Tool};
use crate::text_keys::TextEdit;
use crate::grid::unicode_name;
use crate::press::{Press, PressTarget};
use crate::notes::note_text;
use crate::model::StatusNote;

verus! {

/// Stepping back by the steps taken forward returns to where one
/// started, and every step lands inside the list.
pub proof fn law_rotate_back(index: int, count: int, step: int)
    requires
        0 <= index < count,
    ensures
        0 <= rotated(index, count, step) < count,
        rotated(rotated(index, count, step), count, -step) == index,
{
    let x = index + step;
    let r = x % count;
    vstd::arithmetic::div_mod::lemma_fundamental_div_mod(x, count);
    let q = x / count;
    assert(r - step == count * (-q) + index) by (nonlinear_arith)
        requires
            x == count * q + r,
            x == index + step,
    ;
    vstd::arithmetic::div_mod::lemma_mod_multiples_vanish(-q, index, count);
    vstd::arithmetic::div_mod::lemma_small_mod(index as nat, count as nat);
}

/// A run of arrow presses is one undo step: within a burst, a nudge asks
/// for no further undo record, and the burst state stays.
pub proof fn law_nudge_burst(w: Workspace, first: usize, second: usize)
    ensures
        w.nudged().nudge_ops(second).len() == 0,
        w.nudged().nudged() == w.nudged(),
        !w.nudging && w.has_font() ==> w.nudge_ops(first) == seq![EngineOp::RecordUndo(first)],
{
}

proof fn lemma_empty_when_nothing_contained(s: Seq<PointId>)
    requires
        forall|p: PointId| !(#[trigger] s.contains(p)),
    ensures
        s.len() == 0,
{
    if s.len() > 0 {
        assert(s.contains(s[0]));
    }
}

/// Select All followed by Invert Selection leaves nothing selected.
pub proof fn law_select_all_then_invert(all: Seq<PointId>, locked: Seq<PointId>, before: Seq<PointId>,
    selected: Seq<PointId>, inverted: Seq<PointId>)
    requires
        selection_after(all, locked, before, 0, selected),
        selection_after(all, locked, selected, 2, inverted),
    ensures
        inverted.len() == 0,
{
    assert forall|p: PointId| !(#[trigger] inverted.contains(p)) by {
        if inverted.contains(p) {
            assert(all.contains(p) && !locked.contains(p));
            assert(selected.contains(p));
        }
    }
    lemma_empty_when_nothing_contained(inverted);
}

/// Inverting twice gives back the selection, less the points that are
/// locked or not on the glyph.
pub proof fn law_invert_twice(all: Seq<PointId>, locked: Seq<PointId>, before: Seq<PointId>,
    once: Seq<PointId>, twice: Seq<PointId>)
    requires
        selection_after(all, locked, before, 2, once),
        selection_after(all, locked, once, 2, twice),
    ensures
        forall|p: PointId| #[trigger] twice.contains(p) <==> (before.contains(p) && all.contains(p) && !locked.contains(p)),
{
    assert forall|p: PointId| #[trigger] twice.contains(p) <==> (before.contains(p) && all.contains(p) && !locked.contains(p)) by {
        if twice.contains(p) {
            assert(!once.contains(p));
        }
        if before.contains(p) && all.contains(p) && !locked.contains(p) {
            assert(!once.contains(p));
        }
    }
}

/// Flipping a contour's mask flag twice gives back the mask set.
pub proof fn law_toggle_mask_twice(s: Seq<usize>, c: usize, once: Seq<usize>, twice: Seq<usize>)
    requires
        toggled(s, c, once),
        toggled(once, c, twice),
    ensures
        forall|x: usize| #[trigger] twice.contains(x) <==> s.contains(x),
{
    assert forall|x: usize| #[trigger] twice.contains(x) <==> s.contains(x) by {
        assert(once.contains(x) <==> if x == c { !s.contains(c) } else { s.contains(x) });
        assert(once.contains(c) <==> !s.contains(c));
    }
}

/// Tab then shift-Tab comes back to the point one started on.
pub proof fn law_cycle_there_and_back(ids: Seq<PointId>, t: int)
    requires
        ids.no_duplicates(),
        0 <= t < ids.len(),
    ensures
        ({
            let forward = cycle_target(ids, seq![ids[t]], false);
            0 <= forward < ids.len() && cycle_target(ids, seq![ids[forward]], true) == t
        }),
{
    let n = ids.len() as int;
    let sel = seq![ids[t]];
    assert forall|i: int| hit(ids, sel, i) <==> i == t by {
        if hit(ids, sel, i) {
            assert(sel.contains(ids[i]));
            assert(ids[i] == ids[t]);
        }
        if i == t {
            assert(sel[0] == ids[t]);
        }
    }
    assert(hit(ids, sel, t));
    let l = last_hit(ids, sel);
    assert(l == t);
    let forward = (t + 1) % n;
    vstd::arithmetic::div_mod::lemma_mod_bound(t + 1, n);
    assert(cycle_target(ids, sel, false) == forward);
    let sel2 = seq![ids[forward]];
    assert forall|i: int| hit(ids, sel2, i) <==> i == forward by {
        if hit(ids, sel2, i) {
            assert(sel2.contains(ids[i]));
            assert(ids[i] == ids[forward]);
        }
        if i == forward {
            assert(sel2[0] == ids[forward]);
        }
    }
    assert(hit(ids, sel2, forward));
    let f = first_hit(ids, sel2);
    assert(f == forward);
    if t + 1 < n {
        vstd::arithmetic::div_mod::lemma_small_mod((t + 1) as nat, n as nat);
    } else {
        vstd::arithmetic::div_mod::lemma_mod_self_0(n);
    }
}

/// Moving the glyph references to a name twice is moving them once.
pub proof fn law_remap_idempotent(w: Workspace, name: Seq<char>)
    ensures
        w.remapped(name).remapped(name) == w.remapped(name),
{
}

/// Removing an unused palette color keeps every mapping row pointing at
/// a color of the palette.
pub proof fn law_palette_removal_keeps_rows_valid(m: Master, index: usize, f: Master)
    requires
        index < m.palette@.len(),
        forall|j: int| 0 <= j < m.color_layers@.len() ==> #[trigger] m.color_layers@[j].color < m.palette@.len(),
        !color_used(m.color_layers@, index),
        palette_removed(m, index, f),
    ensures
        forall|j: int| 0 <= j < f.color_layers@.len() ==> #[trigger] f.color_layers@[j].color < f.palette@.len(),
{
    assert forall|j: int| 0 <= j < f.color_layers@.len() implies #[trigger] f.color_layers@[j].color < f.palette@.len() by {
        assert(m.color_layers@[j].color < m.palette@.len());
        assert(m.color_layers@[j].color != index);
    }
}

/// A reply with no tool block shows as it came, less its leading white
/// space.
pub proof fn law_plain_reply_shown_whole(raw: Seq<char>)
    requires
        find(raw, tool_open()) is None,
    ensures
        shown_text(raw) == trim_start(raw),
{
}

/// Adding a glyph and then removing it by name gives every master its
/// glyph list back.
pub proof fn law_add_then_remove_glyph(p: Project, f: Project, name: Seq<char>)
    requires
        appended_everywhere(p, f, name),
        !taken_in(p, name),
    ensures
        forall|m: int| 0 <= m < p.masters@.len() ==>
            without_name((#[trigger] f.masters@[m]).glyphs@, name) == p.masters@[m].glyphs@,
{
    assert forall|m: int| 0 <= m < p.masters@.len() implies
        without_name((#[trigger] f.masters@[m]).glyphs@, name) == p.masters@[m].glyphs@ by {
        let g = f.masters@[m].glyphs@;
        let old_g = p.masters@[m].glyphs@;
        let k = old_g.len() as int;
        let ns = names_of(g);
        lemma_index_of(ns, name);
        assert(ns[k] == name);
        assert forall|j: int| 0 <= j < k implies ns[j] != name by {
            assert(g[j] == old_g[j]);
            if ns[j] == name {
                assert(p.masters@[m].glyphs@[j].name@ == name);
            }
        }
        assert(index_of(ns, name) == Some(k));
        assert(g.remove(k) =~= old_g);
    }
}

/// A corner name is its own corner name: `_corner.` is never added twice.
pub proof fn law_corner_name_settles(name: Seq<char>)
    ensures
        corner_name(corner_name(name)) == corner_name(name),
{
    let c = corner_name(name);
    if !crate::text::starts_with(name, "_corner."@) {
        assert(c.subrange(0, "_corner."@.len() as int) =~= "_corner."@);
    }
}

/// Reading back a written count gives the count.
pub proof fn law_count_round_trip(n: nat)
    ensures
        parse_count(dec(n)) == Some(n),
{
    lemma_dec(n);
    let d = dec(n);
    assert(crate::decimal::is_digit(d[0]));
}

proof fn lemma_kept_rows_clean(s: Seq<ChatEntry>)
    ensures
        forall|i: int| 0 <= i < kept_rows(s).len() ==> !empty_reply(#[trigger] kept_rows(s)[i]),
        kept_rows(s).len() <= s.len(),
    decreases s.len(),
{
    if s.len() > 0 {
        lemma_kept_rows_clean(s.drop_last());
    }
}

proof fn lemma_kept_rows_of_clean(s: Seq<ChatEntry>)
    requires
        forall|i: int| 0 <= i < s.len() ==> !empty_reply(#[trigger] s[i]),
    ensures
        kept_rows(s) == s,
    decreases s.len(),
{
    if s.len() > 0 {
        let t = s.drop_last();
        assert forall|i: int| 0 <= i < t.len() implies !empty_reply(#[trigger] t[i]) by {
            assert(t[i] == s[i]);
        }
        lemma_kept_rows_of_clean(t);
        assert(!empty_reply(s[s.len() - 1]));
        assert(t.push(s.last()) =~= s);
    }
}

/// After a turn the transcript holds no empty assistant reply, and a
/// second clean-up changes nothing.
pub proof fn law_turn_cleanup_settles(s: Seq<ChatEntry>)
    ensures
        forall|i: int| 0 <= i < kept_rows(s).len() ==> !empty_reply(#[trigger] kept_rows(s)[i]),
        kept_rows(kept_rows(s)) == kept_rows(s),
{
    lemma_kept_rows_clean(s);
    lemma_kept_rows_of_clean(kept_rows(s));
}

/// A save that wrote every master that had unsaved edits leaves none to
/// save.
pub proof fn law_saved_masters_are_clean(ms: Seq<Master>, outs: Seq<(usize, Result<(), String>)>, fms: Seq<Master>)
    requires
        fms.len() == ms.len(),
        forall|k: int| 0 <= k < ms.len() ==> if written(outs, k) {
            clean(ms[k], #[trigger] fms[k])
        } else {
            fms[k] == ms[k]
        },
        forall|k: int| 0 <= k < ms.len() && (#[trigger] ms[k]).dirty ==> written(outs, k),
    ensures
        dirty_masters(fms).len() == 0,
    decreases ms.len(),
{
    if ms.len() > 0 {
        let n = ms.len() - 1;
        assert forall|k: int| 0 <= k < ms.drop_last().len() implies if written(outs, k) {
            clean(ms.drop_last()[k], #[trigger] fms.drop_last()[k])
        } else {
            fms.drop_last()[k] == ms.drop_last()[k]
        } by {
            assert(fms.drop_last()[k] == fms[k] && ms.drop_last()[k] == ms[k]);
        }
        assert forall|k: int| 0 <= k < ms.drop_last().len() && (#[trigger] ms.drop_last()[k]).dirty
            implies written(outs, k) by {
            assert(ms.drop_last()[k] == ms[k]);
        }
        law_saved_masters_are_clean(ms.drop_last(), outs, fms.drop_last());
        assert(fms[n] == fms.last());
        if written(outs, n) {
            assert(clean(ms[n], fms[n]));
        } else {
            assert(fms[n] == ms[n]);
        }
    }
}

proof fn lemma_has_name_grows(s: Seq<Seq<char>>, t: Seq<Seq<char>>, n: Seq<char>)
    requires
        has_name(s, n),
    ensures
        has_name(s + t, n),
{
    lemma_index_of(s, n);
    let i = index_of(s, n)->0;
    lemma_index_of(s + t, n);
    assert((s + t)[i] == n);
}

proof fn lemma_has_name_at(s: Seq<Seq<char>>, i: int)
    requires
        0 <= i < s.len(),
    ensures
        has_name(s, s[i]),
{
    lemma_index_of(s, s[i]);
}

/// Every target's name is among the names once the missing ones are
/// added.
proof fn lemma_missing_covers(names: Seq<Seq<char>>, ts: Seq<(Seq<char>, u32)>)
    ensures
        forall|i: int| 0 <= i < ts.len() ==> has_name(names + target_names(missing(names, ts)), #[trigger] ts[i].0),
    decreases ts.len(),
{
    if ts.len() > 0 {
        let pre = ts.drop_last();
        lemma_missing_covers(names, pre);
        let prev = missing(names, pre);
        let all_prev = names + target_names(prev);
        let cur = missing(names, ts);
        let all = names + target_names(cur);
        if !has_name(all_prev, ts.last().0) {
            assert(target_names(cur) =~= target_names(prev).push(ts.last().0));
            assert(all =~= all_prev + seq![ts.last().0]);
        } else {
            assert(all =~= all_prev + Seq::<Seq<char>>::empty());
        }
        assert forall|i: int| 0 <= i < ts.len() implies has_name(all, #[trigger] ts[i].0) by {
            if i < pre.len() {
                assert(pre[i] == ts[i]);
                if !has_name(all_prev, ts.last().0) {
                    lemma_has_name_grows(all_prev, seq![ts.last().0], ts[i].0);
                }
            } else if !has_name(all_prev, ts.last().0) {
                lemma_has_name_at(all, all.len() - 1);
            }
        }
    }
}

proof fn lemma_nothing_missing(names: Seq<Seq<char>>, ts: Seq<(Seq<char>, u32)>)
    requires
        forall|i: int| 0 <= i < ts.len() ==> has_name(names, #[trigger] ts[i].0),
    ensures
        missing(names, ts).len() == 0,
    decreases ts.len(),
{
    if ts.len() > 0 {
        let pre = ts.drop_last();
        assert forall|i: int| 0 <= i < pre.len() implies has_name(names, #[trigger] pre[i].0) by {
            assert(pre[i] == ts[i]);
        }
        lemma_nothing_missing(names, pre);
        assert(target_names(missing(names, pre)) =~= Seq::<Seq<char>>::empty());
        assert(names + target_names(missing(names, pre)) =~= names);
        assert(has_name(names, ts[ts.len() - 1].0));
    }
}

/// Generating the missing glyphs a second time, with the same targets,
/// adds nothing: every target is there after the first.
pub proof fn law_generate_twice(m: Master, ts: Seq<(Seq<char>, u32)>, once: Master, twice: Master)
    requires
        generated(m, ts, once),
        generated(once, ts, twice),
    ensures
        twice.glyphs@ == once.glyphs@,
        texts(twice.modified_glyphs@) == texts(once.modified_glyphs@),
        twice.dirty == once.dirty,
{
    let add = missing(names_of(m.glyphs@), ts);
    lemma_missing_covers(names_of(m.glyphs@), ts);
    assert(names_of(once.glyphs@) =~= names_of(m.glyphs@) + target_names(add)) by {
        assert forall|i: int| 0 <= i < once.glyphs@.len() implies names_of(once.glyphs@)[i]
            == (names_of(m.glyphs@) + target_names(add))[i] by {
            if i >= m.glyphs@.len() {
                let j = i - m.glyphs@.len();
                assert(crate::generate::is_new_glyph(once.glyphs@[m.glyphs@.len() + j], add[j]));
            } else {
                assert(once.glyphs@.subrange(0, m.glyphs@.len() as int)[i] == m.glyphs@[i]);
            }
        }
    }
    lemma_nothing_missing(names_of(once.glyphs@), ts);
    assert(twice.glyphs@ =~= twice.glyphs@.subrange(0, once.glyphs@.len() as int));
}

proof fn lemma_filter_keeps_all(rules: Seq<Rule>, name: Seq<char>)
    requires
        !crate::switches::switched(rules, name),
    ensures
        rules.filter(keeps_rule(name)) == rules,
    decreases rules.len(),
{
    reveal(Seq::filter);
    if rules.len() > 0 {
        let pre = rules.drop_last();
        assert(!switched(pre, name)) by {
            if switched(pre, name) {
                let j = choose|j: int| 0 <= j < pre.len() && substitutes(#[trigger] pre[j], name);
                assert(rules[j] == pre[j]);
            }
        }
        lemma_filter_keeps_all(pre, name);
        assert(!substitutes(rules[rules.len() - 1], name));
        assert(pre.push(rules.last()) =~= rules);
    }
}

/// Removing a shape switch just added takes the rule list back to what
/// it was, when no rule substituted the glyph before.
pub proof fn law_switch_then_remove(rules: Seq<Rule>, r: Rule, name: Seq<char>)
    requires
        !switched(rules, name),
        switch_rule(r, name),
    ensures
        rules.push(r).filter(keeps_rule(name)) == rules,
{
    reveal(Seq::filter);
    lemma_filter_keeps_all(rules, name);
    assert(rules.push(r).drop_last() =~= rules);
    assert(substitutes(r, name)) by {
        assert(r.substitutions@[0].0@ == name);
    }
}

/// A second shape switch for the same glyph copies nothing more: each
/// master already holds the alternate, or lacks the glyph.
pub proof fn law_switch_twice(m: Master, name: Seq<char>, once: Master, twice: Master)
    requires
        switch_copied(m, name, once),
        switch_copied(once, name, twice),
    ensures
        twice == once,
{
    let names = names_of(m.glyphs@);
    let alt = bold_alt(name);
    if !has_name(names, alt) && index_of(names, name) is Some {
        let n1 = names_of(once.glyphs@);
        assert(n1[n1.len() - 1] == alt);
        lemma_has_name_at(n1, n1.len() - 1);
    }
}

/// After Save As moves every master, a save writes every master, in
/// order: each waits to be saved at its new place.
pub proof fn law_save_as_saves_every_master(ms: Seq<Master>)
    requires
        ms.len() <= usize::MAX,
        forall|k: int| 0 <= k < ms.len() ==> (#[trigger] ms[k]).dirty,
    ensures
        dirty_masters(ms).len() == ms.len(),
        forall|k: int| 0 <= k < ms.len() ==> #[trigger] dirty_masters(ms)[k] == k,
    decreases ms.len(),
{
    if ms.len() > 0 {
        let pre = ms.drop_last();
        assert forall|k: int| 0 <= k < pre.len() implies (#[trigger] pre[k]).dirty by {
            assert(pre[k] == ms[k]);
        }
        law_save_as_saves_every_master(pre);
        assert(ms.last().dirty);
        let d = dirty_masters(ms);
        assert(d == dirty_masters(pre).push((ms.len() - 1) as usize));
        assert forall|k: int| 0 <= k < ms.len() implies #[trigger] d[k] == k by {
            if k < pre.len() {
                assert(d[k] == dirty_masters(pre)[k]);
            }
        }
    }
}

/// Escape out of the editor and Enter in the overview open the same
/// glyph again, when nothing was being drawn and no menu was open.
pub proof fn law_escape_then_enter_reopens(w: Workspace, i: usize, shift: bool, ctrl: bool, alt: bool,
    f: Workspace, h1: Handled, ops1: Seq<EngineOp>, g: Workspace, h2: Handled, ops2: Seq<EngineOp>)
    requires
        w.mode == Mode::Editor(i),
        w.selected == Some(i),
        w.editor.pen is None,
        w.editor.hyper_contour is None,
        key_done(w, Key::Escape, false, shift, ctrl, alt, false, false, f, h1, ops1),
        key_done(f, Key::Enter, false, shift, ctrl, alt, false, false, g, h2, ops2),
    ensures
        f.mode == Mode::Grid,
        g.mode == Mode::Editor(i),
        h2 == Handled::Yes,
{
}


/// Shift-pressing the same point twice gives back the point selection.
pub proof fn law_shift_press_twice(w: Workspace, id: PointId, f: Workspace, p1: Press, ops1: Seq<EngineOp>,
    g: Workspace, p2: Press, ops2: Seq<EngineOp>)
    requires
        w.mode is Editor,
        w.pressed(PressTarget::Point(id), true, f, p1, ops1),
        f.pressed(PressTarget::Point(id), true, g, p2, ops2),
    ensures
        forall|q: PointId| #[trigger] g.editor.selected@.contains(q) <==> w.editor.selected@.contains(q),
        g.editor.selected_anchors@ == w.editor.selected_anchors@,
{
    let s = w.editor.selected@;
    if s.contains(id) {
        assert(!f.editor.selected@.contains(id));
    } else {
        assert(seq![id][0] == id);
        assert(f.editor.selected@.contains(id));
    }
    assert forall|q: PointId| #[trigger] g.editor.selected@.contains(q) <==> s.contains(q) by {
        if q == id {
            assert(seq![id][0] == q);
        } else {
            assert(!seq![id].contains(q));
        }
    }
}


/// What was copied can be pasted: after a copy that took contours, Paste
/// asks the engine for the paste into the same glyph, undoably.
pub proof fn law_copy_then_paste(w: Workspace, n: usize, g: Workspace, ops: Seq<EngineOp>)
    requires
        w.current_glyph() is Some,
        w.has_font(),
        n > 0,
        w.copied(n).pasted(g, ops),
    ensures
        ops == seq![EngineOp::RecordUndo(w.current_glyph()->0), EngineOp::PasteContours(w.current_glyph()->0),
            EngineOp::RecheckCompat(w.project->0.active_master().glyphs@[w.current_glyph()->0 as int].name)],
        g.clipboard == n,
{
}


/// Stepping the master on and then back by as many steps returns to the
/// master one started from, with the same masters.
pub proof fn law_step_master_back(w: Workspace, d: isize, f: Workspace, ops1: Seq<EngineOp>,
    g: Workspace, ops2: Seq<EngineOp>)
    requires
        w.open_glyph_ok(),
        w.project is Some,
        d > isize::MIN,
        w.master_stepped(d as int, f, ops1),
        f.master_stepped(-d, g, ops2),
    ensures
        g.project is Some,
        g.project->0.active == w.project->0.active,
        g.project->0.masters == w.project->0.masters,
{
    let p = w.project->0;
    let n = p.masters@.len() as int;
    if n >= 2 {
        law_rotate_back(p.active as int, n, d as int);
        let t = rotated(p.active as int, n, d as int);
        assert(p.masters.len() == n);
        assert(t as usize == t);
        lemma_switched_active(w, t as usize, f, ops1);
        assert(f.project->0.masters@.len() == n);
        assert(f.project->0.active == t);
        lemma_switched_active(f, p.active, g, ops2);
    }
}

proof fn lemma_switched_active(w: Workspace, m: usize, f: Workspace, ops: Seq<EngineOp>)
    requires
        w.project is Some,
        m < w.project->0.masters@.len(),
        w.master_switched(m, f, ops),
    ensures
        f.project == Some(Project { active: m, ..w.project->0 }),
{
    let p = w.project->0;
    if m == p.active {
        assert(Project { active: m, ..p } == p);
    } else {
        let mm = w.with_master(m);
        match w.mode {
            Mode::Editor(i) => {
                let name = p.active_master().glyphs@[i as int].name@;
                match mm.index_named(name) {
                    Some(j) => {
                        assert(mm.opened(j as usize, f));
                    },
                    None => {},
                }
            },
            _ => {},
        }
    }
}


/// With one point selected on the open glyph, Tab and then shift-Tab
/// select that point again, when the glyph's point ids are distinct.
pub proof fn law_tab_then_shift_tab(w: Workspace, t: int, f: Workspace, r1: bool, g: Workspace, r2: bool)
    requires
        w.mode is Editor,
        w.glyph_points(w.mode->0 as int).no_duplicates(),
        0 <= t < w.glyph_points(w.mode->0 as int).len(),
        w.editor.selected@ == seq![w.glyph_points(w.mode->0 as int)[t]],
        w.cycled(false, f, r1),
        f.cycled(true, g, r2),
    ensures
        r1 && r2,
        g.editor.selected@ == w.editor.selected@,
{
    let ids = w.glyph_points(w.mode->0 as int);
    law_cycle_there_and_back(ids, t);
    assert(f.glyph_points(f.mode->0 as int) == ids);
}


proof fn lemma_find_is(s: Seq<char>, pat: Seq<char>, j: int)
    requires
        occurs_at(s, pat, j),
        forall|m: int| 0 <= m < j ==> !occurs_at(s, pat, m),
    ensures
        find(s, pat) == Some(j),
{
    lemma_find_from(s, pat, 0);
}

proof fn lemma_none_found(s: Seq<char>, pat: Seq<char>, m: int)
    requires
        find(s, pat) is None,
        0 <= m,
    ensures
        !occurs_at(s, pat, m),
{
    lemma_find_from(s, pat, 0);
}

proof fn lemma_first_at(a: Seq<char>, pat: Seq<char>, rest: Seq<char>)
    requires
        find(a, pat) is None,
        pat.len() > 0,
        forall|d: int| 1 <= d < pat.len() ==> #[trigger] pat[d] != pat[0],
    ensures
        find(a + pat + rest, pat) == Some(a.len() as int),
{
    let s = a + pat + rest;
    let i = a.len() as int;
    let n = pat.len() as int;
    assert(s.subrange(i, i + n) =~= pat);
    assert forall|m: int| 0 <= m < i implies !occurs_at(s, pat, m) by {
        if m + n <= i {
            lemma_none_found(a, pat, m);
            assert(s.subrange(m, m + n) =~= a.subrange(m, m + n));
        } else if occurs_at(s, pat, m) {
            let d = i - m;
            assert(s.subrange(m, m + n)[d] == s[i]);
            assert(s[i] == pat[0]);
        }
    }
    lemma_find_is(s, pat, i);
}

proof fn lemma_tags()
    ensures
        tool_open().len() == 11,
        tool_close().len() == 12,
        tool_open()[0] == '<',
        tool_close()[0] == '<',
        tool_open()[1] != tool_close()[1],
        forall|d: int| 1 <= d < 11 ==> tool_open()[d] != '<',
        forall|d: int| 1 <= d < 12 ==> tool_close()[d] != '<',
{
}

proof fn lemma_no_close_in_open(b: Seq<char>)
    requires
        find(b, tool_close()) is None,
    ensures
        find(tool_open() + b, tool_close()) is None,
{
    lemma_tags();
    let open = tool_open();
    let close = tool_close();
    let s = open + b;
    assert forall|m: int| 0 <= m implies !occurs_at(s, close, m) by {
        if occurs_at(s, close, m) {
            assert(s.subrange(m, m + 12)[0] == s[m]);
            if m < 11 {
                assert(s[m] == open[m]);
                assert(s.subrange(m, m + 12)[1] == s[m + 1]);
                if m == 0 {
                    assert(s[1] == open[1]);
                }
            } else {
                lemma_none_found(b, close, m - 11);
                assert(s.subrange(m, m + 12) =~= b.subrange(m - 11, m - 11 + 12));
            }
        }
    }
    lemma_find_from(s, close, 0);
}

/// A reply with one closed tool block shows what stands around the block,
/// less the leading white space, when the text before and after the
/// block opens no other block and the block's body does not close early.
pub proof fn law_tool_block_cut_out(a: Seq<char>, b: Seq<char>, c: Seq<char>)
    requires
        find(a, tool_open()) is None,
        find(b, tool_close()) is None,
        find(c, tool_open()) is None,
    ensures
        shown_text(a + tool_open() + b + tool_close() + c) == trim_start(a + c),
{
    let open = tool_open();
    let close = tool_close();
    let s = a + open + b + close + c;
    let i = a.len() as int;
    let rest = b + close + c;
    assert(s =~= a + open + rest);
    lemma_tags();
    lemma_first_at(a, open, rest);
    let after = s.subrange(i, s.len() as int);
    assert(after =~= open + b + close + c);
    lemma_no_close_in_open(b);
    lemma_first_at(open + b, close, c);
    assert(open + b + close + c =~= after);
    let e = 11 + b.len() as int;
    assert(after.subrange(e + 12, after.len() as int) =~= c);
    assert(s.subrange(0, i) =~= a);
    lemma_find_from(c, open, 0);
    assert(strip_tool_blocks(c) == c);
    assert(strip_tool_blocks(s) == a + c);
}


proof fn lemma_walk_bounds(w: Workspace, r: Seq<int>, t: int)
    requires
        0 <= t,
    ensures
        w.walk_after(r, t).0.len() <= r.len(),
        w.walk_after(r, t).1 matches Some(l) ==> 0 <= l < w.walk_after(r, t).0.len(),
        w.walk_after(r, t).1 is None ==> w.walk_after(r, t).0.len() == 0,
    decreases r.len(),
{
    if r.len() > 0 {
        let next = if t < r.len() { t } else { r.len() - 1 };
        if !w.tab_alive(r[next]) {
            lemma_walk_bounds(w, r.remove(next), next);
        }
    }
}

/// Closing a tab leaves at least one tab fewer, exactly one when it was
/// not the active tab (closing the active one also closes neighbours
/// whose glyph is gone). With none left the
/// overview shows and no glyph was last edited; otherwise the active tab
/// is one of those left, and closing a tab before the active one keeps
/// the same tab active.
pub proof fn law_close_tab_bounds(w: Workspace, target: int, f: Workspace)
    requires
        0 <= target < w.sessions@.len(),
        w.active_session < w.sessions@.len(),
        w.closed(target, f),
    ensures
        f.sessions@.len() <= w.sessions@.len() - 1,
        f.sessions@.len() == 0 ==> f.active_session == 0 && f.mode == Mode::Grid && f.last_editor is None,
        f.sessions@.len() > 0 ==> f.active_session < f.sessions@.len(),
        target < w.active_session ==> f.active_session == w.active_session - 1,
        target != w.active_session ==> f.sessions@.len() == w.sessions@.len() - 1,
{
    let n = w.sessions@.len();
    if n > 1 && target == w.active_session {
        lemma_walk_bounds(w, Workspace::ids(n).remove(target), target);
    }
}


/// Applying a corner by its short name asks for the same as applying it
/// by its full `_corner.` name. (A name that already starts with
/// `_corner.` would get the prefix twice in the second call.)
pub proof fn law_corner_prefix_optional(w: Workspace, node: PointId, name: Seq<char>,
    ops1: Seq<EngineOp>, ops2: Seq<EngineOp>)
    requires
        !crate::text::starts_with(name, "_corner."@),
        w.corner_request(node, name, ops1),
        w.corner_request(node, "_corner."@ + name, ops2),
    ensures
        ops1.len() == ops2.len(),
        ops1.len() == 1 ==> (ops1[0] matches EngineOp::ApplyCorner(c1, g1, a1)
            && ops2[0] matches EngineOp::ApplyCorner(c2, g2, a2)
            && c1@ == c2@ && g1 == g2 && a1 == a2),
{
    assert(("_corner."@ + name).subrange(0, "_corner."@.len() as int) =~= "_corner."@);
}


/// A reply whose tool block never closes shows what stands before the
/// block, less the leading white space.
pub proof fn law_open_tool_block_hidden(a: Seq<char>, b: Seq<char>)
    requires
        find(a, tool_open()) is None,
        find(b, tool_close()) is None,
    ensures
        shown_text(a + tool_open() + b) == trim_start(a),
{
    let open = tool_open();
    let s = a + open + b;
    lemma_tags();
    lemma_first_at(a, open, b);
    let after = s.subrange(a.len() as int, s.len() as int);
    assert(after =~= open + b);
    lemma_no_close_in_open(b);
    assert(s.subrange(0, a.len() as int) =~= a);
    assert(strip_tool_blocks(s) == a);
}


/// Enter twice in the Instances field with the same name adds at most one
/// instance, when the second press finds at the preview location the
/// instance the first one left there (the one it renamed, or the one it
/// added).
pub proof fn law_upsert_twice(w: Workspace, name: Seq<char>, at1: Option<usize>, f: Workspace,
    ops1: Seq<EngineOp>, at2: Option<usize>, g: Workspace, ops2: Seq<EngineOp>)
    requires
        w.project matches Some(p) && p.designspace is Some,
        trim(name).len() > 0,
        w.upserted(name, at1, f, ops1),
        ({
            let n = w.project->0.designspace->0.instances@.len();
            if at1 matches Some(i) && i < n { at2 == at1 } else { at2 == Some(n as usize) }
        }),
        f.upserted(name, at2, g, ops2),
    ensures
        g.project matches Some(gp) && gp.designspace matches Some(gds)
            && gds.instances@.len() <= w.project->0.designspace->0.instances@.len() + 1,
{
}


/// When no master could take the corner asked for by its short name, the
/// status bar names the full corner glyph that is needed.
pub proof fn law_missing_corner_named(name: Seq<char>, corner: String)
    requires
        !crate::text::starts_with(name, "_corner."@),
        corner@ == corner_name(name),
    ensures
        note_text(StatusNote::NoCornerApplied(corner))
            == Some("No corner applied · needs a "@ + "_corner."@ + name + " glyph and a line corner"@),
{
    assert("No corner applied · needs a "@ + corner@ + " glyph and a line corner"@
        =~= "No corner applied · needs a "@ + "_corner."@ + name + " glyph and a line corner"@);
}


/// In the editor, away from the Text tool and from any text field, with
/// no command key held, each tool key selects its own tool and is taken:
/// V the select tool, P the pen, M measuring, T text, K the knife, H the
/// hyper pen. All but P also end a pen path being drawn.
pub proof fn law_tool_keys_pick_their_tools(w: Workspace, name: Seq<char>, shift: bool, ctrl: bool, alt: bool,
    menu: bool, f: Workspace, h: Handled, ops: Seq<EngineOp>)
    requires
        w.mode is Editor,
        w.editor.tool != Tool::Text,
        name == "v"@ || name == "p"@ || name == "m"@ || name == "t"@ || name == "k"@ || name == "h"@,
        key_done(w, key_named(name), false, shift, ctrl, alt, menu, false, f, h, ops),
    ensures
        h == Handled::Yes,
        f == (Workspace { editor: EditorState { tool: f.editor.tool, ..w.editor }, ..w }),
        name == "v"@ ==> f.editor.tool == Tool::Select,
        name == "p"@ ==> f.editor.tool == Tool::Pen,
        name == "m"@ ==> f.editor.tool == Tool::Measure,
        name == "t"@ ==> f.editor.tool == Tool::Text,
        name == "k"@ ==> f.editor.tool == Tool::Knife,
        name == "h"@ ==> f.editor.tool == Tool::HyperPen,
        name != "p"@ ==> ops == seq![EngineOp::FinishPen],
        name == "p"@ ==> ops.len() == 0,
{
    reveal_strlit("v");
    reveal_strlit("p");
    reveal_strlit("m");
    reveal_strlit("t");
    reveal_strlit("k");
    reveal_strlit("h");
    assert(name.len() == 1);
    assert forall|x: char| x != name[0] implies name != seq![x] by {
        if name == seq![x] {
            assert(name[0] == seq![x][0]);
        }
    }
    if name == "v"@ {
        assert(name =~= seq!['v']);
        assert(key_named(name) == Key::V);
    } else if name == "p"@ {
        assert(name =~= seq!['p']);
        assert(key_named(name) == Key::P);
    } else if name == "m"@ {
        assert(name =~= seq!['m']);
        assert(key_named(name) == Key::M);
    } else if name == "t"@ {
        assert(name =~= seq!['t']);
        assert(key_named(name) == Key::T);
    } else if name == "k"@ {
        assert(name =~= seq!['k']);
        assert(key_named(name) == Key::K);
    } else {
        assert(name =~= seq!['h']);
        assert(key_named(name) == Key::H);
    }
}

/// The worth of a hexadecimal digit, `0`-`9` then `A`-`F`; none (-1)
/// for any other character.
pub open spec fn hex_worth(d: char) -> int {
    let u = d as u32;
    if '0' as u32 <= u && u <= '9' as u32 {
        u - '0' as u32
    } else if 'A' as u32 <= u && u <= 'F' as u32 {
        u - 'A' as u32 + 10
    } else {
        -1
    }
}

/// The number the hexadecimal digits `s` write.
pub open spec fn hex_read(s: Seq<char>) -> int
    decreases s.len(),
{
    if s.len() == 0 { 0 } else { hex_read(s.drop_last()) * 16 + hex_worth(s.last()) }
}

proof fn lemma_hex_digit_worth(d: nat)
    requires
        d < 16,
    ensures
        hex_worth(crate::grid::hex_digit(d)) == d,
{
}

proof fn lemma_hex_reads_back(n: nat)
    ensures
        hex_read(crate::grid::hex(n)) == n,
        forall|i: int| 0 <= i < crate::grid::hex(n).len() ==> 0 <= #[trigger] hex_worth(crate::grid::hex(n)[i]) < 16,
        crate::grid::hex(n).len() >= 1,
    decreases n,
{
    if n < 16 {
        lemma_hex_digit_worth(n);
        let h = crate::grid::hex(n);
        assert(h == seq![crate::grid::hex_digit(n)]);
        assert(h.drop_last() =~= Seq::<char>::empty());
        assert(hex_read(h.drop_last()) == 0);
        assert(h.last() == crate::grid::hex_digit(n));
    } else {
        lemma_hex_reads_back(n / 16);
        lemma_hex_digit_worth(n % 16);
        let h = crate::grid::hex(n);
        assert(h == crate::grid::hex(n / 16).push(crate::grid::hex_digit(n % 16)));
        assert(h.drop_last() =~= crate::grid::hex(n / 16));
        assert(h.last() == crate::grid::hex_digit(n % 16));
        assert(hex_read(h) == hex_read(crate::grid::hex(n / 16)) * 16 + hex_worth(crate::grid::hex_digit(n % 16)));
        assert((n / 16) * 16 + n % 16 == n);
        assert forall|i: int| 0 <= i < h.len() implies 0 <= #[trigger] hex_worth(h[i]) < 16 by {
            if i < h.len() - 1 {
                assert(h[i] == crate::grid::hex(n / 16)[i]);
            }
        }
    }
}

proof fn lemma_zeros_read(z: Seq<char>, h: Seq<char>)
    requires
        forall|i: int| 0 <= i < z.len() ==> z[i] == '0',
    ensures
        hex_read(z + h) == hex_read(h),
    decreases h.len(),
{
    if h.len() == 0 {
        assert(z + h =~= z);
        lemma_zeros_only(z);
    } else {
        lemma_zeros_read(z, h.drop_last());
        assert((z + h).drop_last() =~= z + h.drop_last());
    }
}

proof fn lemma_zeros_only(z: Seq<char>)
    requires
        forall|i: int| 0 <= i < z.len() ==> z[i] == '0',
    ensures
        hex_read(z) == 0,
    decreases z.len(),
{
    if z.len() > 0 {
        lemma_zeros_only(z.drop_last());
    }
}

proof fn lemma_hex_lead(n: nat)
    requires
        n >= 1,
    ensures
        crate::grid::hex(n)[0] != '0',
        crate::grid::hex(n).len() > 1 ==> n >= 16,
    decreases n,
{
    if n >= 16 {
        lemma_hex_lead(n / 16);
        lemma_hex_reads_back(n / 16);
        assert(crate::grid::hex(n)[0] == crate::grid::hex(n / 16)[0]);
    }
}

/// A code point's label is `U+` and at least four hexadecimal digits,
/// `0`-`9` and `A`-`F`, that read back as the code point.
pub proof fn law_unicode_label_reads_back(c: char)
    ensures
        unicode_name(c).len() >= 6,
        unicode_name(c).subrange(0, 2) == "U+"@,
        forall|i: int| 2 <= i < unicode_name(c).len() ==> 0 <= #[trigger] hex_worth(unicode_name(c)[i]) < 16,
        hex_read(unicode_name(c).subrange(2, unicode_name(c).len() as int)) == c as u32,
        unicode_name(c).len() > 6 ==> unicode_name(c)[2] != '0',
{
    reveal_strlit("U+");
    let h = crate::grid::hex(c as nat);
    lemma_hex_reads_back(c as nat);
    let digits = if h.len() < 4 { Seq::new((4 - h.len()) as nat, |i: int| '0') + h } else { h };
    let s = unicode_name(c);
    assert(s == "U+"@ + digits);
    assert(s.subrange(0, 2) =~= "U+"@);
    assert(s.subrange(2, s.len() as int) =~= digits);
    if h.len() < 4 {
        let z = Seq::new((4 - h.len()) as nat, |i: int| '0');
        lemma_zeros_read(z, h);
        assert forall|i: int| 2 <= i < s.len() implies 0 <= #[trigger] hex_worth(s[i]) < 16 by {
            if i - 2 < z.len() {
                assert(s[i] == '0');
            } else {
                assert(s[i] == h[i - 2 - z.len()]);
            }
        }
    } else {
        assert forall|i: int| 2 <= i < s.len() implies 0 <= #[trigger] hex_worth(s[i]) < 16 by {
            assert(s[i] == h[i - 2]);
        }
        if s.len() > 6 && (c as nat) >= 1 {
            lemma_hex_lead(c as nat);
            assert(s[2] == h[0]);
        }
        if (c as nat) == 0 {
            assert(h.len() == 1);
        }
    }
}

/// In the text strip, with a font open, Delete asks to delete the
/// character after the cursor and Backspace the one before it; each then
/// lays the strip out again.
pub proof fn law_delete_and_backspace(w: Workspace, key: Seq<char>, typed: Option<Seq<char>>, taken: bool,
    ops: Seq<EngineOp>)
    requires
        w.has_font(),
        key == "delete"@ || key == "backspace"@,
        w.text_key_done(key, typed, taken, ops),
    ensures
        taken,
        key == "delete"@ ==> ops == seq![EngineOp::TextKey(TextEdit::DeleteAfter), EngineOp::SyncSortOffset],
        key == "backspace"@ ==> ops == seq![EngineOp::TextKey(TextEdit::DeleteBefore), EngineOp::SyncSortOffset],
{
    reveal_strlit("delete");
    reveal_strlit("backspace");
    assert("delete"@.len() != "backspace"@.len());
    if key == "delete"@ {
        assert(crate::text_keys::text_edit_of(key, typed) == Some(TextEdit::DeleteAfter));
    } else {
        assert(crate::text_keys::text_edit_of(key, typed) == Some(TextEdit::DeleteBefore));
    }
}


/// In the text strip, with a font open, the arrow keys move the cursor
/// their own way, Home and End go to the line's ends and Enter breaks
/// the line; left, right, home, end and enter lay the strip out again at
/// once, up and down only once the strip says the cursor moved.
pub proof fn law_text_strip_moves(w: Workspace, key: Seq<char>, typed: Option<Seq<char>>, taken: bool,
    ops: Seq<EngineOp>)
    requires
        w.has_font(),
        w.text_key_done(key, typed, taken, ops),
    ensures
        key == "left"@ ==> ops == seq![EngineOp::TextKey(TextEdit::Left), EngineOp::SyncSortOffset],
        key == "right"@ ==> ops == seq![EngineOp::TextKey(TextEdit::Right), EngineOp::SyncSortOffset],
        key == "home"@ ==> ops == seq![EngineOp::TextKey(TextEdit::Home), EngineOp::SyncSortOffset],
        key == "end"@ ==> ops == seq![EngineOp::TextKey(TextEdit::End), EngineOp::SyncSortOffset],
        key == "enter"@ ==> ops == seq![EngineOp::TextKey(TextEdit::LineBreak), EngineOp::SyncSortOffset],
        key == "up"@ ==> ops == seq![EngineOp::TextKey(TextEdit::Up)],
        key == "down"@ ==> ops == seq![EngineOp::TextKey(TextEdit::Down)],
{
    reveal_strlit("backspace");
    reveal_strlit("delete");
    reveal_strlit("left");
    reveal_strlit("right");
    reveal_strlit("up");
    reveal_strlit("down");
    reveal_strlit("home");
    reveal_strlit("end");
    reveal_strlit("enter");
    let names = seq!["backspace"@, "delete"@, "left"@, "right"@, "up"@, "down"@, "home"@, "end"@, "enter"@];
    assert forall|i: int, j: int| 0 <= i < j < 9 implies names[i] != names[j] by {
        if names[i].len() == names[j].len() {
            assert(names[i][0] != names[j][0] || names[i][1] != names[j][1]);
        }
    }
    assert(names[0] == "backspace"@);
    assert(names[1] == "delete"@);
    assert(names[2] == "left"@);
    assert(names[3] == "right"@);
    assert(names[4] == "up"@);
    assert(names[5] == "down"@);
    assert(names[6] == "home"@);
    assert(names[7] == "end"@);
    assert(names[8] == "enter"@);
}


/// In the editor, away from the Text tool and any text field, with no
/// command key held, R picks the shapes tool (pressed again, it switches
/// between rectangles and ellipses), and Space holds the preview tool,
/// remembering the tool to go back to.
pub proof fn law_shape_and_preview_keys(w: Workspace, name: Seq<char>, shift: bool, ctrl: bool, alt: bool,
    menu: bool, f: Workspace, h: Handled, ops: Seq<EngineOp>)
    requires
        w.mode is Editor,
        w.editor.tool != Tool::Text,
        name == "r"@ || name == "space"@,
        key_done(w, key_named(name), false, shift, ctrl, alt, menu, false, f, h, ops),
    ensures
        h == Handled::Yes,
        name == "r"@ ==> f.editor.tool == Tool::Shapes
            && f.editor.shape_ellipse == (if w.editor.tool == Tool::Shapes { !w.editor.shape_ellipse } else { w.editor.shape_ellipse }),
        name == "space"@ ==> f.editor.tool == Tool::Preview
            && (w.editor.tool != Tool::Preview ==> f.editor.previous_tool == w.editor.tool),
{
    reveal_strlit("r");
    reveal_strlit("space");
    if name == "r"@ {
        assert(name =~= seq!['r']);
        assert forall|x: char| x != name[0] implies name != seq![x] by {
            if name == seq![x] {
                assert(name[0] == seq![x][0]);
            }
        }
        assert(key_named(name) == Key::R);
    } else {
        assert(name =~= seq!['s', 'p', 'a', 'c', 'e']);
        assert(key_named(name) == Key::Space);
    }
}

} // verus!
