//! Shape switches: an alternate of a glyph that the designspace swaps in
//! past a point of the first axis.
use vstd::prelude::*;
use crate::model::{Designspace, EngineOp, GlyphEntry, Master, Project, Rule, StatusNote, Workspace};
use crate::designspace::substitutes;
use crate::glyphs::{valid_layer_name, valid_name};
use crate::names::{find_glyph, has_name, index_of, insert_name, names_of, texts, with_name};
use crate::points::copy_points;
use crate::text::{chars_of, joined, string_of};

verus! {

/// The alternate a shape switch swaps in: `<name>.bold`.
pub open spec fn bold_alt(name: Seq<char>) -> Seq<char> {
    name + ".bold"@
}

/// A master after a shape switch for glyph `name`: one that lacks the
/// alternate and has the glyph gets a copy of its drawing under the
/// alternate's name, unencoded, marked as edited; the others stay.
pub open spec fn switch_copied(m: Master, name: Seq<char>, f: Master) -> bool {
    let names = names_of(m.glyphs@);
    let alt = bold_alt(name);
    if !has_name(names, alt) && index_of(names, name) is Some {
        let src = m.glyphs@[index_of(names, name)->0];
        let e = f.glyphs@.last();
        &&& f.glyphs@.len() == m.glyphs@.len() + 1
        &&& f.glyphs@.drop_last() == m.glyphs@
        &&& e.name@ == alt
        &&& e.codepoint is None
        &&& e.points@ == src.points@
        &&& !e.has_image
        &&& e.masks@.len() == 0
        &&& e.annotations@.len() == 0
        &&& texts(f.modified_glyphs@) == with_name(texts(m.modified_glyphs@), alt)
        &&& f == (Master { glyphs: f.glyphs, modified_glyphs: f.modified_glyphs, dirty: true, ..m })
    } else {
        f == m
    }
}

/// Whether a rule of `rules` substitutes glyph `name`.
pub open spec fn switched(rules: Seq<Rule>, name: Seq<char>) -> bool {
    exists|j: int| 0 <= j < rules.len() && substitutes(#[trigger] rules[j], name)
}

/// The rule a new shape switch adds: `<name> bold`, substituting the
/// alternate for the glyph.
pub open spec fn switch_rule(r: Rule, name: Seq<char>) -> bool {
    &&& r.name matches Some(n) && n@ == name + " bold"@
    &&& r.substitutions@.len() == 1
    &&& r.substitutions@[0].0@ == name
    &&& r.substitutions@[0].1@ == bold_alt(name)
}

fn copy_switch(m: &mut Master, name: &String, alt: &String)
    requires
        alt@ == bold_alt(name@),
    ensures
        switch_copied(*old(m), name@, *final(m)),
{
    if find_glyph(&m.glyphs, alt).is_some() {
        return;
    }
    let Some(j) = find_glyph(&m.glyphs, name) else {
        return;
    };
    proof {
        crate::names::lemma_index_of(names_of(m.glyphs@), name@);
    }
    let ghost before = m.glyphs@;
    let points = copy_points(&m.glyphs[j].points);
    m.glyphs.push(GlyphEntry {
        name: alt.clone(),
        codepoint: None,
        points,
        has_image: false,
        masks: Vec::new(),
        annotations: Vec::new(),
    });
    assert(m.glyphs@.drop_last() =~= before);
    m.dirty = true;
    insert_name(&mut m.modified_glyphs, alt);
}

fn has_switch(rules: &Vec<Rule>, name: &String) -> (b: bool)
    ensures
        b == switched(rules@, name@),
{
    let mut j: usize = 0;
    while j < rules.len()
        invariant
            j <= rules@.len(),
            forall|k: int| 0 <= k < j ==> !substitutes(#[trigger] rules@[k], name@),
        decreases rules@.len() - j,
    {
        let mut s: usize = 0;
        let mut found = false;
        while s < rules[j].substitutions.len()
            invariant
                j < rules@.len(),
                s <= rules@[j as int].substitutions@.len(),
                found == exists|t: int| 0 <= t < s && (#[trigger] rules@[j as int].substitutions@[t]).0@ == name@,
            decreases rules@[j as int].substitutions@.len() - s,
        {
            if crate::tasks::text_is(&rules[j].substitutions[s].0, name.as_str()) {
                found = true;
            }
            s = s + 1;
        }
        if found {
            assert(substitutes(rules@[j as int], name@));
            return true;
        }
        j = j + 1;
    }
    false
}

impl Workspace {
    /// Add a shape switch for the current glyph: an unencoded copy of its
    /// drawing named `<name>.bold` in every master that lacks one, and,
    /// unless a rule substitutes the glyph already, a designspace rule
    /// `<name> bold` that swaps the copy in, from the point whose bits are
    /// `at_bits` to the end of the first axis; rules are processed last;
    /// `in_range` says whether that point lies on the axis. The
    /// designspace has edits waiting, the sidebar counts again, and the
    /// status bar names the switch. Without a designspace the status bar
    /// says one is needed; a point off the axis is refused; without an
    /// axis, or with names a font cannot hold, nothing happens.
    pub fn command_add_shape_switch(&mut self, at_bits: u64, in_range: bool) -> (ops: Vec<EngineOp>)
        requires
            old(self).refs_ok(),
        ensures
            !(old(self).current_glyph() is Some && old(self).has_font()) ==> *final(self) == *old(self) && ops@.len() == 0,
            (old(self).current_glyph() is Some && old(self).has_font()) ==> {
                let p = old(self).project->0;
                let name = p.active_master().glyphs@[old(self).current_glyph()->0 as int].name@;
                let alt = bold_alt(name);
                if p.designspace is None {
                    &&& *final(self) == (Workspace { status_note: Some(StatusNote::ShapeSwitchNeedsDesignspace), ..*old(self) })
                    &&& ops@.len() == 0
                } else if p.designspace->0.first_axis is None {
                    *final(self) == *old(self) && ops@.len() == 0
                } else if !in_range {
                    &&& *final(self) == (Workspace { status_note: Some(StatusNote::SwitchOffAxis(at_bits)), ..*old(self) })
                    &&& ops@.len() == 0
                } else if !valid_name(name) || !valid_name(alt) {
                    *final(self) == *old(self) && ops@.len() == 0
                } else {
                    let ds = p.designspace->0;
                    &&& final(self).project matches Some(fp)
                    &&& fp.masters@.len() == p.masters@.len()
                    &&& forall|k: int| 0 <= k < p.masters@.len() ==> switch_copied(p.masters@[k], name, #[trigger] fp.masters@[k])
                    &&& fp.designspace matches Some(fds)
                    &&& if switched(ds.rules@, name) {
                        fds.rules@ == ds.rules@
                    } else {
                        fds.rules@.len() == ds.rules@.len() + 1 && fds.rules@.drop_last() == ds.rules@
                            && switch_rule(fds.rules@.last(), name)
                    }
                    &&& fds == (Designspace { rules: fds.rules, ..ds })
                    &&& fp == (Project { masters: fp.masters, designspace: fp.designspace, ds_dirty: true, ..p })
                    &&& final(self).status_note matches Some(StatusNote::ShapeSwitchAdded(n, a, at))
                    &&& n@ == name && a@ == alt && at == at_bits
                    &&& *final(self) == (Workspace {
                        project: final(self).project,
                        sidebar_counts: false,
                        status_note: final(self).status_note,
                        ..*old(self)
                    })
                    &&& ops@[0] == EngineOp::ProcessRulesLast
                    &&& ops@.last() == EngineOp::ComputeCompat
                    &&& if switched(ds.rules@, name) {
                        ops@.len() == 2
                    } else {
                        ops@.len() == 3 && (ops@[1] matches EngineOp::SwitchFrom(g, b) && g@ == name && b == at_bits)
                    }
                }
            },
    {
        let mut ops = Vec::new();
        let Some(index) = self.current_glyph_index() else {
            return ops;
        };
        let Some(mut p) = self.project.take() else {
            return ops;
        };
        let ghost p0 = p;
        if p.active >= p.masters.len() {
            self.project = Some(p);
            return ops;
        }
        let Some(mut ds) = p.designspace.take() else {
            self.project = Some(p);
            self.status_note = Some(StatusNote::ShapeSwitchNeedsDesignspace);
            return ops;
        };
        if ds.first_axis.is_none() || !in_range {
            let axis = ds.first_axis.is_some();
            p.designspace = Some(ds);
            self.project = Some(p);
            if axis {
                self.status_note = Some(StatusNote::SwitchOffAxis(at_bits));
            }
            return ops;
        }
        let name = p.masters[p.active].glyphs[index].name.clone();
        let alt = string_of(&joined(&chars_of(name.as_str()), &chars_of(".bold")));
        if !valid_layer_name(name.as_str()) || !valid_layer_name(alt.as_str()) {
            p.designspace = Some(ds);
            self.project = Some(p);
            return ops;
        }
        let ghost ps = p;
        let mut k: usize = 0;
        while k < p.masters.len()
            invariant
                k <= p.masters@.len(),
                p.masters@.len() == ps.masters@.len(),
                p == (Project { masters: p.masters, ..ps }),
                alt@ == bold_alt(name@),
                forall|i: int| k <= i < p.masters@.len() ==> #[trigger] p.masters@[i] == ps.masters@[i],
                forall|i: int| 0 <= i < k ==> switch_copied(ps.masters@[i], name@, #[trigger] p.masters@[i]),
            decreases p.masters@.len() - k,
        {
            let mut m = p.masters.remove(k);
            copy_switch(&mut m, &name, &alt);
            p.masters.insert(k, m);
            k = k + 1;
        }
        ops.push(EngineOp::ProcessRulesLast);
        if !has_switch(&ds.rules, &name) {
            ops.push(EngineOp::SwitchFrom(name.clone(), at_bits));
            let rule_name = string_of(&joined(&chars_of(name.as_str()), &chars_of(" bold")));
            let mut subs = Vec::new();
            subs.push((name.clone(), alt.clone()));
            let ghost before = ds.rules@;
            ds.rules.push(Rule { name: Some(rule_name), substitutions: subs });
            assert(ds.rules@.drop_last() =~= before);
        }
        p.designspace = Some(ds);
        p.ds_dirty = true;
        self.project = Some(p);
        self.sidebar_counts = false;
        ops.push(EngineOp::ComputeCompat);
        self.status_note = Some(StatusNote::ShapeSwitchAdded(name, alt, at_bits));
        ops
    }
}

} // verus!
