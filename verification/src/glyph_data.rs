//! Commands that edit what the shell keeps per glyph: contour masks,
//! annotations, the background image link.
use vstd::prelude::*;
use crate::model::{Annotation, GlyphEntry, Master, Mode, Project, Workspace};
use crate::names::{insert_name, texts, with_name};

verus! {

/// Whether `f` is master `m` with glyph `index` replaced by `g`, marked as
/// holding unsaved edits to that glyph.
pub open spec fn glyph_replaced(m: Master, index: int, g: GlyphEntry, f: Master) -> bool {
    &&& f.glyphs@ == m.glyphs@.update(index, g)
    &&& texts(f.modified_glyphs@) == with_name(texts(m.modified_glyphs@), m.glyphs@[index].name@)
    &&& f == (Master { glyphs: f.glyphs, dirty: true, modified_glyphs: f.modified_glyphs, ..m })
}

/// A set of contour indices with `c` flipped.
pub open spec fn toggled(s: Seq<usize>, c: usize, f: Seq<usize>) -> bool {
    forall|x: usize| #[trigger] f.contains(x) <==> if x == c { !s.contains(c) } else { s.contains(x) }
}

/// The set `s` with `c` flipped: removed when present, added otherwise.
pub fn toggled_set(s: &Vec<usize>, c: usize) -> (r: Vec<usize>)
    ensures
        toggled(s@, c, r@),
{
    let mut found = false;
    let mut kept: Vec<usize> = Vec::new();
    let mut k: usize = 0;
    while k < s.len()
        invariant
            k <= s@.len(),
            found == (exists|j: int| 0 <= j < k && s@[j] == c),
            forall|x: usize| #[trigger] kept@.contains(x) <==> (x != c && exists|j: int| 0 <= j < k && s@[j] == x),
        decreases s@.len() - k,
    {
        let v = s[k];
        let ghost before = kept@;
        if v == c {
            found = true;
        } else {
            kept.push(v);
        }
        proof {
            assert forall|x: usize| #[trigger] kept@.contains(x) <==> (x != c && exists|j: int| 0 <= j < k + 1 && s@[j] == x) by {
                if v != c {
                    assert(kept@ == before.push(v));
                    if x == v {
                        assert(kept@[before.len() as int] == x);
                    }
                    if before.contains(x) {
                        let w = choose|i: int| 0 <= i < before.len() && before[i] == x;
                        assert(kept@[w] == x);
                    }
                    if kept@.contains(x) && x != v {
                        let w = choose|i: int| 0 <= i < kept@.len() && kept@[i] == x;
                        assert(before[w] == x);
                    }
                }
                if exists|j: int| 0 <= j < k + 1 && s@[j] == x {
                    let w = choose|j: int| 0 <= j < k + 1 && s@[j] == x;
                    if w < k {
                        assert(exists|j: int| 0 <= j < k && s@[j] == x);
                    }
                }
                if exists|j: int| 0 <= j < k && s@[j] == x {
                    let w = choose|j: int| 0 <= j < k && s@[j] == x;
                    assert(0 <= w < k + 1 && s@[w] == x);
                }
            }
            if exists|j: int| 0 <= j < k + 1 && s@[j] == c {
                let w = choose|j: int| 0 <= j < k + 1 && s@[j] == c;
                if w < k {
                    assert(exists|j: int| 0 <= j < k && s@[j] == c);
                }
            }
        }
        k += 1;
    }
    if !found {
        let ghost before = kept@;
        kept.push(c);
        proof {
            assert forall|x: usize| #[trigger] kept@.contains(x) <==> (x == c || before.contains(x)) by {
                if x == c {
                    assert(kept@[before.len() as int] == x);
                }
                if before.contains(x) {
                    let w = choose|i: int| 0 <= i < before.len() && before[i] == x;
                    assert(kept@[w] == x);
                }
                if kept@.contains(x) && x != c {
                    let w = choose|i: int| 0 <= i < kept@.len() && kept@[i] == x;
                    assert(before[w] == x);
                }
            }
        }
    }
    proof {
        assert forall|x: usize| #[trigger] s@.contains(x) <==> (exists|j: int| 0 <= j < s@.len() && s@[j] == x) by {
            if s@.contains(x) {
                let w = choose|i: int| 0 <= i < s@.len() && s@[i] == x;
                assert(0 <= w < s@.len() && s@[w] == x);
            }
        }
    }
    kept
}

impl Workspace {
    /// Whether `f` is this state with glyph `index` of the active master
    /// replaced by `g` and marked edited.
    pub open spec fn glyph_edited(&self, index: int, g: GlyphEntry, f: Workspace) -> bool {
        let p = self.project->0;
        &&& f.project matches Some(fp)
        &&& fp.masters@.len() == p.masters@.len()
        &&& forall|j: int| 0 <= j < p.masters@.len() && j != p.active ==> fp.masters@[j] == p.masters@[j]
        &&& glyph_replaced(p.active_master(), index, g, fp.masters@[p.active as int])
        &&& fp == (Project { masters: fp.masters, ..p })
        &&& f == (Workspace { project: f.project, ..*self })
    }

    /// The active master's glyph at `index`.
    pub open spec fn entry(&self, index: int) -> GlyphEntry {
        self.project->0.active_master().glyphs@[index]
    }

    /// Flip a contour's mask flag on the current glyph (active master).
    pub fn command_toggle_mask(&mut self, ci: usize)
        requires
            old(self).refs_ok(),
        ensures
            !(old(self).current_glyph() is Some && old(self).has_font()) ==> *final(self) == *old(self),
            (old(self).current_glyph() is Some && old(self).has_font()) ==> {
                let i = old(self).current_glyph()->0 as int;
                let e = old(self).entry(i);
                let g = final(self).project->0.active_master().glyphs@[i];
                &&& old(self).glyph_edited(i, GlyphEntry { masks: g.masks, ..e }, *final(self))
                &&& toggled(e.masks@, ci, g.masks@)
            },
    {
        let Some(index) = self.current_glyph_index() else {
            return;
        };
        let ghost o = *self;
        match &mut self.project {
            Some(p) => {
                if p.active >= p.masters.len() {
                    return;
                }
                let a = p.active;
                let ghost masters0 = p.masters@;
                let ghost m0 = p.masters@[a as int];
                let ghost e0 = m0.glyphs@[index as int];
                let name = p.masters[a].glyphs[index].name.clone();
                let kept = toggled_set(&p.masters[a].glyphs[index].masks, ci);
                p.masters[a].glyphs[index].masks = kept;
                p.masters[a].dirty = true;
                insert_name(&mut p.masters[a].modified_glyphs, &name);
                let ghost g = p.masters@[a as int].glyphs@[index as int];
                assert(g == (GlyphEntry { masks: g.masks, ..e0 }));
                assert(p.masters@[a as int].glyphs@ =~= m0.glyphs@.update(index as int, g));
                assert(p.masters@ =~= masters0.update(a as int, p.masters@[a as int]));
            },
            None => {},
        }
    }

    /// Drop an annotation on the current glyph (active master): of
    /// `kind`, saying `text`, at the point whose coordinates, rounded to
    /// whole units, have the bits `x_bits` and `y_bits`.
    pub fn command_add_annotation(&mut self, x_bits: u64, y_bits: u64, kind: String, text: String)
        requires
            old(self).refs_ok(),
        ensures
            !(old(self).current_glyph() is Some && old(self).has_font()) ==> *final(self) == *old(self),
            (old(self).current_glyph() is Some && old(self).has_font()) ==> {
                let gi = old(self).current_glyph()->0 as int;
                let e = old(self).entry(gi);
                let g = final(self).project->0.active_master().glyphs@[gi];
                &&& old(self).glyph_edited(gi, GlyphEntry { annotations: g.annotations, ..e }, *final(self))
                &&& g.annotations@ == e.annotations@.push(Annotation { kind, x_bits, y_bits, text })
            },
    {
        let Some(index) = self.current_glyph_index() else {
            return;
        };
        match &mut self.project {
            Some(p) => {
                if p.active >= p.masters.len() {
                    return;
                }
                let a = p.active;
                let ghost masters0 = p.masters@;
                let ghost m0 = p.masters@[a as int];
                let ghost e0 = m0.glyphs@[index as int];
                let name = p.masters[a].glyphs[index].name.clone();
                p.masters[a].glyphs[index].annotations.push(Annotation { kind, x_bits, y_bits, text });
                p.masters[a].dirty = true;
                insert_name(&mut p.masters[a].modified_glyphs, &name);
                let ghost g = p.masters@[a as int].glyphs@[index as int];
                assert(g == (GlyphEntry { annotations: g.annotations, ..e0 }));
                assert(p.masters@[a as int].glyphs@ =~= m0.glyphs@.update(index as int, g));
                assert(p.masters@ =~= masters0.update(a as int, p.masters@[a as int]));
            },
            None => {},
        }
    }

    /// Remove the current glyph's annotation at `i`, when there is one.
    pub fn command_delete_annotation(&mut self, i: usize)
        requires
            old(self).refs_ok(),
        ensures
            !(old(self).current_glyph() is Some && old(self).has_font()
                && i < old(self).entry(old(self).current_glyph()->0 as int).annotations@.len())
                ==> *final(self) == *old(self),
            (old(self).current_glyph() is Some && old(self).has_font()
                && i < old(self).entry(old(self).current_glyph()->0 as int).annotations@.len()) ==> {
                let gi = old(self).current_glyph()->0 as int;
                let e = old(self).entry(gi);
                let g = final(self).project->0.active_master().glyphs@[gi];
                &&& old(self).glyph_edited(gi, GlyphEntry { annotations: g.annotations, ..e }, *final(self))
                &&& g.annotations@ == e.annotations@.remove(i as int)
            },
    {
        let Some(index) = self.current_glyph_index() else {
            return;
        };
        match &mut self.project {
            Some(p) => {
                if p.active >= p.masters.len() {
                    return;
                }
                let a = p.active;
                if i >= p.masters[a].glyphs[index].annotations.len() {
                    return;
                }
                let ghost masters0 = p.masters@;
                let ghost m0 = p.masters@[a as int];
                let ghost e0 = m0.glyphs@[index as int];
                let name = p.masters[a].glyphs[index].name.clone();
                p.masters[a].glyphs[index].annotations.remove(i);
                p.masters[a].dirty = true;
                insert_name(&mut p.masters[a].modified_glyphs, &name);
                let ghost g = p.masters@[a as int].glyphs@[index as int];
                assert(g == (GlyphEntry { annotations: g.annotations, ..e0 }));
                assert(p.masters@[a as int].glyphs@ =~= m0.glyphs@.update(index as int, g));
                assert(p.masters@ =~= masters0.update(a as int, p.masters@[a as int]));
            },
            None => {},
        }
    }

    /// Unlink the open glyph's background image. The stored file stays;
    /// other glyphs may use it.
    pub fn command_remove_image(&mut self)
        requires
            old(self).refs_ok(),
        ensures
            !(old(self).mode is Editor && old(self).has_font()
                && old(self).entry(old(self).mode->0 as int).has_image) ==> *final(self) == *old(self),
            (old(self).mode is Editor && old(self).has_font()
                && old(self).entry(old(self).mode->0 as int).has_image) ==> {
                let gi = old(self).mode->0 as int;
                old(self).glyph_edited(gi, GlyphEntry { has_image: false, ..old(self).entry(gi) }, *final(self))
            },
    {
        let Mode::Editor(index) = self.mode else {
            return;
        };
        match &mut self.project {
            Some(p) => {
                if p.active >= p.masters.len() {
                    return;
                }
                let a = p.active;
                if !p.masters[a].glyphs[index].has_image {
                    return;
                }
                let ghost masters0 = p.masters@;
                let ghost m0 = p.masters@[a as int];
                let name = p.masters[a].glyphs[index].name.clone();
                p.masters[a].glyphs[index].has_image = false;
                p.masters[a].dirty = true;
                insert_name(&mut p.masters[a].modified_glyphs, &name);
                assert(p.masters@[a as int].glyphs@ =~= m0.glyphs@.update(index as int, p.masters@[a as int].glyphs@[index as int]));
                assert(p.masters@ =~= masters0.update(a as int, p.masters@[a as int]));
            },
            None => {},
        }
    }
}

} // verus!
