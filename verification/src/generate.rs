//! The glyphs a language filter still misses, added to every master
//! that lacks them, named and encoded.
use vstd::prelude::*;
use crate::model::{EngineOp, GlyphEntry, Master, Project, StatusNote, Workspace};
use crate::names::{find_glyph, has_name, insert_name, names_of, texts, with_name};

verus! {

/// The character a code point value stands for, as `char::from_u32`
/// reads it: none for a surrogate or a value past the last code point.
pub open spec fn char_of(u: u32) -> Option<char> {
    if u <= 0x10FFFF && !(0xD800 <= u <= 0xDFFF) {
        Some(u as char)
    } else {
        None
    }
}

/// `char::from_u32`: the character of a code point value, none for a
/// value that is not one.
#[verifier::external_body]
fn char_from_u32(u: u32) -> (r: Option<char>)
    ensures
        r == char_of(u),
{
    char::from_u32(u)
}

/// A target by its name's text and its code point value.
pub open spec fn target_view(t: (String, u32)) -> (Seq<char>, u32) {
    (t.0@, t.1)
}

/// The names of some targets.
pub open spec fn target_names(ts: Seq<(Seq<char>, u32)>) -> Seq<Seq<char>> {
    ts.map_values(|t: (Seq<char>, u32)| t.0)
}

/// The targets a glyph list named `names` lacks, in order, each name
/// once: a target whose name the list, or an earlier target added,
/// already has is passed over.
pub open spec fn missing(names: Seq<Seq<char>>, ts: Seq<(Seq<char>, u32)>) -> Seq<(Seq<char>, u32)>
    decreases ts.len(),
{
    if ts.len() == 0 {
        Seq::empty()
    } else {
        let prev = missing(names, ts.drop_last());
        if has_name(names + target_names(prev), ts.last().0) {
            prev
        } else {
            prev.push(ts.last())
        }
    }
}

/// A set of names with each of the targets' names added.
pub open spec fn with_targets(s: Seq<Seq<char>>, add: Seq<(Seq<char>, u32)>) -> Seq<Seq<char>>
    decreases add.len(),
{
    if add.len() == 0 {
        s
    } else {
        with_name(with_targets(s, add.drop_last()), add.last().0)
    }
}

/// A new, empty glyph of this name and code point.
pub open spec fn is_new_glyph(e: GlyphEntry, t: (Seq<char>, u32)) -> bool {
    &&& e.name@ == t.0
    &&& e.codepoint == char_of(t.1)
    &&& e.points@.len() == 0
    &&& !e.has_image
    &&& e.masks@.len() == 0
    &&& e.annotations@.len() == 0
}

/// Whether `f` is master `m` with the targets it lacks appended: new
/// empty glyphs, named and encoded, each marked as edited, the master
/// dirty when any was added.
pub open spec fn generated(m: Master, ts: Seq<(Seq<char>, u32)>, f: Master) -> bool {
    let add = missing(names_of(m.glyphs@), ts);
    let n = m.glyphs@.len();
    &&& f.glyphs@.len() == n + add.len()
    &&& f.glyphs@.subrange(0, n as int) == m.glyphs@
    &&& forall|i: int| 0 <= i < add.len() ==> #[trigger] is_new_glyph(f.glyphs@[n + i], add[i])
    &&& texts(f.modified_glyphs@) == with_targets(texts(m.modified_glyphs@), add)
    &&& f == (Master {
        glyphs: f.glyphs,
        modified_glyphs: f.modified_glyphs,
        dirty: m.dirty || add.len() > 0,
        ..m
    })
}

fn new_glyph(name: &String, u: u32) -> (e: GlyphEntry)
    ensures
        is_new_glyph(e, (name@, u)),
{
    GlyphEntry {
        name: name.clone(),
        codepoint: char_from_u32(u),
        points: Vec::new(),
        has_image: false,
        masks: Vec::new(),
        annotations: Vec::new(),
    }
}

fn add_missing_to(m: &mut Master, targets: &Vec<(String, u32)>)
    ensures
        generated(*old(m), targets@.map_values(|t: (String, u32)| target_view(t)), *final(m)),
{
    let ghost m0 = *m;
    let ghost names0 = names_of(m0.glyphs@);
    let ghost ts = targets@.map_values(|t: (String, u32)| target_view(t));
    let n = m.glyphs.len();
    let mut j: usize = 0;
    while j < targets.len()
        invariant
            j <= targets@.len(),
            n == m0.glyphs@.len(),
            ts == targets@.map_values(|t: (String, u32)| target_view(t)),
            names0 == names_of(m0.glyphs@),
            ({
                let add = missing(names0, ts.subrange(0, j as int));
                &&& m.glyphs@.len() == n + add.len()
                &&& m.glyphs@.subrange(0, n as int) == m0.glyphs@
                &&& names_of(m.glyphs@) == names0 + target_names(add)
                &&& forall|i: int| 0 <= i < add.len() ==> #[trigger] is_new_glyph(m.glyphs@[n + i], add[i])
                &&& texts(m.modified_glyphs@) == with_targets(texts(m0.modified_glyphs@), add)
                &&& *m == (Master {
                    glyphs: m.glyphs,
                    modified_glyphs: m.modified_glyphs,
                    dirty: m0.dirty || add.len() > 0,
                    ..m0
                })
            }),
        decreases targets@.len() - j,
    {
        let ghost pre = ts.subrange(0, j as int);
        let ghost post = ts.subrange(0, j as int + 1);
        let ghost add = missing(names0, pre);
        assert(post.drop_last() =~= pre);
        assert(post.last() == target_view(targets@[j as int]));
        let name = &targets[j].0;
        let u = targets[j].1;
        let found = find_glyph(&m.glyphs, name);
        if found.is_none() {
            let ghost before = m.glyphs@;
            let e = new_glyph(name, u);
            m.glyphs.push(e);
            m.dirty = true;
            insert_name(&mut m.modified_glyphs, name);
            proof {
                let add2 = missing(names0, post);
                assert(add2 == add.push((name@, u)));
                assert(target_names(add2) =~= target_names(add).push(name@));
                assert(names_of(m.glyphs@) =~= names_of(before).push(name@));
                assert(m.glyphs@.subrange(0, n as int) =~= before.subrange(0, n as int));
                assert forall|i: int| 0 <= i < add2.len() implies #[trigger] is_new_glyph(m.glyphs@[n + i], add2[i]) by {
                    if i < add.len() {
                        assert(m.glyphs@[n + i] == before[n + i]);
                    }
                }
                assert(with_targets(texts(m0.modified_glyphs@), add2)
                    == with_name(with_targets(texts(m0.modified_glyphs@), add), name@)) by {
                    assert(add2.drop_last() =~= add);
                }
            }
        } else {
            assert(missing(names0, post) == add);
        }
        j = j + 1;
    }
    assert(ts.subrange(0, targets@.len() as int) =~= ts);
}

impl Workspace {
    /// Add every glyph a language filter still misses: of `targets`, the
    /// (name, code point value) pairs the filter wants, each master gets,
    /// in order, those it lacks, as empty glyphs named and encoded so;
    /// the engine adds the same. The status bar counts the targets; the
    /// sidebar counts again. With no targets or no font nothing happens.
    pub fn command_generate_missing(&mut self, targets: Vec<(String, u32)>) -> (ops: Vec<EngineOp>)
        ensures
            (targets@.len() == 0 || old(self).project is None) ==> *final(self) == *old(self) && ops@.len() == 0,
            (targets@.len() > 0 && old(self).project is Some) ==> {
                let p = old(self).project->0;
                let ts = targets@.map_values(|t: (String, u32)| target_view(t));
                &&& final(self).project matches Some(fp)
                &&& fp.masters@.len() == p.masters@.len()
                &&& forall|k: int| 0 <= k < p.masters@.len() ==> generated(p.masters@[k], ts, #[trigger] fp.masters@[k])
                &&& fp == (Project { masters: fp.masters, ..p })
                &&& ops@ == seq![EngineOp::GenerateGlyphs(targets)]
                &&& *final(self) == (Workspace {
                    project: final(self).project,
                    sidebar_counts: false,
                    status_note: Some(StatusNote::GeneratedMissing(targets@.len() as usize)),
                    ..*old(self)
                })
            },
    {
        if targets.len() == 0 {
            return Vec::new();
        }
        let Some(mut p) = self.project.take() else {
            return Vec::new();
        };
        let ghost p0 = p;
        let ghost ts = targets@.map_values(|t: (String, u32)| target_view(t));
        let mut k: usize = 0;
        while k < p.masters.len()
            invariant
                k <= p.masters@.len(),
                p.masters@.len() == p0.masters@.len(),
                p == (Project { masters: p.masters, ..p0 }),
                ts == targets@.map_values(|t: (String, u32)| target_view(t)),
                forall|i: int| k <= i < p.masters@.len() ==> #[trigger] p.masters@[i] == p0.masters@[i],
                forall|i: int| 0 <= i < k ==> generated(p0.masters@[i], ts, #[trigger] p.masters@[i]),
            decreases p.masters@.len() - k,
        {
            let mut m = p.masters.remove(k);
            add_missing_to(&mut m, &targets);
            p.masters.insert(k, m);
            k = k + 1;
        }
        self.project = Some(p);
        self.sidebar_counts = false;
        self.status_note = Some(StatusNote::GeneratedMissing(targets.len()));
        let mut ops = Vec::new();
        ops.push(EngineOp::GenerateGlyphs(targets));
        ops
    }
}

} // verus!
