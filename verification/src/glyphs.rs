//! The glyph list: adding, removing and duplicating glyphs across every
//! master, the free names new glyphs get, and kerning group membership.
use vstd::prelude::*;
use vstd::relations::injective_on;
use vstd::set_lib::{lemma_int_range, lemma_len_subset, lemma_map_size, set_int_range};
use crate::model::{EngineOp, GlyphEntry, Project, StatusNote, Workspace};
use crate::decimal::{lemma_padded_injective, padded, padded_decimal};
use crate::names::{contains_name, find_glyph, index_of, names_of, texts, with_name, insert_name};
use crate::model::{Annotation, Group, Master};
use crate::text::{joined, string_of};

verus! {

/// The `c`-th derived name of `stem`: `stem.NNN`, the count zero-padded
/// to three digits.
pub open spec fn candidate(stem: Seq<char>, c: nat) -> Seq<char> {
    stem + seq!['.'] + padded(c, 3)
}

/// Whether `name` is the first free name `stem.NNN` counting from
/// `start`: not taken, and every earlier one taken.
pub open spec fn first_free(taken: spec_fn(Seq<char>) -> bool, stem: Seq<char>, start: nat, name: Seq<char>) -> bool {
    exists|c: nat| #![trigger candidate(stem, c)]
        c >= start && name == candidate(stem, c) && !taken(name)
        && forall|k: nat| start <= k < c ==> taken(#[trigger] candidate(stem, k))
}

proof fn lemma_candidate_injective(stem: Seq<char>, a: nat, b: nat)
    requires
        candidate(stem, a) == candidate(stem, b),
    ensures
        a == b,
{
    let n = stem.len() + 1;
    assert(candidate(stem, a).subrange(n as int, candidate(stem, a).len() as int) =~= padded(a, 3));
    assert(candidate(stem, b).subrange(n as int, candidate(stem, b).len() as int) =~= padded(b, 3));
    lemma_padded_injective(a, b, 3);
}

/// Distinct names drawn from a list are no more than the list holds:
/// if the names `f(start)`, ..., `f(c - 1)` are distinct and all in
/// `pool`, there are at most `pool.len()` of them.
pub proof fn lemma_distinct_in_pool(f: spec_fn(nat) -> Seq<char>, pool: Seq<Seq<char>>, start: nat, c: nat)
    requires
        start <= c,
        forall|a: nat, b: nat| start <= a < c && start <= b < c && #[trigger] f(a) == #[trigger] f(b) ==> a == b,
        forall|k: nat| start <= k < c ==> pool.contains(#[trigger] f(k)),
    ensures
        c - start <= pool.len(),
{
    let x = set_int_range(start as int, c as int);
    lemma_int_range(start as int, c as int);
    let g = |k: int| f(k as nat);
    assert(injective_on(g, x)) by {
        assert forall|a: int, b: int| x.contains(a) && x.contains(b) && #[trigger] g(a) == #[trigger] g(b)
            implies a == b by {
            assert(f(a as nat) == f(b as nat));
        }
    }
    let y = x.map(g);
    lemma_map_size(x, y, g);
    assert(y.subset_of(pool.to_set())) by {
        assert forall|n: Seq<char>| #[trigger] y.contains(n) implies pool.to_set().contains(n) by {
            let k = choose|k: int| x.contains(k) && g(k) == n;
            assert(pool.contains(f(k as nat)));
        }
    }
    lemma_len_subset(y, pool.to_set());
    pool.lemma_cardinality_of_set();
}

/// There are no more taken derived names than taken names.
proof fn lemma_pigeonhole(taken: Seq<Seq<char>>, stem: Seq<char>, start: nat, c: nat)
    requires
        start <= c,
        forall|k: nat| start <= k < c ==> taken.contains(#[trigger] candidate(stem, k)),
    ensures
        c - start <= taken.len(),
{
    let f = |k: nat| candidate(stem, k);
    assert forall|a: nat, b: nat| start <= a < c && start <= b < c && #[trigger] f(a) == #[trigger] f(b) implies a == b by {
        lemma_candidate_injective(stem, a, b);
    }
    assert forall|k: nat| start <= k < c implies taken.contains(#[trigger] f(k)) by {
        assert(taken.contains(candidate(stem, k)));
    }
    lemma_distinct_in_pool(f, taken, start, c);
}

/// The first free name `stem.NNN` counting from `start`, and its count.
pub fn free_name(taken: &Vec<String>, stem: &Vec<char>, start: u128) -> (r: (u128, String))
    requires
        start <= 1,
    ensures
        r.0 >= start,
        r.1@ == candidate(stem@, r.0 as nat),
        !texts(taken@).contains(r.1@),
        forall|k: nat| start <= k < r.0 ==> texts(taken@).contains(#[trigger] candidate(stem@, k)),
        first_free(|n: Seq<char>| texts(taken@).contains(n), stem@, start as nat, r.1@),
{
    let mut c: u128 = start;
    let mut dot = stem.clone();
    dot.push('.');
    loop
        invariant
            start <= c,
            start <= 1,
            dot@ == stem@ + seq!['.'],
            c - start <= taken@.len(),
            taken@.len() == taken.len(),
            forall|k: nat| start <= k < c ==> texts(taken@).contains(#[trigger] candidate(stem@, k)),
        decreases start + taken@.len() + 1 - c,
    {
        let digits = padded_decimal(c, 3);
        let name = string_of(&joined(&dot, &digits));
        if !contains_name(taken, &name) {
            assert(name@ == candidate(stem@, c as nat));
            return (c, name);
        }
        assert(name@ == candidate(stem@, c as nat));
        proof {
            lemma_pigeonhole(texts(taken@), stem@, start as nat, (c + 1) as nat);
            assert(texts(taken@).len() == taken@.len());
        }
        c = c + 1;
    }
}

/// Every glyph name of every master.
pub open spec fn taken_in(p: Project, n: Seq<char>) -> bool {
    exists|m: int, i: int| 0 <= m < p.masters@.len() && 0 <= i < p.masters@[m].glyphs@.len()
        && #[trigger] p.masters@[m].glyphs@[i].name@ == n
}

/// The names of every glyph of every master, in one list.
pub fn all_names(p: &Project) -> (r: Vec<String>)
    ensures
        forall|n: Seq<char>| #[trigger] texts(r@).contains(n) <==> taken_in(*p, n),
{
    let mut r: Vec<String> = Vec::new();
    let mut m: usize = 0;
    while m < p.masters.len()
        invariant
            m <= p.masters@.len(),
            forall|n: Seq<char>| #[trigger] texts(r@).contains(n) <==> exists|mm: int, i: int|
                0 <= mm < m && 0 <= i < p.masters@[mm].glyphs@.len() && #[trigger] p.masters@[mm].glyphs@[i].name@ == n,
        decreases p.masters@.len() - m,
    {
        let mut i: usize = 0;
        while i < p.masters[m].glyphs.len()
            invariant
                m < p.masters@.len(),
                i <= p.masters@[m as int].glyphs@.len(),
                forall|n: Seq<char>| #[trigger] texts(r@).contains(n) <==> (exists|mm: int, j: int|
                    0 <= mm < m && 0 <= j < p.masters@[mm].glyphs@.len() && #[trigger] p.masters@[mm].glyphs@[j].name@ == n)
                    || (exists|j: int| 0 <= j < i && #[trigger] p.masters@[m as int].glyphs@[j].name@ == n),
            decreases p.masters@[m as int].glyphs@.len() - i,
        {
            let ghost before = r@;
            r.push(p.masters[m].glyphs[i].name.clone());
            proof {
                assert(texts(r@) =~= texts(before).push(p.masters@[m as int].glyphs@[i as int].name@));
                assert forall|n: Seq<char>| #[trigger] texts(r@).contains(n) <==> (exists|mm: int, j: int|
                    0 <= mm < m && 0 <= j < p.masters@[mm].glyphs@.len() && #[trigger] p.masters@[mm].glyphs@[j].name@ == n)
                    || (exists|j: int| 0 <= j < i + 1 && #[trigger] p.masters@[m as int].glyphs@[j].name@ == n) by {
                    let here = p.masters@[m as int].glyphs@[i as int].name@;
                    if texts(r@).contains(n) {
                        let w = choose|w: int| 0 <= w < texts(r@).len() && texts(r@)[w] == n;
                        if w < texts(before).len() {
                            assert(texts(before)[w] == n);
                        } else {
                            assert(n == here);
                        }
                    }
                    if n == here {
                        assert(texts(r@)[texts(before).len() as int] == n);
                    }
                    if texts(before).contains(n) {
                        let w = choose|w: int| 0 <= w < texts(before).len() && texts(before)[w] == n;
                        assert(texts(r@)[w] == n);
                    }
                }
            }
            i += 1;
        }
        proof {
            assert forall|n: Seq<char>| #[trigger] texts(r@).contains(n) <==> exists|mm: int, j: int|
                0 <= mm < m + 1 && 0 <= j < p.masters@[mm].glyphs@.len() && #[trigger] p.masters@[mm].glyphs@[j].name@ == n by {
                if exists|mm: int, j: int| 0 <= mm < m + 1 && 0 <= j < p.masters@[mm].glyphs@.len()
                    && #[trigger] p.masters@[mm].glyphs@[j].name@ == n {
                    let (mm, j) = choose|mm: int, j: int| 0 <= mm < m + 1 && 0 <= j < p.masters@[mm].glyphs@.len()
                        && #[trigger] p.masters@[mm].glyphs@[j].name@ == n;
                    if mm == m {
                        assert(exists|jj: int| 0 <= jj < i && #[trigger] p.masters@[m as int].glyphs@[jj].name@ == n);
                    }
                }
            }
        }
        m += 1;
    }
    r
}

/// The name a new glyph gets: `glyph` when free, else the first free
/// `glyph.NNN`.
pub open spec fn new_glyph_name(taken: spec_fn(Seq<char>) -> bool, name: Seq<char>) -> bool {
    if taken("glyph"@) {
        first_free(taken, "glyph"@, 1, name)
    } else {
        name == "glyph"@
    }
}

pub fn next_glyph_name(taken: &Vec<String>) -> (r: String)
    ensures
        new_glyph_name(|n: Seq<char>| texts(taken@).contains(n), r@),
{
    let base = String::from_str("glyph");
    if !contains_name(taken, &base) {
        return base;
    }
    let stem = crate::text::chars_of("glyph");
    let (_, name) = free_name(taken, &stem, 1);
    name
}

/// Whether `e` is a new empty glyph called `name`.
pub open spec fn is_blank(e: GlyphEntry, name: Seq<char>) -> bool {
    &&& e.name@ == name
    &&& e.codepoint is None
    &&& e.points@.len() == 0
    &&& !e.has_image
    &&& e.masks@.len() == 0
    &&& e.annotations@.len() == 0
}

fn blank_entry(name: &String) -> (e: GlyphEntry)
    ensures
        is_blank(e, name@),
{
    GlyphEntry {
        name: name.clone(),
        codepoint: None,
        points: Vec::new(),
        has_image: false,
        masks: Vec::new(),
        annotations: Vec::new(),
    }
}

/// Whether every master of `f` is that of `p` with one glyph for which
/// `added` holds appended.
pub open spec fn appended_everywhere(p: Project, f: Project, name: Seq<char>) -> bool {
    &&& f.masters@.len() == p.masters@.len()
    &&& forall|m: int| 0 <= m < p.masters@.len() ==> {
        let fm = #[trigger] f.masters@[m];
        let pm = p.masters@[m];
        &&& fm == (crate::model::Master { glyphs: fm.glyphs, ..pm })
        &&& fm.glyphs@.len() == pm.glyphs@.len() + 1
        &&& fm.glyphs@.subrange(0, pm.glyphs@.len() as int) == pm.glyphs@
        &&& is_blank(fm.glyphs@.last(), name)
    }
    &&& f == (Project { masters: f.masters, ..p })
}

impl Workspace {
    /// Add an empty glyph to every master, named `glyph` or the first
    /// free `glyph.NNN` across all masters, and select it.
    pub fn command_add_glyph(&mut self) -> (ops: Vec<EngineOp>)
        requires
            old(self).refs_ok(),
        ensures
            old(self).project is None ==> *final(self) == *old(self) && ops@.len() == 0,
            old(self).project matches Some(p) ==> {
                &&& ops@.len() == 2
                &&& ops@[0] matches EngineOp::AddGlyph(n)
                &&& ops@[1] == EngineOp::RecheckCompat(n)
                &&& new_glyph_name(|x: Seq<char>| taken_in(p, x), n@)
                &&& final(self).project matches Some(fp) && appended_everywhere(p, fp, n@)
                &&& *final(self) == (Workspace {
                    project: final(self).project,
                    selected: Some(p.active_master().glyphs@.len() as usize),
                    sidebar_counts: false,
                    status_note: Some(StatusNote::AddedGlyph(n)),
                    ..*old(self)
                })
            },
    {
        let mut ops = Vec::new();
        let selected;
        let name;
        match &mut self.project {
            None => {
                return ops;
            },
            Some(p) => {
                let taken = all_names(p);
                name = next_glyph_name(&taken);
                proof {
                    let t1 = |x: Seq<char>| texts(taken@).contains(x);
                    let t2 = |x: Seq<char>| taken_in(*p, x);
                    assert(t1 =~= t2);
                }
                selected = p.masters[p.active].glyphs.len();
                let ghost p0 = *p;
                let mut m: usize = 0;
                while m < p.masters.len()
                    invariant
                        m <= p.masters@.len(),
                        p.masters@.len() == p0.masters@.len(),
                        *p == (Project { masters: p.masters, ..p0 }),
                        forall|k: int| m <= k < p.masters@.len() ==> p.masters@[k] == p0.masters@[k],
                        forall|k: int| 0 <= k < m ==> {
                            let fm = #[trigger] p.masters@[k];
                            let pm = p0.masters@[k];
                            &&& fm == (crate::model::Master { glyphs: fm.glyphs, ..pm })
                            &&& fm.glyphs@.len() == pm.glyphs@.len() + 1
                            &&& fm.glyphs@.subrange(0, pm.glyphs@.len() as int) == pm.glyphs@
                            &&& is_blank(fm.glyphs@.last(), name@)
                        },
                    decreases p.masters@.len() - m,
                {
                    let e = blank_entry(&name);
                    p.masters[m].glyphs.push(e);
                    proof {
                        let fm = p.masters@[m as int];
                        assert(fm.glyphs@.subrange(0, p0.masters@[m as int].glyphs@.len() as int)
                            =~= p0.masters@[m as int].glyphs@);
                    }
                    m += 1;
                }
            },
        }
        ops.push(EngineOp::AddGlyph(name.clone()));
        ops.push(EngineOp::RecheckCompat(name.clone()));
        self.selected = Some(selected);
        self.sidebar_counts = false;
        self.status_note = Some(StatusNote::AddedGlyph(name));
        ops
    }
}

/// A glyph list without the glyph called `name`.
pub open spec fn without_name(glyphs: Seq<GlyphEntry>, name: Seq<char>) -> Seq<GlyphEntry> {
    match index_of(names_of(glyphs), name) {
        Some(k) => glyphs.remove(k),
        None => glyphs,
    }
}

/// The part of a glyph name before its first dot.
pub open spec fn stem_of(name: Seq<char>) -> Seq<char> {
    match crate::text::find(name, seq!['.']) {
        Some(i) => name.subrange(0, i),
        None => name,
    }
}

/// Whether `e` is a copy of `src` called `name`: same drawing, same
/// notes and masks, no code point, no image.
pub open spec fn is_copy(e: GlyphEntry, src: GlyphEntry, name: Seq<char>) -> bool {
    &&& e.name@ == name
    &&& e.codepoint is None
    &&& e.points@ == src.points@
    &&& !e.has_image
    &&& e.masks@ == src.masks@
    &&& e.annotations@ == src.annotations@
}

fn copy_entry(src: &GlyphEntry, name: &String) -> (e: GlyphEntry)
    ensures
        is_copy(e, *src, name@),
{
    let mut masks: Vec<usize> = Vec::new();
    let mut i: usize = 0;
    while i < src.masks.len()
        invariant
            i <= src.masks@.len(),
            masks@ == src.masks@.subrange(0, i as int),
        decreases src.masks@.len() - i,
    {
        masks.push(src.masks[i]);
        i += 1;
        assert(masks@ =~= src.masks@.subrange(0, i as int));
    }
    let mut notes: Vec<Annotation> = Vec::new();
    let mut j: usize = 0;
    while j < src.annotations.len()
        invariant
            j <= src.annotations@.len(),
            notes@ == src.annotations@.subrange(0, j as int),
        decreases src.annotations@.len() - j,
    {
        let a = &src.annotations[j];
        notes.push(Annotation { kind: a.kind.clone(), x_bits: a.x_bits, y_bits: a.y_bits, text: a.text.clone() });
        j += 1;
        assert(notes@ =~= src.annotations@.subrange(0, j as int));
    }
    assert(masks@ =~= src.masks@);
    assert(notes@ =~= src.annotations@);
    GlyphEntry {
        name: name.clone(),
        codepoint: None,
        points: crate::points::copy_points(&src.points),
        has_image: false,
        masks,
        annotations: notes,
    }
}

/// What duplicating glyph `base` as `name` does to one master: a master
/// that has the glyph gets the copy last, and marks it edited.
pub open spec fn duplicated_in(pm: Master, base: Seq<char>, name: Seq<char>, fm: Master) -> bool {
    match index_of(names_of(pm.glyphs@), base) {
        Some(k) => {
            &&& fm.glyphs@.len() == pm.glyphs@.len() + 1
            &&& fm.glyphs@.subrange(0, pm.glyphs@.len() as int) == pm.glyphs@
            &&& is_copy(fm.glyphs@.last(), pm.glyphs@[k], name)
            &&& texts(fm.modified_glyphs@) == with_name(texts(pm.modified_glyphs@), name)
            &&& fm == (Master { glyphs: fm.glyphs, dirty: true, modified_glyphs: fm.modified_glyphs, ..pm })
        },
        None => fm == pm,
    }
}

/// Whether a member is not the one called `member`.
pub open spec fn other_than(member: Seq<char>) -> spec_fn(String) -> bool {
    |m: String| m@ != member
}

/// A group list: the group called `group` loses `member`, and goes when
/// that empties it.
pub open spec fn groups_after(gs: Seq<Group>, group: Seq<char>, member: Seq<char>, f: Seq<Group>) -> bool {
    match index_of(gs.map_values(|g: Group| g.name@), group) {
        Some(k) => {
            let kept = gs[k].members@.filter(other_than(member));
            if kept.len() == 0 {
                f == gs.remove(k)
            } else {
                &&& f.len() == gs.len()
                &&& f == gs.update(k, f[k])
                &&& f[k].name == gs[k].name
                &&& f[k].members@ == kept
            }
        },
        None => f == gs,
    }
}

fn group_index(gs: &Vec<Group>, name: &str) -> (r: Option<usize>)
    ensures
        r matches Some(k) ==> index_of(gs@.map_values(|g: Group| g.name@), name@) == Some(k as int),
        r is None ==> index_of(gs@.map_values(|g: Group| g.name@), name@) is None,
{
    let ghost names = gs@.map_values(|g: Group| g.name@);
    proof { crate::names::lemma_index_of(names, name@); }
    let mut i: usize = 0;
    while i < gs.len()
        invariant
            i <= gs@.len(),
            names == gs@.map_values(|g: Group| g.name@),
            forall|j: int| 0 <= j < i ==> names[j] != name@,
            match index_of(names, name@) {
                Some(k) => 0 <= k < names.len() && names[k] == name@
                    && forall|j: int| 0 <= j < k ==> names[j] != name@,
                None => forall|j: int| 0 <= j < names.len() ==> names[j] != name@,
            },
        decreases gs@.len() - i,
    {
        if crate::tasks::text_is(&gs[i].name, name) {
            assert(names[i as int] == name@);
            return Some(i);
        }
        i += 1;
    }
    None
}

fn members_without(members: &Vec<String>, member: &str) -> (r: Vec<String>)
    ensures
        r@ == members@.filter(other_than(member@)),
{
    let mut r: Vec<String> = Vec::new();
    let mut i: usize = 0;
    while i < members.len()
        invariant
            i <= members@.len(),
            r@ == members@.subrange(0, i as int).filter(other_than(member@)),
        decreases members@.len() - i,
    {
        proof { reveal(Seq::filter); }
        let ghost sub = members@.subrange(0, i + 1);
        assert(sub.drop_last() =~= members@.subrange(0, i as int));
        assert(sub.last() == members@[i as int]);
        assert(other_than(member@)(members@[i as int]) == (members@[i as int]@ != member@));
        if !crate::tasks::text_is(&members[i], member) {
            r.push(members[i].clone());
            assert(r@ == sub.filter(other_than(member@)));
        } else {
            assert(r@ == sub.filter(other_than(member@)));
        }
        i += 1;
    }
    assert(members@.subrange(0, members@.len() as int) =~= members@);
    r
}

impl Workspace {
    /// Remove the selected glyph from every master. With nothing
    /// selected, the status bar asks for a selection.
    pub fn command_remove_glyph(&mut self) -> (ops: Vec<EngineOp>)
        requires
            old(self).refs_ok(),
        ensures
            old(self).selected is None ==> ops@.len() == 0
                && *final(self) == (Workspace { status_note: Some(StatusNote::SelectGlyphToRemove), ..*old(self) }),
            old(self).selected is Some && old(self).project is None ==> ops@.len() == 0 && *final(self) == *old(self),
            old(self).selected is Some && old(self).project is Some ==> {
                let i = old(self).selected->0;
                let p = old(self).project->0;
                let name = p.active_master().glyphs@[i as int].name;
                &&& ops@ == seq![EngineOp::RemoveGlyph(name)]
                &&& final(self).project matches Some(fp)
                &&& fp.masters@.len() == p.masters@.len()
                &&& forall|m: int| 0 <= m < p.masters@.len() ==> (#[trigger] fp.masters@[m]) == (Master {
                    glyphs: fp.masters@[m].glyphs,
                    ..p.masters@[m]
                }) && fp.masters@[m].glyphs@ == without_name(p.masters@[m].glyphs@, name@)
                &&& fp == (Project { masters: fp.masters, ..p })
                &&& *final(self) == (Workspace {
                    project: final(self).project,
                    selected: None,
                    sidebar_counts: false,
                    status_note: Some(StatusNote::RemovedGlyph(name)),
                    ..*old(self)
                })
            },
    {
        let mut ops = Vec::new();
        let Some(index) = self.selected else {
            self.status_note = Some(StatusNote::SelectGlyphToRemove);
            return ops;
        };
        let name;
        match &mut self.project {
            None => {
                return ops;
            },
            Some(p) => {
                name = p.masters[p.active].glyphs[index].name.clone();
                let ghost p0 = *p;
                let mut m: usize = 0;
                while m < p.masters.len()
                    invariant
                        m <= p.masters@.len(),
                        p.masters@.len() == p0.masters@.len(),
                        *p == (Project { masters: p.masters, ..p0 }),
                        forall|k: int| m <= k < p.masters@.len() ==> p.masters@[k] == p0.masters@[k],
                        forall|k: int| 0 <= k < m ==> (#[trigger] p.masters@[k]) == (Master {
                            glyphs: p.masters@[k].glyphs,
                            ..p0.masters@[k]
                        }) && p.masters@[k].glyphs@ == without_name(p0.masters@[k].glyphs@, name@),
                    decreases p.masters@.len() - m,
                {
                    proof { crate::names::lemma_index_of(names_of(p.masters@[m as int].glyphs@), name@); }
                    match find_glyph(&p.masters[m].glyphs, &name) {
                        Some(k) => {
                            p.masters[m].glyphs.remove(k);
                        },
                        None => {},
                    }
                    m += 1;
                }
            },
        }
        ops.push(EngineOp::RemoveGlyph(name.clone()));
        self.selected = None;
        self.sidebar_counts = false;
        self.status_note = Some(StatusNote::RemovedGlyph(name));
        ops
    }

    /// Copy the current glyph (drawing, notes, masks) to the first free
    /// `<stem>.NNN` across all masters, in every master that has it,
    /// unencoded; the copy is selected.
    pub fn command_duplicate_glyph(&mut self) -> (ops: Vec<EngineOp>)
        requires
            old(self).refs_ok(),
        ensures
            !(old(self).current_glyph() is Some && old(self).project is Some) ==> ops@.len() == 0
                && *final(self) == *old(self),
            old(self).current_glyph() is Some && old(self).project is Some ==> {
                let i = old(self).current_glyph()->0;
                let p = old(self).project->0;
                let base = p.active_master().glyphs@[i as int].name;
                &&& ops@.len() == 2
                &&& ops@[0] matches EngineOp::DuplicateGlyph(b, n)
                &&& b == base
                &&& ops@[1] == EngineOp::RecheckCompat(n)
                &&& first_free(|x: Seq<char>| taken_in(p, x), stem_of(base@), 1, n@)
                &&& final(self).project matches Some(fp)
                &&& fp.masters@.len() == p.masters@.len()
                &&& forall|m: int| 0 <= m < p.masters@.len() ==>
                    duplicated_in(p.masters@[m], base@, n@, #[trigger] fp.masters@[m])
                &&& fp == (Project { masters: fp.masters, ..p })
                &&& *final(self) == (Workspace {
                    project: final(self).project,
                    selected: Some(p.active_master().glyphs@.len() as usize),
                    sidebar_counts: false,
                    status_note: Some(StatusNote::DuplicatedGlyph(base, n)),
                    ..*old(self)
                })
            },
    {
        let mut ops = Vec::new();
        let Some(index) = self.current_glyph_index() else {
            return ops;
        };
        let base;
        let name;
        let selected;
        match &mut self.project {
            None => {
                return ops;
            },
            Some(p) => {
                base = p.masters[p.active].glyphs[index].name.clone();
                let base_chars = crate::text::chars_of(base.as_str());
                let mut dot: Vec<char> = Vec::new();
                dot.push('.');
                let stem = match crate::text::find_at(&base_chars, &dot, 0) {
                    Some(k) => {
                        proof { crate::chat::lemma_find_from_zero(base_chars@, dot@); }
                        crate::text::slice(&base_chars, 0, k)
                    },
                    None => base_chars,
                };
                assert(dot@ =~= seq!['.']);
                let taken = all_names(p);
                let (_, n) = free_name(&taken, &stem, 1);
                name = n;
                proof {
                    let t1 = |x: Seq<char>| texts(taken@).contains(x);
                    let t2 = |x: Seq<char>| taken_in(*p, x);
                    assert(t1 =~= t2);
                }
                selected = p.masters[p.active].glyphs.len();
                let ghost p0 = *p;
                let mut m: usize = 0;
                while m < p.masters.len()
                    invariant
                        m <= p.masters@.len(),
                        p.masters@.len() == p0.masters@.len(),
                        *p == (Project { masters: p.masters, ..p0 }),
                        forall|k: int| m <= k < p.masters@.len() ==> p.masters@[k] == p0.masters@[k],
                        forall|k: int| 0 <= k < m ==>
                            duplicated_in(p0.masters@[k], base@, name@, #[trigger] p.masters@[k]),
                    decreases p.masters@.len() - m,
                {
                    proof { crate::names::lemma_index_of(names_of(p.masters@[m as int].glyphs@), base@); }
                    match find_glyph(&p.masters[m].glyphs, &base) {
                        Some(k) => {
                            let copy = copy_entry(&p.masters[m].glyphs[k], &name);
                            let ghost pm = p.masters@[m as int];
                            p.masters[m].glyphs.push(copy);
                            p.masters[m].dirty = true;
                            insert_name(&mut p.masters[m].modified_glyphs, &name);
                            assert(p.masters@[m as int].glyphs@.subrange(0, pm.glyphs@.len() as int) =~= pm.glyphs@);
                        },
                        None => {},
                    }
                    m += 1;
                }
            },
        }
        ops.push(EngineOp::DuplicateGlyph(base.clone(), name.clone()));
        ops.push(EngineOp::RecheckCompat(name.clone()));
        self.selected = Some(selected);
        self.sidebar_counts = false;
        self.status_note = Some(StatusNote::DuplicatedGlyph(base, name));
        ops
    }

    /// Drop one glyph from a kerning group, on every master; a group it
    /// empties goes. Every master is marked edited.
    pub fn command_remove_from_group(&mut self, full_group: &str, member: &str) -> (ops: Vec<EngineOp>)
        ensures
            old(self).project is None ==> *final(self) == *old(self) && ops@.len() == 0,
            old(self).project matches Some(p) ==> {
                &&& ops@ == seq![EngineOp::RebuildTextModels]
                &&& final(self).project matches Some(fp)
                &&& fp.masters@.len() == p.masters@.len()
                &&& forall|m: int| 0 <= m < p.masters@.len() ==> {
                    let fm = #[trigger] fp.masters@[m];
                    &&& groups_after(p.masters@[m].groups@, full_group@, member@, fm.groups@)
                    &&& fm == (Master { groups: fm.groups, dirty: true, ..p.masters@[m] })
                }
                &&& fp == (Project { masters: fp.masters, ..p })
                &&& *final(self) == (Workspace { project: final(self).project, ..*old(self) })
            },
    {
        let mut ops = Vec::new();
        match &mut self.project {
            None => {
                return ops;
            },
            Some(p) => {
                let ghost p0 = *p;
                let mut m: usize = 0;
                while m < p.masters.len()
                    invariant
                        m <= p.masters@.len(),
                        p.masters@.len() == p0.masters@.len(),
                        *p == (Project { masters: p.masters, ..p0 }),
                        forall|k: int| m <= k < p.masters@.len() ==> p.masters@[k] == p0.masters@[k],
                        forall|k: int| 0 <= k < m ==> {
                            let fm = #[trigger] p.masters@[k];
                            &&& groups_after(p0.masters@[k].groups@, full_group@, member@, fm.groups@)
                            &&& fm == (Master { groups: fm.groups, dirty: true, ..p0.masters@[k] })
                        },
                    decreases p.masters@.len() - m,
                {
                    let ghost gs = p.masters@[m as int].groups@;
                    proof { crate::names::lemma_index_of(gs.map_values(|g: Group| g.name@), full_group@); }
                    match group_index(&p.masters[m].groups, full_group) {
                        Some(k) => {
                            let kept = members_without(&p.masters[m].groups[k].members, member);
                            if kept.len() == 0 {
                                p.masters[m].groups.remove(k);
                            } else {
                                p.masters[m].groups[k].members = kept;
                                assert(p.masters@[m as int].groups@ =~= gs.update(k as int, p.masters@[m as int].groups@[k as int]));
                            }
                        },
                        None => {},
                    }
                    p.masters[m].dirty = true;
                    m += 1;
                }
            },
        }
        ops.push(EngineOp::RebuildTextModels);
        ops
    }
}

/// Whether `norad` accepts `name` as a glyph, layer or group name: not
/// empty, and free of control characters (0x00 to 0x1F, 0x7F, 0x80 to
/// 0x9F).
pub open spec fn valid_name(name: Seq<char>) -> bool {
    &&& name.len() > 0
    &&& forall|i: int| 0 <= i < name.len() ==> {
        let u = #[trigger] name[i] as u32;
        !(u <= 0x1f || u == 0x7f || (0x80 <= u && u <= 0x9f))
    }
}

/// `norad::Name::new`: its source accepts exactly the names
/// `valid_name` describes; only whether it accepted is kept.
#[verifier::external_body]
fn name_ok(name: &str) -> (r: bool)
    ensures
        r == valid_name(name@),
{
    norad::Name::new(name).is_ok()
}

/// Whether `norad` accepts `name` as a layer name.
pub fn valid_layer_name(name: &str) -> (r: bool)
    ensures
        r == valid_name(name@),
{
    name_ok(name)
}

/// The members of a group after adding `names` in order, each valid one
/// that is not yet a member, and how many went in.
pub open spec fn members_added(members: Seq<Seq<char>>, names: Seq<Seq<char>>) -> (Seq<Seq<char>>, nat)
    decreases names.len(),
{
    if names.len() == 0 {
        (members, 0)
    } else {
        let (before, n) = members_added(members, names.drop_last());
        let x = names.last();
        if valid_name(x) && !before.contains(x) {
            (before.push(x), n + 1)
        } else {
            (before, n)
        }
    }
}

/// What adding `names` to group `group` does to a group list: the group
/// is created last when missing, and gains the names it lacks. The
/// count of names that went in is `n`.
pub open spec fn group_extended(gs: Seq<Group>, group: Seq<char>, names: Seq<Seq<char>>, f: Seq<Group>, n: nat) -> bool {
    match index_of(gs.map_values(|g: Group| g.name@), group) {
        Some(k) => {
            let (members, added) = members_added(texts(gs[k].members@), names);
            &&& f.len() == gs.len()
            &&& f == gs.update(k, f[k])
            &&& f[k].name == gs[k].name
            &&& texts(f[k].members@) == members
            &&& n == added
        },
        None => {
            let (members, added) = members_added(Seq::empty(), names);
            &&& f.len() == gs.len() + 1
            &&& f.subrange(0, gs.len() as int) == gs
            &&& f.last().name@ == group
            &&& texts(f.last().members@) == members
            &&& n == added
        },
    }
}

fn add_members(members: &mut Vec<String>, names: &Vec<String>) -> (added: usize)
    ensures
        (texts(final(members)@), added as nat) == members_added(texts(old(members)@), texts(names@)),
        added <= names@.len(),
{
    let mut added: usize = 0;
    let mut i: usize = 0;
    while i < names.len()
        invariant
            i <= names@.len(),
            added <= i,
            (texts(members@), added as nat) == members_added(texts(old(members)@), texts(names@).subrange(0, i as int)),
        decreases names@.len() - i,
    {
        let ghost sub = texts(names@).subrange(0, i + 1);
        assert(sub.drop_last() =~= texts(names@).subrange(0, i as int));
        assert(sub.last() == names@[i as int]@);
        if name_ok(names[i].as_str()) && !contains_name(members, &names[i]) {
            let ghost before = members@;
            members.push(names[i].clone());
            assert(texts(members@) =~= texts(before).push(names@[i as int]@));
            added += 1;
        }
        i += 1;
    }
    assert(texts(names@).subrange(0, names@.len() as int) =~= texts(names@));
    added
}

/// The sum of some counts.
pub open spec fn total_of(counts: Seq<nat>) -> nat
    decreases counts.len(),
{
    if counts.len() == 0 { 0 } else { total_of(counts.drop_last()) + counts.last() }
}

/// Add `names` to the group called `full` in `groups`, creating it last
/// when missing.
fn extend_group(groups: &mut Vec<Group>, full: &String, names: &Vec<String>) -> (added: usize)
    ensures
        group_extended(old(groups)@, full@, texts(names@), final(groups)@, added as nat),
        added <= names@.len(),
{
    let ghost gs = groups@;
    proof { crate::names::lemma_index_of(gs.map_values(|g: Group| g.name@), full@); }
    match group_index(groups, full.as_str()) {
        Some(k) => {
            let mut members = Vec::new();
            std::mem::swap(&mut members, &mut groups[k].members);
            let ghost m0 = members@;
            assert(m0 == gs[k as int].members@);
            let added = add_members(&mut members, names);
            std::mem::swap(&mut members, &mut groups[k].members);
            assert(groups@ =~= gs.update(k as int, groups@[k as int]));
            added
        },
        None => {
            let mut members: Vec<String> = Vec::new();
            assert(texts(members@) =~= Seq::<Seq<char>>::empty());
            let added = add_members(&mut members, names);
            groups.push(Group { name: full.clone(), members });
            assert(groups@.subrange(0, gs.len() as int) =~= gs);
            added
        },
    }
}

impl Workspace {
    /// Add the glyphs named `names` (the grid selection) to a kerning
    /// group on every master, creating it as needed: `public.kern1.`
    /// for the first side, `public.kern2.` for the second. With nothing
    /// selected, the status bar asks for a selection; a group name that
    /// is not a valid name changes nothing.
    pub fn command_add_selection_to_group(&mut self, names: &Vec<String>, first_side: bool, group: &str)
        -> (ops: Vec<EngineOp>)
        requires
            old(self).project matches Some(p) ==> p.masters@.len() * names@.len() <= usize::MAX,
        ensures
            names@.len() == 0 ==> ops@.len() == 0
                && *final(self) == (Workspace { status_note: Some(StatusNote::SelectGlyphsFirst), ..*old(self) }),
            names@.len() > 0 && !(old(self).project is Some && valid_name(
                (if first_side { "public.kern1."@ } else { "public.kern2."@ }) + group@))
                ==> ops@.len() == 0 && *final(self) == *old(self),
            names@.len() > 0 && old(self).project is Some && valid_name(
                (if first_side { "public.kern1."@ } else { "public.kern2."@ }) + group@) ==> {
                let p = old(self).project->0;
                let full = (if first_side { "public.kern1."@ } else { "public.kern2."@ }) + group@;
                &&& ops@ == seq![EngineOp::RebuildTextModels]
                &&& final(self).project matches Some(fp)
                &&& fp.masters@.len() == p.masters@.len()
                &&& fp == (Project { masters: fp.masters, ..p })
                &&& final(self).status_note matches Some(StatusNote::GroupMembersAdded(g, total))
                &&& g@ == group@
                &&& exists|counts: Seq<nat>| #![trigger counts.len()] counts.len() == p.masters@.len()
                    && total as int == total_of(counts)
                    && forall|m: int| 0 <= m < p.masters@.len() ==> {
                        let fm = #[trigger] fp.masters@[m];
                        &&& group_extended(p.masters@[m].groups@, full, texts(names@), fm.groups@, counts[m])
                        &&& fm == (Master { groups: fm.groups, dirty: true, ..p.masters@[m] })
                    }
                &&& *final(self) == (Workspace {
                    project: final(self).project,
                    status_note: final(self).status_note,
                    ..*old(self)
                })
            },
    {
        let mut ops = Vec::new();
        if names.len() == 0 {
            self.status_note = Some(StatusNote::SelectGlyphsFirst);
            return ops;
        }
        let prefix = if first_side { crate::text::chars_of("public.kern1.") } else { crate::text::chars_of("public.kern2.") };
        let full = string_of(&joined(&prefix, &crate::text::chars_of(group)));
        if !name_ok(full.as_str()) {
            return ops;
        }
        let Some(p) = &mut self.project else {
            return ops;
        };
        let ghost p0 = *p;
        let ghost mut counts: Seq<nat> = Seq::empty();
        let mut total: usize = 0;
        let mut m: usize = 0;
        while m < p.masters.len()
            invariant
                m <= p.masters@.len(),
                p.masters@.len() == p0.masters@.len(),
                *p == (Project { masters: p.masters, ..p0 }),
                counts.len() == m,
                total as int == total_of(counts),
                total <= m * names@.len(),
                p0.masters@.len() * names@.len() <= usize::MAX,
                forall|k: int| m <= k < p.masters@.len() ==> p.masters@[k] == p0.masters@[k],
                forall|k: int| 0 <= k < m ==> {
                    let fm = #[trigger] p.masters@[k];
                    &&& group_extended(p0.masters@[k].groups@, full@, texts(names@), fm.groups@, counts[k])
                    &&& fm == (Master { groups: fm.groups, dirty: true, ..p0.masters@[k] })
                },
            decreases p.masters@.len() - m,
        {
            let added = extend_group(&mut p.masters[m].groups, &full, names);
            p.masters[m].dirty = true;
            proof {
                let nc = counts.push(added as nat);
                assert(nc.drop_last() =~= counts);
                counts = nc;
                let len = names@.len();
                let mm = m as int;
                let big = p0.masters@.len() as int;
                assert(total + added <= (mm + 1) * len) by (nonlinear_arith)
                    requires total <= mm * len, added <= len;
                assert((mm + 1) * len <= big * len) by (nonlinear_arith)
                    requires mm + 1 <= big, len >= 0;
            }
            total = total + added;
            m += 1;
        }
        ops.push(EngineOp::RebuildTextModels);
        self.status_note = Some(StatusNote::GroupMembersAdded(String::from_str(group), total));
        ops
    }
}

/// The characters of the named glyphs that have one, in order.
pub open spec fn encoded(glyphs: Seq<GlyphEntry>, names: Seq<Seq<char>>) -> Seq<char>
    decreases names.len(),
{
    if names.len() == 0 {
        Seq::empty()
    } else {
        let before = encoded(glyphs, names.drop_last());
        match index_of(names_of(glyphs), names.last()) {
            Some(k) => match glyphs[k].codepoint {
                Some(c) => before.push(c),
                None => before,
            },
            None => before,
        }
    }
}

impl Workspace {
    /// Copy the selected glyphs as text: the characters of those that
    /// have one. With none, the status bar says nothing was encoded.
    pub fn command_copy_selection_text(&mut self, names: &Vec<String>) -> (ops: Vec<EngineOp>)
        ensures
            !old(self).has_font() ==> *final(self) == *old(self) && ops@.len() == 0,
            old(self).has_font() ==> {
                let text = encoded(old(self).project->0.active_master().glyphs@, texts(names@));
                if text.len() == 0 {
                    ops@.len() == 0 && *final(self) == (Workspace {
                        status_note: Some(StatusNote::NothingEncodedToCopy), ..*old(self) })
                } else {
                    &&& ops@.len() == 1
                    &&& ops@[0] matches EngineOp::WriteClipboard(t) && t@ == text
                    &&& *final(self) == (Workspace {
                        status_note: Some(StatusNote::CopiedCharacters(text.len() as usize)),
                        ..*old(self)
                    })
                }
            },
    {
        let mut ops = Vec::new();
        let Some(p) = &self.project else {
            return ops;
        };
        if p.active >= p.masters.len() {
            return ops;
        }
        let glyphs = &p.masters[p.active].glyphs;
        let mut text: Vec<char> = Vec::new();
        let mut i: usize = 0;
        while i < names.len()
            invariant
                i <= names@.len(),
                text@ == encoded(glyphs@, texts(names@).subrange(0, i as int)),
                text@.len() <= i,
            decreases names@.len() - i,
        {
            let ghost sub = texts(names@).subrange(0, i + 1);
            assert(sub.drop_last() =~= texts(names@).subrange(0, i as int));
            proof { crate::names::lemma_index_of(names_of(glyphs@), names@[i as int]@); }
            match find_glyph(glyphs, &names[i]) {
                Some(k) => {
                    if let Some(c) = glyphs[k].codepoint {
                        text.push(c);
                    }
                },
                None => {},
            }
            i += 1;
        }
        assert(texts(names@).subrange(0, names@.len() as int) =~= texts(names@));
        if text.len() == 0 {
            self.status_note = Some(StatusNote::NothingEncodedToCopy);
            return ops;
        }
        let count = text.len();
        ops.push(EngineOp::WriteClipboard(string_of(&text)));
        self.status_note = Some(StatusNote::CopiedCharacters(count));
        ops
    }
}

} // verus!
