//! Finding glyphs by name.
use vstd::prelude::*;
use crate::model::GlyphEntry;

verus! {

/// The names of a glyph list.
pub open spec fn names_of(glyphs: Seq<GlyphEntry>) -> Seq<Seq<char>> {
    glyphs.map_values(|g: GlyphEntry| g.name@)
}

/// The first position of `name` in `names`.
pub open spec fn index_of(names: Seq<Seq<char>>, name: Seq<char>) -> Option<int>
    decreases names.len(),
{
    if names.len() == 0 {
        None
    } else if names[0] == name {
        Some(0)
    } else {
        match index_of(names.drop_first(), name) {
            Some(i) => Some(i + 1),
            None => None,
        }
    }
}

pub proof fn lemma_index_of(names: Seq<Seq<char>>, name: Seq<char>)
    ensures
        match index_of(names, name) {
            Some(i) => 0 <= i < names.len() && names[i] == name
                && forall|j: int| 0 <= j < i ==> names[j] != name,
            None => forall|j: int| 0 <= j < names.len() ==> names[j] != name,
        },
    decreases names.len(),
{
    if names.len() > 0 {
        lemma_index_of(names.drop_first(), name);
        if names[0] != name {
            assert forall|j: int| 1 <= j < names.len() implies names[j] == names.drop_first()[j - 1] by {}
        }
    }
}

/// Whether `name` is one of `names`.
pub open spec fn has_name(names: Seq<Seq<char>>, name: Seq<char>) -> bool {
    index_of(names, name) is Some
}

/// Where the glyph called `name` sits in `glyphs`.
pub fn find_glyph(glyphs: &Vec<GlyphEntry>, name: &String) -> (r: Option<usize>)
    ensures
        r matches Some(i) ==> index_of(names_of(glyphs@), name@) == Some(i as int),
        r is None ==> index_of(names_of(glyphs@), name@) is None,
{
    proof { lemma_index_of(names_of(glyphs@), name@); }
    let mut i: usize = 0;
    while i < glyphs.len()
        invariant
            i <= glyphs@.len(),
            forall|j: int| 0 <= j < i ==> names_of(glyphs@)[j] != name@,
            match index_of(names_of(glyphs@), name@) {
                Some(k) => 0 <= k < glyphs@.len() && names_of(glyphs@)[k] == name@
                    && forall|j: int| 0 <= j < k ==> names_of(glyphs@)[j] != name@,
                None => forall|j: int| 0 <= j < glyphs@.len() ==> names_of(glyphs@)[j] != name@,
            },
        decreases glyphs@.len() - i,
    {
        if glyphs[i].name == *name {
            assert(names_of(glyphs@)[i as int] == name@);
            return Some(i);
        }
        i += 1;
    }
    None
}

} // verus!

verus! {

/// The contents of a list of strings.
pub open spec fn texts(v: Seq<String>) -> Seq<Seq<char>> {
    v.map_values(|s: String| s@)
}

/// A set of names with `n` added.
pub open spec fn with_name(s: Seq<Seq<char>>, n: Seq<char>) -> Seq<Seq<char>> {
    if s.contains(n) { s } else { s.push(n) }
}

/// Whether `n` is in `v`.
pub fn contains_name(v: &Vec<String>, n: &String) -> (r: bool)
    ensures
        r == texts(v@).contains(n@),
{
    let mut i: usize = 0;
    while i < v.len()
        invariant
            i <= v@.len(),
            forall|j: int| 0 <= j < i ==> v@[j]@ != n@,
        decreases v@.len() - i,
    {
        if v[i] == *n {
            assert(texts(v@)[i as int] == n@);
            return true;
        }
        i += 1;
    }
    assert forall|j: int| 0 <= j < texts(v@).len() implies texts(v@)[j] != n@ by {}
    false
}

/// Add `n` to the name set `v`.
pub fn insert_name(v: &mut Vec<String>, n: &String)
    ensures
        texts(final(v)@) == with_name(texts(old(v)@), n@),
{
    if !contains_name(v, n) {
        v.push(n.clone());
        assert(texts(v@) =~= texts(old(v)@).push(n@));
    }
}

} // verus!
