//! Color fonts: the palette, the color-layer mapping, gradients.
use vstd::prelude::*;
use crate::model::{ColorLayer, EngineOp, GlyphEntry, Master, Project, StatusNote, Workspace};
use crate::layers::{holds_glyph, layer_holds};
use crate::text::{chars_of, find, find_at};
use crate::decimal::{dec, decimal, lemma_dec};
use crate::names::{insert_name, texts, with_name};
use crate::text::{joined, string_of};

verus! {

/// A palette index after the color at `removed` went: higher ones
/// shift down.
pub open spec fn shifted(c: usize, removed: usize) -> usize {
    if c > removed { (c - 1) as usize } else { c }
}

/// Whether some mapping row uses palette color `index`.
pub open spec fn color_used(rows: Seq<ColorLayer>, index: usize) -> bool {
    exists|j: int| 0 <= j < rows.len() && #[trigger] rows[j].color == index
}

/// What removing palette color `index` does to one master: the color
/// goes (the master marked edited) when it exists, and the mapping
/// follows the shifted indices.
pub open spec fn palette_removed(m: Master, index: usize, f: Master) -> bool {
    &&& f.palette@ == if index < m.palette@.len() { m.palette@.remove(index as int) } else { m.palette@ }
    &&& f.dirty == (m.dirty || index < m.palette@.len())
    &&& f.color_layers@.len() == m.color_layers@.len()
    &&& forall|j: int| 0 <= j < m.color_layers@.len() ==> #[trigger] f.color_layers@[j] == (ColorLayer {
        color: shifted(m.color_layers@[j].color, index),
        ..m.color_layers@[j]
    })
    &&& f == (Master { palette: f.palette, dirty: f.dirty, color_layers: f.color_layers, ..m })
}

fn uses_color(rows: &Vec<ColorLayer>, index: usize) -> (r: bool)
    ensures
        r == color_used(rows@, index),
{
    let mut i: usize = 0;
    while i < rows.len()
        invariant
            i <= rows@.len(),
            forall|j: int| 0 <= j < i ==> rows@[j].color != index,
        decreases rows@.len() - i,
    {
        if rows[i].color == index {
            return true;
        }
        i += 1;
    }
    false
}

/// The `n`-th name a color layer can take: `color.<n>`.
pub open spec fn color_layer_name(n: nat) -> Seq<char> {
    seq!['c', 'o', 'l', 'o', 'r', '.'] + dec(n)
}

/// Whether some mapping row names layer `layer`.
pub open spec fn row_named(rows: Seq<ColorLayer>, layer: Seq<char>) -> bool {
    exists|j: int| 0 <= j < rows.len() && #[trigger] rows[j].layer@ == layer
}

/// The first `color.<n>` no mapping row names.
fn free_color_layer(rows: &Vec<ColorLayer>) -> (r: String)
    ensures
        exists|n: nat| #![trigger color_layer_name(n)] r@ == color_layer_name(n) && !row_named(rows@, r@)
            && forall|k: nat| k < n ==> row_named(rows@, #[trigger] color_layer_name(k)),
{
    let ghost pool = rows@.map_values(|c: ColorLayer| c.layer@);
    let mut stem: Vec<char> = Vec::new();
    stem.push('c');
    stem.push('o');
    stem.push('l');
    stem.push('o');
    stem.push('r');
    stem.push('.');
    assert(stem@ =~= seq!['c', 'o', 'l', 'o', 'r', '.']);
    let mut n: u128 = 0;
    loop
        invariant
            n <= rows@.len(),
            rows@.len() == rows.len(),
            stem@ == seq!['c', 'o', 'l', 'o', 'r', '.'],
            pool == rows@.map_values(|c: ColorLayer| c.layer@),
            forall|k: nat| k < n ==> row_named(rows@, #[trigger] color_layer_name(k)),
        decreases rows@.len() + 1 - n,
    {
        let name = string_of(&joined(&stem, &decimal(n)));
        let mut used = false;
        let mut j: usize = 0;
        while j < rows.len()
            invariant
                j <= rows@.len(),
                used == exists|x: int| 0 <= x < j && #[trigger] rows@[x].layer@ == name@,
            decreases rows@.len() - j,
        {
            if rows[j].layer == name {
                used = true;
            }
            j += 1;
        }
        assert(name@ == color_layer_name(n as nat));
        if !used {
            assert(!row_named(rows@, name@));
            assert(name@ == color_layer_name(n as nat) && !row_named(rows@, name@)
                && forall|k: nat| k < n ==> row_named(rows@, #[trigger] color_layer_name(k)));
            return name;
        }
        proof {
            let f = |k: nat| color_layer_name(k);
            assert forall|a: nat, b: nat| 0 <= a < n + 1 && 0 <= b < n + 1 && #[trigger] f(a) == #[trigger] f(b)
                implies a == b by {
                lemma_dec(a);
                lemma_dec(b);
                assert(f(a).subrange(6, f(a).len() as int) =~= dec(a));
                assert(f(b).subrange(6, f(b).len() as int) =~= dec(b));
            }
            assert forall|k: nat| 0 <= k < n + 1 implies pool.contains(#[trigger] f(k)) by {
                assert(row_named(rows@, color_layer_name(k)));
                let x = choose|x: int| 0 <= x < rows@.len() && #[trigger] rows@[x].layer@ == color_layer_name(k);
                assert(pool[x] == f(k));
            }
            crate::glyphs::lemma_distinct_in_pool(f, pool, 0, (n + 1) as nat);
            assert(usize::MAX <= 0xffff_ffff_ffff_ffffu128);
        }
        n = n + 1;
    }
}

/// Whether glyph `name` of master `m` gets an explicit color entry: it
/// is no color copy itself, and a layer of the color mapping holds a copy
/// of it.
pub open spec fn explodes(m: Master, name: Seq<char>) -> bool {
    &&& find(name, ".color."@) is None
    &&& exists|r: int| 0 <= r < m.color_layers@.len() && holds_glyph(m.layers@, #[trigger] m.color_layers@[r].layer@, name)
}

/// How many of the glyphs `gs` of master `m` get an explicit color entry.
pub open spec fn exploded_in(m: Master, gs: Seq<GlyphEntry>) -> nat
    decreases gs.len(),
{
    if gs.len() == 0 {
        0
    } else {
        exploded_in(m, gs.drop_last()) + if explodes(m, gs.last().name@) { 1nat } else { 0nat }
    }
}

/// How many glyph entries a conversion writes over the masters `ms`.
pub open spec fn exploded_total(ms: Seq<Master>) -> nat
    decreases ms.len(),
{
    if ms.len() == 0 {
        0
    } else {
        exploded_total(ms.drop_last()) + exploded_in(ms.last(), ms.last().glyphs@)
    }
}

/// How many glyphs the masters `ms` hold in all.
pub open spec fn glyph_total(ms: Seq<Master>) -> nat
    decreases ms.len(),
{
    if ms.len() == 0 {
        0
    } else {
        glyph_total(ms.drop_last()) + ms.last().glyphs@.len()
    }
}

proof fn lemma_exploded_in_le(m: Master, gs: Seq<GlyphEntry>)
    ensures
        exploded_in(m, gs) <= gs.len(),
    decreases gs.len(),
{
    if gs.len() > 0 {
        lemma_exploded_in_le(m, gs.drop_last());
    }
}

proof fn lemma_exploded_total_le(ms: Seq<Master>)
    ensures
        exploded_total(ms) <= glyph_total(ms),
    decreases ms.len(),
{
    if ms.len() > 0 {
        lemma_exploded_total_le(ms.drop_last());
        lemma_exploded_in_le(ms.last(), ms.last().glyphs@);
    }
}

proof fn lemma_glyph_total_prefix(ms: Seq<Master>, k: int)
    requires
        0 <= k <= ms.len(),
    ensures
        glyph_total(ms.subrange(0, k)) <= glyph_total(ms),
    decreases ms.len() - k,
{
    if k < ms.len() {
        lemma_glyph_total_prefix(ms, k + 1);
        assert(ms.subrange(0, k + 1).drop_last() =~= ms.subrange(0, k));
    } else {
        assert(ms.subrange(0, k) =~= ms);
    }
}

fn explodes_exec(m: &Master, name: &String) -> (r: bool)
    ensures
        r == explodes(*m, name@),
{
    let s = chars_of(name.as_str());
    let pat = chars_of(".color.");
    if find_at(&s, &pat, 0).is_some() {
        return false;
    }
    let mut r: usize = 0;
    while r < m.color_layers.len()
        invariant
            r <= m.color_layers@.len(),
            find(name@, ".color."@) is None,
            forall|j: int| 0 <= j < r ==> !holds_glyph(m.layers@, #[trigger] m.color_layers@[j].layer@, name@),
        decreases m.color_layers@.len() - r,
    {
        if layer_holds(&m.layers, m.color_layers[r].layer.as_str(), name) {
            assert(holds_glyph(m.layers@, m.color_layers@[r as int].layer@, name@));
            return true;
        }
        r = r + 1;
    }
    false
}

/// An explicit color entry: a glyph, and its paints in the order of the
/// color mapping: the glyph each paint draws (`<glyph>.<layer>`) and its
/// palette color.
#[derive(PartialEq, Eq, Debug)]
pub struct ColrEntry {
    pub glyph: String,
    pub paints: Vec<(String, usize)>,
}

/// The paints of glyph `name`: one for each row of `maps` whose layer
/// holds a copy of it.
pub open spec fn colr_paints(m: Master, name: Seq<char>, maps: Seq<ColorLayer>) -> Seq<(Seq<char>, usize)>
    decreases maps.len(),
{
    if maps.len() == 0 {
        Seq::empty()
    } else {
        colr_paints(m, name, maps.drop_last()) + if holds_glyph(m.layers@, maps.last().layer@, name) {
            seq![(name + "."@ + maps.last().layer@, maps.last().color)]
        } else {
            Seq::empty()
        }
    }
}

/// The explicit color entries of the glyphs `gs` of master `m`, in order.
pub open spec fn colr_entries(m: Master, gs: Seq<GlyphEntry>) -> Seq<(Seq<char>, Seq<(Seq<char>, usize)>)>
    decreases gs.len(),
{
    if gs.len() == 0 {
        Seq::empty()
    } else {
        colr_entries(m, gs.drop_last()) + if explodes(m, gs.last().name@) {
            seq![(gs.last().name@, colr_paints(m, gs.last().name@, m.color_layers@))]
        } else {
            Seq::empty()
        }
    }
}

/// An entry as text.
pub open spec fn entry_view(e: ColrEntry) -> (Seq<char>, Seq<(Seq<char>, usize)>) {
    (e.glyph@, e.paints@.map_values(|p: (String, usize)| (p.0@, p.1)))
}

/// The entries of every master that has any, with the master's position.
pub open spec fn colr_plan(ms: Seq<Master>) -> Seq<(usize, Seq<(Seq<char>, Seq<(Seq<char>, usize)>)>)>
    decreases ms.len(),
{
    if ms.len() == 0 {
        Seq::empty()
    } else {
        let e = colr_entries(ms.last(), ms.last().glyphs@);
        colr_plan(ms.drop_last()) + if e.len() > 0 { seq![((ms.len() - 1) as usize, e)] } else { Seq::empty() }
    }
}

/// A plan as text.
pub open spec fn plan_view(p: Seq<(usize, Vec<ColrEntry>)>) -> Seq<(usize, Seq<(Seq<char>, Seq<(Seq<char>, usize)>)>)> {
    p.map_values(|x: (usize, Vec<ColrEntry>)| (x.0, x.1@.map_values(|e: ColrEntry| entry_view(e))))
}

fn colr_paints_of(m: &Master, name: &String) -> (r: Vec<(String, usize)>)
    ensures
        r@.map_values(|p: (String, usize)| (p.0@, p.1)) == colr_paints(*m, name@, m.color_layers@),
{
    let mut r: Vec<(String, usize)> = Vec::new();
    let mut k: usize = 0;
    while k < m.color_layers.len()
        invariant
            k <= m.color_layers@.len(),
            r@.map_values(|p: (String, usize)| (p.0@, p.1)) == colr_paints(*m, name@, m.color_layers@.subrange(0, k as int)),
        decreases m.color_layers@.len() - k,
    {
        let ghost pre = m.color_layers@.subrange(0, k as int);
        assert(m.color_layers@.subrange(0, k as int + 1).drop_last() =~= pre);
        let row = &m.color_layers[k];
        if layer_holds(&m.layers, row.layer.as_str(), name) {
            let t = joined(&joined(&chars_of(name.as_str()), &chars_of(".")), &chars_of(row.layer.as_str()));
            let ghost before = r@;
            r.push((string_of(&t), row.color));
            assert(r@.map_values(|p: (String, usize)| (p.0@, p.1)) =~= before.map_values(|p: (String, usize)| (p.0@, p.1))
                .push((name@ + "."@ + row.layer@, row.color)));
        } else {
            assert(r@.map_values(|p: (String, usize)| (p.0@, p.1)) =~= colr_paints(*m, name@, m.color_layers@.subrange(0, k as int + 1)));
        }
        k = k + 1;
    }
    assert(m.color_layers@.subrange(0, m.color_layers@.len() as int) =~= m.color_layers@);
    r
}

fn colr_entries_of(m: &Master) -> (r: Vec<ColrEntry>)
    ensures
        r@.map_values(|e: ColrEntry| entry_view(e)) == colr_entries(*m, m.glyphs@),
{
    let mut r: Vec<ColrEntry> = Vec::new();
    let mut g: usize = 0;
    while g < m.glyphs.len()
        invariant
            g <= m.glyphs@.len(),
            r@.map_values(|e: ColrEntry| entry_view(e)) == colr_entries(*m, m.glyphs@.subrange(0, g as int)),
        decreases m.glyphs@.len() - g,
    {
        let ghost pre = m.glyphs@.subrange(0, g as int);
        assert(m.glyphs@.subrange(0, g as int + 1).drop_last() =~= pre);
        let name = &m.glyphs[g].name;
        if explodes_exec(m, name) {
            let paints = colr_paints_of(m, name);
            let ghost before = r@;
            r.push(ColrEntry { glyph: name.clone(), paints });
            assert(r@.map_values(|e: ColrEntry| entry_view(e)) =~= before.map_values(|e: ColrEntry| entry_view(e))
                .push((name@, colr_paints(*m, name@, m.color_layers@))));
        } else {
            assert(r@.map_values(|e: ColrEntry| entry_view(e)) =~= colr_entries(*m, m.glyphs@.subrange(0, g as int + 1)));
        }
        g = g + 1;
    }
    assert(m.glyphs@.subrange(0, m.glyphs@.len() as int) =~= m.glyphs@);
    r
}

/// The explicit color entries of every master that has any.
pub fn colr_plan_of(ms: &Vec<Master>) -> (r: Vec<(usize, Vec<ColrEntry>)>)
    ensures
        plan_view(r@) == colr_plan(ms@),
{
    let mut r: Vec<(usize, Vec<ColrEntry>)> = Vec::new();
    let mut k: usize = 0;
    while k < ms.len()
        invariant
            k <= ms@.len(),
            plan_view(r@) == colr_plan(ms@.subrange(0, k as int)),
        decreases ms@.len() - k,
    {
        let ghost pre = ms@.subrange(0, k as int);
        let ghost post = ms@.subrange(0, k as int + 1);
        assert(post.drop_last() =~= pre);
        assert(post.last() == ms@[k as int]);
        let e = colr_entries_of(&ms[k]);
        let ghost before = r@;
        if e.len() > 0 {
            r.push((k, e));
            assert(plan_view(r@) =~= plan_view(before).push((k, colr_entries(ms@[k as int], ms@[k as int].glyphs@))));
        } else {
            assert(plan_view(r@) =~= colr_plan(post));
        }
        k = k + 1;
    }
    assert(ms@.subrange(0, ms@.len() as int) =~= ms@);
    r
}

fn exploded_count(m: &Master) -> (n: usize)
    ensures
        n == exploded_in(*m, m.glyphs@),
{
    let mut n: usize = 0;
    let mut g: usize = 0;
    while g < m.glyphs.len()
        invariant
            g <= m.glyphs@.len(),
            n == exploded_in(*m, m.glyphs@.subrange(0, g as int)),
        decreases m.glyphs@.len() - g,
    {
        let ghost pre = m.glyphs@.subrange(0, g as int);
        assert(m.glyphs@.subrange(0, g as int + 1).drop_last() =~= pre);
        proof {
            lemma_exploded_in_le(*m, pre);
        }
        if explodes_exec(m, &m.glyphs[g].name) {
            n = n + 1;
        }
        g = g + 1;
    }
    assert(m.glyphs@.subrange(0, m.glyphs@.len() as int) =~= m.glyphs@);
    n
}

impl Workspace {
    /// Append a color to the palette of every master (the palettes must
    /// agree). `color` is the parsed hex field; `None` (not a color)
    /// asks for the format. Returns whether the color went in.
    pub fn command_add_palette_color(&mut self, color: Option<u32>) -> (added: bool)
        ensures
            color is None ==> !added
                && *final(self) == (Workspace { status_note: Some(StatusNote::ColorFormat), ..*old(self) }),
            color is Some && old(self).project is None ==> !added && *final(self) == *old(self),
            color is Some && old(self).project is Some ==> {
                let p = old(self).project->0;
                &&& added
                &&& final(self).project matches Some(fp)
                &&& fp.masters@.len() == p.masters@.len()
                &&& forall|m: int| 0 <= m < p.masters@.len() ==> #[trigger] fp.masters@[m] == (Master {
                    palette: fp.masters@[m].palette,
                    dirty: true,
                    ..p.masters@[m]
                }) && fp.masters@[m].palette@ == p.masters@[m].palette@.push(color->0)
                &&& fp == (Project { masters: fp.masters, ..p })
                &&& *final(self) == (Workspace { project: final(self).project, ..*old(self) })
            },
    {
        let Some(c) = color else {
            self.status_note = Some(StatusNote::ColorFormat);
            return false;
        };
        let Some(p) = &mut self.project else {
            return false;
        };
        let ghost p0 = *p;
        let mut m: usize = 0;
        while m < p.masters.len()
            invariant
                m <= p.masters@.len(),
                p.masters@.len() == p0.masters@.len(),
                *p == (Project { masters: p.masters, ..p0 }),
                forall|k: int| m <= k < p.masters@.len() ==> p.masters@[k] == p0.masters@[k],
                forall|k: int| 0 <= k < m ==> #[trigger] p.masters@[k] == (Master {
                    palette: p.masters@[k].palette,
                    dirty: true,
                    ..p0.masters@[k]
                }) && p.masters@[k].palette@ == p0.masters@[k].palette@.push(c),
            decreases p.masters@.len() - m,
        {
            p.masters[m].palette.push(c);
            p.masters[m].dirty = true;
            m += 1;
        }
        true
    }

    /// Drop a palette color from every master. Refused while a layer of
    /// the first master still uses it, because indices shift on removal;
    /// the mapping follows the shift, and so does the selected swatch.
    pub fn command_remove_palette_color(&mut self, index: usize)
        ensures
            old(self).project is None ==> *final(self) == *old(self),
            old(self).project is Some ==> {
                let p = old(self).project->0;
                if p.masters@.len() > 0 && color_used(p.masters@[0].color_layers@, index) {
                    *final(self) == (Workspace { status_note: Some(StatusNote::ColorInUse), ..*old(self) })
                } else {
                    &&& final(self).project matches Some(fp)
                    &&& fp.masters@.len() == p.masters@.len()
                    &&& forall|m: int| 0 <= m < p.masters@.len() ==> palette_removed(p.masters@[m], index, #[trigger] fp.masters@[m])
                    &&& fp == (Project { masters: fp.masters, ..p })
                    &&& *final(self) == (Workspace {
                        project: final(self).project,
                        color_selected: if old(self).color_selected >= index && old(self).color_selected > 0 {
                            (old(self).color_selected - 1) as usize
                        } else {
                            old(self).color_selected
                        },
                        ..*old(self)
                    })
                }
            },
    {
        let Some(p) = &mut self.project else {
            return;
        };
        if p.masters.len() > 0 && uses_color(&p.masters[0].color_layers, index) {
            self.status_note = Some(StatusNote::ColorInUse);
            return;
        }
        let ghost p0 = *p;
        let mut m: usize = 0;
        while m < p.masters.len()
            invariant
                m <= p.masters@.len(),
                p.masters@.len() == p0.masters@.len(),
                *p == (Project { masters: p.masters, ..p0 }),
                forall|k: int| m <= k < p.masters@.len() ==> p.masters@[k] == p0.masters@[k],
                forall|k: int| 0 <= k < m ==> palette_removed(p0.masters@[k], index, #[trigger] p.masters@[k]),
            decreases p.masters@.len() - m,
        {
            if index < p.masters[m].palette.len() {
                p.masters[m].palette.remove(index);
                p.masters[m].dirty = true;
            }
            let ghost rows0 = p.masters@[m as int].color_layers@;
            let mut j: usize = 0;
            while j < p.masters[m].color_layers.len()
                invariant
                    m < p.masters@.len(),
                    j <= rows0.len(),
                    p.masters@.len() == p0.masters@.len(),
                    *p == (Project { masters: p.masters, ..p0 }),
                    forall|k: int| m < k < p.masters@.len() ==> p.masters@[k] == p0.masters@[k],
                    forall|k: int| 0 <= k < m ==> palette_removed(p0.masters@[k], index, #[trigger] p.masters@[k]),
                    rows0 == p0.masters@[m as int].color_layers@,
                    p.masters@[m as int].palette@ == if index < p0.masters@[m as int].palette@.len() {
                        p0.masters@[m as int].palette@.remove(index as int)
                    } else {
                        p0.masters@[m as int].palette@
                    },
                    p.masters@[m as int].dirty == (p0.masters@[m as int].dirty || index < p0.masters@[m as int].palette@.len()),
                    p.masters@[m as int].color_layers@.len() == rows0.len(),
                    forall|i: int| 0 <= i < j ==> #[trigger] p.masters@[m as int].color_layers@[i] == (ColorLayer {
                        color: shifted(rows0[i].color, index),
                        ..rows0[i]
                    }),
                    forall|i: int| j <= i < rows0.len() ==> #[trigger] p.masters@[m as int].color_layers@[i] == rows0[i],
                    p.masters@[m as int] == (Master {
                        palette: p.masters@[m as int].palette,
                        dirty: p.masters@[m as int].dirty,
                        color_layers: p.masters@[m as int].color_layers,
                        ..p0.masters@[m as int]
                    }),
                decreases rows0.len() - j,
            {
                if p.masters[m].color_layers[j].color > index {
                    p.masters[m].color_layers[j].color = p.masters[m].color_layers[j].color - 1;
                }
                j += 1;
            }
            m += 1;
        }
        if self.color_selected >= index && self.color_selected > 0 {
            self.color_selected = self.color_selected - 1;
        }
    }

    /// Remove one row of the color-layer mapping in every master; the
    /// layer and its drawings stay.
    pub fn command_remove_color_layer(&mut self, row: usize)
        ensures
            old(self).project is None ==> *final(self) == *old(self),
            old(self).project is Some ==> {
                let p = old(self).project->0;
                &&& final(self).project matches Some(fp)
                &&& fp.masters@.len() == p.masters@.len()
                &&& forall|m: int| 0 <= m < p.masters@.len() ==> #[trigger] fp.masters@[m] == if row < p.masters@[m].color_layers@.len() {
                    Master { color_layers: fp.masters@[m].color_layers, dirty: true, ..p.masters@[m] }
                } else {
                    p.masters@[m]
                } && (row < p.masters@[m].color_layers@.len() ==>
                    fp.masters@[m].color_layers@ == p.masters@[m].color_layers@.remove(row as int))
                &&& fp == (Project { masters: fp.masters, ..p })
                &&& *final(self) == (Workspace { project: final(self).project, ..*old(self) })
            },
    {
        let Some(p) = &mut self.project else {
            return;
        };
        let ghost p0 = *p;
        let mut m: usize = 0;
        while m < p.masters.len()
            invariant
                m <= p.masters@.len(),
                p.masters@.len() == p0.masters@.len(),
                *p == (Project { masters: p.masters, ..p0 }),
                forall|k: int| m <= k < p.masters@.len() ==> p.masters@[k] == p0.masters@[k],
                forall|k: int| 0 <= k < m ==> #[trigger] p.masters@[k] == if row < p0.masters@[k].color_layers@.len() {
                    Master { color_layers: p.masters@[k].color_layers, dirty: true, ..p0.masters@[k] }
                } else {
                    p0.masters@[k]
                } && (row < p0.masters@[k].color_layers@.len() ==>
                    p.masters@[k].color_layers@ == p0.masters@[k].color_layers@.remove(row as int)),
            decreases p.masters@.len() - m,
        {
            if row < p.masters[m].color_layers.len() {
                p.masters[m].color_layers.remove(row);
                p.masters[m].dirty = true;
            }
            m += 1;
        }
    }

    /// Make a color layer of the current glyph a linear gradient, from
    /// the row's color to the selected swatch, in every master: the
    /// request. A glyph without the explicit color structures
    /// (`has_v1` false) is converted first.
    pub fn command_layer_gradient(&self, row: usize, has_v1: bool) -> (ops: Vec<EngineOp>)
        requires
            self.refs_ok(),
        ensures
            !(self.current_glyph() is Some && self.has_font()) ==> ops@.len() == 0,
            (self.current_glyph() is Some && self.has_font()) ==> {
                let name = self.project->0.active_master().glyphs@[self.current_glyph()->0 as int].name;
                let paint = EngineOp::LayerGradient(name, row, self.color_selected);
                if has_v1 {
                    ops@ == seq![paint]
                } else {
                    &&& ops@.len() == 2
                    &&& ops@[0] matches EngineOp::ConvertToColrV1(plan) && plan_view(plan@) == colr_plan(self.project->0.masters@)
                    &&& ops@[1] == paint
                }
            },
    {
        let mut ops = Vec::new();
        let Some(index) = self.current_glyph_index() else {
            return ops;
        };
        let Some(p) = &self.project else {
            return ops;
        };
        if p.active >= p.masters.len() {
            return ops;
        }
        let name = p.masters[p.active].glyphs[index].name.clone();
        if !has_v1 {
            ops.push(EngineOp::ConvertToColrV1(colr_plan_of(&p.masters)));
        }
        ops.push(EngineOp::LayerGradient(name, row, self.color_selected));
        ops
    }

    /// The gradient, once the engine says in how many masters it painted.
    pub fn finish_layer_gradient(&mut self, row: usize, changed: usize)
        ensures
            *final(self) == (Workspace {
                status_note: Some(if changed == 0 {
                    StatusNote::GradientNeedsV1
                } else {
                    StatusNote::Gradient(row, old(self).color_selected, changed)
                }),
                ..*old(self)
            }),
    {
        self.status_note = Some(if changed == 0 {
            StatusNote::GradientNeedsV1
        } else {
            StatusNote::Gradient(row, self.color_selected, changed)
        });
    }
}

impl Workspace {
    /// Add a color layer to every master: a layer `color.<n>` (the first
    /// such name the first master's mapping lacks) mapped to the selected
    /// swatch, seeded with the current glyph's outline. Glyphs then show
    /// in color. The palette must have a color first.
    pub fn command_add_color_layer(&mut self) -> (ops: Vec<EngineOp>)
        requires
            old(self).refs_ok(),
        ensures
            !(old(self).current_glyph() is Some && old(self).project is Some) ==> *final(self) == *old(self) && ops@.len() == 0,
            (old(self).current_glyph() is Some && old(self).project is Some) ==> {
                let p = old(self).project->0;
                let name = p.active_master().glyphs@[old(self).current_glyph()->0 as int].name;
                let rows = if p.masters@.len() > 0 { p.masters@[0].color_layers@ } else { Seq::empty() };
                if p.active_master().palette@.len() == 0 {
                    ops@.len() == 0 && *final(self) == (Workspace {
                        status_note: Some(StatusNote::AddPaletteColorFirst), ..*old(self) })
                } else {
                    &&& ops@.len() == 1
                    &&& ops@[0] matches EngineOp::SeedColorLayer(g, layer)
                    &&& g == name
                    &&& exists|n: nat| #![trigger color_layer_name(n)] layer@ == color_layer_name(n) && !row_named(rows, layer@)
                        && forall|k: nat| k < n ==> row_named(rows, #[trigger] color_layer_name(k))
                    &&& final(self).project matches Some(fp)
                    &&& fp.masters@.len() == p.masters@.len()
                    &&& forall|m: int| 0 <= m < p.masters@.len() ==> {
                        let fm = #[trigger] fp.masters@[m];
                        let pm = p.masters@[m];
                        &&& fm.color_layers@ == pm.color_layers@.push(ColorLayer { layer, color: old(self).color_selected })
                        &&& texts(fm.modified_glyphs@) == with_name(texts(pm.modified_glyphs@), name@)
                        &&& fm == (Master { color_layers: fm.color_layers, dirty: true, modified_glyphs: fm.modified_glyphs, ..pm })
                    }
                    &&& fp == (Project { masters: fp.masters, ..p })
                    &&& *final(self) == (Workspace {
                        project: final(self).project,
                        show_color_preview: true,
                        status_note: Some(StatusNote::ColorLayerAdded(layer)),
                        ..*old(self)
                    })
                }
            },
    {
        let mut ops = Vec::new();
        let Some(index) = self.current_glyph_index() else {
            return ops;
        };
        let color = self.color_selected;
        let layer;
        match &mut self.project {
            None => {
                return ops;
            },
            Some(p) => {
                if p.masters[p.active].palette.len() == 0 {
                    self.status_note = Some(StatusNote::AddPaletteColorFirst);
                    return ops;
                }
                let name = p.masters[p.active].glyphs[index].name.clone();
                layer = if p.masters.len() > 0 {
                    free_color_layer(&p.masters[0].color_layers)
                } else {
                    let empty: Vec<ColorLayer> = Vec::new();
                    free_color_layer(&empty)
                };
                let ghost p0 = *p;
                let mut m: usize = 0;
                while m < p.masters.len()
                    invariant
                        m <= p.masters@.len(),
                        p.masters@.len() == p0.masters@.len(),
                        *p == (Project { masters: p.masters, ..p0 }),
                        forall|k: int| m <= k < p.masters@.len() ==> p.masters@[k] == p0.masters@[k],
                        forall|k: int| 0 <= k < m ==> {
                            let fm = #[trigger] p.masters@[k];
                            let pm = p0.masters@[k];
                            &&& fm.color_layers@ == pm.color_layers@.push(ColorLayer { layer, color })
                            &&& texts(fm.modified_glyphs@) == with_name(texts(pm.modified_glyphs@), name@)
                            &&& fm == (Master { color_layers: fm.color_layers, dirty: true, modified_glyphs: fm.modified_glyphs, ..pm })
                        },
                    decreases p.masters@.len() - m,
                {
                    p.masters[m].color_layers.push(ColorLayer { layer: layer.clone(), color });
                    p.masters[m].dirty = true;
                    insert_name(&mut p.masters[m].modified_glyphs, &name);
                    m += 1;
                }
                ops.push(EngineOp::SeedColorLayer(name, layer.clone()));
            },
        }
        self.show_color_preview = true;
        self.status_note = Some(StatusNote::ColorLayerAdded(layer));
        ops
    }

    /// Write explicit color entries for every glyph a mapped color layer
    /// holds a copy of (color copies themselves aside), in every master:
    /// the engine writes the entries (the plan `colr_plan` gives) and the
    /// copies they paint, each master that gets one has unsaved edits,
    /// the sidebar counts again,
    /// and the status bar counts the entries, or says there were none.
    pub fn command_convert_to_colrv1(&mut self) -> (ops: Vec<EngineOp>)
        requires
            old(self).project matches Some(p) ==> glyph_total(p.masters@) <= usize::MAX,
        ensures
            old(self).project is None ==> *final(self) == *old(self) && ops@.len() == 0,
            old(self).project matches Some(p) ==> {
                let n = exploded_total(p.masters@);
                &&& final(self).project matches Some(fp)
                &&& fp.masters@.len() == p.masters@.len()
                &&& forall|k: int| 0 <= k < p.masters@.len() ==> #[trigger] fp.masters@[k] == (Master {
                    dirty: p.masters@[k].dirty || exploded_in(p.masters@[k], p.masters@[k].glyphs@) > 0,
                    ..p.masters@[k]
                })
                &&& fp == (Project { masters: fp.masters, ..p })
                &&& ops@.len() == if n > 0 { 1int } else { 0int }
                &&& n > 0 ==> (ops@[0] matches EngineOp::ConvertToColrV1(plan) && plan_view(plan@) == colr_plan(p.masters@))
                &&& *final(self) == (Workspace {
                    project: final(self).project,
                    sidebar_counts: false,
                    status_note: Some(if n == 0 { StatusNote::NoColorLayers } else { StatusNote::ColrV1Written(n as usize) }),
                    ..*old(self)
                })
            },
    {
        let mut ops = Vec::new();
        let Some(mut p) = self.project.take() else {
            return ops;
        };
        let ghost p0 = p;
        let plan = colr_plan_of(&p.masters);
        let mut total: usize = 0;
        let mut k: usize = 0;
        while k < p.masters.len()
            invariant
                k <= p.masters@.len(),
                p.masters@.len() == p0.masters@.len(),
                p == (Project { masters: p.masters, ..p0 }),
                glyph_total(p0.masters@) <= usize::MAX,
                total == exploded_total(p0.masters@.subrange(0, k as int)),
                forall|i: int| k <= i < p.masters@.len() ==> #[trigger] p.masters@[i] == p0.masters@[i],
                forall|i: int| 0 <= i < k ==> #[trigger] p.masters@[i] == (Master {
                    dirty: p0.masters@[i].dirty || exploded_in(p0.masters@[i], p0.masters@[i].glyphs@) > 0,
                    ..p0.masters@[i]
                }),
            decreases p.masters@.len() - k,
        {
            let ghost pre = p0.masters@.subrange(0, k as int);
            let ghost post = p0.masters@.subrange(0, k as int + 1);
            assert(post.drop_last() =~= pre);
            let n = exploded_count(&p.masters[k]);
            proof {
                lemma_exploded_total_le(post);
                lemma_glyph_total_prefix(p0.masters@, k as int + 1);
            }
            total = total + n;
            if n > 0 {
                p.masters[k].dirty = true;
            }
            k = k + 1;
        }
        assert(p0.masters@.subrange(0, p0.masters@.len() as int) =~= p0.masters@);
        self.project = Some(p);
        self.sidebar_counts = false;
        if total > 0 {
            ops.push(EngineOp::ConvertToColrV1(plan));
            self.status_note = Some(StatusNote::ColrV1Written(total));
        } else {
            self.status_note = Some(StatusNote::NoColorLayers);
        }
        ops
    }
}

} // verus!
