//! Glyph layers: the background copy, named layers, intermediate
//! (brace) layers and mask baking.
use vstd::prelude::*;
use crate::model::{EngineOp, Layer, Master, Mode, StatusNote, Workspace};
use crate::names::{contains_name, index_of, texts, with_name};
use crate::decimal::{dec, decimal, lemma_dec};
use crate::glyphs::{lemma_distinct_in_pool, valid_name};
use crate::text::{joined, string_of};
use crate::saving::{local_time_text, time_format_ok};

verus! {

/// A name list without the first `name`.
pub open spec fn without_text(v: Seq<String>, name: Seq<char>) -> Seq<String> {
    match index_of(texts(v), name) {
        Some(k) => v.remove(k),
        None => v,
    }
}

/// A name set without `name`.
pub open spec fn set_without(v: Seq<String>, name: Seq<char>) -> Seq<String> {
    v.filter(crate::glyphs::other_than(name))
}

/// Where `name` first sits in `v`.
pub fn text_index(v: &Vec<String>, name: &String) -> (r: Option<usize>)
    ensures
        r matches Some(k) ==> index_of(texts(v@), name@) == Some(k as int) && k < v@.len(),
        r is None ==> index_of(texts(v@), name@) is None,
{
    proof { crate::names::lemma_index_of(texts(v@), name@); }
    let mut i: usize = 0;
    while i < v.len()
        invariant
            i <= v@.len(),
            forall|j: int| 0 <= j < i ==> texts(v@)[j] != name@,
            match index_of(texts(v@), name@) {
                Some(k) => 0 <= k < v@.len() && texts(v@)[k] == name@
                    && forall|j: int| 0 <= j < k ==> texts(v@)[j] != name@,
                None => forall|j: int| 0 <= j < v@.len() ==> texts(v@)[j] != name@,
            },
        decreases v@.len() - i,
    {
        if v[i] == *name {
            assert(texts(v@)[i as int] == name@);
            return Some(i);
        }
        i += 1;
    }
    None
}

/// Where the layer called `name` sits.
pub open spec fn layer_index(layers: Seq<Layer>, name: Seq<char>) -> Option<int> {
    index_of(layers.map_values(|l: Layer| l.name@), name)
}

fn find_layer(layers: &Vec<Layer>, name: &str) -> (r: Option<usize>)
    ensures
        r matches Some(k) ==> layer_index(layers@, name@) == Some(k as int) && k < layers@.len(),
        r is None ==> layer_index(layers@, name@) is None,
{
    let ghost names = layers@.map_values(|l: Layer| l.name@);
    proof { crate::names::lemma_index_of(names, name@); }
    let mut i: usize = 0;
    while i < layers.len()
        invariant
            i <= layers@.len(),
            names == layers@.map_values(|l: Layer| l.name@),
            forall|j: int| 0 <= j < i ==> names[j] != name@,
            match index_of(names, name@) {
                Some(k) => 0 <= k < names.len() && names[k] == name@
                    && forall|j: int| 0 <= j < k ==> names[j] != name@,
                None => forall|j: int| 0 <= j < names.len() ==> names[j] != name@,
            },
        decreases layers@.len() - i,
    {
        if crate::tasks::text_is(&layers[i].name, name) {
            assert(names[i as int] == name@);
            return Some(i);
        }
        i += 1;
    }
    None
}

/// Remove `name` from the set `v`.
pub fn remove_text(v: &mut Vec<String>, name: &str)
    ensures
        final(v)@ == set_without(old(v)@, name@),
{
    let mut r: Vec<String> = Vec::new();
    let mut i: usize = 0;
    while i < v.len()
        invariant
            i <= v@.len(),
            v@ == old(v)@,
            r@ == v@.subrange(0, i as int).filter(crate::glyphs::other_than(name@)),
        decreases v@.len() - i,
    {
        proof { reveal(Seq::filter); }
        let ghost sub = v@.subrange(0, i + 1);
        assert(sub.drop_last() =~= v@.subrange(0, i as int));
        assert(sub.last() == v@[i as int]);
        assert(crate::glyphs::other_than(name@)(v@[i as int]) == (v@[i as int]@ != name@));
        if !crate::tasks::text_is(&v[i], name) {
            r.push(v[i].clone());
        }
        i += 1;
    }
    assert(v@.subrange(0, v@.len() as int) =~= v@);
    *v = r;
}

/// Add `name` to the set `v`.
pub fn insert_text(v: &mut Vec<String>, name: &String)
    ensures
        texts(final(v)@) == with_name(texts(old(v)@), name@),
{
    crate::names::insert_name(v, name);
}

/// What dropping glyph `glyph` from layer `layer` does to a master: the
/// layer's copy goes, and the master is marked edited; an emptied layer
/// goes too when `drop_empty`. Without that layer the master is only
/// marked edited when `always_dirty`.
pub open spec fn layer_glyph_dropped(m: Master, layer: Seq<char>, glyph: Seq<char>, drop_empty: bool,
    always_dirty: bool, f: Master) -> bool {
    match layer_index(m.layers@, layer) {
        Some(k) => {
            let kept = without_text(m.layers@[k].glyphs@, glyph);
            &&& if drop_empty && kept.len() == 0 {
                f.layers@ == m.layers@.remove(k)
            } else {
                &&& f.layers@ == m.layers@.update(k, f.layers@[k])
                &&& f.layers@[k].name == m.layers@[k].name
                &&& f.layers@[k].glyphs@ == kept
            }
            &&& f == (Master { layers: f.layers, dirty: true, ..m })
        },
        None => f == (Master { dirty: m.dirty || always_dirty, ..m }),
    }
}

fn drop_layer_glyph(m: &mut Master, layer: &str, glyph: &String, drop_empty: bool, always_dirty: bool)
    ensures
        layer_glyph_dropped(*old(m), layer@, glyph@, drop_empty, always_dirty, *final(m)),
{
    match find_layer(&m.layers, layer) {
        Some(k) => {
            let ghost ls = m.layers@;
            match text_index(&m.layers[k].glyphs, glyph) {
                Some(g) => {
                    m.layers[k].glyphs.remove(g);
                },
                None => {},
            }
            let ghost mid = m.layers@;
            if drop_empty && m.layers[k].glyphs.len() == 0 {
                m.layers.remove(k);
                assert(m.layers@ =~= ls.remove(k as int)) by {
                    assert(mid =~= ls.update(k as int, mid[k as int]));
                }
            } else {
                assert(m.layers@ =~= ls.update(k as int, m.layers@[k as int]));
            }
            m.dirty = true;
        },
        None => {
            if always_dirty {
                m.dirty = true;
            }
        },
    }
}

/// What putting glyph `glyph` into layer `layer` does to a layer list,
/// as `norad`'s `get_or_create_layer` and `insert_glyph` do it: an
/// existing layer gains the glyph; a missing one is created with it when
/// its name is valid. The default layer is not in the list; putting a
/// glyph there leaves the list as it is. `ok` says whether the layer was
/// there or could be made.
pub open spec fn put_in_layer(ls: Seq<Layer>, layer: Seq<char>, glyph: Seq<char>, f: Seq<Layer>, ok: bool) -> bool {
    match layer_index(ls, layer) {
        Some(k) => {
            &&& ok
            &&& f.len() == ls.len()
            &&& f == ls.update(k, f[k])
            &&& f[k].name == ls[k].name
            &&& texts(f[k].glyphs@) == with_name(texts(ls[k].glyphs@), glyph)
        },
        None => if layer == "public.default"@ {
            ok && f == ls
        } else if valid_name(layer) {
            &&& ok
            &&& f.len() == ls.len() + 1
            &&& f.subrange(0, ls.len() as int) == ls
            &&& f.last().name@ == layer
            &&& texts(f.last().glyphs@) == seq![glyph]
        } else {
            !ok && f == ls
        },
    }
}

/// Put glyph `glyph` into layer `layer`, making the layer when it is
/// missing and its name is valid.
pub fn put_glyph(layers: &mut Vec<Layer>, layer: &String, glyph: &String) -> (ok: bool)
    ensures
        put_in_layer(old(layers)@, layer@, glyph@, final(layers)@, ok),
{
    let ghost ls = layers@;
    match find_layer(layers, layer.as_str()) {
        Some(k) => {
            insert_text(&mut layers[k].glyphs, glyph);
            assert(layers@ =~= ls.update(k as int, layers@[k as int]));
            true
        },
        None => {
            if crate::tasks::text_is(layer, "public.default") {
                return true;
            }
            if !crate::glyphs::valid_layer_name(layer.as_str()) {
                return false;
            }
            let mut glyphs: Vec<String> = Vec::new();
            glyphs.push(glyph.clone());
            assert(texts(glyphs@) =~= seq![glyph@]);
            layers.push(Layer { name: layer.clone(), glyphs });
            assert(layers@.subrange(0, ls.len() as int) =~= ls);
            true
        },
    }
}

/// Whether glyphs can go into layer `layer`: it is there, or it is the
/// default layer, or it can be made.
pub open spec fn layer_available(ls: Seq<Layer>, layer: Seq<char>) -> bool {
    layer_index(ls, layer) is Some || layer == "public.default"@ || valid_name(layer)
}

/// Whether the layer named `layer` holds a copy of `glyph`.
pub(crate) fn layer_holds(layers: &Vec<Layer>, layer: &str, glyph: &String) -> (r: bool)
    ensures
        r == holds_glyph(layers@, layer@, glyph@),
{
    match find_layer(layers, layer) {
        Some(k) => contains_name(&layers[k].glyphs, glyph),
        None => false,
    }
}

fn can_put(layers: &Vec<Layer>, layer: &String) -> (r: bool)
    ensures
        r == layer_available(layers@, layer@),
{
    find_layer(layers, layer.as_str()).is_some() || crate::tasks::text_is(layer, "public.default")
        || crate::glyphs::valid_layer_name(layer.as_str())
}

/// The `n`-th name a backup layer can take: the stamp, then
/// `stamp (1)`, `stamp (2)`, and so on.
pub open spec fn backup_name(stamp: Seq<char>, n: nat) -> Seq<char> {
    if n == 0 { stamp } else { stamp + seq![' ', '('] + dec(n) + seq![')'] }
}

/// Whether layer `layer` holds glyph `glyph`.
pub open spec fn holds_glyph(ls: Seq<Layer>, layer: Seq<char>, glyph: Seq<char>) -> bool {
    match layer_index(ls, layer) {
        Some(k) => texts(ls[k].glyphs@).contains(glyph),
        None => false,
    }
}

proof fn lemma_backup_names_distinct(stamp: Seq<char>, a: nat, b: nat)
    requires
        backup_name(stamp, a) == backup_name(stamp, b),
    ensures
        a == b,
{
    lemma_dec(a);
    lemma_dec(b);
    if a != 0 && b != 0 {
        let na = backup_name(stamp, a);
        let nb = backup_name(stamp, b);
        let s = stamp.len() + 2;
        assert(na.subrange(s as int, na.len() - 1) =~= dec(a));
        assert(nb.subrange(s as int, nb.len() - 1) =~= dec(b));
    } else if a != 0 {
        assert(backup_name(stamp, a).len() > stamp.len());
    } else if b != 0 {
        assert(backup_name(stamp, b).len() > stamp.len());
    }
}

/// The first backup name not already holding glyph `glyph`.
fn free_backup_name(layers: &Vec<Layer>, stamp: &String, glyph: &String) -> (r: String)
    ensures
        exists|n: nat| #![trigger backup_name(stamp@, n)] r@ == backup_name(stamp@, n)
            && !holds_glyph(layers@, r@, glyph@)
            && forall|k: nat| k < n ==> holds_glyph(layers@, #[trigger] backup_name(stamp@, k), glyph@),
{
    let base = crate::text::chars_of(stamp.as_str());
    let mut open: Vec<char> = Vec::new();
    open.push(' ');
    open.push('(');
    let mut close: Vec<char> = Vec::new();
    close.push(')');
    assert(open@ =~= seq![' ', '(']);
    assert(close@ =~= seq![')']);
    let ghost pool = layers@.map_values(|l: Layer| l.name@);
    let mut n: u128 = 0;
    loop
        invariant
            n <= layers@.len(),
            layers@.len() == layers.len(),
            base@ == stamp@,
            open@ == seq![' ', '('],
            close@ == seq![')'],
            pool == layers@.map_values(|l: Layer| l.name@),
            forall|k: nat| k < n ==> holds_glyph(layers@, #[trigger] backup_name(stamp@, k), glyph@),
        decreases layers@.len() + 1 - n,
    {
        let name = if n == 0 {
            stamp.clone()
        } else {
            let a = joined(&base, &open);
            let b = joined(&a, &decimal(n));
            string_of(&joined(&b, &close))
        };
        assert(name@ == backup_name(stamp@, n as nat));
        let held = match find_layer(layers, name.as_str()) {
            Some(k) => contains_name(&layers[k].glyphs, glyph),
            None => false,
        };
        if !held {
            return name;
        }
        proof {
            let f = |k: nat| backup_name(stamp@, k);
            assert forall|a: nat, b: nat| 0 <= a < n + 1 && 0 <= b < n + 1 && #[trigger] f(a) == #[trigger] f(b)
                implies a == b by {
                lemma_backup_names_distinct(stamp@, a, b);
            }
            assert forall|k: nat| 0 <= k < n + 1 implies pool.contains(#[trigger] f(k)) by {
                assert(holds_glyph(layers@, backup_name(stamp@, k), glyph@));
                crate::names::lemma_index_of(pool, backup_name(stamp@, k));
                let j = layer_index(layers@, backup_name(stamp@, k))->0;
                assert(pool[j] == f(k));
            }
            lemma_distinct_in_pool(f, pool, 0, (n + 1) as nat);
            assert(usize::MAX <= 0xffff_ffff_ffff_ffffu128);
        }
        n = n + 1;
    }
}

/// The format of the date and time a backup layer's name starts from.
pub fn backup_time_format() -> (f: &'static str)
    ensures
        f@ == "%b %-d, %H.%M"@,
        time_format_ok(f@),
{
    let f = "%b %-d, %H.%M";
    proof {
        reveal_strlit("%b %-d, %H.%M");
        reveal_with_fuel(time_format_ok, 14);
    }
    f
}

impl Workspace {
    /// Drop the background layer's copy of the open glyph.
    pub fn command_clear_background(&mut self) -> (ops: Vec<EngineOp>)
        requires
            old(self).refs_ok(),
        ensures
            !(old(self).mode is Editor && old(self).has_font()) ==> *final(self) == *old(self) && ops@.len() == 0,
            (old(self).mode is Editor && old(self).has_font()) ==> {
                let p = old(self).project->0;
                let m = p.active_master();
                let name = m.glyphs@[old(self).mode->0 as int].name;
                match m.background {
                    Some(bg) => {
                        &&& ops@ == seq![EngineOp::RemoveLayerGlyph(bg, name)]
                        &&& final(self).project matches Some(fp)
                        &&& crate::project::master_replaced(p, p.active as int, fp, fp.masters@[p.active as int])
                        &&& layer_glyph_dropped(m, bg@, name@, false, false, fp.masters@[p.active as int])
                        &&& *final(self) == (Workspace { project: final(self).project, ..*old(self) })
                    },
                    None => *final(self) == *old(self) && ops@.len() == 0,
                }
            },
    {
        let mut ops = Vec::new();
        let Mode::Editor(index) = self.mode else {
            return ops;
        };
        match &mut self.project {
            None => {
                return ops;
            },
            Some(p) => {
                if p.active >= p.masters.len() {
                    return ops;
                }
                let a = p.active;
                let name = p.masters[a].glyphs[index].name.clone();
                let bg = match &p.masters[a].background {
                    Some(b) => b.clone(),
                    None => {
                        return ops;
                    },
                };
                let ghost before = p.masters@;
                drop_layer_glyph(&mut p.masters[a], bg.as_str(), &name, false, false);
                assert(p.masters@ =~= before.update(a as int, p.masters@[a as int]));
                ops.push(EngineOp::RemoveLayerGlyph(bg, name));
            },
        }
        ops
    }

    /// Drop a layer's copy of the current glyph; an emptied layer goes
    /// with it. The layer is no longer shown.
    pub fn command_delete_layer_glyph(&mut self, layer_name: &str) -> (ops: Vec<EngineOp>)
        requires
            old(self).refs_ok(),
        ensures
            !(old(self).current_glyph() is Some && old(self).has_font()) ==> *final(self) == *old(self) && ops@.len() == 0,
            (old(self).current_glyph() is Some && old(self).has_font()) ==> {
                let p = old(self).project->0;
                let m = p.active_master();
                let name = m.glyphs@[old(self).current_glyph()->0 as int].name;
                &&& ops@.len() == 1
                &&& ops@[0] matches EngineOp::RemoveLayerGlyph(l, g) && l@ == layer_name@ && g == name
                &&& final(self).project matches Some(fp)
                &&& crate::project::master_replaced(p, p.active as int, fp, fp.masters@[p.active as int])
                &&& layer_glyph_dropped(m, layer_name@, name@, true, true, fp.masters@[p.active as int])
                &&& final(self).visible_glyph_layers@ == set_without(old(self).visible_glyph_layers@, layer_name@)
                &&& *final(self) == (Workspace {
                    project: final(self).project,
                    visible_glyph_layers: final(self).visible_glyph_layers,
                    ..*old(self)
                })
            },
    {
        let mut ops = Vec::new();
        let Some(index) = self.current_glyph_index() else {
            return ops;
        };
        match &mut self.project {
            None => {
                return ops;
            },
            Some(p) => {
                if p.active >= p.masters.len() {
                    return ops;
                }
                let a = p.active;
                let name = p.masters[a].glyphs[index].name.clone();
                let ghost before = p.masters@;
                drop_layer_glyph(&mut p.masters[a], layer_name, &name, true, true);
                assert(p.masters@ =~= before.update(a as int, p.masters@[a as int]));
                ops.push(EngineOp::RemoveLayerGlyph(String::from_str(layer_name), name));
            },
        }
        remove_text(&mut self.visible_glyph_layers, layer_name);
        ops
    }

    /// Freeze the open glyph's current interpolation into an intermediate
    /// layer: the request. It needs a designspace, and a preview location
    /// off every master (`at_master` says whether it sits on one).
    pub fn command_brace_layer(&mut self, at_master: bool) -> (ops: Vec<EngineOp>)
        requires
            old(self).refs_ok(),
        ensures
            !(old(self).current_glyph() is Some && old(self).project is Some) ==> *final(self) == *old(self) && ops@.len() == 0,
            (old(self).current_glyph() is Some && old(self).project is Some) ==> {
                let p = old(self).project->0;
                if p.designspace is None {
                    ops@.len() == 0 && *final(self) == (Workspace {
                        status_note: Some(StatusNote::IntermediateNeedsDesignspace), ..*old(self) })
                } else if at_master {
                    ops@.len() == 0 && *final(self) == (Workspace {
                        status_note: Some(StatusNote::IntermediateOffMaster), ..*old(self) })
                } else {
                    &&& *final(self) == *old(self)
                    &&& ops@ == seq![EngineOp::BraceLayer(p.active_master().glyphs@[old(self).current_glyph()->0 as int].name)]
                }
            },
    {
        let mut ops = Vec::new();
        let Some(index) = self.current_glyph_index() else {
            return ops;
        };
        let name = match &self.project {
            None => {
                return ops;
            },
            Some(p) => {
                if p.designspace.is_none() {
                    self.status_note = Some(StatusNote::IntermediateNeedsDesignspace);
                    return ops;
                }
                if at_master {
                    self.status_note = Some(StatusNote::IntermediateOffMaster);
                    return ops;
                }
                p.masters[p.active].glyphs[index].name.clone()
            },
        };
        ops.push(EngineOp::BraceLayer(name));
        ops
    }

    /// The intermediate layer, once the engine has written it (`None`
    /// when there was nothing to freeze): the layer is shown, and the
    /// status bar names it.
    pub fn finish_brace_layer(&mut self, layer: Option<String>)
        requires
            old(self).refs_ok(),
        ensures
            !(layer is Some && old(self).current_glyph() is Some && old(self).has_font()) ==> *final(self) == *old(self),
            (layer is Some && old(self).current_glyph() is Some && old(self).has_font()) ==> {
                let l = layer->0;
                let name = old(self).project->0.active_master().glyphs@[old(self).current_glyph()->0 as int].name;
                &&& texts(final(self).visible_glyph_layers@) == with_name(texts(old(self).visible_glyph_layers@), l@)
                &&& *final(self) == (Workspace {
                    visible_glyph_layers: final(self).visible_glyph_layers,
                    status_note: Some(StatusNote::IntermediateAdded(l, name)),
                    ..*old(self)
                })
            },
    {
        let Some(l) = layer else {
            return;
        };
        let Some(index) = self.current_glyph_index() else {
            return;
        };
        let name = match &self.project {
            Some(p) => {
                if p.active >= p.masters.len() {
                    return;
                }
                p.masters[p.active].glyphs[index].name.clone()
            },
            None => {
                return;
            },
        };
        insert_text(&mut self.visible_glyph_layers, &l);
        self.status_note = Some(StatusNote::IntermediateAdded(l, name));
    }

    /// Glyph > Bake Masks on the current glyph, in every master: the
    /// request. In the editor the step is undoable.
    pub fn command_bake_masks(&mut self) -> (ops: Vec<EngineOp>)
        requires
            old(self).refs_ok(),
        ensures
            old(self).current_glyph() is None ==> *final(self) == *old(self) && ops@.len() == 0,
            old(self).current_glyph() is Some ==> {
                let undo = if old(self).mode is Editor { old(self).undo_ops(old(self).mode->0) } else { Seq::empty() };
                &&& *final(self) == (Workspace {
                    nudging: if old(self).mode is Editor { false } else { old(self).nudging },
                    ..*old(self)
                })
                &&& ops@ == if old(self).project is Some {
                    undo + seq![
                        EngineOp::BakeMasks(old(self).project->0.active_master().glyphs@[old(self).current_glyph()->0 as int].name),
                        EngineOp::ComputeCompat,
                    ]
                } else {
                    undo
                }
            },
    {
        let Some(index) = self.current_glyph_index() else {
            return Vec::new();
        };
        let mut ops = if let Mode::Editor(i) = self.mode {
            self.push_undo_snapshot(i)
        } else {
            Vec::new()
        };
        if let Some(p) = &self.project {
            let name = p.masters[p.active].glyphs[index].name.clone();
            ops.push(EngineOp::BakeMasks(name));
            ops.push(EngineOp::ComputeCompat);
        }
        ops
    }

    /// Bake Masks, once the engine says in how many masters it baked:
    /// the point selection is cleared either way.
    pub fn finish_bake_masks(&mut self, baked: usize)
        ensures
            final(self).editor.selected@.len() == 0,
            *final(self) == (Workspace {
                editor: crate::model::EditorState { selected: final(self).editor.selected, ..old(self).editor },
                status_note: Some(StatusNote::MasksBaked(baked)),
                ..*old(self)
            }),
    {
        self.editor.selected.clear();
        self.status_note = Some(StatusNote::MasksBaked(baked));
    }
}

impl Workspace {
    /// Copy the open glyph's outline into the background layer
    /// (`public.background`), made on first use.
    pub fn command_send_to_background(&mut self) -> (ops: Vec<EngineOp>)
        requires
            old(self).refs_ok(),
        ensures
            !(old(self).mode is Editor && old(self).has_font()) ==> *final(self) == *old(self) && ops@.len() == 0,
            (old(self).mode is Editor && old(self).has_font()) ==> {
                let p = old(self).project->0;
                let m = p.active_master();
                let i = old(self).mode->0;
                &&& ops@ == seq![EngineOp::SendToBackground(i)]
                &&& final(self).project matches Some(fp)
                &&& crate::project::master_replaced(p, p.active as int, fp, fp.masters@[p.active as int])
                &&& put_in_layer(m.layers@, "public.background"@, m.glyphs@[i as int].name@,
                    fp.masters@[p.active as int].layers@, true)
                &&& fp.masters@[p.active as int] == (Master { layers: fp.masters@[p.active as int].layers, dirty: true, ..m })
                &&& *final(self) == (Workspace {
                    project: final(self).project,
                    status_note: Some(StatusNote::SentToBackground),
                    ..*old(self)
                })
            },
    {
        let mut ops = Vec::new();
        let Mode::Editor(index) = self.mode else {
            return ops;
        };
        match &mut self.project {
            None => {
                return ops;
            },
            Some(p) => {
                if p.active >= p.masters.len() {
                    return ops;
                }
                let a = p.active;
                let name = p.masters[a].glyphs[index].name.clone();
                let ghost before = p.masters@;
                let layer = String::from_str("public.background");
                proof { reveal_strlit("public.background"); reveal_strlit("public.default"); }
                let ok = put_glyph(&mut p.masters[a].layers, &layer, &name);
                assert(ok) by {
                    assert(layer@[7] != "public.default"@[7]);
                    assert(layer@ != "public.default"@);
                    assert(valid_name(layer@));
                }
                p.masters[a].dirty = true;
                assert(p.masters@ =~= before.update(a as int, p.masters@[a as int]));
            },
        }
        ops.push(EngineOp::SendToBackground(index));
        self.status_note = Some(StatusNote::SentToBackground);
        ops
    }

    /// Copy the current drawing into a fresh backup layer named after
    /// the date and time (`stamp (1)`, `stamp (2)`, ... when a layer of
    /// that name already holds the glyph). The layer is shown. What the
    /// clock says decides the name; `backup_layer_from` states the rest.
    pub fn command_backup_layer(&mut self) -> (ops: Vec<EngineOp>)
        requires
            old(self).refs_ok(),
        ensures
            !(old(self).current_glyph() is Some && old(self).has_font()) ==> *final(self) == *old(self) && ops@.len() == 0,
            (old(self).current_glyph() is Some && old(self).has_font()) ==>
                exists|stamp: Seq<char>| #[trigger] old(self).backed_up(stamp, *final(self), ops@),
    {
        if self.current_glyph_index().is_none() || !self.font_open() {
            return Vec::new();
        }
        let stamp = local_time_text(backup_time_format());
        self.backup_layer_from(&stamp)
    }

    /// Whether `f` and `ops` are what backing up the current glyph with
    /// clock text `stamp` leaves: the first backup name that does not
    /// already hold the glyph gets a copy, unless no layer of that name
    /// can be made.
    pub open spec fn backed_up(&self, stamp: Seq<char>, f: Workspace, ops: Seq<EngineOp>) -> bool {
        let p = self.project->0;
        let m = p.active_master();
        let i = self.current_glyph()->0;
        let glyph = m.glyphs@[i as int].name@;
        exists|n: nat| #![trigger backup_name(stamp, n)]
            !holds_glyph(m.layers@, backup_name(stamp, n), glyph)
            && (forall|k: nat| k < n ==> holds_glyph(m.layers@, #[trigger] backup_name(stamp, k), glyph))
            && if !layer_available(m.layers@, backup_name(stamp, n)) {
                f == *self && ops.len() == 0
            } else {
                &&& ops.len() == 1
                &&& ops[0] matches EngineOp::CopyToLayer(at, layer)
                &&& at == i && layer@ == backup_name(stamp, n)
                &&& f.project matches Some(fp)
                &&& crate::project::master_replaced(p, p.active as int, fp, fp.masters@[p.active as int])
                &&& put_in_layer(m.layers@, layer@, glyph, fp.masters@[p.active as int].layers@, true)
                &&& fp.masters@[p.active as int] == (Master { layers: fp.masters@[p.active as int].layers, dirty: true, ..m })
                &&& texts(f.visible_glyph_layers@) == with_name(texts(self.visible_glyph_layers@), layer@)
                &&& f == (Workspace {
                    project: f.project,
                    visible_glyph_layers: f.visible_glyph_layers,
                    status_note: Some(StatusNote::CopiedTo(layer)),
                    ..*self
                })
            }
    }

    /// The backup, given the clock text `stamp`.
    pub fn backup_layer_from(&mut self, stamp: &String) -> (ops: Vec<EngineOp>)
        requires
            old(self).refs_ok(),
        ensures
            !(old(self).current_glyph() is Some && old(self).has_font()) ==> *final(self) == *old(self) && ops@.len() == 0,
            (old(self).current_glyph() is Some && old(self).has_font()) ==> old(self).backed_up(stamp@, *final(self), ops@),
    {
        let mut ops = Vec::new();
        let Some(index) = self.current_glyph_index() else {
            return ops;
        };
        let layer;
        match &mut self.project {
            None => {
                return ops;
            },
            Some(p) => {
                if p.active >= p.masters.len() {
                    return ops;
                }
                let a = p.active;
                let name = p.masters[a].glyphs[index].name.clone();
                layer = free_backup_name(&p.masters[a].layers, stamp, &name);
                if !can_put(&p.masters[a].layers, &layer) {
                    return ops;
                }
                let ghost before = p.masters@;
                let ok = put_glyph(&mut p.masters[a].layers, &layer, &name);
                p.masters[a].dirty = true;
                assert(p.masters@ =~= before.update(a as int, p.masters@[a as int]));
                ops.push(EngineOp::CopyToLayer(index, layer.clone()));
            },
        }
        insert_text(&mut self.visible_glyph_layers, &layer);
        self.status_note = Some(StatusNote::CopiedTo(layer));
        ops
    }
}

} // verus!
