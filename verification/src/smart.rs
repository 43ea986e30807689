//! Smart parts: a glyph whose drawing moves between two poles along an
//! axis of its own, as glyphsLib writes it.
use vstd::prelude::*;
use crate::model::{EngineOp, Master, Project, StatusNote, Workspace};
use crate::effects::{field, field_of};
use crate::layers::{put_glyph, put_in_layer};
use crate::names::{insert_name, texts, with_name};
use crate::text::{chars_of, find, find_at, slice, string_of, trim, trimmed};
use crate::model::Mode;

verus! {

/// The layer that holds a smart part's top pole.
pub open spec fn top_layer() -> Seq<char> {
    "part.top"@
}

/// The fields of the Smart Axis text `name,bottom,top`, each trimmed:
/// the axis name, and the bottom and top values as typed, when present.
pub fn smart_axis_fields(text: &str) -> (r: (Option<String>, Option<String>, Option<String>))
    ensures
        r.0 matches Some(f) ==> field(text@, 0) == Some(f@),
        r.0 is None ==> field(text@, 0) is None,
        r.1 matches Some(f) ==> field(text@, 1) == Some(f@),
        r.1 is None ==> field(text@, 1) is None,
        r.2 matches Some(f) ==> field(text@, 2) == Some(f@),
        r.2 is None ==> field(text@, 2) is None,
{
    let t = chars_of(text);
    let a = match field_of(&t, 0) {
        Some(f) => Some(string_of(&f)),
        None => None,
    };
    let b = match field_of(&t, 1) {
        Some(f) => Some(string_of(&f)),
        None => None,
    };
    let c = match field_of(&t, 2) {
        Some(f) => Some(string_of(&f)),
        None => None,
    };
    (a, b, c)
}

/// The Smart field's text split at its first `=`: the axis it names,
/// trimmed, when it names one, and the value's text, trimmed. `30`
/// moves the first axis; `Height=30` names one.
pub open spec fn smart_value_parts(text: Seq<char>) -> (Option<Seq<char>>, Seq<char>) {
    match find(text, "="@) {
        Some(i) => (Some(trim(text.subrange(0, i))), trim(text.subrange(i + 1, text.len() as int))),
        None => (None, trim(text)),
    }
}

/// Split the Smart field's text (see `smart_value_parts`).
pub fn smart_value_fields(text: &str) -> (r: (Option<String>, String))
    ensures
        (match r.0 { Some(a) => Some(a@), None => None }, r.1@) == smart_value_parts(text@),
{
    let t = chars_of(text);
    let eq = chars_of("=");
    proof {
        crate::chat::lemma_find_from_zero(t@, eq@);
        reveal_strlit("=");
    }
    match find_at(&t, &eq, 0) {
        Some(i) => {
            assert(eq@.len() == 1);
            assert(i + 1 <= t@.len());
            assert(t@.len() == t.len());
            let axis = trimmed(&slice(&t, 0, i));
            let value = trimmed(&slice(&t, i + 1, t.len()));
            (Some(string_of(&axis)), string_of(&value))
        },
        None => (None, string_of(&trimmed(&t))),
    }
}

/// `c` in lower case, for the ASCII letters; any other character as it
/// is.
pub open spec fn ascii_lower(c: char) -> char {
    if 'A' <= c && c <= 'Z' { ((c as u32) + 32) as char } else { c }
}

/// Whether `a` and `b` match but for the case of ASCII letters, as
/// `str::eq_ignore_ascii_case` reads them.
pub open spec fn same_ignoring_case(a: Seq<char>, b: Seq<char>) -> bool {
    a.len() == b.len() && forall|i: int| 0 <= i < a.len() ==> ascii_lower(#[trigger] a[i]) == ascii_lower(b[i])
}

fn lower(c: char) -> (r: char)
    ensures
        r == ascii_lower(c),
{
    if 'A' <= c && c <= 'Z' {
        let u = (c as u32) + 32;
        proof {
            vstd::utf8::char_u32_cast(c, c as u32);
        }
        let r = char_of_ascii(u);
        r
    } else {
        c
    }
}

/// The character of an ASCII code.
fn char_of_ascii(u: u32) -> (c: char)
    requires
        u < 128,
    ensures
        c == u as char,
{
    (u as u8) as char
}

fn same_ignoring_case_exec(a: &str, b: &str) -> (r: bool)
    ensures
        r == same_ignoring_case(a@, b@),
{
    let x = chars_of(a);
    let y = chars_of(b);
    if x.len() != y.len() {
        return false;
    }
    let mut i: usize = 0;
    while i < x.len()
        invariant
            x@ == a@,
            y@ == b@,
            x@.len() == y@.len(),
            i <= x@.len(),
            forall|j: int| 0 <= j < i ==> ascii_lower(#[trigger] x@[j]) == ascii_lower(y@[j]),
        decreases x@.len() - i,
    {
        if lower(x[i]) != lower(y[i]) {
            return false;
        }
        i = i + 1;
    }
    true
}

/// The axis a Smart value moves: the one named, regardless of ASCII
/// case, or the first when none is named.
pub open spec fn smart_axis(axes: Seq<String>, named: Option<Seq<char>>) -> Option<String>
    decreases axes.len(),
{
    match named {
        None => if axes.len() > 0 { Some(axes[0]) } else { None },
        Some(want) => if axes.len() == 0 {
            None
        } else if same_ignoring_case(axes[0]@, want) {
            Some(axes[0])
        } else {
            smart_axis(axes.drop_first(), named)
        },
    }
}

fn pick_axis(axes: &Vec<String>, named: &Option<String>) -> (r: Option<String>)
    ensures
        r == smart_axis(axes@, match named { Some(n) => Some(n@), None => None }),
{
    let ghost want = match named { Some(n) => Some(n@), None => None };
    match named {
        None => if axes.len() > 0 { Some(axes[0].clone()) } else { None },
        Some(n) => {
            let mut k: usize = 0;
            assert(axes@.subrange(0, axes@.len() as int) =~= axes@);
            while k < axes.len()
                invariant
                    k <= axes@.len(),
                    want == Some(n@),
                    want == (match named { Some(x) => Some(x@), None => None }),
                    smart_axis(axes@, want) == smart_axis(axes@.subrange(k as int, axes@.len() as int), want),
                decreases axes@.len() - k,
            {
                let ghost rest = axes@.subrange(k as int, axes@.len() as int);
                assert(rest.drop_first() =~= axes@.subrange(k + 1, axes@.len() as int));
                assert(rest[0] == axes@[k as int]);
                if same_ignoring_case_exec(axes[k].as_str(), n.as_str()) {
                    return Some(axes[k].clone());
                }
                k = k + 1;
            }
            None
        },
    }
}

impl Workspace {
    /// Make the current glyph a smart part with the axis `axis`, from the
    /// value whose bits are `bottom_bits` to that whose bits are
    /// `top_bits`: the engine writes the axis and seeds the top pole as a
    /// copy of the glyph in `part.top`, which the active master's layers
    /// now hold and the editor shows; the glyph has unsaved edits, and
    /// the status bar says how to edit the pole. Nothing happens for an
    /// empty axis name, or without a current glyph or a font.
    pub fn command_make_smart_axis(&mut self, axis: String, bottom_bits: u64, top_bits: u64) -> (ops: Vec<EngineOp>)
        requires
            old(self).refs_ok(),
        ensures
            !(axis@.len() > 0 && old(self).current_glyph() is Some && old(self).has_font())
                ==> *final(self) == *old(self) && ops@.len() == 0,
            (axis@.len() > 0 && old(self).current_glyph() is Some && old(self).has_font()) ==> {
                let p = old(self).project->0;
                let a = p.active as int;
                let m = p.active_master();
                let glyph = m.glyphs@[old(self).current_glyph()->0 as int].name;
                &&& final(self).project matches Some(fp)
                &&& fp.masters@ == p.masters@.update(a, fp.masters@[a])
                &&& fp == (Project { masters: fp.masters, ..p })
                &&& put_in_layer(m.layers@, top_layer(), glyph@, fp.masters@[a].layers@, true)
                &&& texts(fp.masters@[a].modified_glyphs@) == with_name(texts(m.modified_glyphs@), glyph@)
                &&& fp.masters@[a] == (Master {
                    layers: fp.masters@[a].layers,
                    modified_glyphs: fp.masters@[a].modified_glyphs,
                    dirty: true,
                    ..m
                })
                &&& texts(final(self).visible_glyph_layers@) == with_name(texts(old(self).visible_glyph_layers@), top_layer())
                &&& final(self).status_note == Some(StatusNote::SmartPart(glyph, axis, bottom_bits, top_bits))
                &&& *final(self) == (Workspace {
                    project: final(self).project,
                    visible_glyph_layers: final(self).visible_glyph_layers,
                    status_note: final(self).status_note,
                    ..*old(self)
                })
                &&& ops@ == seq![EngineOp::MakeSmartAxis(glyph, axis, bottom_bits, top_bits)]
            },
    {
        let mut ops = Vec::new();
        if axis.as_str().unicode_len() == 0 {
            return ops;
        }
        let Some(index) = self.current_glyph_index() else {
            return ops;
        };
        let Some(mut p) = self.project.take() else {
            return ops;
        };
        let a = p.active;
        if a >= p.masters.len() {
            self.project = Some(p);
            return ops;
        }
        let ghost masters0 = p.masters@;
        let glyph = p.masters[a].glyphs[index].name.clone();
        let top = String::from_str("part.top");
        let mut m = p.masters.remove(a);
        let ok = put_glyph(&mut m.layers, &top, &glyph);
        assert(crate::glyphs::valid_name(top@)) by {
            reveal_strlit("part.top");
        }
        assert(ok);
        m.dirty = true;
        insert_name(&mut m.modified_glyphs, &glyph);
        p.masters.insert(a, m);
        assert(p.masters@ =~= masters0.update(a as int, p.masters@[a as int]));
        self.project = Some(p);
        insert_name(&mut self.visible_glyph_layers, &top);
        self.status_note = Some(StatusNote::SmartPart(glyph.clone(), axis.clone(), bottom_bits, top_bits));
        ops.push(EngineOp::MakeSmartAxis(glyph, axis, bottom_bits, top_bits));
        ops
    }

    /// Set the selected component's value on an axis of its base (the
    /// Selection panel's Smart field): `axis` is the axis the field
    /// names, `value_bits` the bits of its value when the value reads as
    /// a number, `axes` the base's smart axes when it has any. The named
    /// axis, matched regardless of ASCII case, or the first, takes the
    /// value; the glyph has unsaved edits. A value that is no number gets
    /// the field's help; a base with no such axis is refused. Outside the
    /// editor, with no component selected, or without a font, nothing
    /// happens.
    pub fn command_set_smart_value(&mut self, axis: Option<String>, value_bits: Option<u64>, axes: Option<Vec<String>>)
        -> (ops: Vec<EngineOp>)
        requires
            old(self).refs_ok(),
        ensures
            !(old(self).mode is Editor && old(self).editor.selected_component is Some && old(self).has_font())
                ==> *final(self) == *old(self) && ops@.len() == 0,
            (old(self).mode is Editor && old(self).editor.selected_component is Some && old(self).has_font()) ==> {
                let p = old(self).project->0;
                let a = p.active as int;
                let m = p.active_master();
                let glyph = m.glyphs@[old(self).mode->0 as int].name;
                let ci = old(self).editor.selected_component->0;
                let picked = match axes {
                    Some(v) => smart_axis(v@, match axis { Some(n) => Some(n@), None => None }),
                    None => None,
                };
                if value_bits is None {
                    *final(self) == (Workspace { status_note: Some(StatusNote::SmartValueHelp), ..*old(self) })
                        && ops@.len() == 0
                } else if picked is None {
                    *final(self) == (Workspace { status_note: Some(StatusNote::NotSmart), ..*old(self) })
                        && ops@.len() == 0
                } else {
                    &&& final(self).project matches Some(fp)
                    &&& fp.masters@ == p.masters@.update(a, fp.masters@[a])
                    &&& fp == (Project { masters: fp.masters, ..p })
                    &&& texts(fp.masters@[a].modified_glyphs@) == with_name(texts(m.modified_glyphs@), glyph@)
                    &&& fp.masters@[a] == (Master { modified_glyphs: fp.masters@[a].modified_glyphs, dirty: true, ..m })
                    &&& final(self).status_note == Some(StatusNote::SmartValueSet(picked->0, value_bits->0))
                    &&& *final(self) == (Workspace {
                        project: final(self).project,
                        status_note: final(self).status_note,
                        ..*old(self)
                    })
                    &&& ops@.len() == 1
                    &&& ops@[0] matches EngineOp::SetSmartValue(g, c, x, v)
                    &&& g@ == glyph@ && c == ci && x == picked->0 && v == value_bits->0
                }
            },
    {
        let mut ops = Vec::new();
        let Mode::Editor(index) = self.mode else {
            return ops;
        };
        let Some(ci) = self.editor.selected_component else {
            return ops;
        };
        let Some(name) = self.glyph_name_at(index) else {
            return ops;
        };
        let Some(bits) = value_bits else {
            self.status_note = Some(StatusNote::SmartValueHelp);
            return ops;
        };
        let picked = match &axes {
            Some(v) => pick_axis(v, &axis),
            None => None,
        };
        let Some(chosen) = picked else {
            self.status_note = Some(StatusNote::NotSmart);
            return ops;
        };
        let Some(mut p) = self.project.take() else {
            return ops;
        };
        let a = p.active;
        let ghost masters0 = p.masters@;
        let mut m = p.masters.remove(a);
        m.dirty = true;
        insert_name(&mut m.modified_glyphs, &name);
        p.masters.insert(a, m);
        assert(p.masters@ =~= masters0.update(a as int, p.masters@[a as int]));
        self.project = Some(p);
        self.status_note = Some(StatusNote::SmartValueSet(chosen.clone(), bits));
        ops.push(EngineOp::SetSmartValue(name, ci, chosen, bits));
        ops
    }
}

} // verus!
