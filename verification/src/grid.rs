//! What the glyph overview shows of each glyph: its code point label,
//! and the positional forms (isolated, initial, medial, final) that
//! group into one row of the joining matrix.
use vstd::prelude::*;
use crate::model::{GlyphEntry, Workspace};
use crate::names::names_of;
use crate::text::{chars_of, ends_with, has_suffix, joined, slice, string_of};

verus! {

/// The hexadecimal numeral of a digit worth `d`, upper case.
pub open spec fn hex_digit(d: nat) -> char {
    if d == 0 { '0' } else if d == 1 { '1' } else if d == 2 { '2' } else if d == 3 { '3' }
    else if d == 4 { '4' } else if d == 5 { '5' } else if d == 6 { '6' } else if d == 7 { '7' }
    else if d == 8 { '8' } else if d == 9 { '9' } else if d == 10 { 'A' } else if d == 11 { 'B' }
    else if d == 12 { 'C' } else if d == 13 { 'D' } else if d == 14 { 'E' } else { 'F' }
}

/// The hexadecimal numeral of `n`, upper case, without leading zeros.
pub open spec fn hex(n: nat) -> Seq<char>
    decreases n,
{
    if n < 16 { seq![hex_digit(n)] } else { hex(n / 16).push(hex_digit(n % 16)) }
}

/// The label of a code point: `U+` and its hexadecimal numeral, upper
/// case, zero-padded to four digits.
pub open spec fn unicode_name(c: char) -> Seq<char> {
    let h = hex(c as nat);
    "U+"@ + if h.len() < 4 { Seq::new((4 - h.len()) as nat, |i: int| '0') + h } else { h }
}

fn hex_char(d: u32) -> (c: char)
    requires
        d < 16,
    ensures
        c == hex_digit(d as nat),
{
    if d == 0 { '0' } else if d == 1 { '1' } else if d == 2 { '2' } else if d == 3 { '3' }
    else if d == 4 { '4' } else if d == 5 { '5' } else if d == 6 { '6' } else if d == 7 { '7' }
    else if d == 8 { '8' } else if d == 9 { '9' } else if d == 10 { 'A' } else if d == 11 { 'B' }
    else if d == 12 { 'C' } else if d == 13 { 'D' } else if d == 14 { 'E' } else { 'F' }
}

fn hex_chars(n: u32) -> (r: Vec<char>)
    ensures
        r@ == hex(n as nat),
    decreases n,
{
    if n < 16 {
        let mut r = Vec::new();
        r.push(hex_char(n));
        assert(r@ =~= hex(n as nat));
        r
    } else {
        let mut r = hex_chars(n / 16);
        r.push(hex_char(n % 16));
        r
    }
}

/// The label the overview gives a glyph encoded as `c`.
pub fn unicode_label(c: char) -> (r: String)
    ensures
        r@ == unicode_name(c),
{
    let h = hex_chars(c as u32);
    let mut r: Vec<char> = Vec::new();
    r.push('U');
    r.push('+');
    let mut k: usize = h.len();
    while k < 4
        invariant
            h@.len() <= k <= 4 || (k == h@.len() && k >= 4),
            r@ == seq!['U', '+'] + Seq::new((k - h@.len()) as nat, |i: int| '0'),
        decreases 4 - k,
    {
        r.push('0');
        k = k + 1;
        assert(r@ =~= seq!['U', '+'] + Seq::new((k - h@.len()) as nat, |i: int| '0'));
    }
    let ghost zeros = Seq::new((k - h@.len()) as nat, |i: int| '0');
    let out = joined(&r, &h);
    proof {
        reveal_strlit("U+");
        if h@.len() < 4 {
            assert(out@ =~= "U+"@ + (Seq::new((4 - h@.len()) as nat, |i: int| '0') + h@));
        } else {
            assert(zeros =~= Seq::<char>::empty());
            assert(out@ =~= "U+"@ + h@);
        }
    }
    string_of(&out)
}

/// A base glyph and its positional forms: where the isolated form (the
/// base itself) and the initial, medial and final forms sit in the glyph
/// list.
#[derive(Debug)]
pub struct FormRow {
    pub base: String,
    pub isol: Option<usize>,
    pub init: Option<usize>,
    pub medi: Option<usize>,
    pub fina: Option<usize>,
}

/// A form row's entry for slot `s`: 0 isolated, 1 initial, 2 medial,
/// 3 final.
pub open spec fn form_at(r: FormRow, s: int) -> Option<usize> {
    if s == 0 { r.isol } else if s == 1 { r.init } else if s == 2 { r.medi } else { r.fina }
}

/// A glyph name's base and slot: `.init`, `.medi` and `.fina` off the
/// end give slots 1, 2 and 3; any other name is its own base, slot 0.
pub open spec fn base_slot(name: Seq<char>) -> (Seq<char>, int) {
    if ends_with(name, ".init"@) {
        (name.subrange(0, name.len() - 5), 1)
    } else if ends_with(name, ".medi"@) {
        (name.subrange(0, name.len() - 5), 2)
    } else if ends_with(name, ".fina"@) {
        (name.subrange(0, name.len() - 5), 3)
    } else {
        (name, 0)
    }
}

/// Where the last glyph of base `b` in slot `s` stands in `names`.
pub open spec fn last_form(names: Seq<Seq<char>>, b: Seq<char>, s: int) -> Option<usize>
    decreases names.len(),
{
    if names.len() == 0 {
        None
    } else if base_slot(names.last()) == (b, s) {
        Some((names.len() - 1) as usize)
    } else {
        last_form(names.drop_last(), b, s)
    }
}

/// Whether base `b` has an initial, medial or final form in `names`.
pub open spec fn positional(names: Seq<Seq<char>>, b: Seq<char>) -> bool {
    last_form(names, b, 1) is Some || last_form(names, b, 2) is Some || last_form(names, b, 3) is Some
}

/// Whether text `a` sorts before text `b`, character by character.
pub open spec fn lex_lt(a: Seq<char>, b: Seq<char>) -> bool
    decreases a.len(),
{
    if a.len() == 0 {
        b.len() > 0
    } else if b.len() == 0 {
        false
    } else if (a[0] as u32) < (b[0] as u32) {
        true
    } else if a[0] == b[0] {
        lex_lt(a.drop_first(), b.drop_first())
    } else {
        false
    }
}

proof fn lemma_lex_irreflexive(a: Seq<char>)
    ensures
        !lex_lt(a, a),
    decreases a.len(),
{
    if a.len() > 0 {
        lemma_lex_irreflexive(a.drop_first());
    }
}

proof fn lemma_lex_transitive(a: Seq<char>, b: Seq<char>, c: Seq<char>)
    requires
        lex_lt(a, b),
        lex_lt(b, c),
    ensures
        lex_lt(a, c),
    decreases a.len(),
{
    if a.len() > 0 && b.len() > 0 && c.len() > 0 && a[0] == b[0] && b[0] == c[0] {
        lemma_lex_transitive(a.drop_first(), b.drop_first(), c.drop_first());
    }
}

proof fn lemma_lex_total(a: Seq<char>, b: Seq<char>)
    requires
        a != b,
    ensures
        lex_lt(a, b) || lex_lt(b, a),
    decreases a.len(),
{
    if a.len() > 0 && b.len() > 0 && a[0] == b[0] {
        if a.drop_first() == b.drop_first() {
            assert(a =~= seq![a[0]] + a.drop_first());
            assert(b =~= seq![b[0]] + b.drop_first());
        }
        lemma_lex_total(a.drop_first(), b.drop_first());
    } else if a.len() == 0 && b.len() == 0 {
        assert(a =~= b);
    } else if a.len() > 0 && b.len() > 0 {
        vstd::utf8::char_u32_cast(a[0], a[0] as u32);
        vstd::utf8::char_u32_cast(b[0], b[0] as u32);
        assert((a[0] as u32) != (b[0] as u32));
    }
}

fn lex_less(a: &Vec<char>, b: &Vec<char>) -> (r: bool)
    ensures
        r == lex_lt(a@, b@),
{
    let mut i: usize = 0;
    assert(a@.subrange(0, a@.len() as int) =~= a@);
    assert(b@.subrange(0, b@.len() as int) =~= b@);
    while i < a.len() && i < b.len() && a[i] == b[i]
        invariant
            i <= a@.len(),
            i <= b@.len(),
            a@.subrange(0, i as int) == b@.subrange(0, i as int),
            lex_lt(a@, b@) == lex_lt(a@.subrange(i as int, a@.len() as int), b@.subrange(i as int, b@.len() as int)),
        decreases a@.len() - i,
    {
        let ghost x = a@.subrange(i as int, a@.len() as int);
        let ghost y = b@.subrange(i as int, b@.len() as int);
        assert(x.drop_first() =~= a@.subrange(i + 1, a@.len() as int));
        assert(y.drop_first() =~= b@.subrange(i + 1, b@.len() as int));
        assert(a@.subrange(0, i + 1) =~= a@.subrange(0, i as int).push(a@[i as int]));
        assert(b@.subrange(0, i + 1) =~= b@.subrange(0, i as int).push(b@[i as int]));
        i = i + 1;
    }
    let ghost x = a@.subrange(i as int, a@.len() as int);
    let ghost y = b@.subrange(i as int, b@.len() as int);
    if i == a.len() {
        return i < b.len();
    }
    if i == b.len() {
        return false;
    }
    assert(x[0] == a@[i as int] && y[0] == b@[i as int]);
    (a[i] as u32) < (b[i] as u32)
}

fn base_and_slot(name: &String) -> (r: (Vec<char>, usize))
    ensures
        (r.0@, r.1 as int) == base_slot(name@),
{
    let c = chars_of(name.as_str());
    let init = chars_of(".init");
    let medi = chars_of(".medi");
    let fina = chars_of(".fina");
    proof {
        reveal_strlit(".init");
        reveal_strlit(".medi");
        reveal_strlit(".fina");
    }
    if has_suffix(&c, &init) {
        (slice(&c, 0, c.len() - 5), 1)
    } else if has_suffix(&c, &medi) {
        (slice(&c, 0, c.len() - 5), 2)
    } else if has_suffix(&c, &fina) {
        (slice(&c, 0, c.len() - 5), 3)
    } else {
        (c, 0)
    }
}

/// Whether `rows` is the joining matrix of the glyph names `names`: one
/// row per base that has an initial, medial or final form, in order of
/// the bases, each row holding where the last glyph of each of its forms
/// stands.
pub open spec fn form_rows(names: Seq<Seq<char>>, rows: Seq<FormRow>) -> bool {
    &&& forall|j: int, k: int| 0 <= j < k < rows.len() ==> lex_lt(#[trigger] rows[j].base@, #[trigger] rows[k].base@)
    &&& forall|k: int| 0 <= k < rows.len() ==> positional(names, (#[trigger] rows[k]).base@)
    &&& forall|k: int, s: int| 0 <= k < rows.len() && 0 <= s < 4
        ==> #[trigger] form_at(rows[k], s) == last_form(names, rows[k].base@, s)
    &&& forall|b: Seq<char>| #[trigger] positional(names, b) ==> exists|k: int| 0 <= k < rows.len() && rows[k].base@ == b
}

proof fn lemma_last_form(names: Seq<Seq<char>>, b: Seq<char>, s: int)
    requires
        names.len() <= usize::MAX,
    ensures
        last_form(names, b, s) matches Some(i) ==> i < names.len() && base_slot(names[i as int]) == (b, s),
        last_form(names, b, s) is None ==> forall|i: int| 0 <= i < names.len() ==> base_slot(#[trigger] names[i]) != (b, s),
    decreases names.len(),
{
    if names.len() > 0 {
        lemma_last_form(names.drop_last(), b, s);
        if base_slot(names.last()) != (b, s) {
            assert forall|i: int| 0 <= i < names.len() - 1 implies names[i] == names.drop_last()[i] by {}
        }
    }
}

proof fn lemma_last_form_push(names: Seq<Seq<char>>, n: Seq<char>, b: Seq<char>, s: int)
    requires
        names.len() < usize::MAX,
    ensures
        last_form(names.push(n), b, s) == if base_slot(n) == (b, s) {
            Some(names.len() as usize)
        } else {
            last_form(names, b, s)
        },
{
    assert(names.push(n).drop_last() =~= names);
}

fn form_with(r: &mut FormRow, slot: usize, i: usize)
    requires
        slot < 4,
    ensures
        form_at(*final(r), slot as int) == Some(i),
        forall|t: int| 0 <= t < 4 && t != slot ==> form_at(*final(r), t) == form_at(*old(r), t),
        final(r).base == old(r).base,
{
    if slot == 0 {
        r.isol = Some(i);
    } else if slot == 1 {
        r.init = Some(i);
    } else if slot == 2 {
        r.medi = Some(i);
    } else {
        r.fina = Some(i);
    }
}

/// Every base of the first `n` names has a row.
pub open spec fn covered(names: Seq<Seq<char>>, n: int, rows: Seq<FormRow>) -> bool {
    forall|i: int| 0 <= i < n ==> exists|k: int| 0 <= k < rows.len() && rows[k].base@ == (#[trigger] base_slot(names[i])).0
}

/// Rows sorted by base, each base once.
pub open spec fn sorted_rows(rows: Seq<FormRow>) -> bool {
    forall|j: int, k: int| 0 <= j < k < rows.len() ==> lex_lt(#[trigger] rows[j].base@, #[trigger] rows[k].base@)
}

/// Each row holds where the last glyph of each of its forms stands
/// among `names`.
pub open spec fn rows_hold(names: Seq<Seq<char>>, rows: Seq<FormRow>) -> bool {
    forall|k: int, s: int| 0 <= k < rows.len() && 0 <= s < 4
        ==> #[trigger] form_at(rows[k], s) == last_form(names, rows[k].base@, s)
}

/// One row per base of the names so far, sorted, each holding its forms.
fn group_forms(glyphs: &Vec<GlyphEntry>) -> (rows: Vec<FormRow>)
    ensures
        sorted_rows(rows@),
        rows_hold(names_of(glyphs@), rows@),
        covered(names_of(glyphs@), glyphs@.len() as int, rows@),
{
    let ghost names = names_of(glyphs@);
    let mut rows: Vec<FormRow> = Vec::new();
    let mut i: usize = 0;
    while i < glyphs.len()
        invariant
            i <= glyphs@.len(),
            names == names_of(glyphs@),
            sorted_rows(rows@),
            rows_hold(names.subrange(0, i as int), rows@),
            covered(names, i as int, rows@),
        decreases glyphs@.len() - i,
    {
        let ghost pre = names.subrange(0, i as int);
        let ghost post = names.subrange(0, i as int + 1);
        assert(post =~= pre.push(names[i as int]));
        let (b, slot) = base_and_slot(&glyphs[i].name);
        assert(glyphs@[i as int].name@ == names[i as int]);
        let mut p: usize = 0;
        while p < rows.len() && lex_less(&chars_of(rows[p].base.as_str()), &b)
            invariant
                p <= rows@.len(),
                forall|k: int| 0 <= k < p ==> lex_lt(#[trigger] rows@[k].base@, b@),
            decreases rows@.len() - p,
        {
            p = p + 1;
        }
        let same = p < rows.len() && crate::tasks::same_chars(&chars_of(rows[p].base.as_str()), &b);
        let ghost rows0 = rows@;
        proof {
            assert forall|s: int| 0 <= s < 4 implies #[trigger] last_form(post, b@, s) == if s == slot as int {
                Some(i)
            } else {
                last_form(pre, b@, s)
            } by {
                lemma_last_form_push(pre, names[i as int], b@, s);
            }
        }
        if same {
            let mut r = rows.remove(p);
            form_with(&mut r, slot, i);
            rows.insert(p, r);
            proof {
                assert forall|k: int, s: int| 0 <= k < rows@.len() && 0 <= s < 4
                    implies #[trigger] form_at(rows@[k], s) == last_form(post, rows@[k].base@, s) by {
                    lemma_last_form_push(pre, names[i as int], rows@[k].base@, s);
                    if k != p {
                        assert(rows@[k] == rows0[k]);
                        if rows0[k].base@ == b@ {
                            if k < p {
                                lemma_lex_irreflexive(b@);
                            } else {
                                lemma_lex_irreflexive(b@);
                            }
                        }
                    }
                }
                assert forall|j: int, k: int| 0 <= j < k < rows@.len()
                    implies lex_lt(#[trigger] rows@[j].base@, #[trigger] rows@[k].base@) by {
                    assert(rows@[j].base == rows0[j].base && rows@[k].base == rows0[k].base);
                }
                assert forall|x: int| 0 <= x < i + 1 implies exists|k: int| 0 <= k < rows@.len()
                    && rows@[k].base@ == (#[trigger] base_slot(names[x])).0 by {
                    if x < i {
                        let k = choose|k: int| 0 <= k < rows0.len() && rows0[k].base@ == base_slot(names[x]).0;
                        assert(rows@[k].base == rows0[k].base);
                    } else {
                        assert(rows@[p as int].base@ == b@);
                    }
                }
            }
        } else {
            proof {
                // No row has base `b`: a row with it would stand at `p`.
                assert forall|k: int| 0 <= k < rows0.len() implies rows0[k].base@ != b@ by {
                    if rows0[k].base@ == b@ {
                        if k < p {
                            lemma_lex_irreflexive(b@);
                        } else if k > p {
                            if p < rows0.len() {
                                assert(lex_lt(rows0[p as int].base@, rows0[k].base@));
                                lemma_lex_total(rows0[p as int].base@, b@);
                            }
                        }
                    }
                }
                assert forall|s: int| 0 <= s < 4 implies last_form(pre, b@, s) is None by {
                    lemma_last_form(pre, b@, s);
                    if let Some(x) = last_form(pre, b@, s) {
                        assert(base_slot(names[x as int]) == (b@, s)) by {
                            assert(pre[x as int] == names[x as int]);
                        }
                        let k = choose|k: int| 0 <= k < rows0.len() && rows0[k].base@ == (#[trigger] base_slot(names[x as int])).0;
                    }
                }
            }
            let mut r = FormRow { base: string_of(&b), isol: None, init: None, medi: None, fina: None };
            form_with(&mut r, slot, i);
            rows.insert(p, r);
            proof {
                let nb = rows@[p as int];
                assert(nb.base@ == b@);
                if p < rows0.len() {
                    lemma_lex_total(rows0[p as int].base@, b@);
                }
                assert forall|j: int, k: int| 0 <= j < k < rows@.len()
                    implies lex_lt(#[trigger] rows@[j].base@, #[trigger] rows@[k].base@) by {
                    if j < p && k < p {
                        assert(rows@[j] == rows0[j] && rows@[k] == rows0[k]);
                    } else if j < p && k == p {
                        assert(rows@[j] == rows0[j]);
                    } else if j < p && k > p {
                        assert(rows@[j] == rows0[j] && rows@[k] == rows0[k - 1]);
                        assert(lex_lt(rows0[j].base@, b@));
                        assert(lex_lt(b@, rows0[p as int].base@));
                        if k - 1 > p {
                            lemma_lex_transitive(b@, rows0[p as int].base@, rows0[k - 1].base@);
                        }
                        lemma_lex_transitive(rows0[j].base@, b@, rows0[k - 1].base@);
                    } else if j == p {
                        assert(rows@[k] == rows0[k - 1]);
                        if k - 1 > p {
                            lemma_lex_transitive(b@, rows0[p as int].base@, rows0[k - 1].base@);
                        }
                    } else {
                        assert(rows@[j] == rows0[j - 1] && rows@[k] == rows0[k - 1]);
                    }
                }
                assert forall|k: int, s: int| 0 <= k < rows@.len() && 0 <= s < 4
                    implies #[trigger] form_at(rows@[k], s) == last_form(post, rows@[k].base@, s) by {
                    lemma_last_form_push(pre, names[i as int], rows@[k].base@, s);
                    if k < p {
                        assert(rows@[k] == rows0[k]);
                    } else if k > p {
                        assert(rows@[k] == rows0[k - 1]);
                    }
                }
                assert forall|x: int| 0 <= x < i + 1 implies exists|k: int| 0 <= k < rows@.len()
                    && rows@[k].base@ == (#[trigger] base_slot(names[x])).0 by {
                    if x < i {
                        let k = choose|k: int| 0 <= k < rows0.len() && rows0[k].base@ == base_slot(names[x]).0;
                        if k < p {
                            assert(rows@[k] == rows0[k]);
                        } else {
                            assert(rows@[k + 1] == rows0[k]);
                        }
                    } else {
                        assert(rows@[p as int].base@ == b@);
                    }
                }
            }
        }
        i = i + 1;
    }
    assert(names.subrange(0, glyphs@.len() as int) =~= names);
    rows
}

/// The joining matrix of a glyph list: one row per base with an
/// initial, medial or final form, sorted by base.
pub fn positional_families(glyphs: &Vec<GlyphEntry>) -> (rows: Vec<FormRow>)
    ensures
        form_rows(names_of(glyphs@), rows@),
{
    let ghost names = names_of(glyphs@);
    let mut rest = group_forms(glyphs);
    let ghost all = rest@;
    proof {
        assert(names.len() == glyphs@.len());
        assert(glyphs@.len() == glyphs.len());
        assert(names.len() <= usize::MAX);
        assert forall|b: Seq<char>| #[trigger] positional(names, b) implies exists|k: int| 0 <= k < all.len()
            && all[k].base@ == b by {
            let s: int = if last_form(names, b, 1) is Some { 1 } else if last_form(names, b, 2) is Some { 2 } else { 3 };
            lemma_last_form(names, b, s);
            let x = last_form(names, b, s)->0 as int;
            assert(base_slot(names[x]).0 == b);
        }
    }
    let mut kept: Vec<FormRow> = Vec::new();
    while rest.len() > 0
        invariant
            sorted_rows(kept@),
            sorted_rows(rest@),
            forall|j: int, k: int| 0 <= j < kept@.len() && 0 <= k < rest@.len()
                ==> lex_lt(#[trigger] kept@[j].base@, #[trigger] rest@[k].base@),
            rows_hold(names, kept@),
            rows_hold(names, rest@),
            forall|k: int| 0 <= k < kept@.len() ==> positional(names, (#[trigger] kept@[k]).base@),
            forall|b: Seq<char>| #[trigger] positional(names, b) ==> (exists|k: int| 0 <= k < kept@.len() && kept@[k].base@ == b)
                || (exists|k: int| 0 <= k < rest@.len() && rest@[k].base@ == b),
        decreases rest@.len(),
    {
        let ghost kept0 = kept@;
        let ghost rest0 = rest@;
        let r = rest.remove(0);
        assert(rest@ =~= rest0.drop_first());
        let keep = r.init.is_some() || r.medi.is_some() || r.fina.is_some();
        proof {
            assert(form_at(rest0[0], 1) == last_form(names, rest0[0].base@, 1));
            assert(form_at(rest0[0], 2) == last_form(names, rest0[0].base@, 2));
            assert(form_at(rest0[0], 3) == last_form(names, rest0[0].base@, 3));
        }
        if keep {
            kept.push(r);
        }
        proof {
            assert forall|j: int, k: int| 0 <= j < kept@.len() && 0 <= k < rest@.len()
                implies lex_lt(#[trigger] kept@[j].base@, #[trigger] rest@[k].base@) by {
                assert(rest@[k] == rest0[k + 1]);
                if j < kept0.len() {
                    assert(kept@[j] == kept0[j]);
                } else {
                    assert(kept@[j] == rest0[0]);
                }
            }
            assert forall|j: int, k: int| 0 <= j < k < kept@.len()
                implies lex_lt(#[trigger] kept@[j].base@, #[trigger] kept@[k].base@) by {
                assert(kept@[j] == kept0[j]);
                if k < kept0.len() {
                    assert(kept@[k] == kept0[k]);
                } else {
                    assert(kept@[k] == rest0[0]);
                }
            }
            assert forall|j: int, k: int| 0 <= j < k < rest@.len()
                implies lex_lt(#[trigger] rest@[j].base@, #[trigger] rest@[k].base@) by {
                assert(rest@[j] == rest0[j + 1] && rest@[k] == rest0[k + 1]);
            }
            assert forall|k: int, s: int| 0 <= k < rest@.len() && 0 <= s < 4
                implies #[trigger] form_at(rest@[k], s) == last_form(names, rest@[k].base@, s) by {
                assert(rest@[k] == rest0[k + 1]);
            }
            assert forall|k: int, s: int| 0 <= k < kept@.len() && 0 <= s < 4
                implies #[trigger] form_at(kept@[k], s) == last_form(names, kept@[k].base@, s) by {
                if k < kept0.len() {
                    assert(kept@[k] == kept0[k]);
                } else {
                    assert(kept@[k] == rest0[0]);
                }
            }
            assert forall|k: int| 0 <= k < kept@.len() implies positional(names, (#[trigger] kept@[k]).base@) by {
                if k < kept0.len() {
                    assert(kept@[k] == kept0[k]);
                } else {
                    assert(kept@[k] == rest0[0]);
                }
            }
            assert forall|b: Seq<char>| #[trigger] positional(names, b) implies (exists|k: int| 0 <= k < kept@.len() && kept@[k].base@ == b)
                || (exists|k: int| 0 <= k < rest@.len() && rest@[k].base@ == b) by {
                if exists|k: int| 0 <= k < kept0.len() && kept0[k].base@ == b {
                    let k = choose|k: int| 0 <= k < kept0.len() && kept0[k].base@ == b;
                    assert(kept@[k] == kept0[k]);
                } else {
                    let k = choose|k: int| 0 <= k < rest0.len() && rest0[k].base@ == b;
                    if k == 0 {
                        assert(kept@[kept@.len() - 1] == rest0[0]);
                    } else {
                        assert(rest@[k - 1] == rest0[k]);
                    }
                }
            }
        }
    }
    proof {
        assert forall|b: Seq<char>| #[trigger] positional(names, b) implies exists|k: int| 0 <= k < kept@.len()
            && kept@[k].base@ == b by {
        }
    }
    kept
}

impl Workspace {
    /// The joining matrix of the active master (see
    /// `positional_families`); none without a font.
    pub fn form_matrix(&self) -> (rows: Vec<FormRow>)
        ensures
            self.has_font() ==> form_rows(names_of(self.project->0.active_master().glyphs@), rows@),
            !self.has_font() ==> rows@.len() == 0,
    {
        match &self.project {
            Some(p) => if p.active < p.masters.len() {
                positional_families(&p.masters[p.active].glyphs)
            } else {
                Vec::new()
            },
            None => Vec::new(),
        }
    }
}

} // verus!
