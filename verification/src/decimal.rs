//! Decimal numerals: writing counts, reading them back.
use vstd::prelude::*;

verus! {

/// The numeral of a digit below ten.
pub open spec fn digit_char(d: nat) -> char {
    if d == 0 { '0' } else if d == 1 { '1' } else if d == 2 { '2' } else if d == 3 { '3' }
    else if d == 4 { '4' } else if d == 5 { '5' } else if d == 6 { '6' } else if d == 7 { '7' }
    else if d == 8 { '8' } else { '9' }
}

pub open spec fn is_digit(c: char) -> bool {
    '0' <= c <= '9'
}

/// What a numeral is worth.
pub open spec fn digit_value(c: char) -> nat {
    (c as u32 - '0' as u32) as nat
}

/// The decimal numeral of `n`, without leading zeros.
pub open spec fn dec(n: nat) -> Seq<char>
    decreases n,
{
    if n < 10 { seq![digit_char(n)] } else { dec(n / 10).push(digit_char(n % 10)) }
}

/// The numeral of `n` padded with zeros to at least `width` digits.
pub open spec fn padded(n: nat, width: nat) -> Seq<char> {
    let d = dec(n);
    if d.len() < width { Seq::new((width - d.len()) as nat, |i: int| '0') + d } else { d }
}

/// What a string of numerals is worth.
pub open spec fn value(s: Seq<char>) -> nat
    decreases s.len(),
{
    if s.len() == 0 { 0 } else { value(s.drop_last()) * 10 + digit_value(s.last()) }
}

pub open spec fn all_digits(s: Seq<char>) -> bool {
    forall|i: int| 0 <= i < s.len() ==> is_digit(#[trigger] s[i])
}

/// A count as `str::parse` reads one: an optional `+`, then one or more
/// numerals. `None` when the text is not of that form.
pub open spec fn parse_count(s: Seq<char>) -> Option<nat> {
    let d = if s.len() > 0 && s[0] == '+' { s.drop_first() } else { s };
    if d.len() > 0 && all_digits(d) { Some(value(d)) } else { None }
}

/// A numeral is worth its digit.
pub proof fn lemma_digit(d: nat)
    requires
        d < 10,
    ensures
        digit_value(digit_char(d)) == d,
        is_digit(digit_char(d)),
{
}

pub proof fn lemma_dec(n: nat)
    ensures
        value(dec(n)) == n,
        all_digits(dec(n)),
        dec(n).len() >= 1,
    decreases n,
{
    lemma_digit(n % 10);
    let d = dec(n);
    if n >= 10 {
        lemma_dec(n / 10);
        assert(d.drop_last() =~= dec(n / 10));
        assert(d.last() == digit_char(n % 10));
        assert(value(d) == value(dec(n / 10)) * 10 + digit_value(digit_char(n % 10)));
        assert(n == (n / 10) * 10 + n % 10);
    } else {
        assert(d.drop_last() =~= Seq::<char>::empty());
        assert(value(Seq::<char>::empty()) == 0);
        assert(n % 10 == n);
        assert(value(d) == value(d.drop_last()) * 10 + digit_value(d.last()));
    }
}

proof fn lemma_zeros(k: nat, s: Seq<char>)
    ensures
        value(Seq::new(k, |i: int| '0') + s) == value(s),
    decreases s.len(), k,
{
    let z = Seq::new(k, |i: int| '0');
    if s.len() > 0 {
        lemma_zeros(k, s.drop_last());
        assert((z + s).drop_last() =~= z + s.drop_last());
    } else if k > 0 {
        lemma_zeros((k - 1) as nat, s);
        assert((z + s).drop_last() =~= Seq::new((k - 1) as nat, |i: int| '0') + s);
        assert(z + s =~= z);
    } else {
        assert(z + s =~= s);
    }
}

/// A padded numeral is still worth its number.
pub proof fn lemma_padded(n: nat, width: nat)
    ensures
        value(padded(n, width)) == n,
        all_digits(padded(n, width)),
        padded(n, width).len() >= width,
{
    lemma_dec(n);
    let d = dec(n);
    if d.len() < width {
        lemma_zeros((width - d.len()) as nat, d);
    }
}

/// Distinct numbers have distinct padded numerals.
pub proof fn lemma_padded_injective(a: nat, b: nat, width: nat)
    requires
        padded(a, width) == padded(b, width),
    ensures
        a == b,
{
    lemma_padded(a, width);
    lemma_padded(b, width);
}

fn digit(d: u128) -> (c: char)
    requires
        d < 10,
    ensures
        c == digit_char(d as nat),
{
    if d == 0 { '0' } else if d == 1 { '1' } else if d == 2 { '2' } else if d == 3 { '3' }
    else if d == 4 { '4' } else if d == 5 { '5' } else if d == 6 { '6' } else if d == 7 { '7' }
    else if d == 8 { '8' } else { '9' }
}

/// The decimal numeral of `n`.
pub fn decimal(n: u128) -> (r: Vec<char>)
    ensures
        r@ == dec(n as nat),
    decreases n,
{
    if n < 10 {
        let mut r = Vec::new();
        r.push(digit(n));
        assert(r@ =~= dec(n as nat));
        r
    } else {
        let mut r = decimal(n / 10);
        r.push(digit(n % 10));
        r
    }
}

/// The numeral of `n`, zero-padded to `width` digits.
pub fn padded_decimal(n: u128, width: usize) -> (r: Vec<char>)
    ensures
        r@ == padded(n as nat, width as nat),
{
    let d = decimal(n);
    if d.len() >= width {
        return d;
    }
    let mut r = Vec::new();
    let k = width - d.len();
    let mut i: usize = 0;
    while i < k
        invariant
            i <= k,
            r@ == Seq::new(i as nat, |j: int| '0'),
        decreases k - i,
    {
        r.push('0');
        i += 1;
        assert(r@ =~= Seq::new(i as nat, |j: int| '0'));
    }
    let mut j: usize = 0;
    while j < d.len()
        invariant
            j <= d@.len(),
            r@ == Seq::new(k as nat, |x: int| '0') + d@.subrange(0, j as int),
        decreases d@.len() - j,
    {
        r.push(d[j]);
        j += 1;
        assert(r@ =~= Seq::new(k as nat, |x: int| '0') + d@.subrange(0, j as int));
    }
    assert(d@.subrange(0, d@.len() as int) =~= d@);
    r
}

proof fn lemma_value_prefix(s: Seq<char>, k: int)
    requires
        0 <= k <= s.len(),
    ensures
        value(s.subrange(0, k)) <= value(s),
    decreases s.len() - k,
{
    if k < s.len() {
        lemma_value_prefix(s, k + 1);
        assert(s.subrange(0, k + 1).drop_last() =~= s.subrange(0, k));
    } else {
        assert(s.subrange(0, k) =~= s);
    }
}

/// Read a count the way `str::parse::<usize>` does. `None` for text
/// that is not an optional `+` and numerals, and for a count too large.
pub fn parse_usize(s: &Vec<char>) -> (r: Option<usize>)
    ensures
        r matches Some(v) ==> parse_count(s@) == Some(v as nat),
        r is None ==> match parse_count(s@) {
            Some(v) => v > usize::MAX,
            None => true,
        },
{
    let start: usize = if s.len() > 0 && s[0] == '+' { 1 } else { 0 };
    let ghost d = if s@.len() > 0 && s@[0] == '+' { s@.drop_first() } else { s@ };
    assert(d =~= s@.subrange(start as int, s@.len() as int));
    if start >= s.len() {
        return None;
    }
    let mut v: usize = 0;
    let mut i: usize = start;
    while i < s.len()
        invariant
            start <= i <= s@.len(),
            d == s@.subrange(start as int, s@.len() as int),
            d == (if s@.len() > 0 && s@[0] == '+' { s@.drop_first() } else { s@ }),
            d.len() > 0,
            forall|j: int| start <= j < i ==> is_digit(#[trigger] s@[j]),
            v as nat == value(s@.subrange(start as int, i as int)),
        decreases s@.len() - i,
    {
        let c = s[i];
        if !('0' <= c && c <= '9') {
            assert(!is_digit(d[i - start]));
            assert(!all_digits(d));
            assert(parse_count(s@) is None);
            return None;
        }
        let dv = (c as u32 - '0' as u32) as usize;
        assert(s@.subrange(start as int, i + 1).drop_last() =~= s@.subrange(start as int, i as int));
        let next = match v.checked_mul(10) {
            Some(m) => m.checked_add(dv),
            None => None,
        };
        match next {
            Some(n) => {
                v = n;
            },
            None => {
                proof {
                    lemma_value_prefix(d, i + 1 - start);
                    assert(d.subrange(0, i + 1 - start) =~= s@.subrange(start as int, i + 1));
                    assert(value(s@.subrange(start as int, i + 1)) == v * 10 + dv);
                }
                return None;
            },
        }
        i += 1;
    }
    assert(s@.subrange(start as int, i as int) =~= d);
    Some(v)
}

} // verus!
