//! Stepping through a list that wraps.
use vstd::prelude::*;
use vstd::arithmetic::div_mod::{lemma_fundamental_div_mod, lemma_mod_multiples_vanish, lemma_small_mod};

verus! {

/// The index `step` places from `index`, wrapping in a list of `count`
/// items, in either direction; 0 for an empty list.
pub open spec fn rotated(index: int, count: int, step: int) -> int {
    if count <= 0 {
        0
    } else {
        (index + step) % count
    }
}

/// The index `step` places from `index`, wrapping in a list of `count`
/// items. Stepping through samples, masters or themes all want this, and
/// all of them wrap in both directions. An empty list gives 0.
pub fn rotate(index: usize, count: usize, step: isize) -> (r: usize)
    ensures
        r == rotated(index as int, count as int, step as int),
        count > 0 ==> r < count,
{
    if count == 0 {
        return 0;
    }
    let magnitude: usize = if step >= 0 {
        step as usize
    } else if step == isize::MIN {
        (isize::MAX as usize) + 1
    } else {
        (-step) as usize
    };
    assert(magnitude as int == if step >= 0 { step as int } else { -(step as int) });
    let offset: usize = magnitude % count;
    let i: usize = index % count;
    proof {
        lemma_index_mod(index as int, count as int, step as int, magnitude as int, offset as int, i as int);
    }
    if step >= 0 {
        if i >= count - offset {
            i - (count - offset)
        } else {
            i + offset
        }
    } else {
        if i >= offset {
            i - offset
        } else {
            i + (count - offset)
        }
    }
}

proof fn lemma_index_mod(index: int, count: int, step: int, magnitude: int, offset: int, i: int)
    requires
        count > 0,
        index >= 0,
        magnitude == if step >= 0 { step } else { -step },
        offset == magnitude % count,
        i == index % count,
    ensures
        step >= 0 ==> (index + step) % count == if i >= count - offset { i - (count - offset) } else { i + offset },
        step < 0 ==> (index + step) % count == if i >= offset { i - offset } else { i + (count - offset) },
{
    lemma_fundamental_div_mod(index, count);
    lemma_fundamental_div_mod(magnitude, count);
    let qi = index / count;
    let qm = magnitude / count;
    assert(0 <= i < count);
    assert(0 <= offset < count);
    if step >= 0 {
        let r = if i >= count - offset { i - (count - offset) } else { i + offset };
        let q = if i >= count - offset { qi + qm + 1 } else { qi + qm };
        assert(index + step == count * qi + i + count * qm + offset);
        assert(count * q + r == count * qi + i + count * qm + offset) by (nonlinear_arith)
            requires
                q == if i >= count - offset { qi + qm + 1 } else { qi + qm },
                r == if i >= count - offset { i - (count - offset) } else { i + offset };
        lemma_mod_multiples_vanish(q, r, count);
        lemma_small_mod(r as nat, count as nat);
    } else {
        let r = if i >= offset { i - offset } else { i + (count - offset) };
        let q = if i >= offset { qi - qm } else { qi - qm - 1 };
        assert(index + step == count * qi + i - count * qm - offset);
        assert(count * q + r == count * qi + i - count * qm - offset) by (nonlinear_arith)
            requires
                q == if i >= offset { qi - qm } else { qi - qm - 1 },
                r == if i >= offset { i - offset } else { i + (count - offset) };
        lemma_mod_multiples_vanish(q, r, count);
        lemma_small_mod(r as nat, count as nat);
    }
}

} // verus!
