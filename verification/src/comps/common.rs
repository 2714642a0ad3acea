//! Bit helpers and the four shades of the monochrome panel.
use vstd::prelude::*;

verus! {

/// Whether bit `n` of `a` is set.
pub open spec fn bit_spec(a: u8, n: u8) -> bool {
    a & (1u8 << n) != 0
}

/// `a` with bit `n` forced to `on`.
pub open spec fn bit_set_spec(a: u8, n: u8, on: bool) -> u8 {
    if on {
        a | (1u8 << n)
    } else {
        a & !(1u8 << n)
    }
}

/// The shade shown for a two-bit colour index, as a 32-bit ABGR word.
pub open spec fn color_spec(index: u8) -> u32 {
    if index == 0 {
        0xFFFFFFFF
    } else if index == 1 {
        0xFFAAAAAA
    } else if index == 2 {
        0xFF555555
    } else {
        0xFF000000
    }
}

pub fn bit(a: u8, n: u8) -> (r: bool)
    requires
        n < 8,
    ensures
        r == bit_spec(a, n),
{
    (a & (1 << n)) != 0
}

pub fn bit_set(a: &mut u8, n: u8, on: bool)
    requires
        n < 8,
    ensures
        *final(a) == bit_set_spec(*old(a), n, on),
{
    if on {
        *a |= 1 << n;
        return ;
    }
    *a &= !(1 << n);
}

pub fn between(a: u16, b: u16, c: u16) -> (r: bool)
    ensures
        r == (b <= a && a <= c),
{
    b <= a && a <= c
}

/// The panel shade for colour index `index` (only its low two bits count).
pub fn color(index: u8) -> (r: u32)
    ensures
        r == color_spec(index & 3),
{
    let i: u8 = index & 3;
    if i == 0 {
        0xFFFFFFFF
    } else if i == 1 {
        0xFFAAAAAA
    } else if i == 2 {
        0xFF555555
    } else {
        0xFF000000
    }
}

/// Reading back a bit that was just forced gives the forced value.
pub proof fn lemma_bit_set_get(a: u8, n: u8, on: bool)
    requires
        n < 8,
    ensures
        bit_spec(bit_set_spec(a, n, on), n) == on,
{
    assert((a | (1u8 << n)) & (1u8 << n) != 0) by (bit_vector)
        requires
            n < 8,
    ;
    assert((a & !(1u8 << n)) & (1u8 << n) == 0) by (bit_vector)
        requires
            n < 8,
    ;
}

/// Forcing one bit leaves every other bit as it was.
pub proof fn lemma_bit_set_other(a: u8, n: u8, m: u8, on: bool)
    requires
        n < 8,
        m < 8,
        n != m,
    ensures
        bit_spec(bit_set_spec(a, n, on), m) == bit_spec(a, m),
{
    assert((a | (1u8 << n)) & (1u8 << m) == a & (1u8 << m)) by (bit_vector)
        requires
            n < 8,
            m < 8,
            n != m,
    ;
    assert((a & !(1u8 << n)) & (1u8 << m) == a & (1u8 << m)) by (bit_vector)
        requires
            n < 8,
            m < 8,
            n != m,
    ;
}

} // verus!
