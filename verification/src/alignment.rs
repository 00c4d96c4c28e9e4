//! Alignment arithmetic shared by all allocators: rounding an offset up to
//! the next multiple of a power-of-two alignment.

use vstd::prelude::*;

verus! {

use vstd::arithmetic::div_mod::{
    lemma_fundamental_div_mod,
    lemma_fundamental_div_mod_converse,
    lemma_mod_division_less_than_divisor,
    lemma_mod_multiples_basic,
    lemma_div_is_ordered,
};
use vstd::arithmetic::mul::{lemma_mul_inequality, lemma_mul_is_distributive_add_other_way};

/// Whether `a` is a power of two (1, 2, 4, 8, ...).
pub open spec fn power_of_two(a: nat) -> bool
    decreases a,
{
    if a == 0 {
        false
    } else if a == 1 {
        true
    } else {
        a % 2 == 0 && power_of_two(a / 2)
    }
}

/// The smallest multiple of `align` that is at least `value`.
pub open spec fn spec_align_up(value: int, align: int) -> int
    recommends
        align > 0,
{
    ((value + align - 1) / align) * align
}

/// A power of two is positive.
pub proof fn lemma_power_of_two_pos(a: nat)
    requires
        power_of_two(a),
    ensures
        a >= 1,
{
}

/// Rounding up by the remainder: `spec_align_up` leaves a multiple of
/// `align` unchanged and otherwise adds the distance to the next multiple.
pub proof fn lemma_align_up_rem(value: int, align: int)
    requires
        value >= 0,
        align > 0,
    ensures
        spec_align_up(value, align) == if value % align == 0 {
            value
        } else {
            value + align - value % align
        },
{
    let rem = value % align;
    let q = value / align;
    lemma_fundamental_div_mod(value, align);
    lemma_mod_division_less_than_divisor(value, align);
    if rem == 0 {
        lemma_fundamental_div_mod_converse(value + align - 1, align, q, align - 1);
        assert(spec_align_up(value, align) == q * align);
    } else {
        lemma_mul_is_distributive_add_other_way(align, q, 1);
        assert((q + 1) * align == q * align + align);
        lemma_fundamental_div_mod_converse(value + align - 1, align, q + 1, rem - 1);
        assert(spec_align_up(value, align) == (q + 1) * align);
    }
}

/// `spec_align_up` rounds up: the result is a multiple of `align`, is at
/// least `value`, and exceeds `value` by less than `align`.
pub proof fn lemma_align_up_bounds(value: int, align: int)
    requires
        value >= 0,
        align > 0,
    ensures
        spec_align_up(value, align) % align == 0,
        value <= spec_align_up(value, align) < value + align,
{
    lemma_align_up_rem(value, align);
    let rem = value % align;
    lemma_mod_division_less_than_divisor(value, align);
    if rem != 0 {
        let q = value / align;
        lemma_fundamental_div_mod(value, align);
        lemma_mul_is_distributive_add_other_way(align, q, 1);
        assert(value + align - rem == (q + 1) * align);
        lemma_mod_multiples_basic(q + 1, align);
    }
}

/// Reports whether `a` is a power of two.
pub fn is_power_of_two(a: usize) -> (b: bool)
    ensures
        b == power_of_two(a as nat),
{
    let mut n: usize = a;
    if n == 0 {
        return false;
    }
    while n % 2 == 0
        invariant
            n >= 1,
            power_of_two(a as nat) == power_of_two(n as nat),
        decreases n,
    {
        n = n / 2;
    }
    n == 1
}

/// Rounds `value` up to the next multiple of `align`.
///
/// The caller must know that the rounded value still fits in `usize`; the
/// allocators use [`align_up_checked`] instead when that is not known.
pub fn align_up(value: usize, align: usize) -> (r: usize)
    requires
        align > 0,
        spec_align_up(value as int, align as int) <= usize::MAX,
    ensures
        r == spec_align_up(value as int, align as int),
{
    proof {
        lemma_align_up_rem(value as int, align as int);
    }
    let rem = value % align;
    if rem == 0 {
        value
    } else {
        value + (align - rem)
    }
}

/// Rounds `value` up to the next multiple of `align`, or returns `None` when
/// the rounded value would not fit in `usize`.
pub fn align_up_checked(value: usize, align: usize) -> (r: Option<usize>)
    requires
        align > 0,
    ensures
        match r {
            Some(v) => v == spec_align_up(value as int, align as int),
            None => spec_align_up(value as int, align as int) > usize::MAX,
        },
{
    proof {
        lemma_align_up_rem(value as int, align as int);
    }
    let rem = value % align;
    if rem == 0 {
        Some(value)
    } else {
        value.checked_add(align - rem)
    }
}

} // verus!
