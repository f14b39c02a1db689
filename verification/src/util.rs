//! Rounding a byte size up to an alignment boundary.

use vstd::arithmetic::div_mod::lemma_fundamental_div_mod;
use vstd::arithmetic::div_mod::lemma_mod_division_less_than_divisor;
use vstd::arithmetic::div_mod::lemma_mod_multiples_basic;
use vstd::prelude::*;

verus! {

/// The smallest multiple of `alignment` that is at least `size`.
pub open spec fn spec_align(size: int, alignment: int) -> int
    recommends
        0 < alignment,
{
    ((size + alignment - 1) / alignment) * alignment
}

/// Whether `a` is a power of two (and therefore positive).
pub open spec fn is_power_of_two(a: int) -> bool
    decreases a,
{
    if a <= 0 {
        false
    } else if a == 1 {
        true
    } else {
        a % 2 == 0 && is_power_of_two(a / 2)
    }
}

/// A power of two is positive.
pub proof fn lemma_power_of_two_pos(a: int)
    requires
        is_power_of_two(a),
    ensures
        a >= 1,
{
    assert(is_power_of_two(a));
    assert(a >= 1) by {
        reveal_with_fuel(is_power_of_two, 1);
    }
}

/// Rounding up lands on a multiple of the alignment, moves the size by less
/// than one alignment unit, and never moves it down.
pub proof fn lemma_align_properties(size: int, alignment: int)
    requires
        size >= 0,
        is_power_of_two(alignment),
    ensures
        spec_align(size, alignment) % alignment == 0,
        size <= spec_align(size, alignment) < size + alignment,
{
    lemma_power_of_two_pos(alignment);
    let x = size + alignment - 1;
    lemma_fundamental_div_mod(x, alignment);
    lemma_mod_division_less_than_divisor(x, alignment);
    lemma_mod_multiples_basic(x / alignment, alignment);
    assert(spec_align(size, alignment) == x - x % alignment);
}

/// Round `size` up to the next multiple of `alignment`.
pub fn align(size: usize, alignment: usize) -> (r: usize)
    requires
        is_power_of_two(alignment as int),
        size + alignment <= usize::MAX,
    ensures
        r == spec_align(size as int, alignment as int),
        r % alignment == 0,
        size <= r < size + alignment,
{
    proof {
        lemma_align_properties(size as int, alignment as int);
        lemma_power_of_two_pos(alignment as int);
    }
    (size + alignment - 1) / alignment * alignment
}

} // verus!
