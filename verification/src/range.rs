//! The representable range of a fixed-width two's-complement integer.

use vstd::arithmetic::power2::{lemma_pow2_pos, lemma_pow2_unfold, pow2};
use vstd::prelude::*;

verus! {

/// The number of distinct bit patterns of the given width: 2^width.
pub open spec fn modulus(width: nat) -> int {
    pow2(width) as int
}

/// The least value of the given width and signedness: 0 when unsigned,
/// -2^(width - 1) when signed.
pub open spec fn min_value(width: nat, signed: bool) -> int {
    if signed {
        -(pow2((width - 1) as nat) as int)
    } else {
        0
    }
}

/// The greatest value of the given width and signedness: 2^width - 1 when
/// unsigned, 2^(width - 1) - 1 when signed.
pub open spec fn max_value(width: nat, signed: bool) -> int {
    if signed {
        pow2((width - 1) as nat) - 1
    } else {
        pow2(width) - 1
    }
}

/// Whether `value` lies in the closed range from `min_value` to `max_value`.
pub open spec fn in_range(width: nat, signed: bool, value: int) -> bool {
    min_value(width, signed) <= value <= max_value(width, signed)
}

/// The range holds exactly `modulus(width)` values, and zero is one of them.
pub proof fn lemma_range_size(width: nat, signed: bool)
    requires
        width >= 1,
    ensures
        modulus(width) >= 2,
        max_value(width, signed) - min_value(width, signed) + 1 == modulus(width),
        in_range(width, signed, 0),
{
    lemma_pow2_unfold(width);
    lemma_pow2_pos((width - 1) as nat);
}

} // verus!
