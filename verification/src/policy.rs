//! What each overflow policy makes of an exact result.
//!
//! The exact result of an operation is an unbounded integer. A policy turns it
//! into the outcome reported for a given width and signedness.

use crate::range::{in_range, lemma_range_size, max_value, min_value, modulus};
use vstd::arithmetic::div_mod::{
    lemma_fundamental_div_mod, lemma_fundamental_div_mod_converse, lemma_mod_multiples_vanish,
};
use vstd::prelude::*;

verus! {

/// Wrapping: the representable value congruent to `exact` modulo 2^width.
pub open spec fn wrapped(width: nat, signed: bool, exact: int) -> int {
    let low: int = min_value(width, signed);
    low + (exact - low) % modulus(width)
}

/// Checked: `exact` itself when it is representable, otherwise nothing.
pub open spec fn checked(width: nat, signed: bool, exact: int) -> Option<int> {
    if in_range(width, signed, exact) {
        Some(exact)
    } else {
        None
    }
}

/// Overflowing: the wrapped value, and whether `exact` was out of range.
pub open spec fn overflowing(width: nat, signed: bool, exact: int) -> (int, bool) {
    (wrapped(width, signed, exact), !in_range(width, signed, exact))
}

/// Saturating: `exact` clamped to the nearest bound of the range.
pub open spec fn saturated(width: nat, signed: bool, exact: int) -> int {
    if exact > max_value(width, signed) {
        max_value(width, signed)
    } else if exact < min_value(width, signed) {
        min_value(width, signed)
    } else {
        exact
    }
}

/// The wrapped value is representable and differs from `exact` by a multiple
/// of the modulus.
pub proof fn lemma_wrapped_is_representative(width: nat, signed: bool, exact: int)
    requires
        width >= 1,
    ensures
        in_range(width, signed, wrapped(width, signed, exact)),
        (exact - wrapped(width, signed, exact)) % modulus(width) == 0,
{
    let m: int = modulus(width);
    let low: int = min_value(width, signed);
    let x: int = exact - low;
    lemma_range_size(width, signed);
    lemma_fundamental_div_mod(x, m);
    lemma_mod_multiples_vanish(x / m, 0, m);
}

/// No other representable value is congruent to `exact`: one that differs from
/// it by `k` times the modulus is the wrapped value.
pub proof fn lemma_wrapped_is_unique(width: nat, signed: bool, exact: int, k: int, value: int)
    requires
        width >= 1,
        in_range(width, signed, value),
        exact == value + k * modulus(width),
    ensures
        wrapped(width, signed, exact) == value,
{
    let m: int = modulus(width);
    let low: int = min_value(width, signed);
    lemma_range_size(width, signed);
    lemma_fundamental_div_mod_converse(exact - low, m, k, value - low);
}

} // verus!
