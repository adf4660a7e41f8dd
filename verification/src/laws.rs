//! How the four policies relate to the exact result and to each other.
//!
//! Each law takes two operands of one width and signedness and speaks of
//! `exact`, their exact sum or their exact difference.

use crate::bounded::BoundedInt;
use crate::policy::{
    checked, lemma_wrapped_is_representative, lemma_wrapped_is_unique, overflowing, saturated,
    wrapped,
};
use crate::range::{in_range, lemma_range_size, max_value, min_value, modulus};
use vstd::arithmetic::div_mod::lemma_fundamental_div_mod;
use vstd::prelude::*;

verus! {

/// Agreement: when the exact result is representable, wrapping and saturating
/// return it, checked returns it as `Some`, and overflowing returns it with
/// the flag down.
pub proof fn law_agreement<const W: u32, const S: bool>(
    a: BoundedInt<W, S>,
    b: BoundedInt<W, S>,
    exact: int,
)
    requires
        a.wf(),
        b.wf(),
        exact == a@ + b@ || exact == a@ - b@,
        in_range(W as nat, S, exact),
    ensures
        wrapped(W as nat, S, exact) == exact,
        checked(W as nat, S, exact) == Some(exact),
        overflowing(W as nat, S, exact) == (exact, false),
        saturated(W as nat, S, exact) == exact,
{
    a.lemma_view_in_range();
    lemma_wrapped_is_unique(W as nat, S, exact, 0, exact);
}

/// Overflow detection: when the exact result is not representable, checked
/// returns `None`, overflowing raises its flag, and neither the wrapped nor
/// the saturated value is the exact result.
pub proof fn law_overflow_detection<const W: u32, const S: bool>(
    a: BoundedInt<W, S>,
    b: BoundedInt<W, S>,
    exact: int,
)
    requires
        a.wf(),
        b.wf(),
        exact == a@ + b@ || exact == a@ - b@,
        !in_range(W as nat, S, exact),
    ensures
        checked(W as nat, S, exact) is None,
        overflowing(W as nat, S, exact).1,
        wrapped(W as nat, S, exact) != exact,
        saturated(W as nat, S, exact) != exact,
{
    a.lemma_view_in_range();
    lemma_wrapped_is_representative(W as nat, S, exact);
}

/// Consistency: the value that overflowing returns is the wrapped value, and
/// its flag is raised exactly when checked returns `None`.
pub proof fn law_overflowing_consistency<const W: u32, const S: bool>(
    a: BoundedInt<W, S>,
    b: BoundedInt<W, S>,
    exact: int,
)
    requires
        a.wf(),
        b.wf(),
        exact == a@ + b@ || exact == a@ - b@,
    ensures
        overflowing(W as nat, S, exact).0 == wrapped(W as nat, S, exact),
        overflowing(W as nat, S, exact).1 <==> checked(W as nat, S, exact) is None,
{
}

/// Saturation at the bounds: an exact result above the range saturates to the
/// greatest value, one below the range to the least.
pub proof fn law_saturating_boundary<const W: u32, const S: bool>(
    a: BoundedInt<W, S>,
    b: BoundedInt<W, S>,
    exact: int,
)
    requires
        a.wf(),
        b.wf(),
        exact == a@ + b@ || exact == a@ - b@,
    ensures
        exact > max_value(W as nat, S) ==> saturated(W as nat, S, exact) == max_value(W as nat, S),
        exact < min_value(W as nat, S) ==> saturated(W as nat, S, exact) == min_value(W as nat, S),
{
    a.lemma_view_in_range();
}

/// Modular wraparound: in every unsigned width, one more than the greatest
/// value wraps to zero, and one less than zero wraps to the greatest value.
pub proof fn law_modular_wraparound(width: nat)
    requires
        width >= 1,
    ensures
        wrapped(width, false, max_value(width, false) + 1) == 0,
        wrapped(width, false, 0 - 1) == max_value(width, false),
{
    lemma_range_size(width, false);
    lemma_wrapped_is_unique(width, false, max_value(width, false) + 1, 1, 0);
    lemma_wrapped_is_unique(width, false, 0 - 1, -1, max_value(width, false));
}

/// Round trip: a value read back from its own bit pattern is the same value.
/// `back` stands for what `from_bits` makes of what `to_bits` gave for `x`.
pub proof fn law_bits_round_trip<const W: u32, const S: bool>(
    x: BoundedInt<W, S>,
    back: BoundedInt<W, S>,
)
    requires
        x.wf(),
        back.wf(),
        back@ == wrapped(W as nat, S, wrapped(W as nat, false, x@)),
    ensures
        back == x,
{
    x.lemma_view_in_range();
    let pattern: int = wrapped(W as nat, false, x@);
    lemma_wrapped_is_representative(W as nat, false, x@);
    let m: int = modulus(W as nat);
    let k: int = (x@ - pattern) / m;
    lemma_fundamental_div_mod(x@ - pattern, m);
    assert((-k) * m == -(m * k)) by (nonlinear_arith);
    lemma_wrapped_is_unique(W as nat, S, pattern, -k, x@);
    back.lemma_view_is_injective(x);
}

} // verus!
