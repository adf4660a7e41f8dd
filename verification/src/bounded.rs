//! A fixed-width integer and its arithmetic under the four overflow policies.
//!
//! Every operation first forms the exact sum or difference of its operands in
//! a wider machine integer and then reports it as its policy prescribes. None
//! of them can fail or panic: overflow is always part of the returned data.

use crate::policy::{checked, lemma_wrapped_is_unique, overflowing, saturated, wrapped};
use crate::range::{in_range, lemma_range_size, max_value, min_value, modulus};
use vstd::arithmetic::div_mod::lemma_fundamental_div_mod;
use vstd::arithmetic::mul::lemma_mul_is_distributive_add_other_way;
use vstd::arithmetic::power2::{
    lemma2_to64, lemma2_to64_rest, lemma_pow2_strictly_increases, lemma_pow2_unfold, pow2,
};
use vstd::prelude::*;

verus! {

/// A `W`-bit two's-complement integer, signed when `S` is true.
///
/// The value is kept as its raw bit pattern in the low `W` bits of a word.
/// Every pattern denotes a value of the range, so no `BoundedInt` is invalid.
/// Widths from 1 to 64 bits can be stored.
#[derive(Clone, Copy, Debug, PartialEq, Eq, Hash)]
pub struct BoundedInt<const W: u32, const S: bool> {
    bits: u64,
}

/// What the checked policy returns: the exact result, or nothing when it is
/// not representable.
pub type CheckedResult<const W: u32, const S: bool> = Option<BoundedInt<W, S>>;

/// What the overflowing policy returns: the wrapped value, and whether the
/// exact result was out of range.
pub type OverflowResult<const W: u32, const S: bool> = (BoundedInt<W, S>, bool);

/// Unsigned, 8 bits: 0 to 255.
pub type U8 = BoundedInt<8, false>;

/// Unsigned, 16 bits.
pub type U16 = BoundedInt<16, false>;

/// Unsigned, 32 bits.
pub type U32 = BoundedInt<32, false>;

/// Unsigned, 64 bits.
pub type U64 = BoundedInt<64, false>;

/// Signed, 8 bits: -128 to 127.
pub type I8 = BoundedInt<8, true>;

/// Signed, 16 bits.
pub type I16 = BoundedInt<16, true>;

/// Signed, 32 bits.
pub type I32 = BoundedInt<32, true>;

/// Signed, 64 bits.
pub type I64 = BoundedInt<64, true>;

impl<const W: u32, const S: bool> View for BoundedInt<W, S> {
    type V = int;

    /// The integer that the stored bit pattern denotes: a signed pattern with
    /// its top bit set stands for the pattern minus 2^W.
    closed spec fn view(&self) -> int {
        if S && self.bits >= pow2((W - 1) as nat) {
            self.bits - pow2(W as nat)
        } else {
            self.bits as int
        }
    }
}

impl<const W: u32, const S: bool> BoundedInt<W, S> {
    /// Whether the width can be stored: between 1 and 64 bits.
    pub open spec fn valid_width() -> bool {
        1 <= W <= 64
    }

    /// The width is storable and no bit above the low `W` is set.
    #[verifier::type_invariant]
    pub closed spec fn wf(self) -> bool {
        &&& Self::valid_width()
        &&& self.bits < pow2(W as nat)
    }

    /// The value inside an optional result, if there is one.
    pub open spec fn checked_view(r: CheckedResult<W, S>) -> Option<int> {
        match r {
            Some(x) => Some(x@),
            None => None,
        }
    }

    /// A well-formed value lies in the range of its width and signedness.
    pub proof fn lemma_view_in_range(self)
        requires
            self.wf(),
        ensures
            Self::valid_width(),
            in_range(W as nat, S, self@),
    {
        lemma_modulus_fits(W as nat);
    }

    /// Every value of the range has one bit pattern: well-formed values with
    /// the same view are equal.
    pub proof fn lemma_view_is_injective(self, other: Self)
        requires
            self.wf(),
            other.wf(),
            self@ == other@,
        ensures
            self == other,
    {
        lemma_modulus_fits(W as nat);
    }

    /// Makes the integer with the given value, or `None` when the value is
    /// not representable or the width cannot be stored.
    pub fn new(value: i128) -> (r: Option<Self>)
        ensures
            Self::checked_view(r) == if Self::valid_width() {
                checked(W as nat, S, value as int)
            } else {
                None
            },
    {
        if 1 <= W && W <= 64 {
            Self::check_exact(value)
        } else {
            None
        }
    }

    /// The least value of the range.
    pub fn min_value() -> (r: Self)
        requires
            Self::valid_width(),
        ensures
            r@ == min_value(W as nat, S),
    {
        proof {
            lemma_range_size(W as nat, S);
        }
        Self::from_in_range(Self::lower())
    }

    /// The greatest value of the range.
    pub fn max_value() -> (r: Self)
        requires
            Self::valid_width(),
        ensures
            r@ == max_value(W as nat, S),
    {
        proof {
            lemma_range_size(W as nat, S);
        }
        Self::from_in_range(Self::upper())
    }

    /// Reads the low `W` bits of `bits` as a two's-complement pattern; higher
    /// bits are dropped.
    pub fn from_bits(bits: u64) -> (r: Self)
        requires
            Self::valid_width(),
        ensures
            r@ == wrapped(W as nat, S, bits as int),
    {
        let m: i128 = Self::modulus_exec();
        let exact: i128 = bits as i128;
        let low: i128 = exact % m;
        let kept = BoundedInt::<W, S> { bits: low as u64 };
        proof {
            lemma_modulus_fits(W as nat);
            lemma_fundamental_div_mod(exact as int, m as int);
            if kept@ == low {
                lemma_wrapped_is_unique(W as nat, S, exact as int, exact as int / m as int, kept@);
            } else {
                lemma_mul_is_distributive_add_other_way(m as int, exact as int / m as int, 1);
                lemma_wrapped_is_unique(
                    W as nat,
                    S,
                    exact as int,
                    exact as int / m as int + 1,
                    kept@,
                );
            }
        }
        kept
    }

    /// The stored bit pattern, which is the value reduced modulo 2^W into the
    /// unsigned range.
    pub fn to_bits(self) -> (bits: u64)
        ensures
            bits == wrapped(W as nat, false, self@),
    {
        proof {
            use_type_invariant(self);
            let k: int = if self@ == self.bits { 0 } else { -1 };
            lemma_wrapped_is_unique(W as nat, false, self@, k, self.bits as int);
        }
        self.bits
    }

    /// The value as a machine integer wide enough for every width.
    pub fn value(self) -> (v: i128)
        ensures
            v == self@,
            in_range(W as nat, S, v as int),
    {
        proof {
            use_type_invariant(self);
            lemma_modulus_fits(W as nat);
        }
        let raw: i128 = self.bits as i128;
        if S && raw >= Self::modulus_exec() / 2 {
            raw - Self::modulus_exec()
        } else {
            raw
        }
    }

    /// The sum reduced modulo 2^W into the range.
    pub fn wrapping_add(self, rhs: Self) -> (r: Self)
        ensures
            r@ == wrapped(W as nat, S, self@ + rhs@),
    {
        Self::wrap_exact(self.exact_sum(rhs))
    }

    /// The difference reduced modulo 2^W into the range.
    pub fn wrapping_sub(self, rhs: Self) -> (r: Self)
        ensures
            r@ == wrapped(W as nat, S, self@ - rhs@),
    {
        Self::wrap_exact(self.exact_difference(rhs))
    }

    /// The sum when it is representable, `None` when it is not.
    pub fn checked_add(self, rhs: Self) -> (r: CheckedResult<W, S>)
        ensures
            Self::checked_view(r) == checked(W as nat, S, self@ + rhs@),
    {
        Self::check_exact(self.exact_sum(rhs))
    }

    /// The difference when it is representable, `None` when it is not.
    pub fn checked_sub(self, rhs: Self) -> (r: CheckedResult<W, S>)
        ensures
            Self::checked_view(r) == checked(W as nat, S, self@ - rhs@),
    {
        Self::check_exact(self.exact_difference(rhs))
    }

    /// The wrapped sum, and whether the exact sum was out of range.
    pub fn overflowing_add(self, rhs: Self) -> (r: OverflowResult<W, S>)
        ensures
            (r.0@, r.1) == overflowing(W as nat, S, self@ + rhs@),
    {
        let exact: i128 = self.exact_sum(rhs);
        (Self::wrap_exact(exact), exact < Self::lower() || exact > Self::upper())
    }

    /// The wrapped difference, and whether the exact difference was out of
    /// range.
    pub fn overflowing_sub(self, rhs: Self) -> (r: OverflowResult<W, S>)
        ensures
            (r.0@, r.1) == overflowing(W as nat, S, self@ - rhs@),
    {
        let exact: i128 = self.exact_difference(rhs);
        (Self::wrap_exact(exact), exact < Self::lower() || exact > Self::upper())
    }

    /// The sum clamped to the range.
    pub fn saturating_add(self, rhs: Self) -> (r: Self)
        ensures
            r@ == saturated(W as nat, S, self@ + rhs@),
    {
        Self::saturate_exact(self.exact_sum(rhs))
    }

    /// The difference clamped to the range.
    pub fn saturating_sub(self, rhs: Self) -> (r: Self)
        ensures
            r@ == saturated(W as nat, S, self@ - rhs@),
    {
        Self::saturate_exact(self.exact_difference(rhs))
    }

    /// The exact sum of two values, which no width here can push out of `i128`.
    fn exact_sum(self, rhs: Self) -> (exact: i128)
        ensures
            Self::valid_width(),
            exact == self@ + rhs@,
            min_value(W as nat, S) - modulus(W as nat) <= exact,
            exact <= max_value(W as nat, S) + modulus(W as nat),
    {
        proof {
            use_type_invariant(self);
            lemma_modulus_fits(W as nat);
            lemma_range_size(W as nat, S);
        }
        self.value() + rhs.value()
    }

    /// The exact difference of two values.
    fn exact_difference(self, rhs: Self) -> (exact: i128)
        ensures
            Self::valid_width(),
            exact == self@ - rhs@,
            min_value(W as nat, S) - modulus(W as nat) <= exact,
            exact <= max_value(W as nat, S) + modulus(W as nat),
    {
        proof {
            use_type_invariant(self);
            lemma_modulus_fits(W as nat);
            lemma_range_size(W as nat, S);
        }
        self.value() - rhs.value()
    }

    /// Wraps an exact result that lies within one modulus of the range.
    fn wrap_exact(exact: i128) -> (r: Self)
        requires
            Self::valid_width(),
            min_value(W as nat, S) - modulus(W as nat) <= exact,
            exact <= max_value(W as nat, S) + modulus(W as nat),
        ensures
            r@ == wrapped(W as nat, S, exact as int),
    {
        proof {
            lemma_range_size(W as nat, S);
        }
        let m: i128 = Self::modulus_exec();
        if exact > Self::upper() {
            proof {
                lemma_wrapped_is_unique(W as nat, S, exact as int, 1, exact - m);
            }
            Self::from_in_range(exact - m)
        } else if exact < Self::lower() {
            proof {
                lemma_wrapped_is_unique(W as nat, S, exact as int, -1, exact + m);
            }
            Self::from_in_range(exact + m)
        } else {
            proof {
                lemma_wrapped_is_unique(W as nat, S, exact as int, 0, exact as int);
            }
            Self::from_in_range(exact)
        }
    }

    /// Keeps an exact result only when it is representable.
    fn check_exact(exact: i128) -> (r: CheckedResult<W, S>)
        requires
            Self::valid_width(),
        ensures
            Self::checked_view(r) == checked(W as nat, S, exact as int),
    {
        if Self::lower() <= exact && exact <= Self::upper() {
            Some(Self::from_in_range(exact))
        } else {
            None
        }
    }

    /// Clamps an exact result to the range.
    fn saturate_exact(exact: i128) -> (r: Self)
        requires
            Self::valid_width(),
        ensures
            r@ == saturated(W as nat, S, exact as int),
    {
        proof {
            lemma_range_size(W as nat, S);
        }
        let low: i128 = Self::lower();
        let high: i128 = Self::upper();
        if exact > high {
            Self::from_in_range(high)
        } else if exact < low {
            Self::from_in_range(low)
        } else {
            Self::from_in_range(exact)
        }
    }

    /// Stores a value that is known to be representable.
    fn from_in_range(value: i128) -> (r: Self)
        requires
            Self::valid_width(),
            in_range(W as nat, S, value as int),
        ensures
            r@ == value,
    {
        proof {
            lemma_modulus_fits(W as nat);
        }
        let bits: u64 = if value < 0 {
            (value + Self::modulus_exec()) as u64
        } else {
            value as u64
        };
        BoundedInt { bits }
    }

    /// The least value of the range as a machine integer.
    fn lower() -> (low: i128)
        requires
            Self::valid_width(),
        ensures
            low == min_value(W as nat, S),
    {
        proof {
            lemma_modulus_fits(W as nat);
        }
        if S {
            -(Self::modulus_exec() / 2)
        } else {
            0
        }
    }

    /// The greatest value of the range as a machine integer.
    fn upper() -> (high: i128)
        requires
            Self::valid_width(),
        ensures
            high == max_value(W as nat, S),
    {
        proof {
            lemma_modulus_fits(W as nat);
        }
        if S {
            Self::modulus_exec() / 2 - 1
        } else {
            Self::modulus_exec() - 1
        }
    }

    /// 2^W as a machine integer.
    fn modulus_exec() -> (m: i128)
        requires
            Self::valid_width(),
        ensures
            m == modulus(W as nat),
            2 <= m <= 0x1_0000_0000_0000_0000,
    {
        proof {
            lemma_one_shl_is_pow2(W);
            lemma_modulus_fits(W as nat);
            lemma_range_size(W as nat, S);
        }
        let m: u128 = 1u128 << W;
        m as i128
    }
}

/// Shifting one left by `width` places gives 2^width.
proof fn lemma_one_shl_is_pow2(width: u32)
    requires
        width <= 64,
    ensures
        (1u128 << width) == pow2(width as nat),
    decreases width,
{
    if width == 0 {
        assert(1u128 << 0u32 == 1u128) by (bit_vector);
        lemma2_to64();
    } else {
        let below: u32 = (width - 1) as u32;
        lemma_one_shl_is_pow2(below);
        assert((1u128 << width) == 2 * (1u128 << below)) by (bit_vector)
            requires
                0 < width <= 64,
                below == width - 1,
        ;
        lemma_pow2_unfold(width as nat);
    }
}

/// A modulus of at most 64 bits is at most 2^64, and it is twice the power
/// of two below it, which is at most 2^63.
proof fn lemma_modulus_fits(width: nat)
    requires
        1 <= width <= 64,
    ensures
        pow2(width) <= 0x1_0000_0000_0000_0000,
        pow2((width - 1) as nat) <= 0x8000_0000_0000_0000,
        pow2(width) == 2 * pow2((width - 1) as nat),
{
    lemma2_to64();
    lemma2_to64_rest();
    lemma_pow2_unfold(width);
    if width < 64 {
        lemma_pow2_strictly_increases(width, 64);
    }
}

} // verus!
