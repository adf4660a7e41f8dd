//! Fixed-width integers whose overflow is always an explicit, chosen outcome.
//!
//! A [`bounded::BoundedInt`] holds a `W`-bit two's-complement value, signed or
//! unsigned. Addition and subtraction come in four policies (wrapping, checked,
//! overflowing and saturating), each a total function of its operands whose
//! result is stated over the exact mathematical sum or difference.
//!
//! - [`range`]: the representable range of a width and signedness.
//! - [`policy`]: what each policy makes of an exact result.
//! - [`bounded`]: the integer type and its operations.
//! - [`laws`]: how the policies relate to the exact result and to each other.
//! - [`functions`]: plain `i32` arithmetic for callers who rule overflow out.
//! - [`ownership`]: strings handed out, through and back.

pub mod bounded;
pub mod functions;
pub mod laws;
pub mod ownership;
pub mod policy;
pub mod range;
