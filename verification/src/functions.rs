//! Plain `i32` arithmetic for callers who rule overflow out beforehand.
//!
//! Nothing here wraps, clamps or reports: each function asks that its exact
//! result be representable and returns exactly it.

use vstd::prelude::*;

verus! {

/// The constant five.
pub fn five() -> (r: i32)
    ensures
        r == 5,
{
    5
}

/// The successor of `x`.
pub fn plus_one(x: i32) -> (r: i32)
    requires
        x + 1 <= i32::MAX,
    ensures
        r == x + 1,
{
    x + 1
}

/// The sum of `a` and `b`.
pub fn add(a: i32, b: i32) -> (r: i32)
    requires
        i32::MIN <= a + b <= i32::MAX,
    ensures
        r == a + b,
{
    a + b
}

/// Twice `x`.
pub fn explicit_return_example(x: i32) -> (r: i32)
    requires
        i32::MIN <= x * 2 <= i32::MAX,
    ensures
        r == x * 2,
{
    return x * 2;
}

} // verus!
