//! Strings handed out, handed through, and handed back with their length.

use vstd::prelude::*;
use vstd::utf8::encode_utf8;

verus! {

/// A freshly made string that the caller comes to own.
pub fn gives_ownership() -> (r: String)
    ensures
        r@ == "yours"@,
{
    let some_string = "yours".to_owned();
    some_string
}

/// Takes a string and gives the same string back.
pub fn takes_and_gives_back(a_string: String) -> (r: String)
    ensures
        r == a_string,
{
    a_string
}

/// Gives the string back together with its length in bytes.
pub fn calculate_length_with_tuple(s: String) -> (r: (String, usize))
    ensures
        r.0 == s,
        r.1 == encode_utf8(s@).len() as usize,
{
    let length: usize = s.as_str().len();
    (s, length)
}

} // verus!
