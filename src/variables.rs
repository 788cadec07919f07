//! Bindings: reassignment, a named constant, and shadowing.

use vstd::prelude::*;
use vstd::utf8::{is_ascii_chars, is_ascii_chars_encode_utf8};

verus! {

/// The number of seconds in three hours.
pub const THREE_HOURS_IN_SECONDS: u32 = 60 * 60 * 3;

/// Binds 5 mutably, then reassigns 6. Returns the value before and after.
pub fn mutable_assignment() -> (r: (i32, i32))
    ensures
        r.0 == 5,
        r.1 == 6,
{
    let mut x: i32 = 5;
    let before: i32 = x;
    x = 6;
    (before, x)
}

/// Binds 5, shadows it by itself plus one, and shadows that again, doubled,
/// inside a nested block. Returns the value seen inside the block and the one
/// seen after it ends.
pub fn shadow_variables() -> (r: (i32, i32))
    ensures
        r.0 == 12,
        r.1 == 6,
{
    let x: i32 = 5;
    let x: i32 = x + 1;
    let inner: i32 = {
        let x: i32 = x * 2;
        x
    };
    (inner, x)
}

/// Binds a text of four spaces, then shadows it by its length.
pub fn shadowed_type() -> (r: usize)
    ensures
        r == 4,
{
    let spaces: &str = "    ";
    proof {
        reveal_strlit("    ");
        assert(is_ascii_chars(spaces@));
        is_ascii_chars_encode_utf8(spaces@);
    }
    let spaces: usize = spaces.len();
    spaces
}

} // verus!
