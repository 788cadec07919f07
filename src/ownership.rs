//! Owned text: growing it in place, duplicating it, and moving it into and
//! out of functions, beside plain numbers that are copied.

use vstd::prelude::*;
use vstd::utf8::{encode_utf8, is_ascii_chars, is_ascii_chars_encode_utf8};

verus! {

/// The number of bytes that a text takes in UTF-8, which is what `len` counts.
pub open spec fn byte_len(s: Seq<char>) -> nat {
    encode_utf8(s).len()
}

/// The text `hello`.
pub open spec fn hello() -> Seq<char> {
    seq!['h', 'e', 'l', 'l', 'o']
}

/// The text `yours`.
pub open spec fn yours() -> Seq<char> {
    seq!['y', 'o', 'u', 'r', 's']
}

/// The greeting that `string_mutation` builds for `word`: `hello, {word}!`.
pub open spec fn greeting(word: Seq<char>) -> Seq<char> {
    hello() + seq![',', ' '] + word + seq!['!']
}

/// A fresh owned `hello`.
fn new_hello() -> (r: String)
    ensures
        r@ == hello(),
{
    proof {
        reveal_strlit("hello");
    }
    "hello".to_owned()
}

/// Grows an owned `hello` in place by `, {word}!` and returns it.
pub fn string_mutation(word: &str) -> (r: String)
    ensures
        r@ == greeting(word@),
{
    let mut s = new_hello();
    proof {
        reveal_strlit(", ");
        reveal_strlit("!");
    }
    s.append(", ");
    s.append(word);
    s.append("!");
    assert(s@ =~= greeting(word@));
    s
}

/// Duplicates an owned `hello`; both copies stay usable and hold the same text.
pub fn string_clone() -> (r: (String, String))
    ensures
        r.0@ == hello(),
        r.1@ == hello(),
{
    let s1 = new_hello();
    let s2 = s1.clone();
    (s1, s2)
}

/// Takes sole ownership of `some_string`: the caller's binding is moved and
/// can no longer be read. Returns the text so that it can be shown.
pub fn takes_ownership(some_string: String) -> (shown: String)
    ensures
        shown@ == some_string@,
{
    some_string
}

/// Receives a copy of `some_integer`; the caller's binding stays usable and
/// unchanged. Returns the number it shows.
pub fn makes_copy(some_integer: i32) -> (shown: i32)
    ensures
        shown == some_integer,
{
    some_integer
}

/// Moves an owned `hello` into `takes_ownership` and copies the number 5 into
/// `makes_copy`. Returns what the two calls show, then the number read again
/// from the caller's own binding after the copy.
pub fn fn_ownership() -> (r: (String, i32, i32))
    ensures
        r.0@ == hello(),
        r.1 == 5,
        r.2 == 5,
{
    let s = new_hello();
    let shown_text = takes_ownership(s);
    let x: i32 = 5;
    let shown_number: i32 = makes_copy(x);
    (shown_text, shown_number, x)
}

/// Creates an owned `yours` and hands it to the caller.
pub fn gives_ownership() -> (r: String)
    ensures
        r@ == yours(),
{
    proof {
        reveal_strlit("yours");
    }
    "yours".to_owned()
}

/// Takes ownership of `a_string` and hands the same value back.
pub fn takes_and_gives_back(a_string: String) -> (r: String)
    ensures
        r == a_string,
{
    a_string
}

/// Receives `yours` from `gives_ownership`, then moves an owned `hello`
/// through `takes_and_gives_back`. Returns the three texts shown, in order:
/// the one received, the one sent before it is moved, and the one received
/// back.
pub fn return_ownership() -> (r: (String, String, String))
    ensures
        r.0@ == yours(),
        r.1@ == hello(),
        r.2@ == hello(),
{
    let s1 = gives_ownership();
    let s2 = new_hello();
    let shown_s2 = s2.clone();
    let s3 = takes_and_gives_back(s2);
    (s1, shown_s2, s3)
}

/// Takes ownership of `s` and returns it unchanged together with its length.
pub fn calculate_length(s: String) -> (r: (String, usize))
    ensures
        r.0 == s,
        r.1 == byte_len(s@) as usize,
{
    let length: usize = s.as_str().len();
    (s, length)
}

/// Passes an owned `hello` through `calculate_length` and keeps it.
pub fn tuple_return() -> (r: (String, usize))
    ensures
        r.0@ == hello(),
        r.1 == 5,
{
    let s1 = new_hello();
    let (s2, len): (String, usize) = calculate_length(s1);
    proof {
        assert(is_ascii_chars(hello()));
        is_ascii_chars_encode_utf8(hello());
    }
    (s2, len)
}

} // verus!
