//! Conversions between strings and character vectors, for code that
//! walks or builds text one character at a time.

use vstd::prelude::*;
use vstd::std_specs::iter::IteratorSpec;

verus! {

broadcast use vstd::string::group_string_axioms;

/// The characters of a string slice, in order.
pub fn str_to_chars(s: &str) -> (v: Vec<char>)
    ensures
        v@ == s@,
{
    let mut it = s.chars();
    let mut v: Vec<char> = Vec::new();
    loop
        invariant
            v@ + it.remaining() =~= s@,
            v@.len() <= s@.len(),
        ensures
            v@ =~= s@,
        decreases s@.len() - v@.len(),
    {
        let ghost prev_v = v@;
        let ghost prev_rem = it.remaining();
        match it.next() {
            Some(c) => {
                proof {
                    assert(prev_rem.len() > 0);
                    assert(c == prev_rem[0]);
                }
                v.push(c);
                proof {
                    assert(v@ + it.remaining() =~= s@);
                }
            },
            None => {
                proof {
                    assert(it.remaining() =~= prev_rem);
                }
                break;
            },
        }
    }
    proof {
        assert(v@ =~= s@);
    }
    v
}

/// Relies on `char::from_u32`: for a value that is a unicode scalar
/// (not a surrogate, at most `0x10FFFF`), it returns the character with
/// exactly that code point.
#[verifier::external_body]
pub fn char_from_u32(v: u32) -> (r: char)
    requires
        v < 0xD800 || (0xE000 <= v < 0x110000),
    ensures
        r == (v as char),
{
    match char::from_u32(v) {
        Some(c) => c,
        None => '\u{FFFD}',
    }
}

/// Relies on `String`'s `FromIterator<char>`: collecting characters
/// yields the string made of exactly those characters in order.
#[verifier::external_body]
pub fn chars_to_string(v: Vec<char>) -> (r: String)
    ensures
        r@ == v@,
{
    v.into_iter().collect()
}

} // verus!
