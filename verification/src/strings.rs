//! Small verified string utilities.

use vstd::prelude::*;

use crate::scan::find_char;
use crate::scan::spec_find;

verus! {

/// The length of a borrowed string, in characters.
pub fn calculate_length(s: &String) -> (r: usize)
    ensures
        r == s@.len(),
{
    s.as_str().unicode_len()
}

/// Append the greeting suffix `", world"` in place.
pub fn change(s: &mut String)
    ensures
        final(s)@ == old(s)@ + ", world"@,
{
    s.append(", world");
}

/// The prefix of `s` up to (and not including) its first space, or all of
/// `s` when it holds no space.
pub fn first_word<'a>(s: &'a str) -> (r: &'a str)
    ensures
        ({
            let k = spec_find(s@, ' ');
            if k >= 0 {
                r@ == s@.subrange(0, k)
            } else {
                r@ == s@
            }
        }),
{
    let n = s.unicode_len();
    proof {
        assert(s@.subrange(0, s@.len() as int) =~= s@);
    }
    match find_char(s, 0, n, ' ') {
        Some(i) => s.substring_char(0, i),
        None => s,
    }
}

/// A freshly owned string, handed to the caller.
pub fn gives_ownership() -> (r: String)
    ensures
        r@ == "yours"@,
{
    String::from_str("yours")
}

/// Take ownership of a string and hand the same string back.
pub fn takes_and_gives_back(a: String) -> (r: String)
    ensures
        r == a,
{
    a
}

} // verus!
