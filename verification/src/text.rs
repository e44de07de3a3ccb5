//! Small string helpers shared across the library.

use vstd::prelude::*;

verus! {

/// Relies on `String::push`: appends exactly one character.
#[verifier::external_body]
pub(crate) fn push_char(s: &mut String, c: char)
    ensures
        final(s)@ == old(s)@.push(c),
{
    s.push(c);
}

/// Compares two string slices by content.
pub fn str_eq(a: &str, b: &str) -> (r: bool)
    ensures
        r == (a@ == b@),
{
    a.to_owned() == b.to_owned()
}

/// Whether `haystack` holds a string with the characters of `needle`.
pub fn contains_string(haystack: &Vec<String>, needle: &String) -> (r: bool)
    ensures
        r == haystack.deep_view().contains(needle@),
{
    let n = haystack.len();
    let mut j: usize = 0;
    while j < n
        invariant
            j <= n,
            n == haystack.len(),
            forall|t: int| 0 <= t < j ==> haystack.deep_view()[t] != needle@,
        decreases n - j,
    {
        if haystack[j].eq(needle) {
            proof {
                assert(haystack.deep_view()[j as int] == needle@);
            }
            return true;
        }
        j = j + 1;
    }
    proof {
        assert(forall|t: int|
            0 <= t < haystack.deep_view().len() ==> haystack.deep_view()[t] != needle@);
    }
    false
}

} // verus!
