//! Cache keys for the durable media cache.
//!
//! A cache key is derived from an asset's canonical URL plus a
//! discriminator suffix ("packed" for the serialized upload handle,
//! "content_type" for the raw content type).  Path separators and colons
//! are escaped so the key is safe as a file name.

use vstd::prelude::*;
use crate::text::push_char;

verus! {

/// Escaping applied to every character of a cache key: path separators
/// and colons become `'+'`, everything else is kept.
pub open spec fn escape_key_char(c: char) -> char {
    if c == '/' || c == ':' {
        '+'
    } else {
        c
    }
}

/// The escaped form of a character sequence.
pub open spec fn escape_key(s: Seq<char>) -> Seq<char> {
    s.map_values(|c: char| escape_key_char(c))
}

/// The cache key for asset `url` and discriminator `name`: the string
/// `"++media+{url}+{name}"` with separators and colons escaped.
pub open spec fn cache_key_spec(url: Seq<char>, name: Seq<char>) -> Seq<char> {
    escape_key("++media+"@ + url + "+"@ + name)
}

/// Appends the escaped form of `s` to `out`.
fn append_escaped(out: &mut String, s: &str)
    ensures
        final(out)@ == old(out)@ + escape_key(s@),
{
    let n = s.unicode_len();
    let mut i: usize = 0;
    while i < n
        invariant
            i <= n,
            n == s@.len(),
            out@ == old(out)@ + escape_key(s@.take(i as int)),
        decreases n - i,
    {
        let c = s.get_char(i);
        let e = if c == '/' || c == ':' {
            '+'
        } else {
            c
        };
        push_char(out, e);
        proof {
            assert(escape_key(s@.take(i + 1 as int)) =~= escape_key(s@.take(i as int)).push(
                escape_key_char(s@[i as int]),
            ));
        }
        i = i + 1;
    }
    proof {
        assert(s@.take(n as int) =~= s@);
    }
}

/// Builds the cache key for asset `url` under discriminator `name`.
///
/// The result is `"++media+{url}+{name}"` with every `'/'` and `':'`
/// replaced by `'+'`, so that it can serve as a file name of the
/// durable cache.
pub fn cache_key(url: &str, name: &str) -> (r: String)
    ensures
        r@ == cache_key_spec(url@, name@),
{
    let mut out = String::new();
    append_escaped(&mut out, "++media+");
    append_escaped(&mut out, url);
    append_escaped(&mut out, "+");
    append_escaped(&mut out, name);
    proof {
        assert(out@ =~= cache_key_spec(url@, name@));
    }
    out
}

} // verus!
