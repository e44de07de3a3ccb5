//! Search-cache keys: a fixed-length digest prefix of an asset URL.
//!
//! The transport's opaque-id field has a hard length limit, so search
//! results are keyed by the first 16 lowercase hex characters of the
//! SHA-1 digest of the track's canonical URL.  Distinct URLs whose
//! prefixes collide are deduplicated at result-build time (first
//! occurrence wins) — an accepted, documented collision risk.

use vstd::prelude::*;
use sha1::{Digest, Sha1};

verus! {

/// The SHA-1 digest (20 bytes) of the UTF-8 encoding of a character
/// sequence.  The digest is a function of the input alone; its value is
/// not modelled here.
pub uninterp spec fn sha1_of(s: Seq<char>) -> Seq<u8>;

/// The lowercase hex digit for a value below 16.
pub open spec fn hex_digit(v: u8) -> char
    recommends
        v < 16,
{
    if v < 10 {
        (v + 48) as char
    } else {
        (v + 87) as char
    }
}

/// Lowercase hex encoding: two digits for every byte, in order.
pub open spec fn hex_of(bytes: Seq<u8>) -> Seq<char>
    decreases bytes.len(),
{
    if bytes.len() == 0 {
        Seq::<char>::empty()
    } else {
        seq![hex_digit(bytes[0] / 16), hex_digit(bytes[0] % 16)] + hex_of(bytes.drop_first())
    }
}

pub proof fn lemma_hex_of_len(bytes: Seq<u8>)
    ensures
        hex_of(bytes).len() == 2 * bytes.len(),
    decreases bytes.len(),
{
    if bytes.len() > 0 {
        lemma_hex_of_len(bytes.drop_first());
    }
}

/// Relies on `sha1::Sha1` through `Digest::digest`: the 20-byte SHA-1
/// digest of the input bytes, a function of the input alone.
#[verifier::external_body]
fn sha1_bytes(s: &str) -> (r: Vec<u8>)
    ensures
        r@ == sha1_of(s@),
        r@.len() == 20,
{
    Sha1::digest(s.as_bytes()).to_vec()
}

/// Relies on `hex::encode`: two lowercase hex digits for each input
/// byte, in order.
#[verifier::external_body]
fn hex_encode(b: &Vec<u8>) -> (r: String)
    ensures
        r@ == hex_of(b@),
{
    hex::encode(b)
}

/// The search-cache key of a URL: the first 16 hex characters of its
/// SHA-1 digest.
pub open spec fn search_key_spec(url: Seq<char>) -> Seq<char> {
    hex_of(sha1_of(url)).take(16)
}

/// Derives the compact search-cache key for `url`.
pub fn search_cache_key(url: &str) -> (r: String)
    ensures
        r@ == search_key_spec(url@),
        r@.len() == 16,
{
    let digest = sha1_bytes(url);
    let full = hex_encode(&digest);
    proof {
        lemma_hex_of_len(digest@);
    }
    let prefix = full.as_str().substring_char(0, 16);
    proof {
        assert(prefix@ =~= search_key_spec(url@));
    }
    prefix.to_owned()
}

} // verus!
