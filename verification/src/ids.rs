//! Sequential result ids.
//!
//! Inline answers need an id per result.  Ids are drawn from a counter
//! seeded once from the wall clock (nanoseconds since the epoch), so
//! ids do not repeat across short-lived runs of the process; after the
//! seed every draw is the next integer.

use vstd::prelude::*;

verus! {

/// Relies on `std::time::SystemTime::now` and
/// `SystemTime::duration_since(UNIX_EPOCH)`: nanoseconds since the
/// epoch, truncated to an `i64`; `None` when the clock stands before
/// the epoch.  The value depends on the clock, so nothing is promised
/// of it.
#[verifier::external_body]
fn unix_nanos() -> (r: Option<i64>)
{
    match std::time::SystemTime::now().duration_since(std::time::SystemTime::UNIX_EPOCH) {
        Ok(d) => Some(d.as_nanos() as i64),
        Err(_) => None,
    }
}

/// The id counter.  A value of zero means "not seeded yet".
pub struct IdGenerator {
    pub last_id: i64,
}

/// The successor of an id, wrapping at the integer boundary as a
/// fetch-and-add would.
pub open spec fn next_id(id: i64) -> i64 {
    if id == i64::MAX {
        i64::MIN
    } else {
        (id + 1) as i64
    }
}

impl IdGenerator {
    /// A generator that will seed itself from the clock on first use.
    pub fn new() -> (r: Self)
        ensures
            r.last_id == 0,
    {
        IdGenerator { last_id: 0 }
    }
}

/// Draws the next id.  The first draw on an unseeded generator comes
/// from the clock; every later draw is the successor of the one
/// before, so a single generator hands out strictly increasing ids
/// until the integer boundary.
pub fn generate_random_id(generator: &mut IdGenerator) -> (r: i64)
    ensures
        r != 0,
        old(generator).last_id != 0 ==> r == old(generator).last_id,
        final(generator).last_id == next_id(r),
{
    if generator.last_id == 0 {
        let seeded = match unix_nanos() {
            Some(n) if n != 0 => n,
            _ => 1,
        };
        generator.last_id = seeded;
    }
    let id = generator.last_id;
    generator.last_id = if id == i64::MAX {
        i64::MIN
    } else {
        id + 1
    };
    id
}

} // verus!
