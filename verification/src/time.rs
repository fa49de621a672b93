//! Points in time as plain integers.

use vstd::prelude::*;

verus! {

/// A point in time, in milliseconds since the Unix epoch.
pub type Timestamp = i64;

/// The later of two points in time.
pub open spec fn later_of(a: int, b: int) -> int {
    if a < b {
        b
    } else {
        a
    }
}

/// Returns the later of two timestamps.
pub fn later(a: Timestamp, b: Timestamp) -> (r: Timestamp)
    ensures
        r == later_of(a as int, b as int),
{
    if a < b {
        b
    } else {
        a
    }
}

} // verus!
