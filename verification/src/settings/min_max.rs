//! Optional clock ranges, and their persisted form.

use vstd::prelude::*;

use crate::limits::RangeLimit;
use crate::persist::MinMaxJson;

verus! {

/// A range whose bounds may each be absent.
pub type MinMax<T> = RangeLimit<T>;

/// Read a persisted range.
pub fn min_max_from_json(other: MinMaxJson<Option<u64>>, _version: u64) -> (r: MinMax<u64>)
    ensures
        r.max == other.max,
        r.min == other.min,
{
    MinMax { max: other.max, min: other.min }
}

/// The persisted form of a range.
pub fn min_max_to_json(range: MinMax<u64>) -> (r: MinMaxJson<Option<u64>>)
    ensures
        r.max == range.max,
        r.min == range.min,
{
    MinMaxJson { max: range.max, min: range.min }
}

} // verus!
