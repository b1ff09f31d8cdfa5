//! The stopwatch's arithmetic: one unsigned nanosecond count from the
//! seconds and sub-second parts of a measured wall-clock duration.

use vstd::prelude::*;

verus! {

/// A duration as a single count of nanoseconds:
/// `seconds * 1_000_000_000 + sub-second nanoseconds`.
pub fn elapsed_ns(secs: u64, subsec_nanos: u32) -> (r: u64)
    requires
        subsec_nanos < 1_000_000_000,
        secs * 1_000_000_000 + subsec_nanos <= u64::MAX,
    ensures
        r == secs * 1_000_000_000 + subsec_nanos,
{
    secs * 1_000_000_000 + (subsec_nanos as u64)
}

} // verus!
