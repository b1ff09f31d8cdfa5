//! The scheduling-fairness probe's fixed parameters and report: two
//! concurrently scheduled units each yield a bounded number of times while
//! a cycle counter brackets the exchange.

use vstd::prelude::*;
use crate::text::dec_rep;
use crate::text::u64_to_string;

verus! {

/// The number of voluntary yields each scheduling unit performs.
pub const YIELD_BOUND: u64 = 500;

/// The cycles elapsed between two readings of a monotonic cycle counter.
pub fn cycle_delta(start: u64, end: u64) -> (r: u64)
    requires
        start <= end,
    ensures
        r == end - start,
{
    end - start
}

/// The probe's report: the parent's yield count, the child's yield count,
/// and the elapsed cycles.
pub open spec fn switch_report_spec(parent: nat, child: nat, cycles: nat) -> Seq<char> {
    "P "@ + dec_rep(parent) + " C "@ + dec_rep(child) + " T "@ + dec_rep(cycles)
}

pub fn switch_report(parent: u64, child: u64, cycles: u64) -> (r: String)
    ensures
        r@ == switch_report_spec(parent as nat, child as nat, cycles as nat),
{
    let mut s = String::from_str("P ");
    let p = u64_to_string(parent);
    s.append(p.as_str());
    s.append(" C ");
    let c = u64_to_string(child);
    s.append(c.as_str());
    s.append(" T ");
    let t = u64_to_string(cycles);
    s.append(t.as_str());
    s
}

} // verus!
