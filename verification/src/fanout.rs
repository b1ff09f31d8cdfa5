//! The fan-out survival probe's plan: which shell commands its workers and
//! their child processes run. The spawning itself is the harness's
//! caller's business; the plan is fixed here.

use vstd::prelude::*;
use crate::text::dec_rep;
use crate::text::u64_to_string;

verus! {

/// The number of concurrent workers the probe spawns.
pub const FANOUT_WORKERS: u64 = 10;

/// The number of child processes each worker spawns.
pub const FANOUT_CHILDREN: u64 = 10;

/// The command run by worker `i`'s child `j`.
pub open spec fn echo_pair_spec(i: nat, j: nat) -> Seq<char> {
    "echo "@ + dec_rep(i) + ":"@ + dec_rep(j)
}

/// The command run by worker `i` itself.
pub open spec fn echo_single_spec(i: nat) -> Seq<char> {
    "echo "@ + dec_rep(i)
}

pub fn echo_pair_command(i: u64, j: u64) -> (r: String)
    ensures
        r@ == echo_pair_spec(i as nat, j as nat),
{
    let mut s = String::from_str("echo ");
    let a = u64_to_string(i);
    s.append(a.as_str());
    s.append(":");
    let b = u64_to_string(j);
    s.append(b.as_str());
    s
}

pub fn echo_single_command(i: u64) -> (r: String)
    ensures
        r@ == echo_single_spec(i as nat),
{
    let mut s = String::from_str("echo ");
    let a = u64_to_string(i);
    s.append(a.as_str());
    s
}

/// The commands of worker `i`'s children, in spawn order.
pub fn worker_commands(i: u64, children: u64) -> (r: Vec<String>)
    ensures
        r@.len() == children,
        forall|j: int| 0 <= j < children ==> #[trigger] r@[j]@ == echo_pair_spec(i as nat, j as nat),
{
    let mut out: Vec<String> = Vec::new();
    let mut j: u64 = 0;
    while j < children
        invariant
            j <= children,
            out@.len() == j,
            forall|k: int| 0 <= k < j ==> #[trigger] out@[k]@ == echo_pair_spec(i as nat, k as nat),
        decreases children - j,
    {
        out.push(echo_pair_command(i, j));
        j += 1;
    }
    out
}

} // verus!
