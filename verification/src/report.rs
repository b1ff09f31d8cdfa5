//! The reporter: renders every line the harness emits, in three modes —
//! listing a registered name, the pass/fail result of one probe run, and the
//! unknown-name message.

use vstd::prelude::*;
use crate::text::dec_rep;
use crate::text::u64_to_string;

verus! {

/// The result of one probe invocation: it passed in the given number of
/// nanoseconds, or failed with a descriptive message.
pub enum Outcome {
    Passed(u64),
    Failed(String),
}

/// The line printed for one registered name in listing mode.
pub open spec fn list_line_spec(name: Seq<char>) -> Seq<char> {
    "BenGreen: "@ + name
}

/// The line printed when a requested name is not registered.
pub open spec fn not_found_line_spec(name: Seq<char>) -> Seq<char> {
    "BenGreen: "@ + name + ": not found"@
}

/// The line printed when a probe passes, with its duration in nanoseconds.
pub open spec fn passed_line_spec(name: Seq<char>, ns: nat) -> Seq<char> {
    "BenGreen: "@ + name + ": passed: "@ + dec_rep(ns) + " ns"@
}

/// The line printed when a probe fails, with its failure message.
pub open spec fn failed_line_spec(name: Seq<char>, msg: Seq<char>) -> Seq<char> {
    "BenGreen: "@ + name + ": failed: "@ + msg
}

/// The line for a probe's outcome: passed with duration, or failed with
/// message.
pub open spec fn result_line_spec(name: Seq<char>, o: Outcome) -> Seq<char> {
    match o {
        Outcome::Passed(ns) => passed_line_spec(name, ns as nat),
        Outcome::Failed(msg) => failed_line_spec(name, msg@),
    }
}

pub fn list_line(name: &String) -> (r: String)
    ensures
        r@ == list_line_spec(name@),
{
    let mut s = String::from_str("BenGreen: ");
    s.append(name.as_str());
    s
}

pub fn not_found_line(name: &String) -> (r: String)
    ensures
        r@ == not_found_line_spec(name@),
{
    let mut s = String::from_str("BenGreen: ");
    s.append(name.as_str());
    s.append(": not found");
    s
}

pub fn passed_line(name: &String, ns: u64) -> (r: String)
    ensures
        r@ == passed_line_spec(name@, ns as nat),
{
    let mut s = String::from_str("BenGreen: ");
    s.append(name.as_str());
    s.append(": passed: ");
    let d = u64_to_string(ns);
    s.append(d.as_str());
    s.append(" ns");
    s
}

pub fn failed_line(name: &String, msg: &String) -> (r: String)
    ensures
        r@ == failed_line_spec(name@, msg@),
{
    let mut s = String::from_str("BenGreen: ");
    s.append(name.as_str());
    s.append(": failed: ");
    s.append(msg.as_str());
    s
}

pub fn result_line(name: &String, o: &Outcome) -> (r: String)
    ensures
        r@ == result_line_spec(name@, *o),
{
    match o {
        Outcome::Passed(ns) => passed_line(name, *ns),
        Outcome::Failed(msg) => failed_line(name, msg),
    }
}

} // verus!
