//! The dispatcher: resolves an ordered invocation request against the
//! registry. An unknown name is fatal — nothing after it is attempted and
//! the process exit status is 1; a probe that merely fails is reported and
//! the run continues with exit status 0.

use vstd::prelude::*;
use crate::registry::ProbeId;
use crate::registry::Registry;
use crate::registry::is_default_registry;
use crate::registry::lemma_default_contains_eq;
use crate::registry::lemma_default_lookup_eq;
use crate::report::Outcome;
use crate::report::list_line;
use crate::report::list_line_spec;
use crate::report::result_line_spec;

verus! {

/// What the dispatcher decides to do with one non-empty invocation.
pub struct Plan {
    /// The requested names that resolve, with their probes, in request
    /// order, up to the first unknown name.
    pub to_run: Vec<(String, ProbeId)>,
    /// The first unknown name, if any: dispatch stops there and nothing
    /// after it is attempted.
    pub rejected: Option<String>,
}

/// The names of a request, as sequences of characters.
pub open spec fn names_view(names: Seq<String>) -> Seq<Seq<char>> {
    names.map(|i: int, s: String| s@)
}

/// The resolved prefix of a plan, as (name, probe) pairs over character
/// sequences.
pub open spec fn runs_view(runs: Seq<(String, ProbeId)>) -> Seq<(Seq<char>, ProbeId)> {
    runs.map(|i: int, t: (String, ProbeId)| (t.0@, t.1))
}

pub open spec fn rejected_view(o: Option<String>) -> Option<Seq<char>> {
    match o {
        Some(s) => Some(s@),
        None => None,
    }
}

/// The dispatcher's resolution contract: `runs` is exactly the longest
/// prefix of `names` whose members are all registered, each paired with the
/// probe the registry maps it to; `rejected` is the first unregistered name
/// when one exists.
pub open spec fn plan_matches(
    r: Registry,
    names: Seq<Seq<char>>,
    runs: Seq<(Seq<char>, ProbeId)>,
    rejected: Option<Seq<char>>,
) -> bool {
    &&& (match rejected {
        Some(bad) => {
            &&& runs.len() < names.len()
            &&& bad == names[runs.len() as int]
            &&& !r.contains_name(bad)
        },
        None => runs.len() == names.len(),
    })
    &&& forall|i: int|
        0 <= i < runs.len() ==> #[trigger] runs[i].0 == names[i] && r.spec_lookup(names[i])
            == Some(runs[i].1)
}

/// The process exit status of an invocation: 1 exactly when a requested
/// name was unknown, 0 otherwise — a probe failure never changes it.
pub open spec fn exit_code_spec(rejected: Option<Seq<char>>) -> int {
    if rejected is Some {
        1
    } else {
        0
    }
}

impl Plan {
    pub open spec fn wf_for(self, r: Registry, names: Seq<Seq<char>>) -> bool {
        plan_matches(r, names, runs_view(self.to_run@), rejected_view(self.rejected))
    }

    pub fn exit_code(&self) -> (c: i32)
        ensures
            c == exit_code_spec(rejected_view(self.rejected)),
    {
        match &self.rejected {
            Some(_) => 1,
            None => 0,
        }
    }
}

/// Resolves each requested name in order, stopping at the first unknown
/// one: the fail-fast half of the dispatch policy.
pub fn plan_invocation(r: &Registry, names: &Vec<String>) -> (p: Plan)
    requires
        r.wf(),
    ensures
        p.wf_for(*r, names_view(names@)),
{
    let n = names.len();
    let mut to_run: Vec<(String, ProbeId)> = Vec::new();
    let mut i: usize = 0;
    while i < n
        invariant
            r.wf(),
            n == names@.len(),
            i <= n,
            to_run@.len() == i,
            forall|k: int|
                0 <= k < i ==> (#[trigger] to_run@[k]).0@ == names@[k]@ && r.spec_lookup(
                    names@[k]@,
                ) == Some(to_run@[k].1),
        decreases n - i,
    {
        let name = &names[i];
        match r.lookup(name) {
            Some(probe) => {
                to_run.push((name.clone(), probe));
            },
            None => {
                let p = Plan { to_run, rejected: Some(name.clone()) };
                return p;
            },
        }
        i += 1;
    }
    Plan { to_run, rejected: None }
}

/// The listing view, rendered: one line per registered name, in
/// registration order.
pub fn list_lines(r: &Registry) -> (lines: Vec<String>)
    ensures
        lines@.len() == r.entries@.len(),
        forall|i: int|
            0 <= i < lines@.len() ==> #[trigger] lines@[i]@ == list_line_spec(
                r.entries@[i].name@,
            ),
{
    let names = r.all();
    let n = names.len();
    let mut lines: Vec<String> = Vec::new();
    let mut i: usize = 0;
    while i < n
        invariant
            n == names@.len(),
            names@.len() == r.entries@.len(),
            forall|k: int| 0 <= k < n ==> #[trigger] names@[k]@ == r.entries@[k].name@,
            i <= n,
            lines@.len() == i,
            forall|k: int|
                0 <= k < i ==> #[trigger] lines@[k]@ == list_line_spec(r.entries@[k].name@),
        decreases n - i,
    {
        lines.push(list_line(&names[i]));
        i += 1;
    }
    lines
}

/// The report lines of a run, one per resolved name, given the outcome of
/// each probe in order.
pub open spec fn result_lines_spec(runs: Seq<(Seq<char>, ProbeId)>, outs: Seq<Outcome>) -> Seq<
    Seq<char>,
> {
    Seq::new(runs.len(), |i: int| result_line_spec(runs[i].0, outs[i]))
}

/// An unknown name fails fast: when the first requested name is not
/// registered, the plan runs nothing, rejects exactly that name, and the
/// exit status is 1 — no later name in the same invocation is attempted.
pub proof fn lemma_unknown_name_fails_fast(
    r: Registry,
    names: Seq<Seq<char>>,
    runs: Seq<(Seq<char>, ProbeId)>,
    rejected: Option<Seq<char>>,
)
    requires
        plan_matches(r, names, runs, rejected),
        names.len() >= 1,
        !r.contains_name(names[0]),
    ensures
        runs.len() == 0,
        rejected == Some(names[0]),
        exit_code_spec(rejected) == 1,
{
    if runs.len() > 0 {
        assert(runs[0].0 == names[0]);
        assert(r.spec_lookup(names[0]) == Some(runs[0].1));
        assert(r.contains_name(names[0]));
    }
}

/// Running the same request twice is idempotent: two well-formed registries
/// with the default six entries resolve one request to the same prefix of
/// probes, reject the same name (or none), exit with the same status, and —
/// given the same per-probe outcomes — yield character-for-character the
/// same report lines.
pub proof fn lemma_invocation_idempotent(
    r1: Registry,
    r2: Registry,
    names: Seq<Seq<char>>,
    runs1: Seq<(Seq<char>, ProbeId)>,
    rejected1: Option<Seq<char>>,
    runs2: Seq<(Seq<char>, ProbeId)>,
    rejected2: Option<Seq<char>>,
    outs: Seq<Outcome>,
)
    requires
        r1.wf(),
        r2.wf(),
        is_default_registry(r1),
        is_default_registry(r2),
        plan_matches(r1, names, runs1, rejected1),
        plan_matches(r2, names, runs2, rejected2),
    ensures
        runs1 =~= runs2,
        rejected1 == rejected2,
        exit_code_spec(rejected1) == exit_code_spec(rejected2),
        result_lines_spec(runs1, outs) =~= result_lines_spec(runs2, outs),
{
    if rejected1 is Some && rejected2 is None {
        let k = runs1.len() as int;
        assert(runs2[k].0 == names[k]);
        assert(r2.spec_lookup(names[k]) == Some(runs2[k].1));
        lemma_default_contains_eq(r1, r2, names[k]);
        assert(false);
    }
    if rejected1 is None && rejected2 is Some {
        let k = runs2.len() as int;
        assert(runs1[k].0 == names[k]);
        assert(r1.spec_lookup(names[k]) == Some(runs1[k].1));
        lemma_default_contains_eq(r1, r2, names[k]);
        assert(false);
    }
    if rejected1 is Some && rejected2 is Some {
        if runs1.len() < runs2.len() {
            let k = runs1.len() as int;
            assert(runs2[k].0 == names[k]);
            assert(r2.spec_lookup(names[k]) == Some(runs2[k].1));
            lemma_default_contains_eq(r1, r2, names[k]);
            assert(false);
        }
        if runs2.len() < runs1.len() {
            let k = runs2.len() as int;
            assert(runs1[k].0 == names[k]);
            assert(r1.spec_lookup(names[k]) == Some(runs1[k].1));
            lemma_default_contains_eq(r1, r2, names[k]);
            assert(false);
        }
    }
    assert(runs1.len() == runs2.len());
    assert forall|i: int| 0 <= i < runs1.len() implies runs1[i] == runs2[i] by {
        assert(runs1[i].0 == names[i]);
        assert(runs2[i].0 == names[i]);
        lemma_default_lookup_eq(r1, r2, names[i]);
        assert(Some(runs1[i].1) == Some(runs2[i].1));
    }
    assert forall|i: int|
        0 <= i < runs1.len() implies result_lines_spec(runs1, outs)[i] == result_lines_spec(
        runs2,
        outs,
    )[i] by {
        assert(runs1[i] == runs2[i]);
    }
}

/// An empty invocation runs nothing and exits with status 0: the harness
/// only lists the registered names.
pub proof fn lemma_empty_invocation_lists(
    r: Registry,
    runs: Seq<(Seq<char>, ProbeId)>,
    rejected: Option<Seq<char>>,
)
    requires
        plan_matches(r, Seq::<Seq<char>>::empty(), runs, rejected),
    ensures
        runs.len() == 0,
        rejected is None,
        exit_code_spec(rejected) == 0,
{
}

} // verus!
