//! The test registry: an ordered mapping from probe name to probe, built
//! once at startup and read-only thereafter. Entry order is the order of
//! registration and matters only for the listing view; no two entries share
//! a name.

use vstd::prelude::*;

verus! {

/// One of the six diagnostic probes the harness knows how to run.
#[derive(PartialEq, Eq, Structural, Clone, Copy, Debug)]
pub enum ProbeId {
    CreateTest,
    PageFault,
    Switch,
    TcpFin,
    Thread,
    Tls,
}

/// One registry entry: a probe's name and the probe it resolves to.
pub struct Entry {
    pub name: String,
    pub probe: ProbeId,
}

/// The ordered name-to-probe table.
pub struct Registry {
    pub entries: Vec<Entry>,
}

impl Registry {
    /// The registered names, in registration order.
    pub open spec fn names(self) -> Seq<Seq<char>> {
        self.entries@.map(|i: int, e: Entry| e.name@)
    }

    /// No two entries share a name.
    pub open spec fn wf(self) -> bool {
        forall|i: int, j: int|
            0 <= i < j < self.entries@.len() ==> self.entries@[i].name@ != self.entries@[j].name@
    }

    /// Whether some entry is registered under `n`.
    pub open spec fn contains_name(self, n: Seq<char>) -> bool {
        exists|i: int| 0 <= i < self.entries@.len() && self.entries@[i].name@ == n
    }

    /// The position of the entry registered under `n`, when one exists.
    pub open spec fn index_of(self, n: Seq<char>) -> int {
        choose|i: int| 0 <= i < self.entries@.len() && self.entries@[i].name@ == n
    }

    /// The probe registered under `n`, if any: the mathematical meaning of
    /// `lookup`.
    pub open spec fn spec_lookup(self, n: Seq<char>) -> Option<ProbeId> {
        if self.contains_name(n) {
            Some(self.entries@[self.index_of(n)].probe)
        } else {
            None
        }
    }

    pub fn new() -> (r: Registry)
        ensures
            r.wf(),
            r.entries@.len() == 0,
    {
        Registry { entries: Vec::new() }
    }

    /// Appends `(name, probe)`; refuses a name already present, leaving the
    /// registry unchanged.
    pub fn register(&mut self, name: String, probe: ProbeId) -> (r: bool)
        requires
            old(self).wf(),
        ensures
            final(self).wf(),
            r == !old(self).contains_name(name@),
            r ==> final(self).entries@ == old(self).entries@.push((Entry { name, probe })),
            !r ==> final(self).entries@ == old(self).entries@,
    {
        let n = self.entries.len();
        let mut i: usize = 0;
        while i < n
            invariant
                self.wf(),
                n == self.entries@.len(),
                i <= n,
                forall|k: int| 0 <= k < i ==> self.entries@[k].name@ != name@,
            decreases n - i,
        {
            if self.entries[i].name == name {
                return false;
            }
            i += 1;
        }
        self.entries.push(Entry { name, probe });
        true
    }

    /// Exact, case-sensitive lookup.
    pub fn lookup(&self, name: &String) -> (r: Option<ProbeId>)
        requires
            self.wf(),
        ensures
            r == self.spec_lookup(name@),
    {
        let n = self.entries.len();
        let mut i: usize = 0;
        while i < n
            invariant
                self.wf(),
                n == self.entries@.len(),
                i <= n,
                forall|k: int| 0 <= k < i ==> self.entries@[k].name@ != name@,
            decreases n - i,
        {
            if self.entries[i].name == *name {
                return Some(self.entries[i].probe);
            }
            i += 1;
        }
        None
    }

    /// Every registered name, in registration order: the listing view.
    pub fn all(&self) -> (r: Vec<String>)
        ensures
            r@.len() == self.entries@.len(),
            forall|i: int| 0 <= i < r@.len() ==> r@[i]@ == self.entries@[i].name@,
    {
        let n = self.entries.len();
        let mut out: Vec<String> = Vec::new();
        let mut i: usize = 0;
        while i < n
            invariant
                n == self.entries@.len(),
                i <= n,
                out@.len() == i,
                forall|k: int| 0 <= k < i ==> out@[k]@ == self.entries@[k].name@,
            decreases n - i,
        {
            out.push(self.entries[i].name.clone());
            i += 1;
        }
        out
    }
}

/// The six probes of this harness, under their fixed names, in listing
/// order.
pub open spec fn is_default_registry(r: Registry) -> bool {
    &&& r.entries@.len() == 6
    &&& r.entries@[0].name@ == "create_test"@
    &&& r.entries@[0].probe == ProbeId::CreateTest
    &&& r.entries@[1].name@ == "page_fault"@
    &&& r.entries@[1].probe == ProbeId::PageFault
    &&& r.entries@[2].name@ == "switch"@
    &&& r.entries@[2].probe == ProbeId::Switch
    &&& r.entries@[3].name@ == "tcp_fin"@
    &&& r.entries@[3].probe == ProbeId::TcpFin
    &&& r.entries@[4].name@ == "thread"@
    &&& r.entries@[4].probe == ProbeId::Thread
    &&& r.entries@[5].name@ == "tls"@
    &&& r.entries@[5].probe == ProbeId::Tls
}

/// Builds the harness's registry: the six probes in their listing order.
pub fn build_registry() -> (r: Registry)
    ensures
        r.wf(),
        is_default_registry(r),
{
    proof {
        reveal_strlit("create_test");
        reveal_strlit("page_fault");
        reveal_strlit("switch");
        reveal_strlit("tcp_fin");
        reveal_strlit("thread");
        reveal_strlit("tls");
        assert("switch"@.index(0) == 's');
        assert("thread"@.index(0) == 't');
        assert("switch"@ != "thread"@);
    }
    let mut r = Registry::new();
    r.register(String::from_str("create_test"), ProbeId::CreateTest);
    proof {
        assert(r.entries@.len() == 1);
        assert(r.entries@[0].name@ == "create_test"@);
    }
    r.register(String::from_str("page_fault"), ProbeId::PageFault);
    proof {
        assert(r.entries@.len() == 2);
        assert(r.entries@[1].name@ == "page_fault"@);
    }
    r.register(String::from_str("switch"), ProbeId::Switch);
    proof {
        assert(r.entries@.len() == 3);
        assert(r.entries@[2].name@ == "switch"@);
    }
    r.register(String::from_str("tcp_fin"), ProbeId::TcpFin);
    proof {
        assert(r.entries@.len() == 4);
        assert(r.entries@[3].name@ == "tcp_fin"@);
    }
    r.register(String::from_str("thread"), ProbeId::Thread);
    proof {
        assert(r.entries@.len() == 5);
        assert(r.entries@[4].name@ == "thread"@);
    }
    r.register(String::from_str("tls"), ProbeId::Tls);
    proof {
        assert(r.entries@.len() == 6);
        assert(r.entries@[5].name@ == "tls"@);
    }
    r
}

/// Building the registry twice yields the same names: any two registries
/// with the default six entries list identical names in identical order.
pub proof fn lemma_default_names_eq(r1: Registry, r2: Registry)
    requires
        is_default_registry(r1),
        is_default_registry(r2),
    ensures
        r1.names() =~= r2.names(),
{
    assert forall|i: int| 0 <= i < 6 implies r1.names()[i] == r2.names()[i] by {
        assert(r1.names()[i] == r1.entries@[i].name@);
        assert(r2.names()[i] == r2.entries@[i].name@);
    }
}

/// Name membership is the same in any two registries with the default six
/// entries.
pub proof fn lemma_default_contains_eq(r1: Registry, r2: Registry, n: Seq<char>)
    requires
        is_default_registry(r1),
        is_default_registry(r2),
    ensures
        r1.contains_name(n) == r2.contains_name(n),
{
    if r1.contains_name(n) {
        let i = choose|i: int| 0 <= i < r1.entries@.len() && r1.entries@[i].name@ == n;
        assert(r2.entries@[i].name@ == n);
        assert(r2.contains_name(n));
    }
    if r2.contains_name(n) {
        let i = choose|i: int| 0 <= i < r2.entries@.len() && r2.entries@[i].name@ == n;
        assert(r1.entries@[i].name@ == n);
        assert(r1.contains_name(n));
    }
}

/// Lookup resolves every name to the same probe in any two well-formed
/// registries with the default six entries.
pub proof fn lemma_default_lookup_eq(r1: Registry, r2: Registry, n: Seq<char>)
    requires
        r1.wf(),
        r2.wf(),
        is_default_registry(r1),
        is_default_registry(r2),
    ensures
        r1.spec_lookup(n) == r2.spec_lookup(n),
{
    lemma_default_contains_eq(r1, r2, n);
    if r1.contains_name(n) {
        let i1 = r1.index_of(n);
        let i2 = r2.index_of(n);
        assert(0 <= i1 < 6 && r1.entries@[i1].name@ == n);
        assert(0 <= i2 < 6 && r2.entries@[i2].name@ == n);
        assert(r2.entries@[i1].name@ == n);
        if i1 != i2 {
            assert(r2.entries@[i1].name@ == r2.entries@[i2].name@);
            assert(false);
        }
        assert(r1.entries@[i1].probe == r2.entries@[i2].probe);
    }
}

} // verus!
