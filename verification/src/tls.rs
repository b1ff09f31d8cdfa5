//! The thread-local storage probe's model and judgement: a per-thread
//! storage cell with a declared initial value, whose view from a freshly
//! spawned thread is independent of every other thread's mutations, and
//! the checks the probe runs over the values it observes.

use vstd::prelude::*;

verus! {

/// The declared initial value of the non-zero cell.
pub const TLS_DATA_INITIAL: u64 = 0xFFFFFFFFFFFFFFFF;

/// A thread-local storage cell as one thread sees it: the declared
/// per-thread initial value, and the value this thread's own copy holds.
#[derive(PartialEq, Eq, Structural, Clone, Copy, Debug)]
pub struct TlsCell {
    /// The value every freshly spawned thread observes first.
    pub initial: u64,
    /// The value the owning thread currently sees.
    pub value: u64,
}

/// The view a freshly spawned thread gets of a cell: its declared initial
/// value, whatever any other thread has done to its own copy.
pub open spec fn spec_fresh_view(c: TlsCell) -> TlsCell {
    TlsCell { initial: c.initial, value: c.initial }
}

impl TlsCell {
    /// Declares a cell: the declaring thread, too, first sees the initial
    /// value.
    pub fn declare(initial: u64) -> (c: TlsCell)
        ensures
            c.initial == initial,
            c.value == initial,
    {
        TlsCell { initial, value: initial }
    }

    /// The cell as a freshly spawned thread sees it.
    pub fn fresh_view(&self) -> (c: TlsCell)
        ensures
            c == spec_fresh_view(*self),
    {
        TlsCell { initial: self.initial, value: self.initial }
    }

    pub fn get(&self) -> (v: u64)
        ensures
            v == self.value,
    {
        self.value
    }

    pub fn increment(&mut self)
        requires
            old(self).value < u64::MAX,
        ensures
            final(self).initial == old(self).initial,
            final(self).value == old(self).value + 1,
    {
        self.value = self.value + 1;
    }

    pub fn decrement(&mut self)
        requires
            old(self).value > 0,
        ensures
            final(self).initial == old(self).initial,
            final(self).value == old(self).value - 1,
    {
        self.value = self.value - 1;
    }
}

/// Isolation law: the view a freshly spawned thread gets of a cell is its
/// declared initial value, whatever value any other thread's copy was
/// mutated to — two cells differing only in another thread's value give
/// the same fresh view.
pub proof fn lemma_tls_isolation(c: TlsCell, mutated: u64)
    ensures
        spec_fresh_view(c).value == c.initial,
        spec_fresh_view(TlsCell { initial: c.initial, value: mutated }) == spec_fresh_view(c),
{
}

/// The values the probe observes in one thread: each cell before and after
/// its mutation.
#[derive(PartialEq, Eq, Structural, Clone, Copy, Debug)]
pub struct TlsObservations {
    pub zero_before: u64,
    pub zero_after_increment: u64,
    pub data_before: u64,
    pub data_after_decrement: u64,
}

/// Every expectation of the probe: the zero cell starts at 0 and
/// increments to 1; the non-zero cell starts at its declared initial value
/// and decrements by one.
pub open spec fn tls_observations_ok(o: TlsObservations) -> bool {
    &&& o.zero_before == 0
    &&& o.zero_after_increment == 1
    &&& o.data_before == TLS_DATA_INITIAL
    &&& o.data_after_decrement == TLS_DATA_INITIAL - 1
}

/// The first violated expectation, as the probe's failure message.
pub open spec fn tls_err_spec(o: TlsObservations) -> Seq<char> {
    if o.zero_before != 0 {
        "TLS zero cell did not start at 0"@
    } else if o.zero_after_increment != 1 {
        "TLS zero cell increment did not round-trip"@
    } else if o.data_before != TLS_DATA_INITIAL {
        "TLS data cell did not start at its declared value"@
    } else {
        "TLS data cell decrement did not round-trip"@
    }
}

/// Judges one thread's observations: succeeds exactly when every declared
/// initial value was seen and increment and decrement round-tripped.
pub fn judge_tls_observations(o: &TlsObservations) -> (r: Result<(), String>)
    ensures
        r is Ok <==> tls_observations_ok(*o),
        r matches Err(m) ==> m@ == tls_err_spec(*o),
{
    if o.zero_before != 0 {
        Err(String::from_str("TLS zero cell did not start at 0"))
    } else if o.zero_after_increment != 1 {
        Err(String::from_str("TLS zero cell increment did not round-trip"))
    } else if o.data_before != TLS_DATA_INITIAL {
        Err(String::from_str("TLS data cell did not start at its declared value"))
    } else if o.data_after_decrement != TLS_DATA_INITIAL - 1 {
        Err(String::from_str("TLS data cell decrement did not round-trip"))
    } else {
        Ok(())
    }
}

/// Runs the probe's whole sequence over the model: declare both cells,
/// take the view a fresh thread gets — after the declaring thread has
/// mutated its own copies — and record the observations. The isolation
/// guarantee makes every expectation hold.
pub fn tls_model_observations() -> (o: TlsObservations)
    ensures
        tls_observations_ok(o),
{
    let mut zero = TlsCell::declare(0);
    let mut data = TlsCell::declare(TLS_DATA_INITIAL);
    zero.increment();
    data.decrement();
    let mut worker_zero = zero.fresh_view();
    let mut worker_data = data.fresh_view();
    let zero_before = worker_zero.get();
    worker_zero.increment();
    let zero_after_increment = worker_zero.get();
    let data_before = worker_data.get();
    worker_data.decrement();
    let data_after_decrement = worker_data.get();
    TlsObservations { zero_before, zero_after_increment, data_before, data_after_decrement }
}

} // verus!
