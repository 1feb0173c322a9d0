//! A cooperative stop signal shared between the client and the render worker.
use vstd::prelude::*;
use std::sync::Arc;
use atomic_counter::AtomicCounter;
use atomic_counter::RelaxedCounter;

verus! {

#[verifier::external_type_specification]
#[verifier::external_body]
pub struct ExRelaxedCounter(RelaxedCounter);

/// Relies on atomic_counter::RelaxedCounter::new, which makes a counter
/// holding the given count.
#[verifier::external_body]
fn counter_new(initial: usize) -> (r: RelaxedCounter) {
    RelaxedCounter::new(initial)
}

/// Relies on AtomicCounter::get for RelaxedCounter, a relaxed load. Any
/// thread may change the count at any time, so nothing is promised of it.
#[verifier::external_body]
pub(crate) fn counter_get(c: &RelaxedCounter) -> (r: usize) {
    c.get()
}

/// Relies on AtomicCounter::add for RelaxedCounter, a relaxed wrapping
/// `fetch_add`. What it returns depends on other threads: nothing is promised.
#[verifier::external_body]
fn counter_add(c: &RelaxedCounter, amount: usize) {
    c.add(amount);
}

/// The sum of two counts with wrap-around, as the counter adds.
pub open spec fn wrapping_sum(a: usize, b: usize) -> usize {
    if a as int + b as int > usize::MAX as int {
        (a as int + b as int - usize::MAX as int - 1) as usize
    } else {
        (a as int + b as int) as usize
    }
}

/// A render armed at `baseline` is cancelled once the count has moved away
/// from it.
pub fn cancelled_since(baseline: usize, current: usize) -> (r: bool)
    ensures
        r == (current != baseline),
{
    current != baseline
}

/// The amount that, added to `current` with wrap-around, brings the count back
/// to `baseline`.
pub fn drain_amount(baseline: usize, current: usize) -> (r: usize)
    ensures
        wrapping_sum(current, r) == baseline,
        current == baseline ==> r == 0,
{
    if baseline >= current {
        let r: usize = baseline - current;
        assert(wrapping_sum(current, r) == baseline);
        r
    } else {
        let r: usize = usize::MAX - (current - baseline) + 1;
        assert(current as int + r as int == baseline as int + usize::MAX as int + 1);
        assert(wrapping_sum(current, r) == baseline);
        r
    }
}

/// A monotonically incremented counter used as a cooperative stop signal.
/// Clones share the same counter.
pub struct CancellationToken {
    counter: Arc<RelaxedCounter>,
}

impl CancellationToken {
    /// A token whose count starts at zero.
    pub fn new() -> (r: CancellationToken) {
        CancellationToken { counter: Arc::new(counter_new(0)) }
    }

    /// Another handle on the same counter.
    pub fn share(&self) -> (r: CancellationToken) {
        CancellationToken { counter: self.counter.clone() }
    }

    /// The shared counter itself, for a renderer that polls it directly.
    pub fn shared_counter(&self) -> (r: Arc<RelaxedCounter>) {
        self.counter.clone()
    }

    /// Asks a running render to stop at its next checkpoint. Safe from any
    /// thread, any number of times.
    pub fn request_cancel(&self) {
        counter_add(&self.counter, 1);
    }

    /// Captures the current count as the baseline of a render about to start.
    pub fn arm(&self) -> (r: usize) {
        counter_get(&self.counter)
    }

    /// Whether the count has moved since `baseline` was captured.
    pub fn is_cancelled(&self, baseline: usize) -> (r: bool) {
        let current = counter_get(&self.counter);
        cancelled_since(baseline, current)
    }

    /// Returns the count to `baseline` with wrap-around, so that a cancel
    /// already observed does not reach the next render.
    pub fn drain(&self, baseline: usize) {
        let current = counter_get(&self.counter);
        let amount = drain_amount(baseline, current);
        if amount != 0 {
            counter_add(&self.counter, amount);
        }
    }
}

} // verus!
