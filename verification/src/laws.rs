//! What holds of the order on timestamps and of the timestamps that a clock
//! issues, call after call.

use crate::timespec::{HLTimespec, Timespec};
use std::cmp::Ordering;
use vstd::prelude::*;
use vstd::std_specs::cmp::PartialOrdSpec;

verus! {

/// One call on a clock: the reading that the source of physical time gave,
/// and the event that was received, if the call was for one.
pub struct Step {
    pub physical: Timespec,
    pub event: Option<HLTimespec>,
}

impl Step {
    /// The timestamp that a clock standing at `prior` issues for this call.
    pub open spec fn issue(self, prior: HLTimespec) -> HLTimespec {
        match self.event {
            None => prior.ticked(self.physical),
            Some(event) => prior.merged(self.physical, event),
        }
    }

    /// Whether this call wraps the logical counter of a clock standing at
    /// `prior`.
    pub open spec fn wraps(self, prior: HLTimespec) -> bool {
        match self.event {
            None => prior.tick_wraps(self.physical),
            Some(event) => prior.merge_wraps(self.physical, event),
        }
    }
}

/// Where the clock stands before call `i`: at `start` before the first call,
/// else at the result of the call before.
pub open spec fn standing(start: HLTimespec, results: Seq<HLTimespec>, i: int) -> HLTimespec {
    if i <= 0 {
        start
    } else {
        results[i - 1]
    }
}

/// `results` are the timestamps that a clock standing at `start` issues for
/// the calls `steps`, in order.
pub open spec fn issued(start: HLTimespec, steps: Seq<Step>, results: Seq<HLTimespec>) -> bool {
    &&& results.len() == steps.len()
    &&& forall|i: int|
        0 <= i < steps.len() ==> #[trigger] results[i] == steps[i].issue(
            standing(start, results, i),
        )
}

/// No call among `steps` wraps the logical counter.
pub open spec fn none_wraps(start: HLTimespec, steps: Seq<Step>, results: Seq<HLTimespec>) -> bool {
    forall|i: int| 0 <= i < steps.len() ==> !(#[trigger] steps[i]).wraps(standing(start, results, i))
}

/// Wall times are totally ordered: of two, exactly one is earlier, or they
/// are equal; and earlier-than carries over a third.
pub proof fn lemma_wall_order_total(a: Timespec, b: Timespec, c: Timespec)
    ensures
        !a.precedes(a),
        a.precedes(b) || b.precedes(a) || a == b,
        !(a.precedes(b) && b.precedes(a)),
        a.precedes(b) && b.precedes(c) ==> a.precedes(c),
{
}

/// Timestamps are totally ordered: of two, exactly one is earlier, or they
/// are equal; and earlier-than carries over a third.
pub proof fn lemma_order_total(a: HLTimespec, b: HLTimespec, c: HLTimespec)
    ensures
        !a.precedes(a),
        a.precedes(b) || b.precedes(a) || a == b,
        !(a.precedes(b) && b.precedes(a)),
        a.precedes(b) && b.precedes(c) ==> a.precedes(c),
{
}

/// Timestamps of different wall times are ordered as their wall times are;
/// timestamps of one wall time are ordered as their logical counters are.
pub proof fn lemma_order_lexicographic(a: HLTimespec, b: HLTimespec)
    ensures
        a.wall != b.wall ==> (a.precedes(b) <==> a.wall.precedes(b.wall)),
        a.wall == b.wall ==> (a.precedes(b) <==> a.logical < b.logical),
{
}

/// The operators `<`, `<=`, `>` and `>=` on timestamps decide this order.
pub proof fn lemma_operators_decide_order(a: HLTimespec, b: HLTimespec)
    ensures
        a.partial_cmp_spec(&b) == Some(a.order(b)),
        a.order(b) == Ordering::Less <==> a.precedes(b),
        a.order(b) == Ordering::Greater <==> b.precedes(a),
        a.order(b) == Ordering::Equal <==> a == b,
{
}

/// A timestamp issued for a local event exceeds the one before it, whatever
/// the physical clock reads, exactly when the logical counter does not wrap.
pub proof fn lemma_tick_exceeds_prior(prior: HLTimespec, physical: Timespec)
    ensures
        prior.precedes(prior.ticked(physical)) <==> !prior.tick_wraps(physical),
{
}

/// A timestamp issued on receiving an event exceeds both the one before it
/// and the event, whatever the physical clock reads, exactly when the logical
/// counter does not wrap.
pub proof fn lemma_merge_exceeds_both(prior: HLTimespec, physical: Timespec, event: HLTimespec)
    ensures
        (prior.precedes(prior.merged(physical, event)) && event.precedes(
            prior.merged(physical, event),
        )) <==> !prior.merge_wraps(physical, event),
{
}

/// Over any calls on one clock of which none wraps the logical counter, each
/// timestamp issued exceeds the clock's starting point and every timestamp
/// issued before it.
pub proof fn lemma_issued_increasing(
    start: HLTimespec,
    steps: Seq<Step>,
    results: Seq<HLTimespec>,
    i: int,
    j: int,
)
    requires
        issued(start, steps, results),
        none_wraps(start, steps, results),
        0 <= i < j < steps.len(),
    ensures
        start.precedes(results[i]),
        results[i].precedes(results[j]),
    decreases j,
{
    lemma_step_exceeds_standing(start, steps, results, j);
    if i + 1 < j {
        lemma_issued_increasing(start, steps, results, i, j - 1);
        lemma_order_total(results[i], results[j - 1], results[j]);
    } else {
        lemma_step_exceeds_standing(start, steps, results, i);
        if i > 0 {
            lemma_issued_increasing(start, steps, results, i - 1, i);
        }
    }
}

/// A call that does not wrap the logical counter issues a timestamp that
/// exceeds where the clock stood.
proof fn lemma_step_exceeds_standing(
    start: HLTimespec,
    steps: Seq<Step>,
    results: Seq<HLTimespec>,
    i: int,
)
    requires
        issued(start, steps, results),
        none_wraps(start, steps, results),
        0 <= i < steps.len(),
    ensures
        standing(start, results, i).precedes(results[i]),
{
    let prior = standing(start, results, i);
    assert(results[i] == steps[i].issue(prior));
    assert(!steps[i].wraps(prior));
    match steps[i].event {
        None => lemma_tick_exceeds_prior(prior, steps[i].physical),
        Some(event) => lemma_merge_exceeds_both(prior, steps[i].physical, event),
    }
}

/// The timestamps issued are a function of the starting point, the readings
/// of the physical clock and the events received: two clocks that start
/// alike and are given the same calls issue the same timestamps.
pub proof fn lemma_issued_deterministic(
    start: HLTimespec,
    steps: Seq<Step>,
    first: Seq<HLTimespec>,
    second: Seq<HLTimespec>,
)
    requires
        issued(start, steps, first),
        issued(start, steps, second),
    ensures
        first == second,
{
    assert forall|i: int| 0 <= i < steps.len() implies first[i] == second[i] by {
        lemma_issued_agree(start, steps, first, second, i);
    }
    assert(first =~= second);
}

proof fn lemma_issued_agree(
    start: HLTimespec,
    steps: Seq<Step>,
    first: Seq<HLTimespec>,
    second: Seq<HLTimespec>,
    i: int,
)
    requires
        issued(start, steps, first),
        issued(start, steps, second),
        0 <= i < steps.len(),
    ensures
        first[i] == second[i],
    decreases i,
{
    if i > 0 {
        lemma_issued_agree(start, steps, first, second, i - 1);
    }
    assert(first[i] == steps[i].issue(standing(start, first, i)));
    assert(second[i] == steps[i].issue(standing(start, second, i)));
}

} // verus!
