//! Transition tracking: decides when a rising edge from out-of-stock
//! to in-stock has happened, so that a notification fires exactly once
//! per transition.

use vstd::prelude::*;

verus! {

/// A notification is owed exactly on a rising edge: the product is in
/// stock now and was not at the previous observation.
pub open spec fn spec_should_notify(previous: bool, current: bool) -> bool {
    current && !previous
}

/// Decide whether a notification should fire for this cycle.
pub fn should_notify(previous: bool, current: bool) -> (r: bool)
    ensures
        r == spec_should_notify(previous, current),
{
    current && !previous
}

/// Per-site monitor state: the last observed stock state.
///
/// It starts at `false` ("not in stock, or unknown"), so a site that is
/// already in stock on the very first observation does notify: the
/// cold-start observation is treated like any other rising edge.
pub struct MonitorState {
    pub currently_in_stock: bool,
}

impl MonitorState {
    /// A fresh monitor has seen nothing, which counts as out of stock.
    pub fn new() -> (r: MonitorState)
        ensures
            !r.currently_in_stock,
    {
        MonitorState { currently_in_stock: false }
    }

    /// Record one observation. Returns whether a notification should
    /// fire, and always tracks the latest observed value, whether or
    /// not one fired.
    pub fn observe(&mut self, current: bool) -> (notify: bool)
        ensures
            final(self).currently_in_stock == current,
            notify == spec_should_notify(old(self).currently_in_stock, current),
    {
        let notify = should_notify(self.currently_in_stock, current);
        self.currently_in_stock = current;
        notify
    }
}

/// The monitor state after a run of observations, starting from `init`:
/// the last observation, or `init` when there was none.
pub open spec fn spec_run_state(init: bool, observations: Seq<bool>) -> bool {
    if observations.len() == 0 {
        init
    } else {
        observations.last()
    }
}

/// How many notifications a run of observations fires, starting from
/// state `init` and updating the state after every observation.
pub open spec fn spec_notify_count(init: bool, observations: Seq<bool>) -> nat
    decreases observations.len(),
{
    if observations.len() == 0 {
        0
    } else {
        spec_notify_count(init, observations.drop_last()) + (if spec_should_notify(
            spec_run_state(init, observations.drop_last()),
            observations.last(),
        ) {
            1nat
        } else {
            0nat
        })
    }
}

/// Repeated cycles that observe the same stock state never re-notify
/// after the first rising edge: a run of identical observations fires
/// exactly one notification when it begins with a rising edge, and none
/// otherwise.
pub proof fn lemma_unchanged_observations_notify_at_most_once(
    init: bool,
    observations: Seq<bool>,
    v: bool,
)
    requires
        forall|i: int| 0 <= i < observations.len() ==> observations[i] == v,
    ensures
        spec_notify_count(init, observations) == if observations.len() > 0
            && spec_should_notify(init, v) {
            1nat
        } else {
            0nat
        },
    decreases observations.len(),
{
    if observations.len() > 0 {
        let head = observations.drop_last();
        assert(forall|i: int| 0 <= i < head.len() ==> head[i] == v);
        lemma_unchanged_observations_notify_at_most_once(init, head, v);
        assert(observations.last() == v);
    }
}

} // verus!
