//! The labels of the service's counters.

use vstd::prelude::*;

verus! {

/// What a counter counts.
#[derive(Clone, Copy, Debug, PartialEq, Eq, Structural)]
pub enum Action {
    NewSubscriber,
}

/// The label set of a counter.
#[derive(Clone, Copy, Debug, PartialEq, Eq, Structural)]
pub struct CounterLabels {
    pub action: Action,
}

/// The labels of the new-subscriber counter.
pub fn new_subscriber_labels() -> (l: CounterLabels)
    ensures
        l.action == Action::NewSubscriber,
{
    CounterLabels { action: Action::NewSubscriber }
}

} // verus!
