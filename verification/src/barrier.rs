//! The readiness barrier: the host waits for one message from every worker
//! before it looks at the CPU sets.

use crate::selector::EndpointSelector;
use crate::sound::{reports_sent, worker_run, WorkerEvent, WorkerState};
use vstd::prelude::*;

verus! {

/// What a barrier has counted: the model that its contracts speak of.
pub struct Tally {
    /// The number of workers waited for.
    pub expected: nat,
    /// The number of messages counted so far.
    pub received: nat,
    /// The number of counted messages that told of success.
    pub succeeded: nat,
}

impl Tally {
    /// The tally of a barrier for `workers` workers before any message.
    pub open spec fn fresh(workers: nat) -> Tally {
        Tally { expected: workers, received: 0, succeeded: 0 }
    }

    /// No more messages are counted than workers are waited for, and no more
    /// successes than messages.
    pub open spec fn well_formed(self) -> bool {
        self.succeeded <= self.received <= self.expected
    }

    /// Every worker has reported.
    pub open spec fn is_open(self) -> bool {
        self.received == self.expected
    }

    /// The tally after one more message. A message that arrives when every
    /// worker has reported is not counted.
    pub open spec fn record(self, success: bool) -> Tally {
        if self.is_open() {
            self
        } else {
            Tally {
                expected: self.expected,
                received: self.received + 1,
                succeeded: if success {
                    self.succeeded + 1
                } else {
                    self.succeeded
                },
            }
        }
    }

    /// The tally after `messages` have arrived in turn.
    pub open spec fn record_all(self, messages: Seq<bool>) -> Tally
        decreases messages.len(),
    {
        if messages.len() == 0 {
            self
        } else {
            self.record(messages[0]).record_all(messages.drop_first())
        }
    }
}

/// Counts the readiness messages of a fixed number of workers.
#[derive(Clone, Copy, Debug, PartialEq, Eq)]
pub struct ReadinessBarrier {
    expected: usize,
    received: usize,
    succeeded: usize,
}

impl View for ReadinessBarrier {
    type V = Tally;

    closed spec fn view(&self) -> Tally {
        Tally {
            expected: self.expected as nat,
            received: self.received as nat,
            succeeded: self.succeeded as nat,
        }
    }
}

impl ReadinessBarrier {
    /// A barrier for `workers` workers, none of which has reported.
    pub fn new(workers: usize) -> (barrier: ReadinessBarrier)
        ensures
            barrier@ == Tally::fresh(workers as nat),
            barrier@.well_formed(),
    {
        ReadinessBarrier { expected: workers, received: 0, succeeded: 0 }
    }

    /// Counts one readiness message and says whether it was awaited. A
    /// message that arrives when every worker has reported is not counted.
    pub fn record(&mut self, success: bool) -> (counted: bool)
        requires
            old(self)@.well_formed(),
        ensures
            final(self)@ == old(self)@.record(success),
            final(self)@.well_formed(),
            counted == !old(self)@.is_open(),
    {
        if self.received < self.expected {
            self.received = self.received + 1;
            if success {
                self.succeeded = self.succeeded + 1;
            }
            true
        } else {
            false
        }
    }

    /// Whether every worker has reported.
    pub fn is_complete(&self) -> (complete: bool)
        ensures
            complete == self@.is_open(),
    {
        self.received == self.expected
    }

    /// The number of workers that have not reported yet.
    pub fn remaining(&self) -> (left: usize)
        requires
            self@.well_formed(),
        ensures
            left == self@.expected - self@.received,
    {
        self.expected - self.received
    }

    /// The number of workers waited for.
    pub fn workers(&self) -> (workers: usize)
        ensures
            workers == self@.expected,
    {
        self.expected
    }

    /// The number of workers that reported success.
    pub fn successes(&self) -> (successes: usize)
        ensures
            successes == self@.succeeded,
    {
        self.succeeded
    }
}

/// The barrier opens with the last awaited message and not before: after
/// `messages`, a barrier has counted as many of them as it still waited for,
/// and it is open exactly when at least that many have arrived. What the
/// messages say does not matter, and the tally stays well formed.
pub proof fn lemma_barrier_opens_after_all(tally: Tally, messages: Seq<bool>)
    requires
        tally.well_formed(),
    ensures
        tally.record_all(messages).well_formed(),
        tally.record_all(messages).expected == tally.expected,
        tally.record_all(messages).received == if messages.len() <= tally.expected
            - tally.received {
            tally.received + messages.len()
        } else {
            tally.expected
        },
        tally.record_all(messages).is_open() <==> messages.len() >= tally.expected
            - tally.received,
    decreases messages.len(),
{
    if messages.len() > 0 {
        lemma_barrier_opens_after_all(tally.record(messages[0]), messages.drop_first());
    }
}

/// The number of readiness messages that workers started on `selectors` send
/// while worker `i` receives the outcomes `outcomes[i]`.
pub open spec fn messages_sent(
    selectors: Seq<EndpointSelector>,
    outcomes: Seq<Seq<WorkerEvent>>,
) -> nat
    decreases selectors.len(),
{
    if selectors.len() == 0 || outcomes.len() == 0 {
        0
    } else {
        reports_sent(WorkerState::Start { selector: selectors.last() }, outcomes.last())
            + messages_sent(selectors.drop_last(), outcomes.drop_last())
    }
}

/// However many workers there are and whatever each of them meets, once all
/// have finished the readiness channel holds one message per worker: as many
/// as a barrier made for them waits for.
pub proof fn lemma_one_message_per_worker(
    selectors: Seq<EndpointSelector>,
    outcomes: Seq<Seq<WorkerEvent>>,
)
    requires
        outcomes.len() == selectors.len(),
        forall|i: int|
            0 <= i < selectors.len() ==> (#[trigger] worker_run(
                WorkerState::Start { selector: selectors[i] },
                outcomes[i],
            )).is_final(),
    ensures
        messages_sent(selectors, outcomes) == selectors.len(),
    decreases selectors.len(),
{
    if selectors.len() > 0 {
        let last = selectors.len() - 1;
        crate::sound::lemma_worker_reports_exactly_once(
            WorkerState::Start { selector: selectors[last] },
            outcomes[last],
        );
        assert forall|i: int| 0 <= i < selectors.drop_last().len() implies (#[trigger] worker_run(
            WorkerState::Start { selector: selectors.drop_last()[i] },
            outcomes.drop_last()[i],
        )).is_final() by {
            assert(selectors.drop_last()[i] == selectors[i]);
            assert(outcomes.drop_last()[i] == outcomes[i]);
        }
        lemma_one_message_per_worker(selectors.drop_last(), outcomes.drop_last());
    }
}

} // verus!
