//! What becomes of the messages that are sent to the workers: the query of each is run once,
//! by one of them.
use vstd::multiset::Multiset;
use vstd::prelude::*;
use crate::action::{Reply, Request};
use crate::flow::Flow;
use crate::query::{Msg, MsgView};
use crate::runner::crew::{Worker, WorkerStage};

verus! {

/// The scheduler, the channel and the workers at one time.
pub struct Traffic {
    /// The messages that the scheduler has yet to send.
    pub pending: Seq<Msg>,
    /// How many messages the channel can hold.
    pub capacity: nat,
    /// The messages in the channel.
    pub queue: Seq<Msg>,
    pub workers: Seq<Worker>,
    /// The messages that have been taken from the channel, in their order.
    pub taken: Seq<Msg>,
    /// The messages whose queries have been run, in their order.
    pub executed: Seq<MsgView>,
}

/// One thing that happens next.
pub enum Step {
    /// The scheduler sends a message.
    Send,
    /// The worker with this number gets the reply to its request.
    Answer { worker: int, reply: Reply },
}

/// The messages with their strings taken by their characters.
pub open spec fn msg_views(messages: Seq<Msg>) -> Seq<MsgView> {
    messages.map_values(|msg: Msg| msg@)
}

impl Traffic {
    /// Whether nothing has happened yet.
    pub open spec fn is_fresh(self) -> bool {
        &&& self.queue == Seq::<Msg>::empty()
        &&& self.taken == Seq::<Msg>::empty()
        &&& self.executed == Seq::<MsgView>::empty()
        &&& forall|i: int|
            0 <= i < self.workers.len() ==> (#[trigger] self.workers[i]).stage is Receiving
    }

    /// Whether every worker has ended.
    pub open spec fn has_ended(self) -> bool {
        forall|i: int| 0 <= i < self.workers.len() ==> (#[trigger] self.workers[i]).stage is Ended
    }

    /// Whether the step can happen. A full channel takes no message. A channel gives the
    /// message that it has had longest; an empty one gives nothing until all are sent, and
    /// then says that it is closed. A query succeeds or fails.
    pub open spec fn allows(self, step: Step) -> bool {
        match step {
            Step::Send => self.pending.len() > 0 && self.queue.len() < self.capacity,
            Step::Answer { worker, reply } => 0 <= worker < self.workers.len()
                && match self.workers[worker].request() {
                Some(Request::Receive) => if self.queue.len() > 0 {
                    reply == Reply::Received(self.queue[0])
                } else {
                    reply == Reply::End && self.pending.len() == 0
                },
                Some(Request::ExecuteReceived { vendor, worker_id, msg, simulate }) => reply is Done
                    || reply is Failed,
                Some(_) => reply is Done,
                None => false,
            },
        }
    }

    /// What is after the step.
    pub open spec fn after(self, step: Step) -> Traffic {
        match step {
            Step::Send => Traffic {
                pending: self.pending.drop_first(),
                queue: self.queue.push(self.pending[0]),
                ..self
            },
            Step::Answer { worker, reply } => {
                let workers = self.workers.update(worker, self.workers[worker].after(reply));
                match self.workers[worker].request() {
                    Some(Request::Receive) => if self.queue.len() > 0 {
                        Traffic {
                            queue: self.queue.drop_first(),
                            workers,
                            taken: self.taken.push(self.queue[0]),
                            ..self
                        }
                    } else {
                        Traffic { workers, ..self }
                    },
                    Some(Request::ExecuteReceived { vendor, worker_id, msg, simulate }) => Traffic {
                        workers,
                        executed: self.executed.push(msg),
                        ..self
                    },
                    _ => Traffic { workers, ..self },
                }
            },
        }
    }

    /// Whether the steps can happen one after the other.
    pub open spec fn allows_all(self, steps: Seq<Step>) -> bool
        decreases steps.len(),
    {
        steps.len() == 0 || {
            &&& self.allows(steps[0])
            &&& self.after(steps[0]).allows_all(steps.drop_first())
        }
    }

    /// What is after the steps.
    pub open spec fn after_all(self, steps: Seq<Step>) -> Traffic
        decreases steps.len(),
    {
        if steps.len() == 0 {
            self
        } else {
            self.after(steps[0]).after_all(steps.drop_first())
        }
    }
}

// ---------------------------------------------------------------------------
// What the workers hold

/// The message that a worker has taken and whose query it has yet to run.
spec fn held_by(worker: Worker) -> Multiset<MsgView> {
    match worker.stage {
        WorkerStage::Executing(msg) => Multiset::singleton(msg@),
        _ => Multiset::empty(),
    }
}

spec fn held(workers: Seq<Worker>) -> Multiset<MsgView>
    decreases workers.len(),
{
    if workers.len() == 0 {
        Multiset::empty()
    } else {
        held(workers.drop_last()).add(held_by(workers.last()))
    }
}

proof fn lemma_held_update(workers: Seq<Worker>, i: int, worker: Worker)
    requires
        0 <= i < workers.len(),
    ensures
        held(workers.update(i, worker)).add(held_by(workers[i])) =~= held(workers).add(
            held_by(worker),
        ),
    decreases workers.len(),
{
    let updated = workers.update(i, worker);
    if i == workers.len() - 1 {
        assert(updated.drop_last() =~= workers.drop_last());
    } else {
        assert(updated.drop_last() =~= workers.drop_last().update(i, worker));
        assert(updated.last() == workers.last());
        lemma_held_update(workers.drop_last(), i, worker);
    }
    let left = held(workers.update(i, worker)).add(held_by(workers[i]));
    let right = held(workers).add(held_by(worker));
    assert forall|m: MsgView| left.count(m) == right.count(m) by {
        if i < workers.len() - 1 {
            let fewer = workers.drop_last();
            assert(held(fewer.update(i, worker)).add(held_by(fewer[i])).count(m) == held(fewer).add(
                held_by(worker),
            ).count(m));
        }
    }
}

proof fn lemma_nothing_held(workers: Seq<Worker>)
    requires
        forall|i: int|
            0 <= i < workers.len() ==> !((#[trigger] workers[i]).stage is Executing),
    ensures
        held(workers) =~= Multiset::empty(),
    decreases workers.len(),
{
    if workers.len() > 0 {
        let fewer = workers.drop_last();
        assert forall|i: int| 0 <= i < fewer.len() implies !((
        #[trigger] fewer[i]).stage is Executing) by {
            assert(fewer[i] == workers[i]);
        }
        lemma_nothing_held(fewer);
        assert(!(workers[workers.len() - 1].stage is Executing));
    }
}

/// How many steps a worker can take before it needs a message.
spec fn steps_of(worker: Worker) -> int {
    match worker.stage {
        WorkerStage::Receiving => 1,
        WorkerStage::Executing(_) => 3,
        WorkerStage::NotingSuccess | WorkerStage::NotingError => 2,
        WorkerStage::Ended => 0,
    }
}

spec fn steps_of_all(workers: Seq<Worker>) -> int
    decreases workers.len(),
{
    if workers.len() == 0 {
        0
    } else {
        steps_of_all(workers.drop_last()) + steps_of(workers.last())
    }
}

proof fn lemma_steps_update(workers: Seq<Worker>, i: int, worker: Worker)
    requires
        0 <= i < workers.len(),
    ensures
        steps_of_all(workers.update(i, worker)) == steps_of_all(workers) - steps_of(workers[i])
            + steps_of(worker),
    decreases workers.len(),
{
    let updated = workers.update(i, worker);
    if i == workers.len() - 1 {
        assert(updated.drop_last() =~= workers.drop_last());
    } else {
        assert(updated.drop_last() =~= workers.drop_last().update(i, worker));
        assert(updated.last() == workers.last());
        lemma_steps_update(workers.drop_last(), i, worker);
    }
}

proof fn lemma_steps_bounds(workers: Seq<Worker>)
    ensures
        steps_of_all(workers) >= 0,
        (forall|i: int| 0 <= i < workers.len() ==> (#[trigger] workers[i]).stage is Receiving)
            ==> steps_of_all(workers) == workers.len(),
    decreases workers.len(),
{
    if workers.len() > 0 {
        lemma_steps_bounds(workers.drop_last());
        if forall|i: int| 0 <= i < workers.len() ==> (#[trigger] workers[i]).stage is Receiving {
            let fewer = workers.drop_last();
            assert forall|i: int| 0 <= i < fewer.len() implies (
            #[trigger] fewer[i]).stage is Receiving by {
                assert(fewer[i] == workers[i]);
            }
            assert(workers[workers.len() - 1].stage is Receiving);
        }
    }
}

// ---------------------------------------------------------------------------
// What every step keeps

impl Traffic {
    /// What holds at every time where `all` was to be sent.
    spec fn keeps(self, all: Seq<Msg>) -> bool {
        &&& self.taken + self.queue + self.pending == all
        &&& self.executed.to_multiset().add(held(self.workers)) == msg_views(
            self.taken,
        ).to_multiset()
        &&& forall|i: int|
            0 <= i < self.workers.len() && (#[trigger] self.workers[i]).stage is Ended
                ==> self.queue.len() == 0 && self.pending.len() == 0
    }

    /// How many steps are left at most.
    spec fn steps_left(self) -> int {
        5 * self.pending.len() + 4 * self.queue.len() + steps_of_all(self.workers)
    }
}

proof fn lemma_step_keeps(traffic: Traffic, all: Seq<Msg>, step: Step)
    requires
        traffic.keeps(all),
        traffic.allows(step),
    ensures
        traffic.after(step).keeps(all),
        traffic.after(step).steps_left() < traffic.steps_left(),
        traffic.after(step).capacity == traffic.capacity,
        traffic.after(step).workers.len() == traffic.workers.len(),
{
    let after = traffic.after(step);
    assert(after.taken + after.queue + after.pending =~= all);
    match step {
        Step::Send => {},
        Step::Answer { worker, reply } => {
            let before = traffic.workers[worker];
            let later = before.after(reply);
            lemma_held_update(traffic.workers, worker, later);
            lemma_steps_update(traffic.workers, worker, later);
            assert forall|m: MsgView|
                held(after.workers).count(m) + held_by(before).count(m) == held(
                    traffic.workers,
                ).count(m) + held_by(later).count(m) by {
                assert(held(after.workers).add(held_by(before)).count(m) == held(
                    traffic.workers,
                ).add(held_by(later)).count(m));
            }
            match before.stage {
                WorkerStage::Receiving => {
                    if traffic.queue.len() > 0 {
                        let msg = traffic.queue[0];
                        assert(msg_views(after.taken) =~= msg_views(traffic.taken).push(msg@));
                        msg_views(traffic.taken).to_multiset_ensures();
                    }
                },
                WorkerStage::Executing(msg) => {
                    traffic.executed.to_multiset_ensures();
                },
                _ => {},
            }
            assert forall|m: MsgView|
                msg_views(traffic.taken).to_multiset().count(m)
                    == traffic.executed.to_multiset().count(m) + held(traffic.workers).count(m) by {
                assert(traffic.executed.to_multiset().add(held(traffic.workers)).count(m)
                    == msg_views(traffic.taken).to_multiset().count(m));
            }
            assert(after.executed.to_multiset().add(held(after.workers)) =~= msg_views(
                after.taken,
            ).to_multiset());
        },
    }
}

proof fn lemma_steps_keep(traffic: Traffic, all: Seq<Msg>, steps: Seq<Step>)
    requires
        traffic.keeps(all),
        traffic.allows_all(steps),
    ensures
        traffic.after_all(steps).keeps(all),
        traffic.after_all(steps).steps_left() + steps.len() <= traffic.steps_left(),
        traffic.after_all(steps).capacity == traffic.capacity,
        traffic.after_all(steps).workers.len() == traffic.workers.len(),
    decreases steps.len(),
{
    if steps.len() > 0 {
        lemma_step_keeps(traffic, all, steps[0]);
        lemma_steps_keep(traffic.after(steps[0]), all, steps.drop_first());
    }
}

proof fn lemma_fresh_keeps(traffic: Traffic)
    requires
        traffic.is_fresh(),
    ensures
        traffic.keeps(traffic.pending),
        traffic.steps_left() == 5 * traffic.pending.len() + traffic.workers.len(),
{
    assert(traffic.taken + traffic.queue + traffic.pending =~= traffic.pending);
    lemma_nothing_held(traffic.workers);
    lemma_steps_bounds(traffic.workers);
    traffic.executed.to_multiset_ensures();
    msg_views(traffic.taken).to_multiset_ensures();
    assert(msg_views(traffic.taken) =~= Seq::empty());
    assert(traffic.executed.to_multiset().add(held(traffic.workers)) =~= msg_views(
        traffic.taken,
    ).to_multiset());
}

// ---------------------------------------------------------------------------
// Laws

/// No message is lost or sent twice: at every time those that were taken, those in the
/// channel and those that are still to be sent are, in this order, all there were.
pub proof fn no_message_is_lost(traffic: Traffic, steps: Seq<Step>)
    requires
        traffic.is_fresh(),
        traffic.allows_all(steps),
    ensures
        ({
            let later = traffic.after_all(steps);
            later.taken + later.queue + later.pending == traffic.pending
        }),
{
    lemma_fresh_keeps(traffic);
    lemma_steps_keep(traffic, traffic.pending, steps);
}

/// No query is run more often than it was sent, and once every worker has ended each was
/// run once for each time it was sent, whichever worker ran it.
pub proof fn every_query_is_run_once(traffic: Traffic, steps: Seq<Step>)
    requires
        traffic.is_fresh(),
        traffic.workers.len() > 0,
        traffic.allows_all(steps),
    ensures
        ({
            let later = traffic.after_all(steps);
            &&& later.executed.to_multiset().subset_of(msg_views(traffic.pending).to_multiset())
            &&& later.has_ended() ==> later.taken == traffic.pending
                && later.executed.to_multiset() == msg_views(traffic.pending).to_multiset()
        }),
{
    let all = traffic.pending;
    lemma_fresh_keeps(traffic);
    lemma_steps_keep(traffic, all, steps);
    let later = traffic.after_all(steps);
    let others = later.queue + later.pending;
    assert(msg_views(all) =~= msg_views(later.taken) + msg_views(others));
    vstd::seq_lib::lemma_multiset_commutative(msg_views(later.taken), msg_views(others));
    if later.has_ended() {
        assert(later.workers[0].stage is Ended);
        assert(later.taken =~= all);
        lemma_nothing_held(later.workers);
        assert(later.executed.to_multiset() =~= msg_views(all).to_multiset());
    }
}

/// The workers all come to their end: there are at most five steps for each message and one
/// for each worker, and until every worker has ended some step can happen.
pub proof fn every_worker_comes_to_its_end(traffic: Traffic, steps: Seq<Step>)
    requires
        traffic.is_fresh(),
        traffic.capacity > 0,
        traffic.allows_all(steps),
    ensures
        steps.len() <= 5 * traffic.pending.len() + traffic.workers.len(),
        traffic.after_all(steps).has_ended() || exists|step: Step|
            #[trigger] traffic.after_all(steps).allows(step),
{
    lemma_fresh_keeps(traffic);
    lemma_steps_keep(traffic, traffic.pending, steps);
    let later = traffic.after_all(steps);
    lemma_steps_bounds(later.workers);
    if !later.has_ended() {
        let i = choose|i: int|
            0 <= i < later.workers.len() && !((#[trigger] later.workers[i]).stage is Ended);
        let step = match later.workers[i].stage {
            WorkerStage::Receiving => if later.queue.len() > 0 {
                Step::Answer { worker: i, reply: Reply::Received(later.queue[0]) }
            } else if later.pending.len() > 0 {
                Step::Send
            } else {
                Step::Answer { worker: i, reply: Reply::End }
            },
            _ => Step::Answer { worker: i, reply: Reply::Done },
        };
        assert(later.allows(step));
    }
}

} // verus!
