//! The workers that send prepared queries, and the scheduler that feeds them.
use vstd::pervasive::unreached;
use vstd::prelude::*;
use vstd::string::*;
use crate::action::{Action, Reply, Request};
use crate::error::BenchmarkResult;
use crate::flow;
use crate::flow::Flow;
use crate::query::Msg;
use crate::scenario::Vendor;
use crate::text;

verus! {

// ---------------------------------------------------------------------------
// One worker

/// Where a worker stands.
pub enum WorkerStage {
    Receiving,
    Executing(Msg),
    NotingSuccess,
    NotingError,
    Ended,
}

/// Takes queries from the channel and runs them until the channel is closed.
pub struct Worker {
    pub vendor: Vendor,
    pub worker_id: String,
    pub simulate: Option<usize>,
    pub stage: WorkerStage,
}

impl Worker {
    /// The worker with this number.
    pub fn new(vendor: Vendor, worker: usize, simulate: Option<usize>) -> (flow: Worker)
        ensures
            flow.vendor == vendor,
            flow.worker_id@ == text::decimal(worker as nat),
            flow.simulate == simulate,
            flow.stage == WorkerStage::Receiving,
    {
        Worker {
            vendor,
            worker_id: text::decimal_text(worker as u64),
            simulate,
            stage: WorkerStage::Receiving,
        }
    }

    /// The stage after a reply.
    pub open spec fn stage_after(&self, reply: Reply) -> WorkerStage {
        match (self.stage, reply) {
            (WorkerStage::Receiving, Reply::Received(msg)) => WorkerStage::Executing(msg),
            (WorkerStage::Receiving, Reply::End) => WorkerStage::Ended,
            (WorkerStage::Executing(_), Reply::Done) => WorkerStage::NotingSuccess,
            (WorkerStage::Executing(_), Reply::Failed(_)) => WorkerStage::NotingError,
            (WorkerStage::NotingSuccess, Reply::Done) => WorkerStage::Receiving,
            (WorkerStage::NotingError, Reply::Done) => WorkerStage::Receiving,
            (stage, _) => stage,
        }
    }
}

impl Flow for Worker {
    type Output = ();

    open spec fn request(&self) -> Option<Request> {
        match self.stage {
            WorkerStage::Receiving => Some(Request::Receive),
            WorkerStage::Executing(msg) => Some(
                Request::ExecuteReceived {
                    vendor: self.vendor,
                    worker_id: self.worker_id@,
                    msg: msg@,
                    simulate: self.simulate,
                },
            ),
            WorkerStage::NotingSuccess => Some(Request::ObserveSuccess(self.vendor)),
            WorkerStage::NotingError => Some(Request::ObserveError(self.vendor)),
            WorkerStage::Ended => None,
        }
    }

    open spec fn after(self, reply: Reply) -> Self {
        Worker { stage: self.stage_after(reply), ..self }
    }

    open spec fn gives(&self, result: BenchmarkResult<()>) -> bool {
        result == BenchmarkResult::<()>::Ok(())
    }

    proof fn goes_on(self, reply: Reply) {
    }

    fn action(&self) -> (action: Option<Action>) {
        match &self.stage {
            WorkerStage::Receiving => Some(Action::Receive),
            WorkerStage::Executing(msg) => Some(
                Action::ExecuteReceived {
                    vendor: self.vendor,
                    worker_id: self.worker_id.clone(),
                    msg: msg.copy(),
                    simulate: self.simulate,
                },
            ),
            WorkerStage::NotingSuccess => Some(Action::ObserveSuccess(self.vendor)),
            WorkerStage::NotingError => Some(Action::ObserveError(self.vendor)),
            WorkerStage::Ended => None,
        }
    }

    fn next(self, reply: Reply) -> (state: Self) {
        let stage = match (self.stage, reply) {
            (WorkerStage::Receiving, Reply::Received(msg)) => WorkerStage::Executing(msg),
            (WorkerStage::Receiving, Reply::End) => WorkerStage::Ended,
            (WorkerStage::Executing(_), Reply::Done) => WorkerStage::NotingSuccess,
            (WorkerStage::Executing(_), Reply::Failed(_)) => WorkerStage::NotingError,
            (WorkerStage::NotingSuccess, Reply::Done) => WorkerStage::Receiving,
            (WorkerStage::NotingError, Reply::Done) => WorkerStage::Receiving,
            (stage, _) => stage,
        };
        Worker { stage, ..self }
    }

    fn finish(self) -> (result: BenchmarkResult<()>) {
        Ok(())
    }
}

/// Each query that a worker receives is run once and noted once, as a success or as an
/// error; then the worker is ready for the next.
pub proof fn received_query_is_run_and_noted(worker: Worker, msg: Msg, outcome: Reply)
    requires
        worker.stage == WorkerStage::Receiving,
        outcome is Done || outcome is Failed,
    ensures
        ({
            let replies = seq![Reply::Received(msg), outcome, Reply::Done];
            &&& flow::requests(worker, replies) == seq![
                Some(Request::Receive),
                Some(
                    Request::ExecuteReceived {
                        vendor: worker.vendor,
                        worker_id: worker.worker_id@,
                        msg: msg@,
                        simulate: worker.simulate,
                    },
                ),
                Some(
                    if outcome is Done {
                        Request::ObserveSuccess(worker.vendor)
                    } else {
                        Request::ObserveError(worker.vendor)
                    },
                ),
                Some(Request::Receive),
            ]
            &&& flow::run(worker, replies) == worker
        }),
{
    broadcast use flow::group_flow;

}

/// Only a closed channel ends a worker: no failure of a query does.
pub proof fn worker_goes_on(worker: Worker, replies: Seq<Reply>)
    requires
        worker.stage != WorkerStage::Ended,
        forall|i: int| 0 <= i < replies.len() ==> !(#[trigger] replies[i] is End),
    ensures
        flow::run(worker, replies).request() is Some,
    decreases replies.len(),
{
    if replies.len() > 0 {
        assert(!(replies[0] is End));
        let rest = replies.drop_first();
        assert forall|i: int| 0 <= i < rest.len() implies !(#[trigger] rest[i] is End) by {
            assert(rest[i] == replies[i + 1]);
        }
        worker_goes_on(worker.after(replies[0]), rest);
    }
}

/// Where the start of a worker stands.
pub enum SpawnStage {
    Connecting,
    Spawning,
    Ended(BenchmarkResult<()>),
}

/// Starts a worker. One for FalkorDB gets a connection of its own first.
pub struct SpawnWorker {
    pub vendor: Vendor,
    pub worker: usize,
    pub simulate: Option<usize>,
    pub stage: SpawnStage,
}

/// Starts the worker with this number for Neo4j.
pub fn spawn_neo4j_worker(worker_id: usize, simulate: Option<usize>) -> (flow: SpawnWorker)
    ensures
        flow == (SpawnWorker {
            vendor: Vendor::Neo4j,
            worker: worker_id,
            simulate,
            stage: SpawnStage::Spawning,
        }),
{
    SpawnWorker { vendor: Vendor::Neo4j, worker: worker_id, simulate, stage: SpawnStage::Spawning }
}

/// Starts the worker with this number for FalkorDB.
pub fn spawn_falkor_worker(worker_id: usize, simulate: Option<usize>) -> (flow: SpawnWorker)
    ensures
        flow == (SpawnWorker {
            vendor: Vendor::Falkor,
            worker: worker_id,
            simulate,
            stage: SpawnStage::Connecting,
        }),
{
    SpawnWorker {
        vendor: Vendor::Falkor,
        worker: worker_id,
        simulate,
        stage: SpawnStage::Connecting,
    }
}

impl SpawnWorker {
    /// The stage after a reply.
    pub open spec fn stage_after(&self, reply: Reply) -> SpawnStage {
        match (self.stage, reply) {
            (SpawnStage::Connecting, Reply::Done) => SpawnStage::Spawning,
            (SpawnStage::Connecting, Reply::Failed(e)) => SpawnStage::Ended(Err(e)),
            (SpawnStage::Spawning, Reply::Done) => SpawnStage::Ended(Ok(())),
            (stage, _) => stage,
        }
    }
}

impl Flow for SpawnWorker {
    type Output = ();

    open spec fn request(&self) -> Option<Request> {
        match self.stage {
            SpawnStage::Connecting => Some(Request::ConnectFalkor),
            SpawnStage::Spawning => Some(
                Request::SpawnWorker {
                    vendor: self.vendor,
                    worker: self.worker,
                    simulate: self.simulate,
                },
            ),
            SpawnStage::Ended(_) => None,
        }
    }

    open spec fn after(self, reply: Reply) -> Self {
        SpawnWorker { stage: self.stage_after(reply), ..self }
    }

    open spec fn gives(&self, result: BenchmarkResult<()>) -> bool {
        self.stage == SpawnStage::Ended(result)
    }

    proof fn goes_on(self, reply: Reply) {
    }

    fn action(&self) -> (action: Option<Action>) {
        match &self.stage {
            SpawnStage::Connecting => Some(Action::ConnectFalkor),
            SpawnStage::Spawning => Some(
                Action::SpawnWorker {
                    vendor: self.vendor,
                    worker: self.worker,
                    simulate: self.simulate,
                },
            ),
            SpawnStage::Ended(_) => None,
        }
    }

    fn next(self, reply: Reply) -> (state: Self) {
        let stage = match (self.stage, reply) {
            (SpawnStage::Connecting, Reply::Done) => SpawnStage::Spawning,
            (SpawnStage::Connecting, Reply::Failed(e)) => SpawnStage::Ended(Err(e)),
            (SpawnStage::Spawning, Reply::Done) => SpawnStage::Ended(Ok(())),
            (stage, _) => stage,
        };
        SpawnWorker { stage, ..self }
    }

    fn finish(self) -> (result: BenchmarkResult<()>) {
        match self.stage {
            SpawnStage::Ended(r) => r,
            _ => unreached(),
        }
    }
}

// ---------------------------------------------------------------------------
// The workers together

/// Where the work of the crew stands.
pub enum CrewStage {
    OpeningChannel,
    StartingScheduler,
    StartingWorker(usize),
    JoiningScheduler,
    ClosingChannel,
    JoiningWorker(usize),
    Ended(BenchmarkResult<()>),
}

/// Starts the scheduler and the workers, and waits until all queries are sent and every
/// worker has ended.
pub struct Crew {
    pub vendor: Vendor,
    pub parallel: usize,
    pub capacity: usize,
    pub mps: usize,
    pub simulate: Option<usize>,
    pub stage: CrewStage,
}

/// Whether a channel can hold twenty queries for each of so many workers: a channel holds
/// no more than an eighth of what a size can be.
pub open spec fn channel_fits(parallel: usize) -> bool {
    160 * parallel <= usize::MAX
}

impl Crew {
    /// The start of the worker with this number.
    pub open spec fn start_of(&self, worker: usize) -> Request {
        Request::StartWorker { vendor: self.vendor, worker, simulate: self.simulate }
    }

    /// The stage after a reply.
    pub open spec fn stage_after(&self, reply: Reply) -> CrewStage {
        match (self.stage, reply) {
            (CrewStage::OpeningChannel, Reply::Done) => CrewStage::StartingScheduler,
            (CrewStage::StartingScheduler, Reply::Done) => if self.parallel > 0 {
                CrewStage::StartingWorker(0)
            } else {
                CrewStage::JoiningScheduler
            },
            (CrewStage::StartingWorker(n), Reply::Done) => if n + 1 < self.parallel {
                CrewStage::StartingWorker((n + 1) as usize)
            } else {
                CrewStage::JoiningScheduler
            },
            (CrewStage::StartingWorker(n), Reply::Failed(e)) => CrewStage::Ended(Err(e)),
            (CrewStage::JoiningScheduler, Reply::Done) => CrewStage::ClosingChannel,
            (CrewStage::JoiningScheduler, Reply::Failed(_)) => CrewStage::ClosingChannel,
            (CrewStage::ClosingChannel, Reply::Done) => if self.parallel > 0 {
                CrewStage::JoiningWorker(0)
            } else {
                CrewStage::Ended(Ok(()))
            },
            (CrewStage::JoiningWorker(n), Reply::Done) => self.joined(n),
            (CrewStage::JoiningWorker(n), Reply::Failed(_)) => self.joined(n),
            (stage, _) => stage,
        }
    }

    /// The stage once the worker with this number has ended.
    pub open spec fn joined(&self, n: usize) -> CrewStage {
        if n + 1 < self.parallel {
            CrewStage::JoiningWorker((n + 1) as usize)
        } else {
            CrewStage::Ended(Ok(()))
        }
    }

    fn joined_stage(n: usize, parallel: usize) -> (stage: CrewStage)
        ensures
            stage == if n + 1 < parallel {
                CrewStage::JoiningWorker((n + 1) as usize)
            } else {
                CrewStage::Ended(Ok(()))
            },
    {
        if n < parallel && n + 1 < parallel {
            CrewStage::JoiningWorker(n + 1)
        } else {
            CrewStage::Ended(Ok(()))
        }
    }
}

impl Flow for Crew {
    type Output = ();

    open spec fn request(&self) -> Option<Request> {
        match self.stage {
            CrewStage::OpeningChannel => Some(Request::OpenChannel(self.capacity)),
            CrewStage::StartingScheduler => Some(Request::StartScheduler(self.mps)),
            CrewStage::StartingWorker(n) => Some(self.start_of(n)),
            CrewStage::JoiningScheduler => Some(Request::JoinScheduler),
            CrewStage::ClosingChannel => Some(Request::CloseChannel),
            CrewStage::JoiningWorker(n) => Some(Request::JoinWorker(n)),
            CrewStage::Ended(_) => None,
        }
    }

    open spec fn after(self, reply: Reply) -> Self {
        Crew { stage: self.stage_after(reply), ..self }
    }

    open spec fn gives(&self, result: BenchmarkResult<()>) -> bool {
        self.stage == CrewStage::Ended(result)
    }

    proof fn goes_on(self, reply: Reply) {
    }

    fn action(&self) -> (action: Option<Action>) {
        match &self.stage {
            CrewStage::OpeningChannel => Some(Action::OpenChannel(self.capacity)),
            CrewStage::StartingScheduler => Some(Action::StartScheduler(self.mps)),
            CrewStage::StartingWorker(n) => Some(
                Action::StartWorker { vendor: self.vendor, worker: *n, simulate: self.simulate },
            ),
            CrewStage::JoiningScheduler => Some(Action::JoinScheduler),
            CrewStage::ClosingChannel => Some(Action::CloseChannel),
            CrewStage::JoiningWorker(n) => Some(Action::JoinWorker(*n)),
            CrewStage::Ended(_) => None,
        }
    }

    fn next(self, reply: Reply) -> (state: Self) {
        let stage = match (self.stage, reply) {
            (CrewStage::OpeningChannel, Reply::Done) => CrewStage::StartingScheduler,
            (CrewStage::StartingScheduler, Reply::Done) => {
                if self.parallel > 0 {
                    CrewStage::StartingWorker(0)
                } else {
                    CrewStage::JoiningScheduler
                }
            },
            (CrewStage::StartingWorker(n), Reply::Done) => {
                if n < self.parallel && n + 1 < self.parallel {
                    CrewStage::StartingWorker(n + 1)
                } else {
                    CrewStage::JoiningScheduler
                }
            },
            (CrewStage::StartingWorker(n), Reply::Failed(e)) => CrewStage::Ended(Err(e)),
            (CrewStage::JoiningScheduler, Reply::Done) => CrewStage::ClosingChannel,
            (CrewStage::JoiningScheduler, Reply::Failed(_)) => CrewStage::ClosingChannel,
            (CrewStage::ClosingChannel, Reply::Done) => {
                if self.parallel > 0 {
                    CrewStage::JoiningWorker(0)
                } else {
                    CrewStage::Ended(Ok(()))
                }
            },
            (CrewStage::JoiningWorker(n), Reply::Done) => Crew::joined_stage(n, self.parallel),
            (CrewStage::JoiningWorker(n), Reply::Failed(_)) => Crew::joined_stage(
                n,
                self.parallel,
            ),
            (stage, _) => stage,
        };
        Crew { stage, ..self }
    }

    fn finish(self) -> (result: BenchmarkResult<()>) {
        match self.stage {
            CrewStage::Ended(r) => r,
            _ => unreached(),
        }
    }
}

/// As many replies that say that it was done.
pub open spec fn all_done(n: nat) -> Seq<Reply> {
    Seq::new(n, |i: int| Reply::Done)
}

proof fn lemma_all_done(n: nat)
    requires
        n > 0,
    ensures
        all_done(n)[0] == Reply::Done,
        all_done(n).drop_first() == all_done((n - 1) as nat),
{
    assert(all_done(n).drop_first() =~= all_done((n - 1) as nat));
}

/// The workers are started one after the other, as many as there have to be and no more:
/// after the first `n` starts comes worker `n`, and after the last the scheduler is waited
/// for.
pub proof fn every_worker_is_started(crew: Crew, from: usize, n: nat)
    requires
        crew.stage == CrewStage::StartingWorker(from),
        from + n <= crew.parallel,
    ensures
        from + n < crew.parallel ==> flow::run(crew, all_done(n)).request() == Some(
            crew.start_of((from + n) as usize),
        ),
        from + n == crew.parallel && n > 0 ==> flow::run(crew, all_done(n)).request() == Some(
            Request::JoinScheduler,
        ),
    decreases n,
{
    if n > 0 {
        lemma_all_done(n);
        if n > 1 {
            every_worker_is_started(
                crew.after(Reply::Done),
                (from + 1) as usize,
                (n - 1) as nat,
            );
        }
    }
}

/// Every worker is waited for, one after the other, whatever became of it; only after the
/// last has the work ended.
pub proof fn every_worker_is_joined(crew: Crew, from: usize, replies: Seq<Reply>)
    requires
        crew.stage == CrewStage::JoiningWorker(from),
        from + replies.len() <= crew.parallel,
        forall|i: int|
            0 <= i < replies.len() ==> #[trigger] replies[i] is Done || replies[i] is Failed,
    ensures
        from + replies.len() < crew.parallel ==> flow::run(crew, replies).request() == Some(
            Request::JoinWorker((from + replies.len()) as usize),
        ),
        from + replies.len() == crew.parallel && replies.len() > 0 ==> flow::run(
            crew,
            replies,
        ).stage == CrewStage::Ended(Ok(())),
    decreases replies.len(),
{
    if replies.len() > 0 {
        assert(replies[0] is Done || replies[0] is Failed);
        let rest = replies.drop_first();
        assert forall|i: int| 0 <= i < rest.len() implies #[trigger] rest[i] is Done
            || rest[i] is Failed by {
            assert(rest[i] == replies[i + 1]);
        }
        if replies.len() > 1 {
            every_worker_is_joined(crew.after(replies[0]), (from + 1) as usize, rest);
        }
    }
}

proof fn lemma_all_done_add(a: nat, b: nat)
    ensures
        all_done(a) + all_done(b) == all_done(a + b),
{
    assert(all_done(a) + all_done(b) =~= all_done(a + b));
}

/// A crew whose steps are all done opens the channel, starts the scheduler, starts and
/// joins each of its workers once, and then its work has ended.
pub proof fn crew_comes_to_its_end(crew: Crew)
    requires
        crew.stage is OpeningChannel,
        crew.parallel > 0,
    ensures
        flow::run(crew, all_done(2)).request() == Some(crew.start_of(0)),
        flow::run(crew, all_done((2 + crew.parallel) as nat)).request() == Some(
            Request::JoinScheduler,
        ),
        flow::run(crew, all_done((4 + crew.parallel) as nat)).request() == Some(
            Request::JoinWorker(0),
        ),
        flow::run(crew, all_done((4 + 2 * crew.parallel) as nat)).gives(Ok(())),
{
    broadcast use flow::group_flow;

    let n = crew.parallel as nat;
    let two = all_done(2);
    assert(two =~= seq![Reply::Done, Reply::Done]);
    let starting = flow::run(crew, two);
    lemma_all_done_add(2, n);
    flow::run_add(crew, two, all_done(n));
    every_worker_is_started(starting, 0, n);
    let started = flow::run(starting, all_done(n));
    lemma_crew_keeps(starting, all_done(n));
    assert(started.stage is JoiningScheduler);
    let joining = flow::run(started, two);
    lemma_all_done_add(2 + n, 2);
    flow::run_add(crew, all_done(2 + n), two);
    every_worker_is_joined(joining, 0, all_done(n));
    lemma_all_done_add(4 + n, n);
    flow::run_add(crew, all_done(4 + n), all_done(n));
}

proof fn lemma_crew_keeps(crew: Crew, replies: Seq<Reply>)
    ensures
        flow::run(crew, replies).parallel == crew.parallel,
    decreases replies.len(),
{
    if replies.len() > 0 {
        lemma_crew_keeps(crew.after(replies[0]), replies.drop_first());
    }
}

/// The channel is closed only after the scheduler has sent what it had, and no worker is
/// waited for before that.
pub proof fn channel_is_closed_after_scheduler(crew: Crew, reply: Reply)
    ensures
        crew.after(reply).stage is ClosingChannel && !(crew.stage is ClosingChannel) ==> crew.stage
            is JoiningScheduler,
        crew.after(reply).stage is JoiningWorker && !(crew.stage is JoiningWorker) ==> crew.stage
            is ClosingChannel,
{
}

} // verus!
