//! Workers, their crew, and the runs that they belong to.
use vstd::prelude::*;
use crate::action::{Reply, Request};
use crate::error::BenchmarkError;
use crate::flow;
use crate::flow::Flow;
use crate::query::Msg;
use crate::runner::crew;
use crate::runner::crew::{Crew, CrewStage, SpawnStage, SpawnWorker, Worker, WorkerStage};
use crate::runner::run;
use crate::runner::run::{RunFalkor, RunFalkorStage, RunNeo4j, RunNeo4jStage, RunPlan};
use crate::scenario::{Size, Vendor};

verus! {

// ---------------------------------------------------------------------------
// One worker

/// A worker asks for a message, runs the query in it with its own number and its own delay,
/// notes how that went and is ready for the next; it ends with the channel.
pub proof fn worker_serves_its_channel(worker: Worker, msg: Msg, e: BenchmarkError)
    requires
        worker.stage == WorkerStage::Receiving,
    ensures
        ({
            let execute = Request::ExecuteReceived {
                vendor: worker.vendor,
                worker_id: worker.worker_id@,
                msg: msg@,
                simulate: worker.simulate,
            };
            &&& flow::arrives(
                worker,
                seq![
                    (Request::Receive, Reply::Received(msg)),
                    (execute, Reply::Done),
                    (Request::ObserveSuccess(worker.vendor), Reply::Done),
                ],
                worker,
            )
            &&& flow::arrives(
                worker,
                seq![
                    (Request::Receive, Reply::Received(msg)),
                    (execute, Reply::Failed(e)),
                    (Request::ObserveError(worker.vendor), Reply::Done),
                ],
                worker,
            )
            &&& flow::ends(worker, seq![(Request::Receive, Reply::End)], Ok(()))
        }),
{
    reveal_with_fuel(flow::follows_from, 5);
    reveal_with_fuel(flow::played_from, 5);
}

/// A worker is started under its number and with its delay. One for FalkorDB connects
/// first, and is not started where that fails.
pub proof fn worker_is_started_once(flow: SpawnWorker, e: BenchmarkError)
    requires
        flow.stage == SpawnStage::Connecting || flow.stage == SpawnStage::Spawning,
    ensures
        ({
            let spawn = Request::SpawnWorker {
                vendor: flow.vendor,
                worker: flow.worker,
                simulate: flow.simulate,
            };
            if flow.stage == SpawnStage::Connecting {
                &&& flow::ends(
                    flow,
                    seq![(Request::ConnectFalkor, Reply::Done), (spawn, Reply::Done)],
                    Ok(()),
                )
                &&& flow::ends(flow, seq![(Request::ConnectFalkor, Reply::Failed(e))], Err(e))
            } else {
                flow::ends(flow, seq![(spawn, Reply::Done)], Ok(()))
            }
        }),
{
    reveal_with_fuel(flow::follows_from, 4);
    reveal_with_fuel(flow::played_from, 4);
}

// ---------------------------------------------------------------------------
// The workers together

/// What a crew has been given to do: for which database, by how many workers, over which
/// capacity, how many queries per second, and with which delay in place of a query.
pub open spec fn plan_of(crew: Crew) -> (Vendor, RunPlan) {
    (
        crew.vendor,
        RunPlan {
            parallel: crew.parallel,
            capacity: crew.capacity,
            mps: crew.mps,
            simulate: crew.simulate,
        },
    )
}

/// What is asked for after `k` steps of the work that are all done: the channel, the
/// scheduler, each worker, the end of the scheduler, the end of the channel, and the end
/// of each worker.
pub open spec fn work_at(vendor: Vendor, plan: RunPlan, k: nat) -> Option<Request> {
    if k == 0 {
        Some(Request::OpenChannel(plan.capacity))
    } else if k == 1 {
        Some(Request::StartScheduler(plan.mps))
    } else if k < 2 + plan.parallel {
        Some(
            Request::StartWorker { vendor, worker: (k - 2) as usize, simulate: plan.simulate },
        )
    } else if k == 2 + plan.parallel {
        Some(Request::JoinScheduler)
    } else if k == 3 + plan.parallel {
        Some(Request::CloseChannel)
    } else if k < 4 + 2 * plan.parallel {
        Some(Request::JoinWorker((k - 4 - plan.parallel) as usize))
    } else {
        None
    }
}

/// Where a crew stands after `k` steps that are all done.
spec fn stage_at(crew: Crew, k: nat) -> CrewStage {
    if k == 0 {
        CrewStage::OpeningChannel
    } else if k == 1 {
        CrewStage::StartingScheduler
    } else if k < 2 + crew.parallel {
        CrewStage::StartingWorker((k - 2) as usize)
    } else if k == 2 + crew.parallel {
        CrewStage::JoiningScheduler
    } else if k == 3 + crew.parallel {
        CrewStage::ClosingChannel
    } else if k < 4 + 2 * crew.parallel {
        CrewStage::JoiningWorker((k - 4 - crew.parallel) as usize)
    } else {
        CrewStage::Ended(Ok(()))
    }
}

proof fn lemma_crew_at(crew: Crew, k: nat)
    requires
        crew.stage is OpeningChannel,
        k <= 4 + 2 * crew.parallel,
    ensures
        flow::run(crew, crew::all_done(k)) == (Crew { stage: stage_at(crew, k), ..crew }),
    decreases k,
{
    broadcast use flow::group_flow;

    if k == 0 {
        assert(crew::all_done(0) =~= Seq::empty());
    } else {
        let before = (k - 1) as nat;
        lemma_crew_at(crew, before);
        assert(crew::all_done(k) =~= crew::all_done(before).push(Reply::Done));
    }
}

/// The one scheduler of a crew is started with the queries per second that the crew was
/// given, between the opening of the channel and the start of the first worker.
pub proof fn scheduler_keeps_the_given_pace(crew: Crew)
    requires
        crew.stage is OpeningChannel,
        crew.parallel > 0,
    ensures
        flow::comes_to(
            crew,
            seq![
                (Request::OpenChannel(crew.capacity), Reply::Done),
                (Request::StartScheduler(crew.mps), Reply::Done),
            ],
            Request::StartWorker { vendor: crew.vendor, worker: 0, simulate: crew.simulate },
        ),
        ({
            let replies = seq![Reply::Done, Reply::Done];
            flow::requests(crew, replies) == seq![
                Some(Request::OpenChannel(crew.capacity)),
                Some(Request::StartScheduler(crew.mps)),
                Some(
                    Request::StartWorker {
                        vendor: crew.vendor,
                        worker: 0,
                        simulate: crew.simulate,
                    },
                ),
            ]
        }),
{
    broadcast use flow::group_flow;

    reveal_with_fuel(flow::follows_from, 4);
    reveal_with_fuel(flow::played_from, 4);
}

/// A crew whose steps are all done opens the channel, starts the scheduler, starts each of
/// its workers once and in order, waits for the scheduler, closes the channel, waits for
/// each worker once and in order, and has then succeeded. Nothing else is asked for.
pub proof fn crew_works_through_its_plan(crew: Crew, k: nat)
    requires
        crew.stage is OpeningChannel,
        k <= 4 + 2 * crew.parallel,
    ensures
        ({
            let later = flow::run(crew, crew::all_done(k));
            let (vendor, plan) = plan_of(crew);
            &&& later.request() == work_at(vendor, plan, k)
            &&& k == 4 + 2 * crew.parallel ==> flow::gives_only(later, Ok(()))
        }),
{
    lemma_crew_at(crew, k);
}

/// A worker that cannot be started ends the work of the crew with its error, whichever
/// worker it is.
pub proof fn failed_start_ends_the_work(crew: Crew, k: nat, e: BenchmarkError)
    requires
        crew.stage is OpeningChannel,
        k < crew.parallel,
    ensures
        ({
            let failed = flow::run(crew, crew::all_done(2 + k)).after(Reply::Failed(e));
            &&& failed.request() is None
            &&& flow::gives_only(failed, Err(e))
        }),
{
    lemma_crew_at(crew, 2 + k);
}

/// Once the workers are started, it makes no difference how the scheduler and the workers
/// end: each is waited for, and the work succeeds.
pub proof fn every_end_is_waited_for(crew: Crew, replies: Seq<Reply>)
    requires
        crew.stage is OpeningChannel,
        replies.len() <= 2 + crew.parallel,
        forall|i: int|
            0 <= i < replies.len() ==> #[trigger] replies[i] is Done || (i != 1 && replies[i]
                is Failed),
    ensures
        ({
            let started = flow::run(crew, crew::all_done((2 + crew.parallel) as nat));
            let later = flow::run(started, replies);
            let n = replies.len();
            &&& later.request() == if n == 0 {
                Some(Request::JoinScheduler)
            } else if n == 1 {
                Some(Request::CloseChannel)
            } else if n < 2 + crew.parallel {
                Some(Request::JoinWorker((n - 2) as usize))
            } else {
                None
            }
            &&& n == 2 + crew.parallel ==> flow::gives_only(later, Ok(()))
        }),
{
    lemma_crew_at(crew, (2 + crew.parallel) as nat);
    lemma_joining_at(crew, replies);
}

proof fn lemma_joining_at(crew: Crew, replies: Seq<Reply>)
    requires
        replies.len() <= 2 + crew.parallel,
        forall|i: int|
            0 <= i < replies.len() ==> #[trigger] replies[i] is Done || (i != 1 && replies[i]
                is Failed),
    ensures
        flow::run(Crew { stage: CrewStage::JoiningScheduler, ..crew }, replies) == (Crew {
            stage: stage_at(crew, (2 + crew.parallel + replies.len()) as nat),
            ..crew
        }),
    decreases replies.len(),
{
    broadcast use flow::group_flow;

    if replies.len() == 0 {
        assert(replies =~= Seq::empty());
    } else {
        let before = replies.drop_last();
        assert forall|i: int| 0 <= i < before.len() implies #[trigger] before[i] is Done || (i != 1
            && before[i] is Failed) by {
            assert(before[i] == replies[i]);
        }
        lemma_joining_at(crew, before);
        assert(replies =~= before.push(replies.last()));
        assert(replies.last() == replies[replies.len() - 1]);
    }
}

// ---------------------------------------------------------------------------
// Runs

/// A run on FalkorDB without workers asks for nothing and says why it fails.
pub proof fn falkor_run_needs_a_worker(run: RunFalkor)
    requires
        run.stage is Idle,
    ensures
        flow::ends_badly(run, Seq::empty(), "Parallelism level must be greater than zero."@),
{
}

/// A run on FalkorDB reads the queries of its file, looks for the dump of their data set,
/// restores that dump, starts the server and asks for the size of the graph; then a crew
/// works by the plan of the run, whatever the size is.
pub proof fn falkor_run_begins(
    run: RunFalkor,
    size: usize,
    dataset: Size,
    nodes: u64,
    relations: u64,
)
    requires
        run.stage is Reading,
    ensures
        flow::arrives(
            run,
            seq![
                (Request::ReadQueries(run.file_name@), Reply::Queries { size, dataset }),
                (Request::CheckDump(dataset), Reply::Done),
                (Request::RestoreDump(dataset), Reply::Done),
                (Request::StartFalkor, Reply::Done),
                (Request::GraphSize(Vendor::Falkor), Reply::Counts { nodes, relations }),
            ],
            (RunFalkor {
                stage: RunFalkorStage::Working(
                    Crew {
                        vendor: Vendor::Falkor,
                        parallel: run.plan.parallel,
                        capacity: run.plan.capacity,
                        mps: run.plan.mps,
                        simulate: run.plan.simulate,
                        stage: CrewStage::OpeningChannel,
                    },
                ),
                ..run
            }),
        ),
{
    reveal_with_fuel(flow::follows_from, 7);
    reveal_with_fuel(flow::played_from, 7);
}

proof fn lemma_crew_is_busy(crew: Crew, k: nat)
    requires
        crew.stage is OpeningChannel,
        k <= 4 + 2 * crew.parallel,
    ensures
        forall|i: int|
            0 <= i < k ==> (#[trigger] flow::run(crew, crew::all_done(k).take(i))).request()
                is Some,
{
    assert forall|i: int| 0 <= i < k implies (#[trigger] flow::run(
        crew,
        crew::all_done(k).take(i),
    )).request() is Some by {
        assert(crew::all_done(k).take(i) =~= crew::all_done(i as nat));
        lemma_crew_at(crew, i as nat);
    }
}

/// From then on a run on FalkorDB whose steps are all done asks for what the work by its
/// plan asks for, step by step, then for the server to be stopped, and has succeeded.
pub proof fn falkor_run_works_through_its_plan(run: RunFalkor, crew: Crew, k: nat)
    requires
        run.stage == RunFalkorStage::Working(crew),
        crew.stage is OpeningChannel,
        crew.parallel > 0,
        k <= 4 + 2 * crew.parallel,
    ensures
        ({
            let later = flow::run(run, crew::all_done(k));
            let stopped = later.after(Reply::Done);
            let (vendor, plan) = plan_of(crew);
            if k < 4 + 2 * crew.parallel {
                later.request() == work_at(vendor, plan, k)
            } else {
                &&& later.request() == Some(Request::StopFalkor)
                &&& stopped.request() is None
                &&& flow::gives_only(stopped, Ok(()))
            }
        }),
{
    lemma_crew_is_busy(crew, k);
    run::falkor_run_does_what_its_crew_does(run, crew, crew::all_done(k));
    lemma_crew_at(crew, k);
}

/// A step of a run on FalkorDB that fails before the server is up ends the run with its
/// error, and so does a server that cannot be stopped. While the server is up, the server
/// is let go first; so it is where a worker cannot be started.
pub proof fn failed_falkor_run_gives_its_error(run: RunFalkor, e: BenchmarkError)
    requires
        match run.stage {
            RunFalkorStage::Idle | RunFalkorStage::Dropping(_) | RunFalkorStage::Ended(_) => false,
            RunFalkorStage::Working(crew) => crew.stage is StartingWorker,
            _ => true,
        },
    ensures
        ({
            let failed = run.after(Reply::Failed(e));
            let down = failed.after(Reply::Done);
            match run.stage {
                RunFalkorStage::Sizing | RunFalkorStage::Working(_) => {
                    &&& failed.request() == Some(Request::DropFalkor)
                    &&& down.request() is None
                    &&& flow::gives_only(down, Err(e))
                },
                _ => {
                    &&& failed.request() is None
                    &&& flow::gives_only(failed, Err(e))
                },
            }
        }),
{
}

/// A run on Neo4j stops a server that is running, reads the queries of its file, restores
/// the backup of their data set, starts the server, connects and asks for the size of the
/// graph; then a crew works by the plan of the run, whatever the size is.
pub proof fn neo4j_run_begins(
    run: RunNeo4j,
    size: usize,
    dataset: Size,
    nodes: u64,
    relations: u64,
)
    requires
        run.stage is StoppingFirst,
    ensures
        flow::arrives(
            run,
            seq![
                (Request::StopNeo4j(false), Reply::Done),
                (Request::ReadQueries(run.file_name@), Reply::Queries { size, dataset }),
                (Request::RestoreNeo4j(dataset), Reply::Done),
                (Request::StartNeo4j, Reply::Done),
                (Request::ConnectNeo4j, Reply::Done),
                (Request::GraphSize(Vendor::Neo4j), Reply::Counts { nodes, relations }),
            ],
            (RunNeo4j {
                stage: RunNeo4jStage::Working(
                    Crew {
                        vendor: Vendor::Neo4j,
                        parallel: run.plan.parallel,
                        capacity: run.plan.capacity,
                        mps: run.plan.mps,
                        simulate: run.plan.simulate,
                        stage: CrewStage::OpeningChannel,
                    },
                ),
                ..run
            }),
        ),
{
    reveal_with_fuel(flow::follows_from, 8);
    reveal_with_fuel(flow::played_from, 8);
}

/// From then on a run on Neo4j whose steps are all done asks for what the work by its plan
/// asks for, step by step, then for the server to be stopped, and has succeeded.
pub proof fn neo4j_run_works_through_its_plan(run: RunNeo4j, crew: Crew, k: nat)
    requires
        run.stage == RunNeo4jStage::Working(crew),
        crew.stage is OpeningChannel,
        crew.parallel > 0,
        k <= 4 + 2 * crew.parallel,
    ensures
        ({
            let later = flow::run(run, crew::all_done(k));
            let stopped = later.after(Reply::Done);
            let (vendor, plan) = plan_of(crew);
            if k < 4 + 2 * crew.parallel {
                later.request() == work_at(vendor, plan, k)
            } else {
                &&& later.request() == Some(Request::StopNeo4j(true))
                &&& stopped.request() is None
                &&& flow::gives_only(stopped, Ok(()))
            }
        }),
{
    lemma_crew_is_busy(crew, k);
    run::neo4j_run_does_what_its_crew_does(run, crew, crew::all_done(k));
    lemma_crew_at(crew, k);
}

/// A step of a run on Neo4j that fails ends the run with its error, and so does a worker
/// that cannot be started.
pub proof fn failed_neo4j_run_gives_its_error(run: RunNeo4j, e: BenchmarkError)
    requires
        match run.stage {
            RunNeo4jStage::Ended(_) => false,
            RunNeo4jStage::Working(crew) => crew.stage is StartingWorker,
            _ => true,
        },
    ensures
        ({
            let failed = run.after(Reply::Failed(e));
            &&& failed.request() is None
            &&& flow::gives_only(failed, Err(e))
        }),
{
}

} // verus!
