//! Running prepared queries against a database.
use vstd::pervasive::unreached;
use vstd::prelude::*;
use vstd::string::*;
use crate::action::{Action, Reply, Request};
use crate::error::{other_error, BenchmarkError, BenchmarkResult};
use crate::falkor::falkor_server;
use crate::falkor::falkor_server::FalkorServer;
use crate::flow;
use crate::flow::Flow;
use crate::runner::crew;
use crate::runner::crew::{Crew, CrewStage};
use crate::scenario::{Size, Vendor};

verus! {

/// How queries are run: by how many workers, over a channel of which capacity, how many
/// per second, and whether they are only simulated.
#[derive(Debug, Clone, Copy, PartialEq, Eq, Structural)]
pub struct RunPlan {
    pub parallel: usize,
    pub capacity: usize,
    pub mps: usize,
    pub simulate: Option<usize>,
}

impl RunPlan {
    /// The crew that runs the queries on the database.
    pub open spec fn crew(&self, vendor: Vendor) -> Crew {
        Crew {
            vendor,
            parallel: self.parallel,
            capacity: self.capacity,
            mps: self.mps,
            simulate: self.simulate,
            stage: CrewStage::OpeningChannel,
        }
    }

    fn assemble(&self, vendor: Vendor) -> (crew: Crew)
        ensures
            crew == self.crew(vendor),
    {
        Crew {
            vendor,
            parallel: self.parallel,
            capacity: self.capacity,
            mps: self.mps,
            simulate: self.simulate,
            stage: CrewStage::OpeningChannel,
        }
    }
}

/// A plan with room for twenty queries per worker in the channel.
fn plan(parallel: usize, mps: usize, simulate: Option<usize>) -> (r: RunPlan)
    requires
        crew::channel_fits(parallel),
    ensures
        r == (RunPlan { parallel, capacity: (20 * parallel) as usize, mps, simulate }),
{
    RunPlan { parallel, capacity: 20 * parallel, mps, simulate }
}

// ---------------------------------------------------------------------------
// FalkorDB

/// Where a run on FalkorDB stands.
pub enum RunFalkorStage {
    /// There is no worker to run anything.
    Idle,
    Reading,
    CheckingDump(Size),
    Restoring(Size),
    Starting,
    Sizing,
    Working(Crew),
    Stopping,
    /// The run has failed while the server was up.
    Dropping(BenchmarkError),
    Ended(BenchmarkResult<()>),
}

/// Runs prepared queries on FalkorDB.
pub struct RunFalkor {
    pub file_name: String,
    pub plan: RunPlan,
    pub stage: RunFalkorStage,
}

/// Runs the prepared queries in the file on FalkorDB.
pub fn run_falkor(
    parallel: usize,
    file_name: String,
    mps: usize,
    simulate: Option<usize>,
) -> (flow: RunFalkor)
    requires
        crew::channel_fits(parallel),
    ensures
        flow == (RunFalkor {
            file_name,
            plan: RunPlan { parallel, capacity: (20 * parallel) as usize, mps, simulate },
            stage: if parallel == 0 {
                RunFalkorStage::Idle
            } else {
                RunFalkorStage::Reading
            },
        }),
{
    let plan = plan(parallel, mps, simulate);
    if parallel == 0 {
        RunFalkor { file_name, plan, stage: RunFalkorStage::Idle }
    } else {
        RunFalkor { file_name, plan, stage: RunFalkorStage::Reading }
    }
}

impl RunFalkor {
    /// The stage after a reply.
    pub open spec fn stage_after(&self, reply: Reply) -> RunFalkorStage {
        match (self.stage, reply) {
            (RunFalkorStage::Reading, Reply::Queries { size, dataset }) =>
                RunFalkorStage::CheckingDump(dataset),
            (RunFalkorStage::Reading, Reply::Failed(e)) => RunFalkorStage::Ended(Err(e)),
            (RunFalkorStage::CheckingDump(dataset), Reply::Done) => RunFalkorStage::Restoring(
                dataset,
            ),
            (RunFalkorStage::CheckingDump(dataset), Reply::Failed(e)) => RunFalkorStage::Ended(
                Err(e),
            ),
            (RunFalkorStage::Restoring(dataset), Reply::Done) => RunFalkorStage::Starting,
            (RunFalkorStage::Restoring(dataset), Reply::Failed(e)) => RunFalkorStage::Ended(Err(e)),
            (RunFalkorStage::Starting, Reply::Done) => RunFalkorStage::Sizing,
            (RunFalkorStage::Starting, Reply::Failed(e)) => RunFalkorStage::Ended(Err(e)),
            (RunFalkorStage::Sizing, Reply::Counts { nodes, relations }) =>
                RunFalkorStage::Working(self.plan.crew(Vendor::Falkor)),
            (RunFalkorStage::Sizing, Reply::Failed(e)) => RunFalkorStage::Dropping(e),
            (RunFalkorStage::Working(crew), reply) => match crew.after(reply).stage {
                CrewStage::Ended(Ok(_)) => RunFalkorStage::Stopping,
                CrewStage::Ended(Err(e)) => RunFalkorStage::Dropping(e),
                _ => RunFalkorStage::Working(crew.after(reply)),
            },
            (RunFalkorStage::Stopping, Reply::Done) => RunFalkorStage::Ended(Ok(())),
            (RunFalkorStage::Stopping, Reply::Failed(e)) => RunFalkorStage::Ended(Err(e)),
            (RunFalkorStage::Dropping(e), Reply::Done) => RunFalkorStage::Ended(Err(e)),
            (stage, _) => stage,
        }
    }
}

impl Flow for RunFalkor {
    type Output = ();

    open spec fn request(&self) -> Option<Request> {
        match self.stage {
            RunFalkorStage::Idle => None,
            RunFalkorStage::Reading => Some(Request::ReadQueries(self.file_name@)),
            RunFalkorStage::CheckingDump(dataset) => Some(Request::CheckDump(dataset)),
            RunFalkorStage::Restoring(dataset) => Some(Request::RestoreDump(dataset)),
            RunFalkorStage::Starting => Some(Request::StartFalkor),
            RunFalkorStage::Sizing => Some(Request::GraphSize(Vendor::Falkor)),
            RunFalkorStage::Working(crew) => crew.request(),
            RunFalkorStage::Stopping => Some(Request::StopFalkor),
            RunFalkorStage::Dropping(_) => Some(Request::DropFalkor),
            RunFalkorStage::Ended(_) => None,
        }
    }

    open spec fn after(self, reply: Reply) -> Self {
        RunFalkor { stage: self.stage_after(reply), ..self }
    }

    open spec fn gives(&self, result: BenchmarkResult<()>) -> bool {
        match self.stage {
            RunFalkorStage::Idle => result matches Err(e) && e.is_other(
                "Parallelism level must be greater than zero."@,
            ),
            RunFalkorStage::Working(crew) => crew.gives(result),
            RunFalkorStage::Ended(r) => result == r,
            _ => false,
        }
    }

    proof fn goes_on(self, reply: Reply) {
        if let RunFalkorStage::Working(crew) = self.stage {
            crew.goes_on(reply);
        }
    }

    fn action(&self) -> (action: Option<Action>) {
        match &self.stage {
            RunFalkorStage::Idle => None,
            RunFalkorStage::Reading => Some(Action::ReadQueries(self.file_name.clone())),
            RunFalkorStage::CheckingDump(dataset) => Some(Action::CheckDump(*dataset)),
            RunFalkorStage::Restoring(dataset) => Some(Action::RestoreDump(*dataset)),
            RunFalkorStage::Starting => Some(Action::StartFalkor),
            RunFalkorStage::Sizing => Some(Action::GraphSize(Vendor::Falkor)),
            RunFalkorStage::Working(crew) => crew.action(),
            RunFalkorStage::Stopping => Some(Action::StopFalkor),
            RunFalkorStage::Dropping(_) => Some(Action::DropFalkor),
            RunFalkorStage::Ended(_) => None,
        }
    }

    fn next(self, reply: Reply) -> (state: Self) {
        let stage = match (self.stage, reply) {
            (RunFalkorStage::Reading, Reply::Queries { size, dataset }) =>
                RunFalkorStage::CheckingDump(dataset),
            (RunFalkorStage::Reading, Reply::Failed(e)) => RunFalkorStage::Ended(Err(e)),
            (RunFalkorStage::CheckingDump(dataset), Reply::Done) => RunFalkorStage::Restoring(
                dataset,
            ),
            (RunFalkorStage::CheckingDump(dataset), Reply::Failed(e)) => RunFalkorStage::Ended(
                Err(e),
            ),
            (RunFalkorStage::Restoring(dataset), Reply::Done) => RunFalkorStage::Starting,
            (RunFalkorStage::Restoring(dataset), Reply::Failed(e)) => RunFalkorStage::Ended(Err(e)),
            (RunFalkorStage::Starting, Reply::Done) => RunFalkorStage::Sizing,
            (RunFalkorStage::Starting, Reply::Failed(e)) => RunFalkorStage::Ended(Err(e)),
            (RunFalkorStage::Sizing, Reply::Counts { nodes, relations }) =>
                RunFalkorStage::Working(self.plan.assemble(Vendor::Falkor)),
            (RunFalkorStage::Sizing, Reply::Failed(e)) => RunFalkorStage::Dropping(e),
            (RunFalkorStage::Working(crew), reply) => {
                let crew = crew.next(reply);
                match crew.stage {
                    CrewStage::Ended(Ok(_)) => RunFalkorStage::Stopping,
                    CrewStage::Ended(Err(e)) => RunFalkorStage::Dropping(e),
                    stage => RunFalkorStage::Working(Crew { stage, ..crew }),
                }
            },
            (RunFalkorStage::Stopping, Reply::Done) => RunFalkorStage::Ended(Ok(())),
            (RunFalkorStage::Stopping, Reply::Failed(e)) => RunFalkorStage::Ended(Err(e)),
            (RunFalkorStage::Dropping(e), Reply::Done) => RunFalkorStage::Ended(Err(e)),
            (stage, _) => stage,
        };
        RunFalkor { stage, ..self }
    }

    fn finish(self) -> (result: BenchmarkResult<()>) {
        match self.stage {
            RunFalkorStage::Idle => Err(
                other_error("Parallelism level must be greater than zero."),
            ),
            RunFalkorStage::Working(crew) => crew.finish(),
            RunFalkorStage::Ended(r) => r,
            _ => unreached(),
        }
    }
}

impl RunFalkor {
    /// Whether the server is up.
    pub open spec fn server_is_up(&self) -> bool {
        self.stage is Sizing || self.stage is Working || self.stage is Stopping || self.stage
            is Dropping
    }
}

/// A run without workers asks for nothing and fails.
pub proof fn no_workers_no_run(run: RunFalkor, replies: Seq<Reply>)
    requires
        run.stage is Idle,
    ensures
        flow::run(run, replies) == run,
        run.request() is None,
        forall|result: BenchmarkResult<()>| #[trigger] run.gives(result) ==> result is Err,
    decreases replies.len(),
{
    if replies.len() > 0 {
        no_workers_no_run(run.after(replies[0]), replies.drop_first());
    }
}

/// Before the workers start, the dump of the data set is looked for and restored, the
/// server is started on it and the size of the graph is asked for.
pub proof fn run_begins_with_the_dump(
    run: RunFalkor,
    size: usize,
    dataset: Size,
    nodes: u64,
    relations: u64,
)
    requires
        run.stage is Reading,
    ensures
        ({
            let read = run.after(Reply::Queries { size, dataset });
            let replies = seq![
                Reply::Done,
                Reply::Done,
                Reply::Done,
                Reply::Counts { nodes, relations },
            ];
            &&& run.request() == Some(Request::ReadQueries(run.file_name@))
            &&& flow::requests(read, replies) == seq![
                Some(Request::CheckDump(dataset)),
                Some(Request::RestoreDump(dataset)),
                Some(Request::StartFalkor),
                Some(Request::GraphSize(Vendor::Falkor)),
            ].push(Some(Request::OpenChannel(run.plan.capacity)))
            &&& flow::run(read, replies).stage == RunFalkorStage::Working(
                run.plan.crew(Vendor::Falkor),
            )
        }),
{
    broadcast use flow::group_flow;

}

/// While its crew works, a run asks for what the crew asks for; then the server is
/// stopped, or let go where the crew has failed.
pub proof fn falkor_run_does_what_its_crew_does(run: RunFalkor, crew: Crew, replies: Seq<Reply>)
    requires
        run.stage == RunFalkorStage::Working(crew),
        forall|i: int|
            0 <= i < replies.len() ==> (#[trigger] flow::run(crew, replies.take(i))).request()
                is Some,
    ensures
        flow::run(run, replies).stage == match flow::run(crew, replies).stage {
            CrewStage::Ended(Ok(_)) if replies.len() > 0 => RunFalkorStage::Stopping,
            CrewStage::Ended(Err(e)) if replies.len() > 0 => RunFalkorStage::Dropping(e),
            _ => RunFalkorStage::Working(flow::run(crew, replies)),
        },
    decreases replies.len(),
{
    broadcast use flow::group_flow;

    if replies.len() > 0 {
        let before = replies.drop_last();
        assert(replies =~= before.push(replies.last()));
        assert forall|i: int| 0 <= i < before.len() implies (#[trigger] flow::run(
            crew,
            before.take(i),
        )).request() is Some by {
            assert(before.take(i) =~= replies.take(i));
        }
        assert(replies.take(before.len() as int) =~= before);
        assert(flow::run(crew, replies.take(before.len() as int)).request() is Some);
        falkor_run_does_what_its_crew_does(run, crew, before);
    } else {
        assert(replies =~= Seq::empty());
    }
}

/// Once the server is up it stays up until it is stopped or, after a failure, let go; a
/// run never ends with the server up.
pub proof fn server_is_taken_down(run: RunFalkor, reply: Reply)
    requires
        run.server_is_up(),
        run.request() is Some,
    ensures
        run.after(reply).server_is_up() || run.request() == Some(Request::StopFalkor)
            || run.request() == Some(Request::DropFalkor),
        run.after(reply).server_is_up() ==> run.after(reply).request() is Some,
{
}

/// The server is stopped until the run starts it, and started until the run stops it or
/// lets it go: whenever the run asks for something, the server is as that needs it.
pub proof fn server_is_ready_for_the_run(
    run: RunFalkor,
    servers: Seq<FalkorServer>,
    replies: Seq<Reply>,
)
    requires
        falkor_server::is_served(run, servers, replies),
        run.server_is_up() ==> servers[0] is Started,
        !run.server_is_up() ==> servers[0] is Stopped || run.request() is None,
    ensures
        ({
            let later = flow::run(run, replies);
            later.request() is Some ==> falkor_server::is_ready_for(
                servers.last(),
                later.request()->0,
            )
        }),
    decreases replies.len(),
{
    if replies.len() > 0 {
        server_is_ready_for_the_run(
            run.after(replies[0]),
            servers.drop_first(),
            replies.drop_first(),
        );
        assert(servers.drop_first().last() == servers.last());
    }
}

// ---------------------------------------------------------------------------
// Neo4j

/// Where a run on Neo4j stands.
pub enum RunNeo4jStage {
    StoppingFirst,
    Reading,
    Restoring(Size),
    Starting,
    Connecting,
    Sizing,
    Working(Crew),
    StoppingLast,
    Ended(BenchmarkResult<()>),
}

/// Runs prepared queries on Neo4j.
pub struct RunNeo4j {
    pub file_name: String,
    pub plan: RunPlan,
    pub stage: RunNeo4jStage,
}

/// Runs the prepared queries in the file on Neo4j.
pub fn run_neo4j(
    parallel: usize,
    file_name: String,
    mps: usize,
    simulate: Option<usize>,
) -> (flow: RunNeo4j)
    requires
        parallel > 0,
        crew::channel_fits(parallel),
    ensures
        flow == (RunNeo4j {
            file_name,
            plan: RunPlan { parallel, capacity: (20 * parallel) as usize, mps, simulate },
            stage: RunNeo4jStage::StoppingFirst,
        }),
{
    let plan = plan(parallel, mps, simulate);
    RunNeo4j { file_name, plan, stage: RunNeo4jStage::StoppingFirst }
}

impl RunNeo4j {
    /// The stage after a reply.
    pub open spec fn stage_after(&self, reply: Reply) -> RunNeo4jStage {
        match (self.stage, reply) {
            (RunNeo4jStage::StoppingFirst, Reply::Done) => RunNeo4jStage::Reading,
            (RunNeo4jStage::StoppingFirst, Reply::Failed(e)) => RunNeo4jStage::Ended(Err(e)),
            (RunNeo4jStage::Reading, Reply::Queries { size, dataset }) => RunNeo4jStage::Restoring(
                dataset,
            ),
            (RunNeo4jStage::Reading, Reply::Failed(e)) => RunNeo4jStage::Ended(Err(e)),
            (RunNeo4jStage::Restoring(dataset), Reply::Done) => RunNeo4jStage::Starting,
            (RunNeo4jStage::Restoring(dataset), Reply::Failed(e)) => RunNeo4jStage::Ended(Err(e)),
            (RunNeo4jStage::Starting, Reply::Done) => RunNeo4jStage::Connecting,
            (RunNeo4jStage::Starting, Reply::Failed(e)) => RunNeo4jStage::Ended(Err(e)),
            (RunNeo4jStage::Connecting, Reply::Done) => RunNeo4jStage::Sizing,
            (RunNeo4jStage::Connecting, Reply::Failed(e)) => RunNeo4jStage::Ended(Err(e)),
            (RunNeo4jStage::Sizing, Reply::Counts { nodes, relations }) => RunNeo4jStage::Working(
                self.plan.crew(Vendor::Neo4j),
            ),
            (RunNeo4jStage::Sizing, Reply::Failed(e)) => RunNeo4jStage::Ended(Err(e)),
            (RunNeo4jStage::Working(crew), reply) => match crew.after(reply).stage {
                CrewStage::Ended(Ok(_)) => RunNeo4jStage::StoppingLast,
                CrewStage::Ended(Err(e)) => RunNeo4jStage::Ended(Err(e)),
                _ => RunNeo4jStage::Working(crew.after(reply)),
            },
            (RunNeo4jStage::StoppingLast, Reply::Done) => RunNeo4jStage::Ended(Ok(())),
            (RunNeo4jStage::StoppingLast, Reply::Failed(e)) => RunNeo4jStage::Ended(Err(e)),
            (stage, _) => stage,
        }
    }
}

impl Flow for RunNeo4j {
    type Output = ();

    open spec fn request(&self) -> Option<Request> {
        match self.stage {
            RunNeo4jStage::StoppingFirst => Some(Request::StopNeo4j(false)),
            RunNeo4jStage::Reading => Some(Request::ReadQueries(self.file_name@)),
            RunNeo4jStage::Restoring(dataset) => Some(Request::RestoreNeo4j(dataset)),
            RunNeo4jStage::Starting => Some(Request::StartNeo4j),
            RunNeo4jStage::Connecting => Some(Request::ConnectNeo4j),
            RunNeo4jStage::Sizing => Some(Request::GraphSize(Vendor::Neo4j)),
            RunNeo4jStage::Working(crew) => crew.request(),
            RunNeo4jStage::StoppingLast => Some(Request::StopNeo4j(true)),
            RunNeo4jStage::Ended(_) => None,
        }
    }

    open spec fn after(self, reply: Reply) -> Self {
        RunNeo4j { stage: self.stage_after(reply), ..self }
    }

    open spec fn gives(&self, result: BenchmarkResult<()>) -> bool {
        match self.stage {
            RunNeo4jStage::Working(crew) => crew.gives(result),
            RunNeo4jStage::Ended(r) => result == r,
            _ => false,
        }
    }

    proof fn goes_on(self, reply: Reply) {
        if let RunNeo4jStage::Working(crew) = self.stage {
            crew.goes_on(reply);
        }
    }

    fn action(&self) -> (action: Option<Action>) {
        match &self.stage {
            RunNeo4jStage::StoppingFirst => Some(Action::StopNeo4j(false)),
            RunNeo4jStage::Reading => Some(Action::ReadQueries(self.file_name.clone())),
            RunNeo4jStage::Restoring(dataset) => Some(Action::RestoreNeo4j(*dataset)),
            RunNeo4jStage::Starting => Some(Action::StartNeo4j),
            RunNeo4jStage::Connecting => Some(Action::ConnectNeo4j),
            RunNeo4jStage::Sizing => Some(Action::GraphSize(Vendor::Neo4j)),
            RunNeo4jStage::Working(crew) => crew.action(),
            RunNeo4jStage::StoppingLast => Some(Action::StopNeo4j(true)),
            RunNeo4jStage::Ended(_) => None,
        }
    }

    fn next(self, reply: Reply) -> (state: Self) {
        let stage = match (self.stage, reply) {
            (RunNeo4jStage::StoppingFirst, Reply::Done) => RunNeo4jStage::Reading,
            (RunNeo4jStage::StoppingFirst, Reply::Failed(e)) => RunNeo4jStage::Ended(Err(e)),
            (RunNeo4jStage::Reading, Reply::Queries { size, dataset }) => RunNeo4jStage::Restoring(
                dataset,
            ),
            (RunNeo4jStage::Reading, Reply::Failed(e)) => RunNeo4jStage::Ended(Err(e)),
            (RunNeo4jStage::Restoring(dataset), Reply::Done) => RunNeo4jStage::Starting,
            (RunNeo4jStage::Restoring(dataset), Reply::Failed(e)) => RunNeo4jStage::Ended(Err(e)),
            (RunNeo4jStage::Starting, Reply::Done) => RunNeo4jStage::Connecting,
            (RunNeo4jStage::Starting, Reply::Failed(e)) => RunNeo4jStage::Ended(Err(e)),
            (RunNeo4jStage::Connecting, Reply::Done) => RunNeo4jStage::Sizing,
            (RunNeo4jStage::Connecting, Reply::Failed(e)) => RunNeo4jStage::Ended(Err(e)),
            (RunNeo4jStage::Sizing, Reply::Counts { nodes, relations }) => RunNeo4jStage::Working(
                self.plan.assemble(Vendor::Neo4j),
            ),
            (RunNeo4jStage::Sizing, Reply::Failed(e)) => RunNeo4jStage::Ended(Err(e)),
            (RunNeo4jStage::Working(crew), reply) => {
                let crew = crew.next(reply);
                match crew.stage {
                    CrewStage::Ended(Ok(_)) => RunNeo4jStage::StoppingLast,
                    CrewStage::Ended(Err(e)) => RunNeo4jStage::Ended(Err(e)),
                    stage => RunNeo4jStage::Working(Crew { stage, ..crew }),
                }
            },
            (RunNeo4jStage::StoppingLast, Reply::Done) => RunNeo4jStage::Ended(Ok(())),
            (RunNeo4jStage::StoppingLast, Reply::Failed(e)) => RunNeo4jStage::Ended(Err(e)),
            (stage, _) => stage,
        };
        RunNeo4j { stage, ..self }
    }

    fn finish(self) -> (result: BenchmarkResult<()>) {
        match self.stage {
            RunNeo4jStage::Working(crew) => crew.finish(),
            RunNeo4jStage::Ended(r) => r,
            _ => unreached(),
        }
    }
}

/// Before the workers start, a server that is running is stopped, the backup of the data
/// set is restored, the server is started on it and the size of the graph is asked for.
pub proof fn run_begins_with_the_backup(
    run: RunNeo4j,
    size: usize,
    dataset: Size,
    nodes: u64,
    relations: u64,
)
    requires
        run.stage is StoppingFirst,
    ensures
        ({
            let reading = run.after(Reply::Done);
            let read = reading.after(Reply::Queries { size, dataset });
            let replies = seq![
                Reply::Done,
                Reply::Done,
                Reply::Done,
                Reply::Counts { nodes, relations },
            ];
            &&& run.request() == Some(Request::StopNeo4j(false))
            &&& reading.request() == Some(Request::ReadQueries(run.file_name@))
            &&& flow::requests(read, replies) == seq![
                Some(Request::RestoreNeo4j(dataset)),
                Some(Request::StartNeo4j),
                Some(Request::ConnectNeo4j),
                Some(Request::GraphSize(Vendor::Neo4j)),
            ].push(Some(Request::OpenChannel(run.plan.capacity)))
            &&& flow::run(read, replies).stage == RunNeo4jStage::Working(
                run.plan.crew(Vendor::Neo4j),
            )
        }),
{
    broadcast use flow::group_flow;

}

/// While its crew works, a run asks for what the crew asks for; then the server is
/// stopped, or the run ends where the crew has failed.
pub proof fn neo4j_run_does_what_its_crew_does(run: RunNeo4j, crew: Crew, replies: Seq<Reply>)
    requires
        run.stage == RunNeo4jStage::Working(crew),
        forall|i: int|
            0 <= i < replies.len() ==> (#[trigger] flow::run(crew, replies.take(i))).request()
                is Some,
    ensures
        flow::run(run, replies).stage == match flow::run(crew, replies).stage {
            CrewStage::Ended(Ok(_)) if replies.len() > 0 => RunNeo4jStage::StoppingLast,
            CrewStage::Ended(Err(e)) if replies.len() > 0 => RunNeo4jStage::Ended(Err(e)),
            _ => RunNeo4jStage::Working(flow::run(crew, replies)),
        },
    decreases replies.len(),
{
    broadcast use flow::group_flow;

    if replies.len() > 0 {
        let before = replies.drop_last();
        assert(replies =~= before.push(replies.last()));
        assert forall|i: int| 0 <= i < before.len() implies (#[trigger] flow::run(
            crew,
            before.take(i),
        )).request() is Some by {
            assert(before.take(i) =~= replies.take(i));
        }
        assert(replies.take(before.len() as int) =~= before);
        assert(flow::run(crew, replies.take(before.len() as int)).request() is Some);
        neo4j_run_does_what_its_crew_does(run, crew, before);
    } else {
        assert(replies =~= Seq::empty());
    }
}

/// The first step that fails ends a run on Neo4j with its error. So does a worker that
/// cannot be started.
pub proof fn first_failure_ends_neo4j(run: RunNeo4j, e: BenchmarkError)
    requires
        match run.stage {
            RunNeo4jStage::Working(crew) => crew.stage is StartingWorker,
            _ => run.request() is Some,
        },
    ensures
        run.after(Reply::Failed(e)).request() is None,
        run.after(Reply::Failed(e)).gives(Err(e)),
{
}

/// The first step that fails ends a run on FalkorDB with its error, once the server is
/// down. So does a worker that cannot be started.
pub proof fn first_failure_ends_falkor(run: RunFalkor, e: BenchmarkError)
    requires
        match run.stage {
            RunFalkorStage::Working(crew) => crew.stage is StartingWorker,
            RunFalkorStage::Dropping(_) => false,
            _ => run.request() is Some,
        },
    ensures
        ({
            let failed = run.after(Reply::Failed(e));
            if run.stage is Sizing || run.stage is Working {
                &&& failed.request() == Some(Request::DropFalkor)
                &&& failed.after(Reply::Done).gives(Err(e))
            } else {
                &&& failed.request() is None
                &&& failed.gives(Err(e))
            }
        }),
{
}

} // verus!
