//! What is to be done for an action whose work goes on by itself or hands values over.
use vstd::prelude::*;
use vstd::string::*;
use crate::action::{Action, Request};
use crate::execution::Target;
use crate::falkor::falkor_metrics;
use crate::falkor::falkor_metrics::ReportFalkor;
use crate::falkor::falkor_process::{ping_server, PingServer};
use crate::ibex::ibex_process;
use crate::ibex::ibex_process::ReportIbex;
use crate::neo4j_client::{ExecuteStream, Neo4jClient};
use crate::runner::crew::{Worker, WorkerStage};
use crate::runner::queries::{read_queries, ReadQueries, ReadView};
use crate::scenario;
use crate::scenario::{Name, Spec, Vendor};
use crate::text;

verus! {

/// The work that an action stands for.
pub enum Job<'a> {
    /// Let the worker take messages.
    Work(Worker),
    /// Read a file of prepared queries.
    Read(ReadQueries),
    /// Run the open statements on Neo4j.
    Import(ExecuteStream),
    /// Report the metrics of FalkorDB, time and again.
    ReportFalkor(ReportFalkor),
    /// Report the metrics of ibexdb, time and again.
    ReportIbex(ReportIbex),
    /// Ping the server.
    Ping(PingServer),
    /// Put the backup of this data set in place.
    Restore(Spec<'a>),
    /// Make a backup of this data set.
    Dump(Spec<'a>),
}

/// Whether the action stands for such work.
pub open spec fn is_job(request: Request) -> bool {
    match request {
        Request::SpawnWorker { vendor, worker, simulate } => true,
        Request::ReadQueries(_)
        | Request::ImportStatements
        | Request::StartMetricsReporter(_)
        | Request::StartPingServer
        | Request::RestoreNeo4j(_)
        | Request::DumpNeo4j(_) => true,
        _ => false,
    }
}

/// Whether the data set is that of the users of this size for Neo4j.
pub open spec fn is_for_neo4j(spec: Spec, size: scenario::Size) -> bool {
    &&& spec.name == Name::Users
    &&& spec.size == size
    &&& spec.vendor == Vendor::Neo4j
    &&& spec.data_url@ == scenario::users_data_url(size)
    &&& spec.index_url@ == scenario::users_index_url()
}

/// Whether the job, before it has begun, is the one for the action.
pub open spec fn is_for(job: Job, request: Request, endpoint: Seq<char>) -> bool {
    match (request, job) {
        (Request::SpawnWorker { vendor, worker, simulate }, Job::Work(flow)) => {
            &&& flow.vendor == vendor
            &&& flow.worker_id@ == text::decimal(worker as nat)
            &&& flow.simulate == simulate
            &&& flow.stage == WorkerStage::Receiving
        },
        (Request::ReadQueries(file), Job::Read(reader)) => reader@ == ReadView::begun(file),
        (Request::ImportStatements, Job::Import(stream)) => stream == ExecuteStream::Reading,
        (Request::StartMetricsReporter(Target::Falkor), Job::ReportFalkor(flow)) => flow
            == ReportFalkor::AskingInfo,
        (Request::StartMetricsReporter(Target::Ibex), Job::ReportIbex(ReportIbex::Asking { url })) =>
            url@ == endpoint + "/api/stats"@,
        (Request::StartPingServer, Job::Ping(flow)) => flow == PingServer::Sleeping,
        (Request::RestoreNeo4j(size), Job::Restore(spec)) => is_for_neo4j(spec, size),
        (Request::DumpNeo4j(size), Job::Dump(spec)) => is_for_neo4j(spec, size),
        _ => false,
    }
}

/// The job for the action, or the action itself where it stands for none. Where ibexdb
/// answers is at `endpoint`.
pub fn job<'a>(action: Action, endpoint: &str) -> (result: Result<Job<'a>, Action>)
    ensures
        match result {
            Ok(job) => is_job(action@) && is_for(job, action@, endpoint@),
            Err(a) => !is_job(action@) && a == action,
        },
{
    match action {
        Action::SpawnWorker { vendor, worker, simulate } => Ok(
            Job::Work(Worker::new(vendor, worker, simulate)),
        ),
        Action::ReadQueries(file) => Ok(Job::Read(read_queries(file))),
        Action::ImportStatements => Ok(Job::Import(Neo4jClient.execute_query_stream())),
        Action::StartMetricsReporter(Target::Falkor) => Ok(
            Job::ReportFalkor(falkor_metrics::report_metrics()),
        ),
        Action::StartMetricsReporter(Target::Ibex) => Ok(
            Job::ReportIbex(ibex_process::report_metrics(endpoint)),
        ),
        Action::StartPingServer => Ok(Job::Ping(ping_server())),
        Action::RestoreNeo4j(size) => Ok(Job::Restore(Spec::new(Name::Users, size, Vendor::Neo4j))),
        Action::DumpNeo4j(size) => Ok(Job::Dump(Spec::new(Name::Users, size, Vendor::Neo4j))),
        other => Err(other),
    }
}

} // verus!
