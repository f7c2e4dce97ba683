//! How the operations begin for what they are given.
use vstd::prelude::*;
use crate::action::{Reply, Request};
use crate::execution::{ExecuteQueries, ExecuteQuery, ExecuteStage, SendPrepared, SendStage, Target};
use crate::falkor::falkor_driver::{
    dump_path, DumpExists, Falkor, FalkorBenchmarkClient, FalkorGraphSize, RestoreDb, SaveDb,
    StartFalkor, Started, StopFalkor, Stopped,
};
use crate::falkor::falkor_metrics::{execute_i64_query, CountQuery, ReportFalkor};
use crate::falkor::falkor_process::{
    ping_server, FalkorProcess, FalkorSettings, LaunchFalkor, LaunchStage, PingServer,
    TerminateFalkor,
};
use crate::flow;
use crate::ibex::ibex_driver;
use crate::ibex::ibex_driver::{
    CleanDb, CleanStage, CopyDb, CopyStage, Ibex, IbexBenchmarkClient, SavedDbExists, StartIbex,
    StartStage, StopIbex, WaitAttempt, WaitForIbex,
};
use crate::ibex::ibex_process::{
    fetch_stats, ibex_endpoint, FetchStats, IbexProcess, LaunchIbex, ReportIbex, TerminateIbex,
};
use crate::laws::falkor;
use crate::laws::ibex;
use crate::neo4j_client::{
    BoltStage, ExecuteAll, ExecuteStream, Neo4jClient, Neo4jGraphSize, SendBolt,
};
use crate::query::{PreparedQuery, QueryType};
use crate::runner::crew;
use crate::runner::crew::{
    spawn_falkor_worker, spawn_neo4j_worker, SpawnStage, SpawnWorker, Worker, WorkerStage,
};
use crate::runner::load::{
    dry_init_neo4j, init_falkor, init_neo4j, DryRun, DryStage, LoadFalkor, LoadFalkorStage,
    LoadNeo4j, LoadNeo4jStage,
};
use crate::runner::queries::{
    prepare_queries, read_queries, PrepareQueries, PrepareQueriesMetadata, PrepareStage,
    ReadQueries, ReadStage,
};
use crate::runner::run::{
    run_falkor, run_neo4j, RunFalkor, RunFalkorStage, RunNeo4j, RunNeo4jStage, RunPlan,
};
use crate::scenario::{Size, Vendor};
use crate::text;
use crate::utils::files::{
    create_directory_if_not_exists, delete_file, download_file, write_to_file, CreateDirectory,
    DeleteFile, DownloadFile, WriteFile,
};
use crate::utils::processes::{
    get_command_pid, kill_process, spawn_command, GetCommandPid, KillProcess, SpawnCommand,
};
use crate::utils::redis::{
    ping_redis, redis_save, redis_shutdown, wait_for_redis_ready, Attempt, Exchange, RedisExchange,
    RedisShutdown, WaitForRedis,
};

verus! {

// ---------------------------------------------------------------------------
// Queries

/// A prepared query goes to FalkorDB or ibexdb as it was prepared, read-only where it is a
/// read, when it is due and with the given delay in place of it.
pub proof fn prepared_query_keeps_its_parts(
    falkor: FalkorBenchmarkClient,
    ibex: IbexBenchmarkClient,
    worker_id: &str,
    query: PreparedQuery,
    offset_ms: i64,
    simulate: Option<usize>,
    flow: SendPrepared,
)
    requires
        call_ensures(
            FalkorBenchmarkClient::execute_prepared_query,
            (&falkor, worker_id, &query, offset_ms, simulate),
            flow,
        ) || call_ensures(
            IbexBenchmarkClient::execute_prepared_query,
            (&ibex, worker_id, &query, offset_ms, simulate),
            flow,
        ),
    ensures
        flow.worker_id@ == worker_id@,
        flow.q_name@ == query.q_name@,
        flow.query@ == query.cypher@,
        flow.read_only <==> query.q_type == QueryType::Read,
        flow.offset_ms == offset_ms,
        flow.simulate == simulate,
        flow.stage == SendStage::Noting,
        call_ensures(
            FalkorBenchmarkClient::execute_prepared_query,
            (&falkor, worker_id, &query, offset_ms, simulate),
            flow,
        ) ==> flow.target == Target::Falkor,
        call_ensures(
            IbexBenchmarkClient::execute_prepared_query,
            (&ibex, worker_id, &query, offset_ms, simulate),
            flow,
        ) ==> flow.target == Target::Ibex,
{
}

/// A prepared query goes to Neo4j with its parameters.
pub proof fn prepared_bolt_query_keeps_its_parts(
    client: Neo4jClient,
    worker_id: &str,
    query: PreparedQuery,
    offset_ms: i64,
    simulate: Option<usize>,
    flow: SendBolt,
)
    requires
        call_ensures(
            Neo4jClient::execute_prepared_query,
            (&client, worker_id, &query, offset_ms, simulate),
            flow,
        ),
    ensures
        flow.worker_id@ == worker_id@,
        flow.q_name@ == query.q_name@,
        flow.bolt@ == query.bolt@,
        flow.offset_ms == offset_ms,
        flow.simulate == simulate,
        flow.stage == BoltStage::Noting,
{
}

/// A query that is executed at once keeps its name and its text, and goes to the database
/// of the client.
pub proof fn query_keeps_its_parts(
    falkor: FalkorBenchmarkClient,
    ibex: IbexBenchmarkClient,
    spawn_id: &str,
    name: &str,
    query: &str,
    flow: ExecuteQuery,
)
    ensures
        call_ensures(
            FalkorBenchmarkClient::_execute_query,
            (&falkor, spawn_id, name, query),
            flow,
        ) ==> flow.target == Target::Falkor && flow.spawn_id@ == spawn_id@ && flow.query_name@
            == name@ && flow.query@ == query@ && flow.stage == ExecuteStage::Counting,
        call_ensures(IbexBenchmarkClient::_execute_query, (&ibex, spawn_id, name, query), flow)
            ==> flow.target == Target::Ibex && flow.spawn_id@ == spawn_id@ && flow.query_name@
            == name@ && flow.query@ == query@ && flow.stage == ExecuteStage::Counting,
{
}

/// Many queries are executed from the first on, all that there are, under the number of who
/// executes them. Queries that someone else still holds are not.
pub proof fn queries_are_executed_from_the_first(
    falkor: FalkorBenchmarkClient,
    ibex: IbexBenchmarkClient,
    spawn_id: usize,
    queries: Option<Vec<PreparedQuery>>,
    flow: ExecuteQueries,
)
    ensures
        call_ensures(FalkorBenchmarkClient::execute_queries, (&falkor, spawn_id, queries), flow)
            ==> flow.target == Target::Falkor,
        call_ensures(IbexBenchmarkClient::execute_queries, (&ibex, spawn_id, queries), flow)
            ==> flow.target == Target::Ibex,
        call_ensures(FalkorBenchmarkClient::execute_queries, (&falkor, spawn_id, queries), flow)
            || call_ensures(IbexBenchmarkClient::execute_queries, (&ibex, spawn_id, queries), flow)
            ==> {
            &&& flow.position == 0
            &&& flow.spawn_id@ == text::decimal(spawn_id as nat)
            &&& queries is Some ==> flow.queries@ == queries->0@
            &&& queries is None ==> flow.queries@.len() == 0
        },
{
}

/// What is asked of Neo4j begins with its first step and with all that it was given.
pub proof fn neo4j_operations_begin(
    client: Neo4jClient,
    queries: Vec<PreparedQuery>,
    size: Neo4jGraphSize,
    all: ExecuteAll,
    stream: ExecuteStream,
)
    ensures
        call_ensures(Neo4jClient::graph_size, (&client,), size) ==> size
            == Neo4jGraphSize::CountingNodes,
        call_ensures(Neo4jClient::execute_query_iterator, (&client, queries), all) ==> all == (
        ExecuteAll { queries, position: 0, failure: None }),
        call_ensures(Neo4jClient::execute_query_stream, (&client,), stream) ==> stream
            == ExecuteStream::Reading,
{
}

// ---------------------------------------------------------------------------
// Runs and loads

/// A run has the workers, the pace and the delay that it was given, on the file that it was
/// given, and twenty places in the channel for each worker. Without workers there is no run
/// on FalkorDB.
pub proof fn run_keeps_what_it_is_given(
    parallel: usize,
    file_name: String,
    mps: usize,
    simulate: Option<usize>,
    falkor: RunFalkor,
    neo4j: RunNeo4j,
)
    requires
        160 * parallel <= usize::MAX,
    ensures
        call_ensures(run_falkor, (parallel, file_name, mps, simulate), falkor) ==> {
            &&& falkor.file_name == file_name
            &&& falkor.plan == (RunPlan {
                parallel,
                capacity: (20 * parallel) as usize,
                mps,
                simulate,
            })
            &&& falkor.stage == if parallel == 0 {
                RunFalkorStage::Idle
            } else {
                RunFalkorStage::Reading
            }
        },
        parallel > 0 && call_ensures(run_neo4j, (parallel, file_name, mps, simulate), neo4j) ==> {
            &&& neo4j.file_name == file_name
            &&& neo4j.plan == (RunPlan {
                parallel,
                capacity: (20 * parallel) as usize,
                mps,
                simulate,
            })
            &&& neo4j.stage == RunNeo4jStage::StoppingFirst
        },
        crew::channel_fits(parallel),
        20 * parallel <= usize::MAX,
{
}

/// A worker has the number and the delay that it was given, and begins by asking for a
/// message. One for FalkorDB is started over a connection of its own.
pub proof fn worker_keeps_what_it_is_given(
    vendor: Vendor,
    worker: usize,
    simulate: Option<usize>,
    flow: Worker,
    spawn: SpawnWorker,
)
    ensures
        call_ensures(Worker::new, (vendor, worker, simulate), flow) ==> {
            &&& flow.vendor == vendor
            &&& flow.worker_id@ == text::decimal(worker as nat)
            &&& flow.simulate == simulate
            &&& flow.stage == WorkerStage::Receiving
        },
        call_ensures(spawn_neo4j_worker, (worker, simulate), spawn) ==> spawn == (SpawnWorker {
            vendor: Vendor::Neo4j,
            worker,
            simulate,
            stage: SpawnStage::Spawning,
        }),
        call_ensures(spawn_falkor_worker, (worker, simulate), spawn) ==> spawn == (SpawnWorker {
            vendor: Vendor::Falkor,
            worker,
            simulate,
            stage: SpawnStage::Connecting,
        }),
{
}

/// A load is of the size that was asked for, and forced where it was asked to be. It makes
/// no difference to FalkorDB whether it is forced.
pub proof fn load_keeps_what_it_is_given(
    size: Size,
    force: bool,
    neo4j: LoadNeo4j,
    falkor: LoadFalkor,
    dry: DryRun,
)
    ensures
        call_ensures(init_neo4j, (size, force), neo4j) ==> neo4j == (LoadNeo4j {
            size,
            force,
            stage: LoadNeo4jStage::StoppingFirst,
        }),
        call_ensures(init_falkor, (size, force), falkor) ==> falkor == (LoadFalkor {
            size,
            stage: LoadFalkorStage::Cleaning,
        }),
        call_ensures(dry_init_neo4j, (size,), dry) ==> dry == (DryRun {
            size,
            stage: DryStage::Opening,
            success: 0,
            error: 0,
        }),
{
}

/// Queries are prepared and read for the data set, in the number and in the file that were
/// given.
pub proof fn query_file_keeps_what_it_is_given(
    dataset: Size,
    size: usize,
    file_name: String,
    prepare: PrepareQueries,
    read: ReadQueries,
)
    ensures
        call_ensures(prepare_queries, (dataset, size, file_name), prepare) ==> prepare == (
        PrepareQueries {
            metadata: PrepareQueriesMetadata { size, dataset },
            file_name,
            stage: PrepareStage::Generating,
        }),
        call_ensures(read_queries, (file_name,), read) ==> read@.file_name == file_name@
            && read@.stage == ReadStage::Opening && read@.queries.len() == 0,
{
}

// ---------------------------------------------------------------------------
// FalkorDB

/// FalkorDB is looked for at the given path, and else in the current directory.
pub proof fn falkor_is_at_its_path(dir: &str, path: Option<&str>, new: Falkor<Stopped>)
    requires
        call_ensures(Falkor::<Stopped>::new, (Some(dir), path), new),
    ensures
        path is Some ==> new.path@ == path->0@,
        path is None ==> new.path@ == dir@ + "/falkordb.so"@,
{
}

/// What is asked of a stopped FalkorDB is about that FalkorDB, its one file of data, and the
/// size that is named.
pub proof fn stopped_falkor_is_asked(
    falkor: Falkor<Stopped>,
    size: Size,
    start: StartFalkor,
    clean: DeleteFile,
    save: SaveDb,
    find: GetCommandPid,
    restore: RestoreDb,
    check: DumpExists,
)
    ensures
        call_ensures(Falkor::<Stopped>::start, (falkor,), start) ==> start == (
        StartFalkor::Launching { path: falkor.path }),
        call_ensures(Falkor::<Stopped>::clean_db, (&falkor,), clean) ==> flow::comes_to(
            clean,
            seq![],
            Request::FileExists("./redis-data/dump.rdb"@),
        ),
        call_ensures(Falkor::<Stopped>::save_db, (&falkor, size), save) ==> save == (
        SaveDb::CheckingMode { size }),
        call_ensures(Falkor::<Stopped>::get_redis_pid, (&falkor,), find) ==> (find matches
            GetCommandPid::Listing { cmd } && cmd@ == "redis-server"@),
        call_ensures(Falkor::<Stopped>::restore_db, (&falkor, size), restore) ==> restore == (
        RestoreDb::CheckingMode { size }),
        call_ensures(Falkor::<Stopped>::dump_exists_or_error, (&falkor, size), check) ==> check == (
        DumpExists::CheckingMode { size }),
{
}

/// The dump and the saved database of a data set are at the places of its size.
pub proof fn saved_data_has_its_place(size: Size, dump: String, saved: String)
    ensures
        call_ensures(dump_path, (size,), dump) ==> dump@ == falkor::dump_of(size),
        call_ensures(ibex_driver::saved_db_path, (size,), saved) ==> saved@ == ibex::saved_of(size),
{
}

/// What is asked of a started FalkorDB is about its path and its process, and about the size
/// that is named.
pub proof fn started_falkor_is_asked(
    falkor: Falkor<Started>,
    size: Size,
    stop: StopFalkor,
    graph: FalkorGraphSize,
    restore: RestoreDb,
    check: DumpExists,
)
    ensures
        call_ensures(Falkor::<Started>::stop, (falkor,), stop) ==> stop == (StopFalkor::Saving {
            path: falkor.path,
            process: falkor.state.0,
        }),
        call_ensures(Falkor::<Started>::graph_size, (&falkor,), graph) ==> graph
            == FalkorGraphSize::Connecting,
        call_ensures(Falkor::<Started>::restore_db, (&falkor, size), restore) ==> restore == (
        RestoreDb::CheckingMode { size }),
        call_ensures(Falkor::<Started>::dump_exists_or_error, (&falkor, size), check) ==> check == (
        DumpExists::CheckingMode { size }),
{
}

/// The server process of FalkorDB is launched with its settings and stopped with all its
/// parts; its pings and its reports begin with their first step, and a counting query is
/// the one that was given.
pub proof fn falkor_process_is_asked(
    settings: FalkorSettings,
    process: FalkorProcess,
    query: &str,
    launch: LaunchFalkor,
    stop: TerminateFalkor,
    ping: PingServer,
    report: ReportFalkor,
    count: CountQuery,
)
    ensures
        call_ensures(FalkorProcess::new, (settings,), launch) ==> launch == (LaunchFalkor {
            settings,
            stage: LaunchStage::CheckingMode,
        }),
        call_ensures(FalkorProcess::terminate, (process,), stop) ==> stop == (TerminateFalkor {
            process,
        }),
        call_ensures(ping_server, (), ping) ==> ping == PingServer::Sleeping,
        call_ensures(crate::falkor::falkor_metrics::report_metrics, (), report) ==> report
            == ReportFalkor::AskingInfo,
        call_ensures(execute_i64_query, (query,), count) ==> flow::comes_to(
            count,
            seq![],
            Request::FalkorRow { query: query@, timeout_ms: 5000 },
        ),
{
}

// ---------------------------------------------------------------------------
// ibexdb

/// What is asked of ibexdb is about its one database, the saved one of the size that is
/// named, and the place where it answers.
pub proof fn stopped_ibex_is_asked(
    ibex: Ibex<ibex_driver::Stopped>,
    size: Size,
    endpoint: &str,
    start: StartIbex,
    clean: CleanDb,
    save: CopyDb,
    restore: CopyDb,
    check: SavedDbExists,
    wait: WaitForIbex,
)
    ensures
        call_ensures(Ibex::<ibex_driver::Stopped>::new, (), ibex) ==> ibex.database@
            == "./ibex-data/db"@,
        call_ensures(Ibex::<ibex_driver::Stopped>::start, (ibex,), start) ==> start == (StartIbex {
            database: ibex.database,
            stage: StartStage::EnsuringData,
        }),
        call_ensures(Ibex::<ibex_driver::Stopped>::clean_db, (&ibex,), clean) ==> clean == (
        CleanDb { database: ibex.database, stage: CleanStage::Probing }),
        call_ensures(Ibex::<ibex_driver::Stopped>::save_db, (&ibex, size), save) ==> save.from@
            == ibex.database@ && save.to@ == ibex::saved_of(size) && !save.optional && save.stage
            == CopyStage::Probing,
        call_ensures(Ibex::<ibex_driver::Stopped>::restore_db, (&ibex, size), restore)
            ==> restore.from@ == ibex::saved_of(size) && restore.to@ == ibex.database@
            && restore.optional && restore.stage == CopyStage::Probing,
        call_ensures(Ibex::<ibex_driver::Stopped>::dump_exists_or_error, (&ibex, size), check)
            ==> check == SavedDbExists::Probing(size),
        call_ensures(Ibex::<ibex_driver::Stopped>::wait_for_ready, (endpoint,), wait) ==> wait.url@
            == endpoint@ + "/api/stats"@ && wait.attempt == WaitAttempt::Asking(1),
{
}

/// A started ibexdb is stopped with its own database and process, and its size is asked for
/// where it answers.
pub proof fn started_ibex_is_asked(
    ibex: Ibex<ibex_driver::Started>,
    endpoint: &str,
    stop: StopIbex,
    size: FetchStats,
    told: FetchStats,
    report: ReportIbex,
)
    ensures
        call_ensures(Ibex::<ibex_driver::Started>::stop, (ibex,), stop) ==> stop == (
        StopIbex::Ending { database: ibex.database, process: ibex.state.0 }),
        call_ensures(Ibex::<ibex_driver::Started>::graph_size, (&ibex, endpoint), size)
            ==> flow::comes_to(size, seq![], Request::FetchStats(endpoint@ + "/api/stats"@)),
        call_ensures(fetch_stats, (endpoint,), told) ==> flow::comes_to(
            told,
            seq![],
            Request::FetchStats(endpoint@ + "/api/stats"@),
        ),
        call_ensures(crate::ibex::ibex_process::report_metrics, (endpoint,), report)
            ==> flow::comes_to(report, seq![], Request::FetchStats(endpoint@ + "/api/stats"@)),
{
}

/// The server process of ibexdb is launched on the database and stopped with all its parts;
/// it is reached where the environment says, and else where it listens.
pub proof fn ibex_process_is_asked(
    database: &str,
    process: IbexProcess,
    endpoint: Option<&str>,
    launch: LaunchIbex,
    stop: TerminateIbex,
    reached: String,
)
    ensures
        call_ensures(IbexProcess::new, (database,), launch) ==> (launch matches
            LaunchIbex::StartingReporter { database: d } && d@ == database@),
        call_ensures(IbexProcess::terminate, (process,), stop) ==> stop == (TerminateIbex {
            process,
        }),
        call_ensures(ibex_endpoint, (endpoint,), reached) ==> reached@ == if endpoint is Some {
            endpoint->0@
        } else {
            "http://"@ + "127.0.0.1"@ + ":"@ + "8088"@
        },
{
    ibex::server_is_looked_for_where_it_listens(Seq::empty());
}

// ---------------------------------------------------------------------------
// Files, processes, Redis

/// Operations on files are on the file, the page and the text that were given.
pub proof fn file_operations_keep_what_they_are_given(
    path: &str,
    other: &str,
    delete: DeleteFile,
    ensure: CreateDirectory,
    download: DownloadFile,
    write: WriteFile,
    status: String,
)
    ensures
        call_ensures(delete_file, (path,), delete) ==> flow::comes_to(
            delete,
            seq![(Request::FileExists(path@), Reply::Flag(true))],
            Request::RemoveFile(path@),
        ),
        call_ensures(create_directory_if_not_exists, (path,), ensure) ==> flow::comes_to(
            ensure,
            seq![(Request::FileExists(path@), Reply::Flag(false))],
            Request::CreateDirectories(path@),
        ),
        call_ensures(download_file, (path, other), download) ==> flow::comes_to(
            download,
            seq![(Request::HttpGet(path@), Reply::Status { success: true, status })],
            Request::SaveBody(other@),
        ),
        call_ensures(write_to_file, (path, other), write) ==> flow::comes_to(
            write,
            seq![(Request::CreateFile(path@), Reply::Done)],
            Request::WriteText(other@),
        ),
{
    reveal_with_fuel(flow::follows_from, 3);
    reveal_with_fuel(flow::played_from, 3);
}

/// Operations on processes are on the command and the id that were given. The system takes
/// ids as signed numbers.
pub proof fn process_operations_keep_what_they_are_given(
    command: &str,
    args: Vec<String>,
    pid: u32,
    spawn: SpawnCommand,
    find: GetCommandPid,
    kill: KillProcess,
)
    ensures
        call_ensures(spawn_command, (command, args), spawn) ==> flow::comes_to(
            spawn,
            seq![],
            Request::RunProcess { command: command@, args: text::texts(args@) },
        ),
        call_ensures(get_command_pid, (command,), find) ==> (find matches
            GetCommandPid::Listing { cmd } && cmd@ == command@),
        call_ensures(kill_process, (pid,), kill) ==> flow::comes_to(
            kill,
            seq![],
            Request::Kill(pid as i32),
        ),
        pid <= i32::MAX ==> pid as i32 == pid,
{
}

/// Operations on Redis send the command that they are named after; a wait makes as many
/// attempts, with the pause between them, as it was given.
pub proof fn redis_operations_begin(
    max_attempts: u32,
    delay_ms: u64,
    ping: RedisExchange,
    save: RedisExchange,
    shutdown: RedisShutdown,
    wait: WaitForRedis,
)
    ensures
        call_ensures(ping_redis, (), ping) ==> ping == RedisExchange::Asking(Exchange::Ping),
        call_ensures(redis_save, (), save) ==> save == RedisExchange::Asking(Exchange::Save),
        call_ensures(redis_shutdown, (), shutdown) ==> shutdown == RedisShutdown::Asking,
        max_attempts >= 1 && call_ensures(wait_for_redis_ready, (max_attempts, delay_ms), wait)
            ==> wait == (WaitForRedis { max_attempts, delay_ms, attempt: Attempt::Pinging(1) }),
{
}

} // verus!
