//! Which operation of the library carries out an action that another operation asks for.
use vstd::prelude::*;
use vstd::string::*;
use crate::action;
use crate::action::{Action, Reply, Request};
use crate::error::BenchmarkResult;
use crate::execution::{ExecuteQuery, ExecuteStage, SendPrepared, SendStage, Target};
use crate::falkor::falkor_driver::{
    DumpExists, FalkorBenchmarkClient, FalkorGraphSize, RestoreDb, SaveDb, REDIS_DUMP_FILE,
};
use crate::falkor::falkor_metrics::{execute_i64_query, CountQuery};
use crate::falkor::falkor_process::{
    FalkorProcess, FalkorSettings, LaunchFalkor, LaunchStage, TerminateFalkor,
};
use crate::flow;
use crate::flow::Flow;
use crate::ibex::ibex_driver::{Ibex, IbexBenchmarkClient, Stopped, WaitAttempt, WaitForIbex};
use crate::ibex::ibex_process::{fetch_stats, FetchStats, IbexProcess, LaunchIbex, TerminateIbex};
use crate::neo4j_client::{BoltStage, Neo4jClient, Neo4jGraphSize, SendBolt};
use crate::query::QueryType;
use crate::runner::crew::{spawn_falkor_worker, spawn_neo4j_worker, SpawnStage, SpawnWorker};
use crate::scenario;
use crate::scenario::{open_data, open_indexes, CacheStage, Name, OpenStatements, Vendor};
use crate::utils::files::{
    create_directory_if_not_exists, delete_file, download_file, CreateDirectory, DeleteFile,
    DownloadFile,
};
use crate::utils::processes::{
    get_command_pid, kill_process, spawn_command, GetCommandPid, KillProcess, SpawnCommand,
};
use crate::utils::redis::{
    ping_redis, redis_save, redis_shutdown, wait_for_redis_ready, Attempt, Exchange, RedisExchange,
    RedisShutdown, WaitForRedis,
};

verus! {

/// An operation that carries out an action.
pub enum Call {
    DeleteFile(DeleteFile),
    EnsureDirectory(CreateDirectory),
    SpawnCommand(SpawnCommand),
    FindProcess(GetCommandPid),
    KillProcess(KillProcess),
    Download(DownloadFile),
    AskRedis(RedisExchange),
    WaitForRedis(WaitForRedis),
    ShutDownRedis(RedisShutdown),
    CountQuery(CountQuery),
    ExecuteQuery(ExecuteQuery),
    LaunchFalkor(LaunchFalkor),
    LaunchIbex(LaunchIbex),
    WaitForIbex(WaitForIbex),
    EndFalkor(TerminateFalkor),
    EndIbex(TerminateIbex),
    CheckDump(DumpExists),
    RestoreDump(RestoreDb),
    SaveDump(SaveDb),
    FalkorSize(FalkorGraphSize),
    Neo4jSize(Neo4jGraphSize),
    IbexSize(FetchStats),
    StartWorker(SpawnWorker),
    OpenStatements(OpenStatements),
    SendPrepared(SendPrepared),
    SendBolt(SendBolt),
    /// There is nothing to do.
    Nothing,
}

/// What the world knows when an action is carried out.
pub struct Surroundings {
    /// In how many milliseconds the query of a message is due; less than zero where it is
    /// late.
    pub offset_ms: i64,
    /// Where ibexdb answers.
    pub endpoint: String,
    /// Where the files of FalkorDB are.
    pub settings: FalkorSettings,
}

/// Whether the reply says what an operation without a value gives.
pub open spec fn done_stands_for<F: Flow<Output = ()>>(flow: F, reply: Reply) -> bool {
    match reply {
        Reply::Done => flow.gives(Ok(())),
        Reply::Failed(e) => flow.gives(Err(e)),
        _ => false,
    }
}

/// Whether the reply says what an operation gives that counts nodes and relationships.
pub open spec fn counts_stand_for<F: Flow<Output = (u64, u64)>>(flow: F, reply: Reply) -> bool {
    match reply {
        Reply::Counts { nodes, relations } => flow.gives(Ok((nodes, relations))),
        Reply::Failed(e) => flow.gives(Err(e)),
        _ => false,
    }
}

fn done_reply(result: BenchmarkResult<()>) -> (reply: Reply)
    ensures
        match reply {
            Reply::Done => result == BenchmarkResult::<()>::Ok(()),
            Reply::Failed(e) => result == BenchmarkResult::<()>::Err(e),
            _ => false,
        },
{
    match result {
        Ok(unit) => {
            assert(unit == ());
            Reply::Done
        },
        Err(e) => Reply::Failed(e),
    }
}

fn counts_reply(result: BenchmarkResult<(u64, u64)>) -> (reply: Reply)
    ensures
        match reply {
            Reply::Counts { nodes, relations } => result == BenchmarkResult::<(u64, u64)>::Ok(
                (nodes, relations),
            ),
            Reply::Failed(e) => result == BenchmarkResult::<(u64, u64)>::Err(e),
            _ => false,
        },
{
    match result {
        Ok((nodes, relations)) => Reply::Counts { nodes, relations },
        Err(e) => Reply::Failed(e),
    }
}

impl Flow for Call {
    /// The reply to the action.
    type Output = Reply;

    open spec fn request(&self) -> Option<Request> {
        match self {
            Call::DeleteFile(flow) => flow.request(),
            Call::EnsureDirectory(flow) => flow.request(),
            Call::SpawnCommand(flow) => flow.request(),
            Call::FindProcess(flow) => flow.request(),
            Call::KillProcess(flow) => flow.request(),
            Call::Download(flow) => flow.request(),
            Call::AskRedis(flow) => flow.request(),
            Call::WaitForRedis(flow) => flow.request(),
            Call::ShutDownRedis(flow) => flow.request(),
            Call::CountQuery(flow) => flow.request(),
            Call::ExecuteQuery(flow) => flow.request(),
            Call::LaunchFalkor(flow) => flow.request(),
            Call::LaunchIbex(flow) => flow.request(),
            Call::WaitForIbex(flow) => flow.request(),
            Call::EndFalkor(flow) => flow.request(),
            Call::EndIbex(flow) => flow.request(),
            Call::CheckDump(flow) => flow.request(),
            Call::RestoreDump(flow) => flow.request(),
            Call::SaveDump(flow) => flow.request(),
            Call::FalkorSize(flow) => flow.request(),
            Call::Neo4jSize(flow) => flow.request(),
            Call::IbexSize(flow) => flow.request(),
            Call::StartWorker(flow) => flow.request(),
            Call::OpenStatements(flow) => flow.request(),
            Call::SendPrepared(flow) => flow.request(),
            Call::SendBolt(flow) => flow.request(),
            Call::Nothing => None,
        }
    }

    open spec fn after(self, reply: Reply) -> Self {
        match self {
            Call::DeleteFile(flow) => Call::DeleteFile(flow.after(reply)),
            Call::EnsureDirectory(flow) => Call::EnsureDirectory(flow.after(reply)),
            Call::SpawnCommand(flow) => Call::SpawnCommand(flow.after(reply)),
            Call::FindProcess(flow) => Call::FindProcess(flow.after(reply)),
            Call::KillProcess(flow) => Call::KillProcess(flow.after(reply)),
            Call::Download(flow) => Call::Download(flow.after(reply)),
            Call::AskRedis(flow) => Call::AskRedis(flow.after(reply)),
            Call::WaitForRedis(flow) => Call::WaitForRedis(flow.after(reply)),
            Call::ShutDownRedis(flow) => Call::ShutDownRedis(flow.after(reply)),
            Call::CountQuery(flow) => Call::CountQuery(flow.after(reply)),
            Call::ExecuteQuery(flow) => Call::ExecuteQuery(flow.after(reply)),
            Call::LaunchFalkor(flow) => Call::LaunchFalkor(flow.after(reply)),
            Call::LaunchIbex(flow) => Call::LaunchIbex(flow.after(reply)),
            Call::WaitForIbex(flow) => Call::WaitForIbex(flow.after(reply)),
            Call::EndFalkor(flow) => Call::EndFalkor(flow.after(reply)),
            Call::EndIbex(flow) => Call::EndIbex(flow.after(reply)),
            Call::CheckDump(flow) => Call::CheckDump(flow.after(reply)),
            Call::RestoreDump(flow) => Call::RestoreDump(flow.after(reply)),
            Call::SaveDump(flow) => Call::SaveDump(flow.after(reply)),
            Call::FalkorSize(flow) => Call::FalkorSize(flow.after(reply)),
            Call::Neo4jSize(flow) => Call::Neo4jSize(flow.after(reply)),
            Call::IbexSize(flow) => Call::IbexSize(flow.after(reply)),
            Call::StartWorker(flow) => Call::StartWorker(flow.after(reply)),
            Call::OpenStatements(flow) => Call::OpenStatements(flow.after(reply)),
            Call::SendPrepared(flow) => Call::SendPrepared(flow.after(reply)),
            Call::SendBolt(flow) => Call::SendBolt(flow.after(reply)),
            Call::Nothing => Call::Nothing,
        }
    }

    open spec fn gives(&self, result: BenchmarkResult<Reply>) -> bool {
        result matches Ok(reply) && self.answer_is(reply)
    }

    proof fn goes_on(self, reply: Reply) {
        match self {
            Call::DeleteFile(flow) => flow.goes_on(reply),
            Call::EnsureDirectory(flow) => flow.goes_on(reply),
            Call::SpawnCommand(flow) => flow.goes_on(reply),
            Call::FindProcess(flow) => flow.goes_on(reply),
            Call::KillProcess(flow) => flow.goes_on(reply),
            Call::Download(flow) => flow.goes_on(reply),
            Call::AskRedis(flow) => flow.goes_on(reply),
            Call::WaitForRedis(flow) => flow.goes_on(reply),
            Call::ShutDownRedis(flow) => flow.goes_on(reply),
            Call::CountQuery(flow) => flow.goes_on(reply),
            Call::ExecuteQuery(flow) => flow.goes_on(reply),
            Call::LaunchFalkor(flow) => flow.goes_on(reply),
            Call::LaunchIbex(flow) => flow.goes_on(reply),
            Call::WaitForIbex(flow) => flow.goes_on(reply),
            Call::EndFalkor(flow) => flow.goes_on(reply),
            Call::EndIbex(flow) => flow.goes_on(reply),
            Call::CheckDump(flow) => flow.goes_on(reply),
            Call::RestoreDump(flow) => flow.goes_on(reply),
            Call::SaveDump(flow) => flow.goes_on(reply),
            Call::FalkorSize(flow) => flow.goes_on(reply),
            Call::Neo4jSize(flow) => flow.goes_on(reply),
            Call::IbexSize(flow) => flow.goes_on(reply),
            Call::StartWorker(flow) => flow.goes_on(reply),
            Call::OpenStatements(flow) => flow.goes_on(reply),
            Call::SendPrepared(flow) => flow.goes_on(reply),
            Call::SendBolt(flow) => flow.goes_on(reply),
            Call::Nothing => {},
        }
    }

    fn action(&self) -> (action: Option<Action>) {
        match self {
            Call::DeleteFile(flow) => flow.action(),
            Call::EnsureDirectory(flow) => flow.action(),
            Call::SpawnCommand(flow) => flow.action(),
            Call::FindProcess(flow) => flow.action(),
            Call::KillProcess(flow) => flow.action(),
            Call::Download(flow) => flow.action(),
            Call::AskRedis(flow) => flow.action(),
            Call::WaitForRedis(flow) => flow.action(),
            Call::ShutDownRedis(flow) => flow.action(),
            Call::CountQuery(flow) => flow.action(),
            Call::ExecuteQuery(flow) => flow.action(),
            Call::LaunchFalkor(flow) => flow.action(),
            Call::LaunchIbex(flow) => flow.action(),
            Call::WaitForIbex(flow) => flow.action(),
            Call::EndFalkor(flow) => flow.action(),
            Call::EndIbex(flow) => flow.action(),
            Call::CheckDump(flow) => flow.action(),
            Call::RestoreDump(flow) => flow.action(),
            Call::SaveDump(flow) => flow.action(),
            Call::FalkorSize(flow) => flow.action(),
            Call::Neo4jSize(flow) => flow.action(),
            Call::IbexSize(flow) => flow.action(),
            Call::StartWorker(flow) => flow.action(),
            Call::OpenStatements(flow) => flow.action(),
            Call::SendPrepared(flow) => flow.action(),
            Call::SendBolt(flow) => flow.action(),
            Call::Nothing => None,
        }
    }

    fn next(self, reply: Reply) -> (state: Self) {
        match self {
            Call::DeleteFile(flow) => Call::DeleteFile(flow.next(reply)),
            Call::EnsureDirectory(flow) => Call::EnsureDirectory(flow.next(reply)),
            Call::SpawnCommand(flow) => Call::SpawnCommand(flow.next(reply)),
            Call::FindProcess(flow) => Call::FindProcess(flow.next(reply)),
            Call::KillProcess(flow) => Call::KillProcess(flow.next(reply)),
            Call::Download(flow) => Call::Download(flow.next(reply)),
            Call::AskRedis(flow) => Call::AskRedis(flow.next(reply)),
            Call::WaitForRedis(flow) => Call::WaitForRedis(flow.next(reply)),
            Call::ShutDownRedis(flow) => Call::ShutDownRedis(flow.next(reply)),
            Call::CountQuery(flow) => Call::CountQuery(flow.next(reply)),
            Call::ExecuteQuery(flow) => Call::ExecuteQuery(flow.next(reply)),
            Call::LaunchFalkor(flow) => Call::LaunchFalkor(flow.next(reply)),
            Call::LaunchIbex(flow) => Call::LaunchIbex(flow.next(reply)),
            Call::WaitForIbex(flow) => Call::WaitForIbex(flow.next(reply)),
            Call::EndFalkor(flow) => Call::EndFalkor(flow.next(reply)),
            Call::EndIbex(flow) => Call::EndIbex(flow.next(reply)),
            Call::CheckDump(flow) => Call::CheckDump(flow.next(reply)),
            Call::RestoreDump(flow) => Call::RestoreDump(flow.next(reply)),
            Call::SaveDump(flow) => Call::SaveDump(flow.next(reply)),
            Call::FalkorSize(flow) => Call::FalkorSize(flow.next(reply)),
            Call::Neo4jSize(flow) => Call::Neo4jSize(flow.next(reply)),
            Call::IbexSize(flow) => Call::IbexSize(flow.next(reply)),
            Call::StartWorker(flow) => Call::StartWorker(flow.next(reply)),
            Call::OpenStatements(flow) => Call::OpenStatements(flow.next(reply)),
            Call::SendPrepared(flow) => Call::SendPrepared(flow.next(reply)),
            Call::SendBolt(flow) => Call::SendBolt(flow.next(reply)),
            Call::Nothing => Call::Nothing,
        }
    }

    fn finish(self) -> (result: BenchmarkResult<Reply>) {
        let reply = match self {
            Call::DeleteFile(flow) => done_reply(flow.finish()),
            Call::EnsureDirectory(flow) => done_reply(flow.finish()),
            Call::SpawnCommand(flow) => match flow.finish() {
                Ok(value) => Reply::Process(value),
                Err(e) => Reply::Failed(e),
            },
            Call::FindProcess(flow) => match flow.finish() {
                Ok(value) => Reply::Pid(value),
                Err(e) => Reply::Failed(e),
            },
            Call::KillProcess(flow) => done_reply(flow.finish()),
            Call::Download(flow) => done_reply(flow.finish()),
            Call::AskRedis(flow) => done_reply(flow.finish()),
            Call::WaitForRedis(flow) => done_reply(flow.finish()),
            Call::ShutDownRedis(flow) => done_reply(flow.finish()),
            Call::CountQuery(flow) => match flow.finish() {
                Ok(value) => Reply::Number(value),
                Err(e) => Reply::Failed(e),
            },
            Call::ExecuteQuery(flow) => done_reply(flow.finish()),
            Call::LaunchFalkor(flow) => match flow.finish() {
                Ok(value) => Reply::Falkor(value),
                Err(e) => Reply::Failed(e),
            },
            Call::LaunchIbex(flow) => match flow.finish() {
                Ok(value) => Reply::Ibex(value),
                Err(e) => Reply::Failed(e),
            },
            Call::WaitForIbex(flow) => done_reply(flow.finish()),
            Call::EndFalkor(flow) => Reply::Done,
            Call::EndIbex(flow) => Reply::Done,
            Call::CheckDump(flow) => done_reply(flow.finish()),
            Call::RestoreDump(flow) => done_reply(flow.finish()),
            Call::SaveDump(flow) => done_reply(flow.finish()),
            Call::FalkorSize(flow) => counts_reply(flow.finish()),
            Call::Neo4jSize(flow) => counts_reply(flow.finish()),
            Call::IbexSize(flow) => counts_reply(flow.finish()),
            Call::StartWorker(flow) => done_reply(flow.finish()),
            Call::OpenStatements(flow) => done_reply(flow.finish()),
            Call::SendPrepared(flow) => done_reply(flow.finish()),
            Call::SendBolt(flow) => done_reply(flow.finish()),
            Call::Nothing => Reply::Done,
        };
        Ok(reply)
    }
}

impl Call {
    /// Whether the reply is the answer that the ended operation gives.
    pub open spec fn answer_is(&self, reply: Reply) -> bool {
        match self {
            Call::DeleteFile(flow) => done_stands_for(*flow, reply),
            Call::EnsureDirectory(flow) => done_stands_for(*flow, reply),
            Call::SpawnCommand(flow) => match reply {
                Reply::Process(output) => flow.gives(Ok(output)),
                Reply::Failed(e) => flow.gives(Err(e)),
                _ => false,
            },
            Call::FindProcess(flow) => match reply {
                Reply::Pid(pid) => flow.gives(Ok(pid)),
                Reply::Failed(e) => flow.gives(Err(e)),
                _ => false,
            },
            Call::KillProcess(flow) => done_stands_for(*flow, reply),
            Call::Download(flow) => done_stands_for(*flow, reply),
            Call::AskRedis(flow) => done_stands_for(*flow, reply),
            Call::WaitForRedis(flow) => done_stands_for(*flow, reply),
            Call::ShutDownRedis(flow) => done_stands_for(*flow, reply),
            Call::CountQuery(flow) => match reply {
                Reply::Number(n) => flow.gives(Ok(n)),
                Reply::Failed(e) => flow.gives(Err(e)),
                _ => false,
            },
            Call::ExecuteQuery(flow) => done_stands_for(*flow, reply),
            Call::LaunchFalkor(flow) => match reply {
                Reply::Falkor(process) => flow.gives(Ok(process)),
                Reply::Failed(e) => flow.gives(Err(e)),
                _ => false,
            },
            Call::LaunchIbex(flow) => match reply {
                Reply::Ibex(process) => flow.gives(Ok(process)),
                Reply::Failed(e) => flow.gives(Err(e)),
                _ => false,
            },
            Call::WaitForIbex(flow) => done_stands_for(*flow, reply),
            Call::EndFalkor(flow) => reply == Reply::Done,
            Call::EndIbex(flow) => reply == Reply::Done,
            Call::CheckDump(flow) => done_stands_for(*flow, reply),
            Call::RestoreDump(flow) => done_stands_for(*flow, reply),
            Call::SaveDump(flow) => done_stands_for(*flow, reply),
            Call::FalkorSize(flow) => counts_stand_for(*flow, reply),
            Call::Neo4jSize(flow) => counts_stand_for(*flow, reply),
            Call::IbexSize(flow) => counts_stand_for(*flow, reply),
            Call::StartWorker(flow) => done_stands_for(*flow, reply),
            Call::OpenStatements(flow) => done_stands_for(*flow, reply),
            Call::SendPrepared(flow) => done_stands_for(*flow, reply),
            Call::SendBolt(flow) => done_stands_for(*flow, reply),
            Call::Nothing => reply == Reply::Done,
        }
    }

    /// Whether this kind of operation carries out this kind of action.
    pub open spec fn serves(&self, request: Request) -> bool {
        match (self, request) {
            (Call::DeleteFile(_), Request::DeleteFile(_)) => true,
            (Call::DeleteFile(_), Request::CleanFalkor) => true,
            (Call::EnsureDirectory(_), Request::EnsureDirectory(_)) => true,
            (Call::SpawnCommand(_), Request::SpawnCommand { command, args }) => true,
            (Call::FindProcess(_), Request::FindProcess(_)) => true,
            (Call::KillProcess(_), Request::KillProcess(_)) => true,
            (Call::Download(_), Request::Download { url, file }) => true,
            (Call::AskRedis(_), Request::PingRedis) => true,
            (Call::AskRedis(_), Request::SaveRedis) => true,
            (Call::WaitForRedis(_), Request::WaitForRedis { max_attempts, delay_ms }) => true,
            (Call::ShutDownRedis(_), Request::ShutDownRedis) => true,
            (Call::CountQuery(_), Request::CountQuery(_)) => true,
            (Call::ExecuteQuery(_), Request::ExecuteQuery { vendor, spawn_id, name, query }) => true,
            (Call::LaunchFalkor(_), Request::StartFalkorProcess) => true,
            (Call::LaunchIbex(_), Request::StartIbexProcess(_)) => true,
            (Call::WaitForIbex(_), Request::WaitForIbex) => true,
            (Call::EndFalkor(_), Request::EndFalkorProcess(_)) => true,
            (Call::EndIbex(_), Request::EndIbexProcess(_)) => true,
            (Call::CheckDump(_), Request::CheckDump(_)) => true,
            (Call::RestoreDump(_), Request::RestoreDump(_)) => true,
            (Call::SaveDump(_), Request::SaveDump(_)) => true,
            (Call::FalkorSize(_), Request::GraphSize(Vendor::Falkor)) => true,
            (Call::Neo4jSize(_), Request::GraphSize(Vendor::Neo4j)) => true,
            (Call::IbexSize(_), Request::GraphSize(Vendor::Ibex)) => true,
            (Call::StartWorker(_), Request::StartWorker { vendor, worker, simulate }) => true,
            (Call::OpenStatements(_), Request::OpenIndexes { vendor, size }) => true,
            (Call::OpenStatements(_), Request::OpenData { vendor, size }) => true,
            (
                Call::SendPrepared(_),
                Request::ExecuteReceived { vendor, worker_id, msg, simulate },
            ) => true,
            (
                Call::SendBolt(_),
                Request::ExecuteReceived { vendor, worker_id, msg, simulate },
            ) => true,
            (Call::Nothing, Request::EndFalkorProcess(_)) => true,
            (Call::Nothing, Request::EndIbexProcess(_)) => true,
            _ => false,
        }
    }
}

/// Whether the action is carried out by an operation of the library.
pub open spec fn is_called(request: Request) -> bool {
    match request {
        Request::DeleteFile(_)
        | Request::EnsureDirectory(_)
        | Request::FindProcess(_)
        | Request::KillProcess(_)
        | Request::PingRedis
        | Request::SaveRedis
        | Request::ShutDownRedis
        | Request::CountQuery(_)
        | Request::StartFalkorProcess
        | Request::StartIbexProcess(_)
        | Request::WaitForIbex
        | Request::EndFalkorProcess(_)
        | Request::EndIbexProcess(_)
        | Request::CleanFalkor
        | Request::CheckDump(_)
        | Request::RestoreDump(_)
        | Request::SaveDump(_)
        | Request::GraphSize(_) => true,
        Request::SpawnCommand { command, args } => true,
        Request::Download { url, file } => true,
        Request::WaitForRedis { max_attempts, delay_ms } => true,
        Request::ExecuteQuery { vendor, spawn_id, name, query } => vendor != Vendor::Neo4j,
        Request::StartWorker { vendor, worker, simulate } => vendor != Vendor::Ibex,
        Request::OpenIndexes { vendor, size } => true,
        Request::OpenData { vendor, size } => true,
        Request::ExecuteReceived { vendor, worker_id, msg, simulate } => true,
        _ => false,
    }
}

/// Whether the operation, before its first reply, is the one that carries out the action.
pub open spec fn carries_out(call: Call, action: Action, around: Surroundings) -> bool {
    match (action, call) {
        (Action::DeleteFile(path), Call::DeleteFile(DeleteFile::Probing { path: p })) => p@ == path@,
        (Action::CleanFalkor, Call::DeleteFile(DeleteFile::Probing { path })) => path@
            == REDIS_DUMP_FILE@,
        (
            Action::EnsureDirectory(path),
            Call::EnsureDirectory(CreateDirectory::Probing { path: p }),
        ) => p@ == path@,
        (
            Action::SpawnCommand { command, args },
            Call::SpawnCommand(SpawnCommand::Running { command: c, args: a }),
        ) => c@ == command@ && a == args,
        (Action::FindProcess(command), Call::FindProcess(GetCommandPid::Listing { cmd })) => cmd@
            == command@,
        (Action::KillProcess(pid), Call::KillProcess(flow)) => flow == (KillProcess::Signalling {
            pid: pid as i32,
        }),
        (
            Action::Download { url, file },
            Call::Download(DownloadFile::Requesting { url: u, file: f }),
        ) => u@ == url@ && f@ == file@,
        (Action::PingRedis, Call::AskRedis(flow)) => flow == RedisExchange::Asking(Exchange::Ping),
        (Action::SaveRedis, Call::AskRedis(flow)) => flow == RedisExchange::Asking(Exchange::Save),
        (Action::ShutDownRedis, Call::ShutDownRedis(flow)) => flow == RedisShutdown::Asking,
        (Action::WaitForRedis { max_attempts, delay_ms }, Call::WaitForRedis(flow)) => flow == (
        WaitForRedis { max_attempts, delay_ms, attempt: Attempt::Pinging(1) }),
        (Action::CountQuery(query), Call::CountQuery(CountQuery::Asking { query: q })) => q@
            == query@,
        (Action::ExecuteQuery { vendor, spawn_id, name, query }, Call::ExecuteQuery(flow)) => {
            &&& flow.target == if vendor == Vendor::Ibex {
                Target::Ibex
            } else {
                Target::Falkor
            }
            &&& flow.spawn_id@ == spawn_id@
            &&& flow.query_name@ == name@
            &&& flow.query@ == query@
            &&& flow.stage == ExecuteStage::Counting
        },
        (Action::StartFalkorProcess, Call::LaunchFalkor(flow)) => flow == (LaunchFalkor {
            settings: around.settings,
            stage: LaunchStage::CheckingMode,
        }),
        (
            Action::StartIbexProcess(database),
            Call::LaunchIbex(LaunchIbex::StartingReporter { database: d }),
        ) => d@ == database@,
        (Action::WaitForIbex, Call::WaitForIbex(flow)) => flow.url@ == around.endpoint@
            + "/api/stats"@ && flow.attempt == WaitAttempt::Asking(1),
        (Action::EndFalkorProcess(process), Call::EndFalkor(flow)) => !process.dropped && flow == (
        TerminateFalkor { process: FalkorProcess { dropped: true, ..process } }),
        (Action::EndFalkorProcess(process), Call::Nothing) => process.dropped,
        (Action::EndIbexProcess(process), Call::EndIbex(flow)) => !process.dropped && flow == (
        TerminateIbex { process: IbexProcess { dropped: true, ..process } }),
        (Action::EndIbexProcess(process), Call::Nothing) => process.dropped,
        (Action::CheckDump(size), Call::CheckDump(flow)) => flow == (DumpExists::CheckingMode {
            size,
        }),
        (Action::RestoreDump(size), Call::RestoreDump(flow)) => flow == (RestoreDb::CheckingMode {
            size,
        }),
        (Action::SaveDump(size), Call::SaveDump(flow)) => flow == (SaveDb::CheckingMode { size }),
        (Action::GraphSize(Vendor::Falkor), Call::FalkorSize(flow)) => flow
            == FalkorGraphSize::Connecting,
        (Action::GraphSize(Vendor::Neo4j), Call::Neo4jSize(flow)) => flow
            == Neo4jGraphSize::CountingNodes,
        (Action::GraphSize(Vendor::Ibex), Call::IbexSize(FetchStats::Asking { url })) => url@
            == around.endpoint@ + "/api/stats"@,
        (Action::StartWorker { vendor, worker, simulate }, Call::StartWorker(flow)) => flow == (
        SpawnWorker {
            vendor,
            worker,
            simulate,
            stage: if vendor == Vendor::Neo4j {
                SpawnStage::Spawning
            } else {
                SpawnStage::Connecting
            },
        }),
        (
            Action::OpenIndexes { vendor, size },
            Call::OpenStatements(OpenStatements::Caching(cache)),
        ) => {
            &&& cache.url@ == scenario::users_index_url()
            &&& cache.dir@ == scenario::data_set_dir("./cache"@, vendor, Name::Users, size)
            &&& cache.stage == CacheStage::EnsuringDirectory
        },
        (
            Action::OpenData { vendor, size },
            Call::OpenStatements(OpenStatements::Caching(cache)),
        ) => {
            &&& cache.url@ == scenario::users_data_url(size)
            &&& cache.dir@ == scenario::data_set_dir("./cache"@, vendor, Name::Users, size)
            &&& cache.stage == CacheStage::EnsuringDirectory
        },
        (Action::ExecuteReceived { vendor, worker_id, msg, simulate }, Call::SendPrepared(flow)) => {
            &&& vendor != Vendor::Neo4j
            &&& flow.target == if vendor == Vendor::Ibex {
                Target::Ibex
            } else {
                Target::Falkor
            }
            &&& flow.worker_id@ == worker_id@
            &&& flow.q_name == msg.payload.q_name
            &&& flow.query == msg.payload.cypher
            &&& flow.read_only == (msg.payload.q_type == QueryType::Read)
            &&& flow.offset_ms == around.offset_ms
            &&& flow.simulate == simulate
            &&& flow.stage == SendStage::Noting
        },
        (Action::ExecuteReceived { vendor, worker_id, msg, simulate }, Call::SendBolt(flow)) => {
            &&& vendor == Vendor::Neo4j
            &&& flow.worker_id@ == worker_id@
            &&& flow.q_name == msg.payload.q_name
            &&& flow.bolt@ == msg.payload.bolt@
            &&& flow.offset_ms == around.offset_ms
            &&& flow.simulate == simulate
            &&& flow.stage == BoltStage::Noting
        },
        _ => false,
    }
}

/// The operation that carries out the action, or the action itself where it is for the world
/// alone.
pub fn call(action: Action, around: Surroundings) -> (result: Result<Call, Action>)
    requires
        action matches Action::WaitForRedis { max_attempts, delay_ms } ==> max_attempts >= 1,
    ensures
        match result {
            Ok(call) => is_called(action@) && carries_out(call, action, around) && call.serves(
                action@,
            ),
            Err(a) => !is_called(action@) && a == action,
        },
{
    match action {
        Action::DeleteFile(path) => Ok(Call::DeleteFile(delete_file(path.as_str()))),
        Action::CleanFalkor => Ok(Call::DeleteFile(delete_file(REDIS_DUMP_FILE))),
        Action::EnsureDirectory(path) => Ok(
            Call::EnsureDirectory(create_directory_if_not_exists(path.as_str())),
        ),
        Action::SpawnCommand { command, args } => Ok(
            Call::SpawnCommand(spawn_command(command.as_str(), args)),
        ),
        Action::FindProcess(command) => Ok(Call::FindProcess(get_command_pid(command.as_str()))),
        Action::KillProcess(pid) => Ok(Call::KillProcess(kill_process(pid))),
        Action::Download { url, file } => Ok(
            Call::Download(download_file(url.as_str(), file.as_str())),
        ),
        Action::PingRedis => Ok(Call::AskRedis(ping_redis())),
        Action::SaveRedis => Ok(Call::AskRedis(redis_save())),
        Action::ShutDownRedis => Ok(Call::ShutDownRedis(redis_shutdown())),
        Action::WaitForRedis { max_attempts, delay_ms } => Ok(
            Call::WaitForRedis(wait_for_redis_ready(max_attempts, delay_ms)),
        ),
        Action::CountQuery(query) => Ok(Call::CountQuery(execute_i64_query(query.as_str()))),
        Action::ExecuteQuery { vendor: Vendor::Falkor, spawn_id, name, query } => Ok(
            Call::ExecuteQuery(
                FalkorBenchmarkClient._execute_query(
                    spawn_id.as_str(),
                    name.as_str(),
                    query.as_str(),
                ),
            ),
        ),
        Action::ExecuteQuery { vendor: Vendor::Ibex, spawn_id, name, query } => Ok(
            Call::ExecuteQuery(
                IbexBenchmarkClient._execute_query(
                    spawn_id.as_str(),
                    name.as_str(),
                    query.as_str(),
                ),
            ),
        ),
        Action::StartFalkorProcess => Ok(Call::LaunchFalkor(FalkorProcess::new(around.settings))),
        Action::StartIbexProcess(database) => Ok(
            Call::LaunchIbex(IbexProcess::new(database.as_str())),
        ),
        Action::WaitForIbex => Ok(
            Call::WaitForIbex(Ibex::<Stopped>::wait_for_ready(around.endpoint.as_str())),
        ),
        Action::EndFalkorProcess(process) => {
            let mut process = process;
            match process.drop() {
                Some(flow) => Ok(Call::EndFalkor(flow)),
                None => Ok(Call::Nothing),
            }
        },
        Action::EndIbexProcess(process) => {
            let mut process = process;
            match process.drop() {
                Some(flow) => Ok(Call::EndIbex(flow)),
                None => Ok(Call::Nothing),
            }
        },
        Action::CheckDump(size) => Ok(Call::CheckDump(DumpExists::CheckingMode { size })),
        Action::RestoreDump(size) => Ok(Call::RestoreDump(RestoreDb::CheckingMode { size })),
        Action::SaveDump(size) => Ok(Call::SaveDump(SaveDb::CheckingMode { size })),
        Action::GraphSize(Vendor::Falkor) => Ok(Call::FalkorSize(FalkorGraphSize::Connecting)),
        Action::GraphSize(Vendor::Neo4j) => Ok(Call::Neo4jSize(Neo4jClient.graph_size())),
        Action::GraphSize(Vendor::Ibex) => Ok(
            Call::IbexSize(fetch_stats(around.endpoint.as_str())),
        ),
        Action::StartWorker { vendor: Vendor::Neo4j, worker, simulate } => Ok(
            Call::StartWorker(spawn_neo4j_worker(worker, simulate)),
        ),
        Action::StartWorker { vendor: Vendor::Falkor, worker, simulate } => Ok(
            Call::StartWorker(spawn_falkor_worker(worker, simulate)),
        ),
        Action::OpenIndexes { vendor, size } => Ok(
            Call::OpenStatements(open_indexes(vendor, size)),
        ),
        Action::OpenData { vendor, size } => Ok(Call::OpenStatements(open_data(vendor, size))),
        Action::ExecuteReceived { vendor: Vendor::Neo4j, worker_id, msg, simulate } => Ok(
            Call::SendBolt(
                Neo4jClient.execute_prepared_query(
                    worker_id.as_str(),
                    &msg.payload,
                    around.offset_ms,
                    simulate,
                ),
            ),
        ),
        Action::ExecuteReceived { vendor: Vendor::Falkor, worker_id, msg, simulate } => Ok(
            Call::SendPrepared(
                FalkorBenchmarkClient.execute_prepared_query(
                    worker_id.as_str(),
                    &msg.payload,
                    around.offset_ms,
                    simulate,
                ),
            ),
        ),
        Action::ExecuteReceived { vendor: Vendor::Ibex, worker_id, msg, simulate } => Ok(
            Call::SendPrepared(
                IbexBenchmarkClient.execute_prepared_query(
                    worker_id.as_str(),
                    &msg.payload,
                    around.offset_ms,
                    simulate,
                ),
            ),
        ),
        other => Err(other),
    }
}

/// What an operation gives that carries out an action is an answer to that action, whatever
/// the operation went through.
pub proof fn answer_fits_the_action(call: Call, request: Request, replies: Seq<Reply>, reply: Reply)
    requires
        call.serves(request),
        flow::run(call, replies).gives(Ok(reply)),
    ensures
        action::answers(request, reply),
    decreases replies.len(),
{
    if replies.len() > 0 {
        answer_fits_the_action(call.after(replies[0]), request, replies.drop_first(), reply);
    }
}

} // verus!
