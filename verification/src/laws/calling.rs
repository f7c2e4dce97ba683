//! Which operation an action is handed to, and what comes back.
use vstd::prelude::*;
use crate::action::{Action, Gauge, Reply, Request};
use crate::calls;
use crate::calls::{Call, Surroundings};
use crate::error::{BenchmarkError, BenchmarkResult};
use crate::execution::Target;
use crate::falkor::falkor_driver::{
    DumpExists, Falkor, FalkorGraphSize, RestoreDb, SaveDb, Started, Stopped,
};
use crate::falkor::falkor_metrics::ReportFalkor;
use crate::falkor::falkor_process::{
    FalkorProcess, LaunchFalkor, LaunchStage, PingServer, TerminateFalkor,
};
use crate::falkor::falkor_server;
use crate::falkor::falkor_server::{FalkorServer, ServerCall};
use crate::flow;
use crate::flow::Flow;
use crate::ibex::ibex_driver::WaitAttempt;
use crate::ibex::ibex_process::{IbexProcess, ReportIbex, TerminateIbex};
use crate::jobs;
use crate::jobs::Job;
use crate::laws::datasets;
use crate::laws::loading;
use crate::neo4j_client::{ExecuteStream, Neo4jGraphSize};
use crate::query::{Msg, ProcessOutput, QueryType};
use crate::runner::queries::ReadStage;
use crate::scenario::{Name, Size, Vendor};
use crate::text;
use crate::utils::files;
use crate::utils::processes;
use crate::utils::redis::{Attempt, WaitForRedis};

verus! {

// ---------------------------------------------------------------------------
// Calls

/// The actions that an operation of the library carries out.
pub proof fn these_actions_are_carried_out(request: Request)
    ensures
        calls::is_called(request) <==> {
            ||| request is DeleteFile
            ||| request is EnsureDirectory
            ||| request is SpawnCommand
            ||| request is FindProcess
            ||| request is KillProcess
            ||| request is Download
            ||| request is PingRedis
            ||| request is WaitForRedis
            ||| request is SaveRedis
            ||| request is ShutDownRedis
            ||| request is CountQuery
            ||| request is StartFalkorProcess
            ||| request is StartIbexProcess
            ||| request is WaitForIbex
            ||| request is EndFalkorProcess
            ||| request is EndIbexProcess
            ||| request is CleanFalkor
            ||| request is CheckDump
            ||| request is RestoreDump
            ||| request is SaveDump
            ||| request is GraphSize
            ||| request is OpenIndexes
            ||| request is OpenData
            ||| request is ExecuteReceived
            ||| (request matches Request::ExecuteQuery { vendor, spawn_id, name, query } && vendor
                != Vendor::Neo4j)
            ||| (request matches Request::StartWorker { vendor, worker, simulate } && vendor
                != Vendor::Ibex)
        },
{
}

/// Actions on files, processes and pages go to the file, the process and the page that they
/// name.
pub proof fn file_and_process_actions_keep_their_names(
    call: Call,
    action: Action,
    around: Surroundings,
    table: ProcessOutput,
    pid: u32,
    status: String,
)
    requires
        calls::carries_out(call, action, around),
    ensures
        match action {
            Action::DeleteFile(path) => flow::comes_to(
                call,
                seq![(Request::FileExists(path@), Reply::Flag(true))],
                Request::RemoveFile(path@),
            ),
            Action::CleanFalkor => flow::comes_to(
                call,
                seq![(Request::FileExists("./redis-data/dump.rdb"@), Reply::Flag(true))],
                Request::RemoveFile("./redis-data/dump.rdb"@),
            ),
            Action::EnsureDirectory(path) => flow::comes_to(
                call,
                seq![(Request::FileExists(path@), Reply::Flag(false))],
                Request::CreateDirectories(path@),
            ),
            Action::SpawnCommand { command, args } => flow::comes_to(
                call,
                seq![],
                Request::RunProcess { command: command@, args: text::texts(args@) },
            ),
            Action::FindProcess(command) => {
                let list = Request::RunProcess {
                    command: "ps"@,
                    args: seq!["-eo"@, "pid,command,stat"@],
                };
                let script = seq![(list, Reply::Process(table))];
                let found = flow::played_from(call, script, 0);
                &&& flow::follows_from(call, script, 0)
                &&& found.gives(Ok(Reply::Pid(pid))) <==> processes::process_found(
                    command@,
                    table,
                    Ok(pid),
                )
            },
            Action::KillProcess(p) => flow::comes_to(call, seq![], Request::Kill(p as i32)),
            Action::Download { url, file } => flow::comes_to(
                call,
                seq![(Request::HttpGet(url@), Reply::Status { success: true, status })],
                Request::SaveBody(file@),
            ),
            _ => true,
        },
{
    reveal_with_fuel(flow::follows_from, 3);
    reveal_with_fuel(flow::played_from, 3);
}

/// Actions on Redis send the command that they are named after, and a wait for Redis makes
/// as many attempts with the pause between them as it was asked to.
pub proof fn redis_actions_send_their_commands(call: Call, action: Action, around: Surroundings)
    requires
        calls::carries_out(call, action, around),
    ensures
        match action {
            Action::PingRedis => flow::comes_to(
                call,
                seq![],
                Request::RedisCommand { command: "PING"@, timeout_secs: 10, timed_connect: false },
            ),
            Action::SaveRedis => flow::comes_to(
                call,
                seq![],
                Request::RedisCommand { command: "SAVE"@, timeout_secs: 30, timed_connect: false },
            ),
            Action::ShutDownRedis => flow::comes_to(
                call,
                seq![],
                Request::RedisCommand {
                    command: "SHUTDOWN"@,
                    timeout_secs: 20,
                    timed_connect: true,
                },
            ),
            Action::WaitForRedis { max_attempts, delay_ms } => call == Call::WaitForRedis(
                WaitForRedis { max_attempts, delay_ms, attempt: Attempt::Pinging(1) },
            ),
            _ => true,
        },
{
}

/// Actions on a server start, await and end the server with what they were given. A process
/// that was taken apart before is not ended again.
pub proof fn server_actions_keep_what_they_are_given(
    call: Call,
    action: Action,
    around: Surroundings,
    program: String,
)
    requires
        calls::carries_out(call, action, around),
    ensures
        match action {
            Action::StartFalkorProcess => call == Call::LaunchFalkor(
                LaunchFalkor { settings: around.settings, stage: LaunchStage::CheckingMode },
            ),
            Action::StartIbexProcess(database) => flow::comes_to(
                call,
                seq![
                    (Request::StartMetricsReporter(Target::Ibex), Reply::Done),
                    (Request::EnvIsSet("IBEX_EXTERNAL"@), Reply::Flag(false)),
                    (Request::FindIbexBinary, Reply::Text(program)),
                ],
                Request::StartMonitor {
                    target: Target::Ibex,
                    command: program@,
                    args: seq![
                        "server"@,
                        "--database"@,
                        database@,
                        "--host"@,
                        "127.0.0.1"@,
                        "--port"@,
                        text::decimal(8088),
                    ],
                    restart_delay_secs: 5,
                },
            ),
            Action::WaitForIbex => {
                &&& flow::comes_to(
                    call,
                    seq![],
                    Request::FetchStats(around.endpoint@ + "/api/stats"@),
                )
                &&& call matches Call::WaitForIbex(wait) && wait.attempt == WaitAttempt::Asking(1)
            },
            Action::EndFalkorProcess(process) => if process.dropped {
                flow::ends(call, seq![], Ok(Reply::Done))
            } else {
                call == Call::EndFalkor(
                    TerminateFalkor { process: FalkorProcess { dropped: true, ..process } },
                )
            },
            Action::EndIbexProcess(process) => if process.dropped {
                flow::ends(call, seq![], Ok(Reply::Done))
            } else {
                call == Call::EndIbex(
                    TerminateIbex { process: IbexProcess { dropped: true, ..process } },
                )
            },
            _ => true,
        },
{
    reveal_with_fuel(flow::follows_from, 5);
    reveal_with_fuel(flow::played_from, 5);
}

/// Actions on dumps are about the dump of the size that they name, and a question for the
/// size of a graph goes to the database that it names.
pub proof fn dump_and_size_actions_keep_their_subject(
    call: Call,
    action: Action,
    around: Surroundings,
)
    requires
        calls::carries_out(call, action, around),
    ensures
        match action {
            Action::CheckDump(size) => call == Call::CheckDump(DumpExists::CheckingMode { size }),
            Action::RestoreDump(size) => call == Call::RestoreDump(
                RestoreDb::CheckingMode { size },
            ),
            Action::SaveDump(size) => call == Call::SaveDump(SaveDb::CheckingMode { size }),
            Action::GraphSize(Vendor::Falkor) => call == Call::FalkorSize(
                FalkorGraphSize::Connecting,
            ),
            Action::GraphSize(Vendor::Neo4j) => call == Call::Neo4jSize(
                Neo4jGraphSize::CountingNodes,
            ),
            Action::GraphSize(Vendor::Ibex) => flow::comes_to(
                call,
                seq![],
                Request::FetchStats(around.endpoint@ + "/api/stats"@),
            ),
            _ => true,
        },
{
}

/// The statements of a data set are opened in the cache of that data set: the data by its
/// size, the indexes from the one page for all sizes.
pub proof fn statements_are_opened_for_their_data_set(
    call: Call,
    action: Action,
    around: Surroundings,
)
    requires
        calls::carries_out(call, action, around),
    ensures
        match action {
            Action::OpenData { vendor, size } => {
                let dir = "./cache"@ + "/"@ + datasets::vendor_in_path(vendor) + "/"@ + "users"@
                    + "/"@ + loading::size_in_path(size);
                let url = match size {
                    Size::Small =>
                        "https://s3.eu-west-1.amazonaws.com/deps.memgraph.io/dataset/pokec/benchmark/pokec_small_import.cypher"@,
                    Size::Medium =>
                        "https://s3.eu-west-1.amazonaws.com/deps.memgraph.io/dataset/pokec/benchmark/pokec_medium_import.cypher"@,
                    Size::Large =>
                        "https://s3.eu-west-1.amazonaws.com/deps.memgraph.io/dataset/pokec/benchmark/pokec_large.setup.cypher.gz"@,
                };
                let file = dir + "/"@ + files::after_last_slash(url);
                flow::comes_to(
                    call,
                    seq![
                        (Request::EnsureDirectory(dir), Reply::Done),
                        (Request::FileExists(file), Reply::Flag(false)),
                        (Request::Download { url, file }, Reply::Done),
                    ],
                    Request::OpenStatements(file),
                )
            },
            Action::OpenIndexes { vendor, size } => {
                let dir = "./cache"@ + "/"@ + datasets::vendor_in_path(vendor) + "/"@ + "users"@
                    + "/"@ + loading::size_in_path(size);
                let url =
                    "https://s3.eu-west-1.amazonaws.com/deps.memgraph.io/dataset/pokec/benchmark/neo4j.cypher"@;
                let file = dir + "/"@ + files::after_last_slash(url);
                flow::comes_to(
                    call,
                    seq![
                        (Request::EnsureDirectory(dir), Reply::Done),
                        (Request::FileExists(file), Reply::Flag(false)),
                        (Request::Download { url, file }, Reply::Done),
                    ],
                    Request::OpenStatements(file),
                )
            },
            _ => true,
        },
{
    reveal_with_fuel(flow::follows_from, 5);
    reveal_with_fuel(flow::played_from, 5);
}

/// A worker is started for the database, under the number and with the delay that the
/// action names.
pub proof fn worker_is_started_as_asked(call: Call, action: Action, around: Surroundings)
    requires
        calls::carries_out(call, action, around),
    ensures
        match action {
            Action::StartWorker { vendor, worker, simulate } => flow::comes_to(
                call,
                if vendor == Vendor::Neo4j {
                    seq![]
                } else {
                    seq![(Request::ConnectFalkor, Reply::Done)]
                },
                Request::SpawnWorker { vendor, worker, simulate },
            ),
            _ => true,
        },
{
    reveal_with_fuel(flow::follows_from, 3);
    reveal_with_fuel(flow::played_from, 3);
}

/// A query that is asked for goes to the database that is named, with its own text, and is
/// counted under its own name; so does a counting query.
pub proof fn query_goes_to_its_database(call: Call, action: Action, around: Surroundings)
    requires
        calls::carries_out(call, action, around),
    ensures
        match action {
            Action::CountQuery(query) => flow::comes_to(
                call,
                seq![],
                Request::FalkorRow { query: query@, timeout_ms: 5000 },
            ),
            Action::ExecuteQuery { vendor, spawn_id, name, query } => flow::comes_to(
                call,
                seq![
                    (
                        Request::CountOperation(
                            seq![
                                if vendor == Vendor::Ibex {
                                    "ibex"@
                                } else {
                                    "falkor"@
                                },
                                spawn_id@,
                                ""@,
                                name@,
                                ""@,
                                ""@,
                            ],
                        ),
                        Reply::Done,
                    ),
                ],
                if vendor == Vendor::Ibex {
                    Request::IbexSend { query: query@, timeout_secs: 5 }
                } else {
                    Request::FalkorSend {
                        read_only: false,
                        query: query@,
                        server_timeout_ms: Some(5000),
                        timeout_secs: 5,
                    }
                },
            ),
            _ => true,
        },
{
    reveal_with_fuel(flow::follows_from, 3);
    reveal_with_fuel(flow::played_from, 3);
}

/// The query of a message is sent to the database of the worker that received it, once it
/// is due: its text to FalkorDB and to ibexdb, with its parameters to Neo4j. It is counted
/// under its own name and the number of the worker.
pub proof fn received_query_is_sent_when_due(
    call: Call,
    vendor: Vendor,
    worker_id: String,
    msg: Msg,
    around: Surroundings,
)
    requires
        calls::carries_out(
            call,
            Action::ExecuteReceived { vendor, worker_id, msg, simulate: None },
            around,
        ),
    ensures
        ({
            let note = Request::SetGauge {
                gauge: match vendor {
                    Vendor::Neo4j => Gauge::Neo4jMsgDeadlineOffset,
                    Vendor::Falkor => Gauge::FalkorMsgDeadlineOffset,
                    Vendor::Ibex => Gauge::IbexMsgDeadlineOffset,
                },
                value: around.offset_ms,
            };
            let send = match vendor {
                Vendor::Neo4j => Request::Neo4jSend { bolt: msg.payload.bolt@, timeout_secs: 60 },
                Vendor::Falkor => Request::FalkorSend {
                    read_only: msg.payload.q_type == QueryType::Read,
                    query: msg.payload.cypher@,
                    server_timeout_ms: None,
                    timeout_secs: 60,
                },
                Vendor::Ibex => Request::IbexSend {
                    query: msg.payload.cypher@,
                    timeout_secs: 60,
                },
            };
            let count = Request::CountOperation(
                seq![
                    datasets::vendor_in_path(vendor),
                    worker_id@,
                    ""@,
                    msg.payload.q_name@,
                    ""@,
                    ""@,
                ],
            );
            &&& around.offset_ms <= 0 ==> flow::comes_to(
                call,
                seq![(note, Reply::Done), (send, Reply::Done)],
                count,
            )
            &&& around.offset_ms > 0 ==> flow::comes_to(
                call,
                seq![
                    (note, Reply::Done),
                    (Request::Sleep(around.offset_ms as u64), Reply::Done),
                    (send, Reply::Done),
                ],
                count,
            )
        }),
{
    reveal_with_fuel(flow::follows_from, 5);
    reveal_with_fuel(flow::played_from, 5);
}

/// Where the worker only simulates, a pause of the given length stands for the query of a
/// message, for every database.
pub proof fn received_query_is_simulated(
    call: Call,
    vendor: Vendor,
    worker_id: String,
    msg: Msg,
    delay: usize,
    around: Surroundings,
)
    requires
        calls::carries_out(
            call,
            Action::ExecuteReceived { vendor, worker_id, msg, simulate: Some(delay) },
            around,
        ),
        delay > 0,
    ensures
        ({
            let note = Request::SetGauge {
                gauge: match vendor {
                    Vendor::Neo4j => Gauge::Neo4jMsgDeadlineOffset,
                    Vendor::Falkor => Gauge::FalkorMsgDeadlineOffset,
                    Vendor::Ibex => Gauge::IbexMsgDeadlineOffset,
                },
                value: around.offset_ms,
            };
            let wait = Request::Sleep(around.offset_ms as u64);
            let pause = Request::Sleep(delay as u64);
            &&& around.offset_ms <= 0 ==> flow::ends(
                call,
                seq![(note, Reply::Done), (pause, Reply::Done)],
                Ok(Reply::Done),
            )
            &&& around.offset_ms > 0 ==> flow::ends(
                call,
                seq![(note, Reply::Done), (wait, Reply::Done), (pause, Reply::Done)],
                Ok(Reply::Done),
            )
        }),
{
    reveal_with_fuel(flow::follows_from, 5);
    reveal_with_fuel(flow::played_from, 5);
}

/// Whether the reply of a call says just what an operation without a value gives.
pub open spec fn says_done<F: Flow<Output = ()>>(call: Call, flow: F) -> bool {
    forall|r: BenchmarkResult<Reply>| #[trigger]
        call.gives(r) <==> match r {
            Ok(Reply::Done) => flow.gives(Ok(())),
            Ok(Reply::Failed(e)) => flow.gives(Err(e)),
            _ => false,
        }
}

/// Whether the reply of a call says just what an operation gives that counts.
pub open spec fn says_counts<F: Flow<Output = (u64, u64)>>(call: Call, flow: F) -> bool {
    forall|r: BenchmarkResult<Reply>| #[trigger]
        call.gives(r) <==> match r {
            Ok(Reply::Counts { nodes, relations }) => flow.gives(Ok((nodes, relations))),
            Ok(Reply::Failed(e)) => flow.gives(Err(e)),
            _ => false,
        }
}

/// The reply of a call says what its operation gives: its value where it has one, and its
/// error where it fails.
pub proof fn reply_says_what_the_operation_gives(call: Call)
    ensures
        match call {
            Call::DeleteFile(flow) => says_done(call, flow),
            Call::EnsureDirectory(flow) => says_done(call, flow),
            Call::SpawnCommand(flow) => forall|r: BenchmarkResult<Reply>| #[trigger]
                call.gives(r) <==> match r {
                    Ok(Reply::Process(output)) => flow.gives(Ok(output)),
                    Ok(Reply::Failed(e)) => flow.gives(Err(e)),
                    _ => false,
                },
            Call::FindProcess(flow) => forall|r: BenchmarkResult<Reply>| #[trigger]
                call.gives(r) <==> match r {
                    Ok(Reply::Pid(pid)) => flow.gives(Ok(pid)),
                    Ok(Reply::Failed(e)) => flow.gives(Err(e)),
                    _ => false,
                },
            Call::KillProcess(flow) => says_done(call, flow),
            Call::Download(flow) => says_done(call, flow),
            Call::AskRedis(flow) => says_done(call, flow),
            Call::WaitForRedis(flow) => says_done(call, flow),
            Call::ShutDownRedis(flow) => says_done(call, flow),
            Call::CountQuery(flow) => forall|r: BenchmarkResult<Reply>| #[trigger]
                call.gives(r) <==> match r {
                    Ok(Reply::Number(n)) => flow.gives(Ok(n)),
                    Ok(Reply::Failed(e)) => flow.gives(Err(e)),
                    _ => false,
                },
            Call::ExecuteQuery(flow) => says_done(call, flow),
            Call::LaunchFalkor(flow) => forall|r: BenchmarkResult<Reply>| #[trigger]
                call.gives(r) <==> match r {
                    Ok(Reply::Falkor(process)) => flow.gives(Ok(process)),
                    Ok(Reply::Failed(e)) => flow.gives(Err(e)),
                    _ => false,
                },
            Call::LaunchIbex(flow) => forall|r: BenchmarkResult<Reply>| #[trigger]
                call.gives(r) <==> match r {
                    Ok(Reply::Ibex(process)) => flow.gives(Ok(process)),
                    Ok(Reply::Failed(e)) => flow.gives(Err(e)),
                    _ => false,
                },
            Call::WaitForIbex(flow) => says_done(call, flow),
            Call::CheckDump(flow) => says_done(call, flow),
            Call::RestoreDump(flow) => says_done(call, flow),
            Call::SaveDump(flow) => says_done(call, flow),
            Call::FalkorSize(flow) => says_counts(call, flow),
            Call::Neo4jSize(flow) => says_counts(call, flow),
            Call::IbexSize(flow) => says_counts(call, flow),
            Call::StartWorker(flow) => says_done(call, flow),
            Call::OpenStatements(flow) => says_done(call, flow),
            Call::SendPrepared(flow) => says_done(call, flow),
            Call::SendBolt(flow) => says_done(call, flow),
            Call::EndFalkor(_) | Call::EndIbex(_) | Call::Nothing => flow::gives_only(
                call,
                Ok(Reply::Done),
            ),
        },
{
}

/// A call goes through what its operation goes through: it asks for the same, and a reply
/// to it is a reply to the operation.
pub proof fn call_does_what_its_operation_does(call: Call, reply: Reply)
    ensures
        match call {
            Call::DeleteFile(f) => call.request() == f.request() && call.after(reply)
                == Call::DeleteFile(f.after(reply)),
            Call::EnsureDirectory(f) => call.request() == f.request() && call.after(reply)
                == Call::EnsureDirectory(f.after(reply)),
            Call::SpawnCommand(f) => call.request() == f.request() && call.after(reply)
                == Call::SpawnCommand(f.after(reply)),
            Call::FindProcess(f) => call.request() == f.request() && call.after(reply)
                == Call::FindProcess(f.after(reply)),
            Call::KillProcess(f) => call.request() == f.request() && call.after(reply)
                == Call::KillProcess(f.after(reply)),
            Call::Download(f) => call.request() == f.request() && call.after(reply)
                == Call::Download(f.after(reply)),
            Call::AskRedis(f) => call.request() == f.request() && call.after(reply)
                == Call::AskRedis(f.after(reply)),
            Call::WaitForRedis(f) => call.request() == f.request() && call.after(reply)
                == Call::WaitForRedis(f.after(reply)),
            Call::ShutDownRedis(f) => call.request() == f.request() && call.after(reply)
                == Call::ShutDownRedis(f.after(reply)),
            Call::CountQuery(f) => call.request() == f.request() && call.after(reply)
                == Call::CountQuery(f.after(reply)),
            Call::ExecuteQuery(f) => call.request() == f.request() && call.after(reply)
                == Call::ExecuteQuery(f.after(reply)),
            Call::LaunchFalkor(f) => call.request() == f.request() && call.after(reply)
                == Call::LaunchFalkor(f.after(reply)),
            Call::LaunchIbex(f) => call.request() == f.request() && call.after(reply)
                == Call::LaunchIbex(f.after(reply)),
            Call::WaitForIbex(f) => call.request() == f.request() && call.after(reply)
                == Call::WaitForIbex(f.after(reply)),
            Call::EndFalkor(f) => call.request() == f.request() && call.after(reply)
                == Call::EndFalkor(f.after(reply)),
            Call::EndIbex(f) => call.request() == f.request() && call.after(reply)
                == Call::EndIbex(f.after(reply)),
            Call::CheckDump(f) => call.request() == f.request() && call.after(reply)
                == Call::CheckDump(f.after(reply)),
            Call::RestoreDump(f) => call.request() == f.request() && call.after(reply)
                == Call::RestoreDump(f.after(reply)),
            Call::SaveDump(f) => call.request() == f.request() && call.after(reply)
                == Call::SaveDump(f.after(reply)),
            Call::FalkorSize(f) => call.request() == f.request() && call.after(reply)
                == Call::FalkorSize(f.after(reply)),
            Call::Neo4jSize(f) => call.request() == f.request() && call.after(reply)
                == Call::Neo4jSize(f.after(reply)),
            Call::IbexSize(f) => call.request() == f.request() && call.after(reply)
                == Call::IbexSize(f.after(reply)),
            Call::StartWorker(f) => call.request() == f.request() && call.after(reply)
                == Call::StartWorker(f.after(reply)),
            Call::OpenStatements(f) => call.request() == f.request() && call.after(reply)
                == Call::OpenStatements(f.after(reply)),
            Call::SendPrepared(f) => call.request() == f.request() && call.after(reply)
                == Call::SendPrepared(f.after(reply)),
            Call::SendBolt(f) => call.request() == f.request() && call.after(reply)
                == Call::SendBolt(f.after(reply)),
            Call::Nothing => call.request() is None,
        },
{
}

// ---------------------------------------------------------------------------
// The server in hand

/// The server in hand is started and stopped with its own path and its own process, and is
/// then in the state that the reply says; one that could not be started or stopped, or that
/// was let go, is gone.
pub proof fn server_in_hand_is_kept_track_of(
    stopped: Falkor<Stopped>,
    started: Falkor<Started>,
    call: ServerCall,
    process: FalkorProcess,
    e: BenchmarkError,
)
    ensures
        ({
            let wait = Request::WaitForRedis { max_attempts: 10, delay_ms: 500 };
            let gone = FalkorServer::Gone;
            let own = started.state.0;
            let end = Request::EndFalkorProcess(own);
            &&& falkor_server::carries_out(
                call,
                Request::StartFalkor,
                FalkorServer::Stopped(stopped),
            ) ==> {
                &&& flow::ends(
                    call,
                    seq![
                        (Request::StartFalkorProcess, Reply::Falkor(process)),
                        (wait, Reply::Done),
                    ],
                    Ok(
                        (
                            Reply::Done,
                            FalkorServer::Started(
                                Falkor { path: stopped.path, state: Started(process) },
                            ),
                        ),
                    ),
                )
                &&& flow::ends(
                    call,
                    seq![(Request::StartFalkorProcess, Reply::Failed(e))],
                    Ok((Reply::Failed(e), gone)),
                )
            }
            &&& falkor_server::carries_out(
                call,
                Request::StopFalkor,
                FalkorServer::Started(started),
            ) ==> {
                &&& flow::ends(
                    call,
                    seq![
                        (Request::SaveRedis, Reply::Done),
                        (wait, Reply::Done),
                        (end, Reply::Done),
                    ],
                    Ok(
                        (
                            Reply::Done,
                            FalkorServer::Stopped(Falkor { path: started.path, state: Stopped }),
                        ),
                    ),
                )
                &&& flow::ends(
                    call,
                    seq![(Request::SaveRedis, Reply::Failed(e)), (end, Reply::Done)],
                    Ok((Reply::Failed(e), gone)),
                )
            }
            &&& falkor_server::carries_out(
                call,
                Request::DropFalkor,
                FalkorServer::Started(started),
            ) ==> flow::ends(call, seq![(end, Reply::Done)], Ok((Reply::Done, gone)))
            &&& falkor_server::carries_out(
                call,
                Request::DropFalkor,
                FalkorServer::Stopped(stopped),
            ) ==> flow::ends(call, seq![], Ok((Reply::Done, FalkorServer::Stopped(stopped))))
            &&& falkor_server::carries_out(call, Request::DropFalkor, gone) ==> flow::ends(
                call,
                seq![],
                Ok((Reply::Done, gone)),
            )
        }),
{
    reveal_with_fuel(flow::follows_from, 5);
    reveal_with_fuel(flow::played_from, 5);
}

/// The server in hand is concerned by the three actions on it and by no other; a start
/// needs it stopped and a stop needs it started.
pub proof fn three_actions_are_on_the_server(server: FalkorServer, request: Request)
    ensures
        falkor_server::is_on_server(request) <==> (request is StartFalkor || request is StopFalkor
            || request is DropFalkor),
        falkor_server::is_ready_for(server, request) <==> ((request is StartFalkor ==> server
            is Stopped) && (request is StopFalkor ==> server is Started)),
{
}

// ---------------------------------------------------------------------------
// Jobs

/// The actions that stand for work of their own.
pub proof fn these_actions_are_jobs(request: Request)
    ensures
        jobs::is_job(request) <==> {
            ||| request is SpawnWorker
            ||| request is ReadQueries
            ||| request is ImportStatements
            ||| request is StartMetricsReporter
            ||| request is StartPingServer
            ||| request is RestoreNeo4j
            ||| request is DumpNeo4j
        },
{
}

/// The job for an action is about what the action names: a worker works for its database
/// under its number, a file is read by its name, a report is on its database, and a backup
/// is that of the users of its size in Neo4j.
pub proof fn job_keeps_what_the_action_names(
    job: Job,
    request: Request,
    endpoint: Seq<char>,
    msg: Msg,
)
    requires
        jobs::is_for(job, request, endpoint),
    ensures
        match request {
            Request::SpawnWorker { vendor, worker, simulate } => job matches Job::Work(w)
                && flow::comes_to(
                w,
                seq![(Request::Receive, Reply::Received(msg))],
                Request::ExecuteReceived {
                    vendor,
                    worker_id: text::decimal(worker as nat),
                    msg: msg@,
                    simulate,
                },
            ),
            Request::ReadQueries(file) => job matches Job::Read(reader) && reader@.file_name == file
                && reader@.stage == ReadStage::Opening && reader@.queries.len() == 0,
            Request::ImportStatements => job == Job::Import(ExecuteStream::Reading),
            Request::StartMetricsReporter(Target::Falkor) => job == Job::ReportFalkor(
                ReportFalkor::AskingInfo,
            ),
            Request::StartMetricsReporter(Target::Ibex) => job matches Job::ReportIbex(report)
                && flow::comes_to(report, seq![], Request::FetchStats(endpoint + "/api/stats"@)),
            Request::StartPingServer => job == Job::Ping(PingServer::Sleeping),
            Request::RestoreNeo4j(size) => job matches Job::Restore(spec) && spec.name
                == Name::Users && spec.size == size && spec.vendor == Vendor::Neo4j,
            Request::DumpNeo4j(size) => job matches Job::Dump(spec) && spec.name == Name::Users
                && spec.size == size && spec.vendor == Vendor::Neo4j,
            _ => false,
        },
{
    reveal_with_fuel(flow::follows_from, 3);
    reveal_with_fuel(flow::played_from, 3);
}

} // verus!
