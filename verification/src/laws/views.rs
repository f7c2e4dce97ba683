//! What a request says of the action that it stands for, and a view of what it views.
use vstd::prelude::*;
use crate::action;
use crate::action::{Action, Request};
use crate::query::{Bolt, BoltValue, BoltValueView, Msg, PreparedQuery};
use crate::runner::queries;
use crate::runner::queries::{ReadAction, ReadRequest};
use crate::text;

verus! {

/// A request is of the kind of its action and says everything that the action says.
pub proof fn request_says_what_the_action_says(action: Action)
    ensures
        action@ == match action {
            Action::EnvIsSet(name) => Request::EnvIsSet(name@),
            Action::FileExists(path) => Request::FileExists(path@),
            Action::RemoveFile(path) => Request::RemoveFile(path@),
            Action::CreateDirectories(path) => Request::CreateDirectories(path@),
            Action::CopyFile { from, to } => Request::CopyFile { from: from@, to: to@ },
            Action::RunProcess { command, args } => Request::RunProcess {
                command: command@,
                args: args@.map_values(|s: String| s@),
            },
            Action::Kill(pid) => Request::Kill(pid),
            Action::Sleep(millis) => Request::Sleep(millis),
            Action::HttpGet(url) => Request::HttpGet(url@),
            Action::SaveBody(file) => Request::SaveBody(file@),
            Action::SleepOrStop(millis) => Request::SleepOrStop(millis),
            Action::RedisCommand { command, timeout_secs, timed_connect } =>
                Request::RedisCommand {
                    command: command@,
                    timeout_secs: timeout_secs,
                    timed_connect: timed_connect,
                },
            Action::GraphInfo => Request::GraphInfo,
            Action::ConnectFalkor => Request::ConnectFalkor,
            Action::RequireFalkor => Request::RequireFalkor,
            Action::FalkorRow { query, timeout_ms } => Request::FalkorRow {
                query: query@,
                timeout_ms: timeout_ms,
            },
            Action::FalkorSend { read_only, query, server_timeout_ms, timeout_secs } =>
                Request::FalkorSend {
                    read_only: read_only,
                    query: query@,
                    server_timeout_ms: server_timeout_ms,
                    timeout_secs: timeout_secs,
                },
            Action::IbexSend { query, timeout_secs } => Request::IbexSend {
                query: query@,
                timeout_secs: timeout_secs,
            },
            Action::FetchStats(url) => Request::FetchStats(url@),
            Action::Neo4jSend { bolt, timeout_secs } => Request::Neo4jSend {
                bolt: bolt@,
                timeout_secs: timeout_secs,
            },
            Action::Neo4jDrain => Request::Neo4jDrain,
            Action::Neo4jCount(query) => Request::Neo4jCount(query@),
            Action::Neo4jExecute(bolt) => Request::Neo4jExecute(bolt@),
            Action::Neo4jStatement(statement) => Request::Neo4jStatement(statement@),
            Action::CountOperation(labels) => Request::CountOperation(labels@.map_values(|s: String| s@)),
            Action::CountOperationError(labels) => Request::CountOperationError(labels@.map_values(|s: String| s@)),
            Action::SetGauge { gauge, value } => Request::SetGauge { gauge: gauge, value: value },
            Action::FillMemoryAndCpuMetrics(target) => Request::FillMemoryAndCpuMetrics(target),
            Action::StartMetricsReporter(target) => Request::StartMetricsReporter(target),
            Action::StartPingServer => Request::StartPingServer,
            Action::StartMonitor { target, command, args, restart_delay_secs } =>
                Request::StartMonitor {
                    target: target,
                    command: command@,
                    args: args@.map_values(|s: String| s@),
                    restart_delay_secs: restart_delay_secs,
                },
            Action::StopTask(task) => Request::StopTask(task),
            Action::FindIbexBinary => Request::FindIbexBinary,
            Action::DeleteFile(path) => Request::DeleteFile(path@),
            Action::EnsureDirectory(path) => Request::EnsureDirectory(path@),
            Action::SpawnCommand { command, args } => Request::SpawnCommand {
                command: command@,
                args: args@.map_values(|s: String| s@),
            },
            Action::FindProcess(command) => Request::FindProcess(command@),
            Action::KillProcess(pid) => Request::KillProcess(pid),
            Action::Download { url, file } => Request::Download { url: url@, file: file@ },
            Action::PingRedis => Request::PingRedis,
            Action::WaitForRedis { max_attempts, delay_ms } => Request::WaitForRedis {
                max_attempts: max_attempts,
                delay_ms: delay_ms,
            },
            Action::SaveRedis => Request::SaveRedis,
            Action::ShutDownRedis => Request::ShutDownRedis,
            Action::CountQuery(query) => Request::CountQuery(query@),
            Action::ExecuteQuery { vendor, spawn_id, name, query } => Request::ExecuteQuery {
                vendor: vendor,
                spawn_id: spawn_id@,
                name: name@,
                query: query@,
            },
            Action::StartFalkorProcess => Request::StartFalkorProcess,
            Action::StartIbexProcess(database) => Request::StartIbexProcess(database@),
            Action::WaitForIbex => Request::WaitForIbex,
            Action::EndFalkorProcess(process) => Request::EndFalkorProcess(process),
            Action::EndIbexProcess(process) => Request::EndIbexProcess(process),
            Action::CleanFalkor => Request::CleanFalkor,
            Action::StartFalkor => Request::StartFalkor,
            Action::StopFalkor => Request::StopFalkor,
            Action::DropFalkor => Request::DropFalkor,
            Action::CheckDump(size) => Request::CheckDump(size),
            Action::RestoreDump(size) => Request::RestoreDump(size),
            Action::SaveDump(size) => Request::SaveDump(size),
            Action::StopNeo4j(last) => Request::StopNeo4j(last),
            Action::StartNeo4j => Request::StartNeo4j,
            Action::ConnectNeo4j => Request::ConnectNeo4j,
            Action::CleanNeo4j => Request::CleanNeo4j,
            Action::RestoreNeo4j(size) => Request::RestoreNeo4j(size),
            Action::DumpNeo4j(size) => Request::DumpNeo4j(size),
            Action::GraphSize(vendor) => Request::GraphSize(vendor),
            Action::CreateHistogram => Request::CreateHistogram,
            Action::ShowHistogram => Request::ShowHistogram,
            Action::OpenIndexes { vendor, size } => Request::OpenIndexes {
                vendor: vendor,
                size: size,
            },
            Action::OpenData { vendor, size } => Request::OpenData { vendor: vendor, size: size },
            Action::OpenStatements(file) => Request::OpenStatements(file@),
            Action::ImportStatements => Request::ImportStatements,
            Action::NextStatement => Request::NextStatement,
            Action::GenerateQueries { vertices, edges, count } => Request::GenerateQueries {
                vertices: vertices,
                edges: edges,
                count: count,
            },
            Action::CreateFile(file) => Request::CreateFile(file@),
            Action::WriteText(text) => Request::WriteText(text@),
            Action::DescribeQueries { count, dataset } => Request::DescribeQueries {
                count: count,
                dataset: dataset,
            },
            Action::NextQuery => Request::NextQuery,
            Action::EncodeQuery(query) => Request::EncodeQuery(query@),
            Action::FlushFile => Request::FlushFile,
            Action::ReadQueries(file) => Request::ReadQueries(file@),
            Action::OpenChannel(capacity) => Request::OpenChannel(capacity),
            Action::StartScheduler(mps) => Request::StartScheduler(mps),
            Action::StartWorker { vendor, worker, simulate } => Request::StartWorker {
                vendor: vendor,
                worker: worker,
                simulate: simulate,
            },
            Action::SpawnWorker { vendor, worker, simulate } => Request::SpawnWorker {
                vendor: vendor,
                worker: worker,
                simulate: simulate,
            },
            Action::JoinScheduler => Request::JoinScheduler,
            Action::CloseChannel => Request::CloseChannel,
            Action::JoinWorker(worker) => Request::JoinWorker(worker),
            Action::Receive => Request::Receive,
            Action::ExecuteReceived { vendor, worker_id, msg, simulate } =>
                Request::ExecuteReceived {
                    vendor: vendor,
                    worker_id: worker_id@,
                    msg: msg@,
                    simulate: simulate,
                },
            Action::ObserveSuccess(vendor) => Request::ObserveSuccess(vendor),
            Action::ObserveError(vendor) => Request::ObserveError(vendor),
        },
        action::request_of(Some(action)) == Some(action@),
        action::request_of(None) is None,
{
}

/// The same holds of what is asked for while a file of queries is read.
pub proof fn reading_request_says_what_the_action_says(action: ReadAction)
    ensures
        action@ == match action {
            ReadAction::OpenFile(file) => ReadRequest::OpenFile(file@),
            ReadAction::ReadFirstLine => ReadRequest::ReadFirstLine,
            ReadAction::ParseMetadata(line) => ReadRequest::ParseMetadata(line@),
            ReadAction::ReadLine => ReadRequest::ReadLine,
            ReadAction::ParseQuery(line) => ReadRequest::ParseQuery(line@),
        },
{
}

/// The view of strings keeps each of them in its place. That of a query keeps its name, its
/// type, its text and each of its parameters, by name and value and in order.
pub proof fn query_view_keeps_everything(
    value: BoltValue,
    bolt: Bolt,
    query: PreparedQuery,
    msg: Msg,
    all: Seq<PreparedQuery>,
    strings: Seq<String>,
)
    ensures
        text::texts(strings).len() == strings.len(),
        forall|i: int|
            0 <= i < strings.len() ==> (#[trigger] text::texts(strings)[i]) == strings[i]@,
        match value {
            BoltValue::Integer(n) => value@ == BoltValueView::Integer(n),
            BoltValue::Text(text) => value@ == BoltValueView::Text(text@),
        },
        bolt@.query == bolt.query@,
        bolt@.params.len() == bolt.params@.len(),
        forall|i: int|
            0 <= i < bolt.params@.len() ==> (#[trigger] bolt@.params[i]) == (
                bolt.params@[i].0@,
                bolt.params@[i].1@,
            ),
        query@.q_name == query.q_name@,
        query@.q_type == query.q_type,
        query@.cypher == query.cypher@,
        query@.bolt == query.bolt@,
        msg@.due_ms == msg.due_ms,
        msg@.payload == msg.payload@,
        queries::query_views(all).len() == all.len(),
        forall|i: int|
            0 <= i < all.len() ==> (#[trigger] queries::query_views(all)[i]) == all[i]@,
{
}

} // verus!
