//! What the harness asks of the world, and what the world answers.
//!
//! No code of this library performs input or output. An operation that needs some
//! says so by an [`Action`]; whoever drives the operation performs the action and
//! hands a [`Reply`] back.
use vstd::prelude::*;
use crate::error::BenchmarkError;
use crate::execution::Target;
use crate::falkor::falkor_process::FalkorProcess;
use crate::ibex::ibex_process::IbexProcess;
use crate::query::{
    Bolt, BoltView, Msg, MsgView, PreparedQuery, PreparedQueryView, ProcessOutput, RedisValue, Row,
};
use crate::scenario::{Size, Vendor};
use crate::text;

verus! {

/// The gauges that the harness sets.
#[derive(Debug, Clone, Copy, PartialEq, Eq, Structural)]
pub enum Gauge {
    CpuUsage,
    MemUsage,
    FalkorRunningRequests,
    FalkorWaitingRequests,
    FalkorNodes,
    FalkorRelationships,
    FalkorMsgDeadlineOffset,
    FalkorCpuUsage,
    FalkorMemUsage,
    Neo4jMsgDeadlineOffset,
    IbexNodes,
    IbexRelationships,
    IbexMsgDeadlineOffset,
    IbexCpuUsage,
    IbexMemUsage,
}

/// The tasks that run beside a server.
#[derive(Debug, Clone, Copy, PartialEq, Eq, Structural)]
pub enum Task {
    PingServer,
    MetricsReporter,
    Monitor,
}

/// One thing for the world to do. The replies that answer it are named with it; where
/// nothing else is said, these are `Done` and `Failed`.
#[derive(Debug, PartialEq, Eq)]
pub enum Action {
    /// Is the environment variable set? `Flag`.
    EnvIsSet(String),
    /// Does the path exist? `Flag`.
    FileExists(String),
    /// Remove the file.
    RemoveFile(String),
    /// Create the directory and those above it.
    CreateDirectories(String),
    /// Copy one file.
    CopyFile { from: String, to: String },
    /// Run a program to its end. `Process` or `Failed`.
    RunProcess { command: String, args: Vec<String> },
    /// Send the kill signal. `Done`, `NoSuchProcess` or `KillFailed`.
    Kill(i32),
    /// Wait so many milliseconds. `Done`.
    Sleep(u64),
    /// Request a page. `Status` or `Failed`.
    HttpGet(String),
    /// Write the body of the page to the file.
    SaveBody(String),
    /// Wait so many milliseconds or for the order to stop. `Done` or `End`.
    SleepOrStop(u64),
    /// Connect to the local Redis and send one command. The time limit covers the
    /// connecting only where that is said. `Text`, `Failed` or `TimedOut`.
    RedisCommand { command: String, timeout_secs: u64, timed_connect: bool },
    /// Send `GRAPH.INFO` to the local Redis. `Value` or `Failed`.
    GraphInfo,
    /// Connect to the local FalkorDB.
    ConnectFalkor,
    /// Connect to the local FalkorDB; a failure is fatal. `Done`.
    RequireFalkor,
    /// Send a query to FalkorDB and take the first row. `Row` or `Failed`.
    FalkorRow { query: String, timeout_ms: u64 },
    /// Send a query to FalkorDB and read every row. `Done`, `QueryFailed` or
    /// `QueryTimedOut`.
    FalkorSend { read_only: bool, query: String, server_timeout_ms: Option<u64>, timeout_secs: u64 },
    /// Send a query to ibexdb and read every row. `Done`, `QueryFailed` or
    /// `QueryTimedOut`.
    IbexSend { query: String, timeout_secs: u64 },
    /// Ask ibexdb for its size. `Counts` or `Failed`.
    FetchStats(String),
    /// Send a query to Neo4j. `Done`, `Failed` or `TimedOut`.
    Neo4jSend { bolt: Bolt, timeout_secs: u64 },
    /// Read every row that Neo4j answers. `Done`.
    Neo4jDrain,
    /// Send a query to Neo4j and take the column `count` of its first row. `Count` or
    /// `Failed`.
    Neo4jCount(String),
    /// Send a query to Neo4j and read every row.
    Neo4jExecute(Bolt),
    /// Send a statement to Neo4j and read every row. `Took` or `Failed`.
    Neo4jStatement(String),
    /// Add one to the counter of operations with these labels. `Done`.
    CountOperation(Vec<String>),
    /// Add one to the counter of failed operations with these labels. `Done`.
    CountOperationError(Vec<String>),
    /// Set a gauge. `Done`.
    SetGauge { gauge: Gauge, value: i64 },
    /// Set the gauges for memory and CPU.
    FillMemoryAndCpuMetrics(Target),
    /// Start the task that reports the metrics of the database. `Done`.
    StartMetricsReporter(Target),
    /// Start the task that pings the server. `Done`.
    StartPingServer,
    /// Start the server of the database, and start it again, after a delay, when it ends.
    /// `Done`.
    StartMonitor { target: Target, command: String, args: Vec<String>, restart_delay_secs: u64 },
    /// Tell the task to stop and wait for its end. Any of `Done` and `Failed`.
    StopTask(Task),
    /// Find the program of ibexdb. `Text` or `Failed`.
    FindIbexBinary,
    /// Delete the file if it is there.
    DeleteFile(String),
    /// Create the directory if it is not there.
    EnsureDirectory(String),
    /// Run a program that must succeed. `Process` or `Failed`.
    SpawnCommand { command: String, args: Vec<String> },
    /// Find a running process by its command. `Pid` or `Failed`.
    FindProcess(String),
    /// Kill the process.
    KillProcess(u32),
    /// Download a page to a file.
    Download { url: String, file: String },
    /// Ping the local Redis.
    PingRedis,
    /// Wait until the local Redis answers.
    WaitForRedis { max_attempts: u32, delay_ms: u64 },
    /// Let the local Redis save its data.
    SaveRedis,
    /// Shut the local Redis down.
    ShutDownRedis,
    /// Run a query that counts on FalkorDB. `Number` or `Failed`.
    CountQuery(String),
    /// Run one query on FalkorDB or ibexdb.
    ExecuteQuery { vendor: Vendor, spawn_id: String, name: String, query: String },
    /// Start the FalkorDB server with what belongs to it. `Falkor` or `Failed`.
    StartFalkorProcess,
    /// Start the ibexdb server with what belongs to it. `Ibex` or `Failed`.
    StartIbexProcess(String),
    /// Wait until ibexdb answers.
    WaitForIbex,
    /// End the FalkorDB server with what belongs to it. `Done`.
    EndFalkorProcess(FalkorProcess),
    /// End the ibexdb server with what belongs to it. `Done`.
    EndIbexProcess(IbexProcess),
    /// Remove the database files of FalkorDB.
    CleanFalkor,
    /// Start FalkorDB.
    StartFalkor,
    /// Save the data of FalkorDB and stop it.
    StopFalkor,
    /// Let go of FalkorDB without saving. `Done`.
    DropFalkor,
    /// Is there a dump of this size?
    CheckDump(Size),
    /// Put the dump of this size in place.
    RestoreDump(Size),
    /// Keep the dump of this size.
    SaveDump(Size),
    /// Stop Neo4j.
    StopNeo4j(bool),
    /// Start Neo4j.
    StartNeo4j,
    /// Connect to Neo4j.
    ConnectNeo4j,
    /// Remove the database of Neo4j.
    CleanNeo4j,
    /// Put the backup of this size in place.
    RestoreNeo4j(Size),
    /// Make a backup of this size.
    DumpNeo4j(Size),
    /// How large is the graph? `Counts` or `Failed`.
    GraphSize(Vendor),
    /// Make the histogram for the durations of the import.
    CreateHistogram,
    /// Show the histogram. `Done`.
    ShowHistogram,
    /// Open the statements that make the indexes of the data set.
    OpenIndexes { vendor: Vendor, size: Size },
    /// Open the statements that load the data set.
    OpenData { vendor: Vendor, size: Size },
    /// Open the statements in the file.
    OpenStatements(String),
    /// Run every open statement on Neo4j.
    ImportStatements,
    /// Take the next open statement. `Line`, `LineFailed` or `End`.
    NextStatement,
    /// Prepare to generate so many queries on so many vertices and edges. `Done`.
    GenerateQueries { vertices: i32, edges: i32, count: usize },
    /// Create the file.
    CreateFile(String),
    /// Write the text to the created file.
    WriteText(String),
    /// Put the description of so many queries into JSON. `Text` or `Failed`.
    DescribeQueries { count: usize, dataset: Size },
    /// Take the next generated query. `Query`, or `End` where none is left.
    NextQuery,
    /// Put a query into JSON. `Text` or `Failed`.
    EncodeQuery(PreparedQuery),
    /// Flush the file.
    FlushFile,
    /// Read the prepared queries in the file. `Queries` or `Failed`.
    ReadQueries(String),
    /// Open the channel to the workers. `Done`.
    OpenChannel(usize),
    /// Start to send so many queries per second. `Done`.
    StartScheduler(usize),
    /// Start the worker with this number.
    StartWorker { vendor: Vendor, worker: usize, simulate: Option<usize> },
    /// Let the worker with this number run as a task. `Done`.
    SpawnWorker { vendor: Vendor, worker: usize, simulate: Option<usize> },
    /// Wait for the end of the scheduler. Any reply.
    JoinScheduler,
    /// Close this end of the channel. `Done`.
    CloseChannel,
    /// Wait for the end of the worker with this number. Any reply.
    JoinWorker(usize),
    /// Take the next message from the channel. `Received`, or `End` once it is closed and
    /// empty.
    Receive,
    /// Run the query in the message when it is due.
    ExecuteReceived { vendor: Vendor, worker_id: String, msg: Msg, simulate: Option<usize> },
    /// Note the duration of a query that succeeded. `Done`.
    ObserveSuccess(Vendor),
    /// Note the duration of a query that failed. `Done`.
    ObserveError(Vendor),
}

/// An [`Action`] with its strings taken by their characters.
pub enum Request {
    EnvIsSet(Seq<char>),
    FileExists(Seq<char>),
    RemoveFile(Seq<char>),
    CreateDirectories(Seq<char>),
    CopyFile { from: Seq<char>, to: Seq<char> },
    RunProcess { command: Seq<char>, args: Seq<Seq<char>> },
    Kill(i32),
    Sleep(u64),
    HttpGet(Seq<char>),
    SaveBody(Seq<char>),
    SleepOrStop(u64),
    RedisCommand { command: Seq<char>, timeout_secs: u64, timed_connect: bool },
    GraphInfo,
    ConnectFalkor,
    RequireFalkor,
    FalkorRow { query: Seq<char>, timeout_ms: u64 },
    FalkorSend {
        read_only: bool,
        query: Seq<char>,
        server_timeout_ms: Option<u64>,
        timeout_secs: u64,
    },
    IbexSend { query: Seq<char>, timeout_secs: u64 },
    FetchStats(Seq<char>),
    Neo4jSend { bolt: BoltView, timeout_secs: u64 },
    Neo4jDrain,
    Neo4jCount(Seq<char>),
    Neo4jExecute(BoltView),
    Neo4jStatement(Seq<char>),
    CountOperation(Seq<Seq<char>>),
    CountOperationError(Seq<Seq<char>>),
    SetGauge { gauge: Gauge, value: i64 },
    FillMemoryAndCpuMetrics(Target),
    StartMetricsReporter(Target),
    StartPingServer,
    StartMonitor {
        target: Target,
        command: Seq<char>,
        args: Seq<Seq<char>>,
        restart_delay_secs: u64,
    },
    StopTask(Task),
    FindIbexBinary,
    DeleteFile(Seq<char>),
    EnsureDirectory(Seq<char>),
    SpawnCommand { command: Seq<char>, args: Seq<Seq<char>> },
    FindProcess(Seq<char>),
    KillProcess(u32),
    Download { url: Seq<char>, file: Seq<char> },
    PingRedis,
    WaitForRedis { max_attempts: u32, delay_ms: u64 },
    SaveRedis,
    ShutDownRedis,
    CountQuery(Seq<char>),
    ExecuteQuery { vendor: Vendor, spawn_id: Seq<char>, name: Seq<char>, query: Seq<char> },
    StartFalkorProcess,
    StartIbexProcess(Seq<char>),
    WaitForIbex,
    EndFalkorProcess(FalkorProcess),
    EndIbexProcess(IbexProcess),
    CleanFalkor,
    StartFalkor,
    StopFalkor,
    DropFalkor,
    CheckDump(Size),
    RestoreDump(Size),
    SaveDump(Size),
    StopNeo4j(bool),
    StartNeo4j,
    ConnectNeo4j,
    CleanNeo4j,
    RestoreNeo4j(Size),
    DumpNeo4j(Size),
    GraphSize(Vendor),
    CreateHistogram,
    ShowHistogram,
    OpenIndexes { vendor: Vendor, size: Size },
    OpenData { vendor: Vendor, size: Size },
    OpenStatements(Seq<char>),
    ImportStatements,
    NextStatement,
    GenerateQueries { vertices: i32, edges: i32, count: usize },
    CreateFile(Seq<char>),
    WriteText(Seq<char>),
    DescribeQueries { count: usize, dataset: Size },
    NextQuery,
    EncodeQuery(PreparedQueryView),
    FlushFile,
    ReadQueries(Seq<char>),
    OpenChannel(usize),
    StartScheduler(usize),
    StartWorker { vendor: Vendor, worker: usize, simulate: Option<usize> },
    SpawnWorker { vendor: Vendor, worker: usize, simulate: Option<usize> },
    JoinScheduler,
    CloseChannel,
    JoinWorker(usize),
    Receive,
    ExecuteReceived {
        vendor: Vendor,
        worker_id: Seq<char>,
        msg: MsgView,
        simulate: Option<usize>,
    },
    ObserveSuccess(Vendor),
    ObserveError(Vendor),
}

impl View for Action {
    type V = Request;

    open spec fn view(&self) -> Request {
        match self {
            Action::EnvIsSet(name) => Request::EnvIsSet(name@),
            Action::FileExists(path) => Request::FileExists(path@),
            Action::RemoveFile(path) => Request::RemoveFile(path@),
            Action::CreateDirectories(path) => Request::CreateDirectories(path@),
            Action::CopyFile { from, to } => Request::CopyFile { from: from@, to: to@ },
            Action::RunProcess { command, args } => Request::RunProcess {
                command: command@,
                args: text::texts(args@),
            },
            Action::Kill(pid) => Request::Kill(*pid),
            Action::Sleep(millis) => Request::Sleep(*millis),
            Action::HttpGet(url) => Request::HttpGet(url@),
            Action::SaveBody(file) => Request::SaveBody(file@),
            Action::SleepOrStop(millis) => Request::SleepOrStop(*millis),
            Action::RedisCommand { command, timeout_secs, timed_connect } =>
                Request::RedisCommand {
                    command: command@,
                    timeout_secs: *timeout_secs,
                    timed_connect: *timed_connect,
                },
            Action::GraphInfo => Request::GraphInfo,
            Action::ConnectFalkor => Request::ConnectFalkor,
            Action::RequireFalkor => Request::RequireFalkor,
            Action::FalkorRow { query, timeout_ms } => Request::FalkorRow {
                query: query@,
                timeout_ms: *timeout_ms,
            },
            Action::FalkorSend { read_only, query, server_timeout_ms, timeout_secs } =>
                Request::FalkorSend {
                    read_only: *read_only,
                    query: query@,
                    server_timeout_ms: *server_timeout_ms,
                    timeout_secs: *timeout_secs,
                },
            Action::IbexSend { query, timeout_secs } => Request::IbexSend {
                query: query@,
                timeout_secs: *timeout_secs,
            },
            Action::FetchStats(url) => Request::FetchStats(url@),
            Action::Neo4jSend { bolt, timeout_secs } => Request::Neo4jSend {
                bolt: bolt@,
                timeout_secs: *timeout_secs,
            },
            Action::Neo4jDrain => Request::Neo4jDrain,
            Action::Neo4jCount(query) => Request::Neo4jCount(query@),
            Action::Neo4jExecute(bolt) => Request::Neo4jExecute(bolt@),
            Action::Neo4jStatement(statement) => Request::Neo4jStatement(statement@),
            Action::CountOperation(labels) => Request::CountOperation(text::texts(labels@)),
            Action::CountOperationError(labels) => Request::CountOperationError(text::texts(labels@)),
            Action::SetGauge { gauge, value } => Request::SetGauge { gauge: *gauge, value: *value },
            Action::FillMemoryAndCpuMetrics(target) => Request::FillMemoryAndCpuMetrics(*target),
            Action::StartMetricsReporter(target) => Request::StartMetricsReporter(*target),
            Action::StartPingServer => Request::StartPingServer,
            Action::StartMonitor { target, command, args, restart_delay_secs } =>
                Request::StartMonitor {
                    target: *target,
                    command: command@,
                    args: text::texts(args@),
                    restart_delay_secs: *restart_delay_secs,
                },
            Action::StopTask(task) => Request::StopTask(*task),
            Action::FindIbexBinary => Request::FindIbexBinary,
            Action::DeleteFile(path) => Request::DeleteFile(path@),
            Action::EnsureDirectory(path) => Request::EnsureDirectory(path@),
            Action::SpawnCommand { command, args } => Request::SpawnCommand {
                command: command@,
                args: text::texts(args@),
            },
            Action::FindProcess(command) => Request::FindProcess(command@),
            Action::KillProcess(pid) => Request::KillProcess(*pid),
            Action::Download { url, file } => Request::Download { url: url@, file: file@ },
            Action::PingRedis => Request::PingRedis,
            Action::WaitForRedis { max_attempts, delay_ms } => Request::WaitForRedis {
                max_attempts: *max_attempts,
                delay_ms: *delay_ms,
            },
            Action::SaveRedis => Request::SaveRedis,
            Action::ShutDownRedis => Request::ShutDownRedis,
            Action::CountQuery(query) => Request::CountQuery(query@),
            Action::ExecuteQuery { vendor, spawn_id, name, query } => Request::ExecuteQuery {
                vendor: *vendor,
                spawn_id: spawn_id@,
                name: name@,
                query: query@,
            },
            Action::StartFalkorProcess => Request::StartFalkorProcess,
            Action::StartIbexProcess(database) => Request::StartIbexProcess(database@),
            Action::WaitForIbex => Request::WaitForIbex,
            Action::EndFalkorProcess(process) => Request::EndFalkorProcess(*process),
            Action::EndIbexProcess(process) => Request::EndIbexProcess(*process),
            Action::CleanFalkor => Request::CleanFalkor,
            Action::StartFalkor => Request::StartFalkor,
            Action::StopFalkor => Request::StopFalkor,
            Action::DropFalkor => Request::DropFalkor,
            Action::CheckDump(size) => Request::CheckDump(*size),
            Action::RestoreDump(size) => Request::RestoreDump(*size),
            Action::SaveDump(size) => Request::SaveDump(*size),
            Action::StopNeo4j(last) => Request::StopNeo4j(*last),
            Action::StartNeo4j => Request::StartNeo4j,
            Action::ConnectNeo4j => Request::ConnectNeo4j,
            Action::CleanNeo4j => Request::CleanNeo4j,
            Action::RestoreNeo4j(size) => Request::RestoreNeo4j(*size),
            Action::DumpNeo4j(size) => Request::DumpNeo4j(*size),
            Action::GraphSize(vendor) => Request::GraphSize(*vendor),
            Action::CreateHistogram => Request::CreateHistogram,
            Action::ShowHistogram => Request::ShowHistogram,
            Action::OpenIndexes { vendor, size } => Request::OpenIndexes {
                vendor: *vendor,
                size: *size,
            },
            Action::OpenData { vendor, size } => Request::OpenData { vendor: *vendor, size: *size },
            Action::OpenStatements(file) => Request::OpenStatements(file@),
            Action::ImportStatements => Request::ImportStatements,
            Action::NextStatement => Request::NextStatement,
            Action::GenerateQueries { vertices, edges, count } => Request::GenerateQueries {
                vertices: *vertices,
                edges: *edges,
                count: *count,
            },
            Action::CreateFile(file) => Request::CreateFile(file@),
            Action::WriteText(text) => Request::WriteText(text@),
            Action::DescribeQueries { count, dataset } => Request::DescribeQueries {
                count: *count,
                dataset: *dataset,
            },
            Action::NextQuery => Request::NextQuery,
            Action::EncodeQuery(query) => Request::EncodeQuery(query@),
            Action::FlushFile => Request::FlushFile,
            Action::ReadQueries(file) => Request::ReadQueries(file@),
            Action::OpenChannel(capacity) => Request::OpenChannel(*capacity),
            Action::StartScheduler(mps) => Request::StartScheduler(*mps),
            Action::StartWorker { vendor, worker, simulate } => Request::StartWorker {
                vendor: *vendor,
                worker: *worker,
                simulate: *simulate,
            },
            Action::SpawnWorker { vendor, worker, simulate } => Request::SpawnWorker {
                vendor: *vendor,
                worker: *worker,
                simulate: *simulate,
            },
            Action::JoinScheduler => Request::JoinScheduler,
            Action::CloseChannel => Request::CloseChannel,
            Action::JoinWorker(worker) => Request::JoinWorker(*worker),
            Action::Receive => Request::Receive,
            Action::ExecuteReceived { vendor, worker_id, msg, simulate } =>
                Request::ExecuteReceived {
                    vendor: *vendor,
                    worker_id: worker_id@,
                    msg: msg@,
                    simulate: *simulate,
                },
            Action::ObserveSuccess(vendor) => Request::ObserveSuccess(*vendor),
            Action::ObserveError(vendor) => Request::ObserveError(*vendor),
        }
    }
}

/// The request that an optional action makes.
pub open spec fn request_of(action: Option<Action>) -> Option<Request> {
    match action {
        Some(a) => Some(a@),
        None => None,
    }
}

/// Whether a reply is one of those that answer the request.
pub open spec fn answers(request: Request, reply: Reply) -> bool {
    match request {
        Request::EnvIsSet(_) | Request::FileExists(_) => reply is Flag,
        Request::Receive => reply is Received || reply is End,
        Request::RunProcess { command, args } => reply is Process || reply is Failed,
        Request::SpawnCommand { command, args } => reply is Process || reply is Failed,
        Request::Kill(_) => reply is Done || reply is NoSuchProcess || reply is KillFailed,
        Request::SleepOrStop(_) => reply is Done || reply is End,
        Request::HttpGet(_) => reply is Status || reply is Failed,
        Request::RedisCommand { command, timeout_secs, timed_connect } => reply is Text || reply
            is Failed || reply is TimedOut,
        Request::GraphInfo => reply is Value || reply is Failed,
        Request::FalkorRow { query, timeout_ms } => reply is Row || reply is Failed,
        Request::FalkorSend { read_only, query, server_timeout_ms, timeout_secs } => reply is Done
            || reply is QueryFailed || reply is QueryTimedOut,
        Request::IbexSend { query, timeout_secs } => reply is Done || reply is QueryFailed || reply
            is QueryTimedOut,
        Request::FetchStats(_) | Request::GraphSize(_) => reply is Counts || reply is Failed,
        Request::Neo4jSend { bolt, timeout_secs } => reply is Done || reply is Failed || reply
            is TimedOut,
        Request::Neo4jCount(_) => reply is Count || reply is Failed,
        Request::Neo4jStatement(_) => reply is Took || reply is Failed,
        Request::FindIbexBinary => reply is Text || reply is Failed,
        Request::FindProcess(_) => reply is Pid || reply is Failed,
        Request::CountQuery(_) => reply is Number || reply is Failed,
        Request::StartFalkorProcess => reply is Falkor || reply is Failed,
        Request::StartIbexProcess(_) => reply is Ibex || reply is Failed,
        Request::NextStatement => reply is Line || reply is LineFailed || reply is End,
        Request::DescribeQueries { count, dataset } => reply is Text || reply is Failed,
        Request::NextQuery => reply is Query || reply is End,
        Request::EncodeQuery(_) => reply is Text || reply is Failed,
        Request::ReadQueries(_) => reply is Queries || reply is Failed,
        Request::Sleep(_)
        | Request::RequireFalkor
        | Request::Neo4jDrain
        | Request::CountOperation(_)
        | Request::CountOperationError(_)
        | Request::StartMetricsReporter(_)
        | Request::StartPingServer
        | Request::EndFalkorProcess(_)
        | Request::EndIbexProcess(_)
        | Request::DropFalkor
        | Request::ShowHistogram
        | Request::OpenChannel(_)
        | Request::StartScheduler(_)
        | Request::CloseChannel
        | Request::ObserveSuccess(_)
        | Request::ObserveError(_) => reply is Done,
        Request::SetGauge { gauge, value } => reply is Done,
        Request::StartMonitor { target, command, args, restart_delay_secs } => reply is Done,
        Request::GenerateQueries { vertices, edges, count } => reply is Done,
        Request::SpawnWorker { vendor, worker, simulate } => reply is Done,
        _ => reply is Done || reply is Failed,
    }
}

/// Whether the request is for the next of many, so that the same request may follow.
pub open spec fn asks_for_next(request: Request) -> bool {
    request is NextStatement
}

/// What the world answers to an [`Action`].
#[derive(Debug, PartialEq, Eq)]
pub enum Reply {
    /// It was done.
    Done,
    /// It failed.
    Failed(BenchmarkError),
    /// Yes or no.
    Flag(bool),
    /// The process has ended and left this.
    Process(ProcessOutput),
    /// The id of a process.
    Pid(u32),
    /// There is no process with that id.
    NoSuchProcess,
    /// The process could not be killed, and why.
    KillFailed(String),
    /// How the server answered a request.
    Status { success: bool, status: String },
    /// A line of text.
    Text(String),
    /// There was no answer in time.
    TimedOut,
    /// The first row, if there is one.
    Row(Option<Row>),
    /// The query failed with an error of type `kind`, written as `text`.
    QueryFailed { kind: String, text: String },
    /// There was no answer to the query in time; the error is of type `kind`, written as
    /// `text`.
    QueryTimedOut { kind: String, text: String },
    /// A value of Redis.
    Value(RedisValue),
    /// A signed number.
    Number(i64),
    /// It was done, and took so many microseconds.
    Took(u128),
    /// The count, if there is a row that holds one.
    Count(Option<u64>),
    /// How many nodes and relationships.
    Counts { nodes: u64, relations: u64 },
    /// The server process of FalkorDB.
    Falkor(FalkorProcess),
    /// The server process of ibexdb.
    Ibex(IbexProcess),
    /// There are no more.
    End,
    /// A statement.
    Line(String),
    /// A statement could not be read.
    LineFailed(BenchmarkError),
    /// A generated query.
    Query(PreparedQuery),
    /// A message from the channel.
    Received(Msg),
    /// The prepared queries were read; their description.
    Queries { size: usize, dataset: Size },
}

} // verus!
