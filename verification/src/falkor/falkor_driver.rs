//! FalkorDB as the benchmark sees it: started or stopped, with its dumps and its size.
use vstd::pervasive::unreached;
use vstd::prelude::*;
use vstd::string::*;
use crate::action::{Action, Reply, Request};
use crate::error::{other_error, BenchmarkError, BenchmarkResult};
use crate::execution;
use crate::execution::{ExecuteQueries, ExecuteQuery, SendPrepared, SendStage, ExecuteStage, Target};
use crate::falkor::falkor_process::{FalkorProcess, REDIS_DATA_DIR};
use crate::flow;
use crate::flow::Flow;
use crate::query::{FalkorValue, PreparedQuery, QueryType, Row};
use crate::scenario::Size;
use crate::text;
use crate::utils::files::DeleteFile;
use crate::utils::processes::GetCommandPid;
use crate::utils::{delete_file, get_command_pid};

verus! {

/// Where the local FalkorDB is reached.
pub const FALKOR_URL: &'static str = "falkor://127.0.0.1:6379";

/// The graph that the benchmark uses.
pub const FALKOR_GRAPH: &'static str = "falkor";

/// The file that Redis saves its data to.
pub const REDIS_DUMP_FILE: &'static str = "./redis-data/dump.rdb";

/// The server is running.
pub struct Started(pub FalkorProcess);

/// The server is not running.
pub struct Stopped;

/// FalkorDB in the state `U`.
pub struct Falkor<U> {
    pub path: String,
    pub state: U,
}

/// Where the dump of a data set is kept.
pub open spec fn dump_file(size: Size) -> Seq<char> {
    REDIS_DATA_DIR@ + "/"@ + size.label() + "_dump.rdb"@
}

/// Where the dump of a data set is kept.
pub fn dump_path(size: Size) -> (s: String)
    ensures
        s@ == dump_file(size),
{
    let label = size.to_string();
    REDIS_DATA_DIR.to_string().concat("/").concat(label.as_str()).concat("_dump.rdb")
}

/// Data sets of different sizes have different dumps, and none is the file in use.
pub proof fn dumps_are_distinct(a: Size, b: Size)
    ensures
        dump_file(a) == dump_file(b) ==> a == b,
        dump_file(a) != REDIS_DUMP_FILE@,
{
    reveal_strlit("./redis-data");
    reveal_strlit("./redis-data/dump.rdb");
    reveal_strlit("/");
    reveal_strlit("_dump.rdb");
    reveal_strlit("small");
    reveal_strlit("medium");
    reveal_strlit("large");
    assert(dump_file(a)[13] == a.label()[0]);
    assert(dump_file(b)[13] == b.label()[0]);
}

impl Falkor<Stopped> {
    /// FalkorDB with the shared library at `falkor_path`, the value of `FALKOR_PATH`, or
    /// in the current directory where that is not set. The current directory must be
    /// known in either case.
    pub fn new(current_dir: Option<&str>, falkor_path: Option<&str>) -> (falkor: Falkor<Stopped>)
        requires
            current_dir is Some,
        ensures
            falkor.path@ == match falkor_path {
                Some(path) => path@,
                None => current_dir->0@ + "/falkordb.so"@,
            },
    {
        let path = match falkor_path {
            Some(path) => path.to_string(),
            None => match current_dir {
                Some(dir) => dir.to_string().concat("/falkordb.so"),
                None => unreached(),
            },
        };
        Falkor { path, state: Stopped }
    }

    /// Starts the server and waits until it answers.
    pub fn start(self) -> (flow: StartFalkor)
        ensures
            flow == (StartFalkor::Launching { path: self.path }),
    {
        StartFalkor::Launching { path: self.path }
    }

    /// Deletes the data.
    pub fn clean_db(&self) -> (flow: DeleteFile)
        ensures
            flow matches DeleteFile::Probing { path } && path@ == REDIS_DUMP_FILE@,
    {
        delete_file(REDIS_DUMP_FILE)
    }

    /// Keeps the data as the dump of this size.
    pub fn save_db(&self, size: Size) -> (flow: SaveDb)
        ensures
            flow == (SaveDb::CheckingMode { size }),
    {
        SaveDb::CheckingMode { size }
    }
}

impl Falkor<Started> {
    /// Saves the data, waits until the server answers again, and ends it.
    pub fn stop(self) -> (flow: StopFalkor)
        ensures
            flow == (StopFalkor::Saving { path: self.path, process: self.state.0 }),
    {
        StopFalkor::Saving { path: self.path, process: self.state.0 }
    }

    /// How many nodes and relationships the graph has.
    pub fn graph_size(&self) -> (flow: FalkorGraphSize)
        ensures
            flow == FalkorGraphSize::Connecting,
    {
        FalkorGraphSize::Connecting
    }

    /// The number in a row of one number, as an unsigned number.
    pub fn extract_u64_value(&self, row: &Option<Row>) -> (result: BenchmarkResult<u64>)
        ensures
            match single_number(*row) {
                Some(value) => result == BenchmarkResult::<u64>::Ok(value as u64),
                None => result matches Err(e) && e.is_other(
                    "Value not found or not of expected type"@,
                ),
            },
    {
        match number_in(row) {
            Some(value) => Ok(value as u64),
            None => Err(other_error("Value not found or not of expected type")),
        }
    }
}

impl<U> Falkor<U> {
    /// Finds the server process.
    pub fn get_redis_pid(&self) -> (flow: GetCommandPid)
        ensures
            flow matches GetCommandPid::Listing { cmd } && cmd@ == "redis-server"@,
    {
        get_command_pid("redis-server")
    }

    /// Puts the dump of this size in place, if there is one.
    pub fn restore_db(&self, size: Size) -> (flow: RestoreDb)
        ensures
            flow == (RestoreDb::CheckingMode { size }),
    {
        RestoreDb::CheckingMode { size }
    }

    /// Fails where there is no dump of this size.
    pub fn dump_exists_or_error(&self, size: Size) -> (flow: DumpExists)
        ensures
            flow == (DumpExists::CheckingMode { size }),
    {
        DumpExists::CheckingMode { size }
    }
}

/// The only value of a row, where that is a number.
pub open spec fn single_number(row: Option<Row>) -> Option<i64> {
    match row {
        Some(r) => if r.values@.len() == 1 {
            match r.values@[0] {
                FalkorValue::I64(value) => Some(value),
                FalkorValue::Other => None,
            }
        } else {
            None
        },
        None => None,
    }
}

/// The only value of a row, where that is a number.
pub(crate) fn number_in(row: &Option<Row>) -> (r: Option<i64>)
    ensures
        r == single_number(*row),
{
    match row {
        Some(r) => {
            if r.values.len() == 1 {
                match r.values[0] {
                    FalkorValue::I64(value) => Some(value),
                    FalkorValue::Other => None,
                }
            } else {
                None
            }
        },
        None => None,
    }
}

// ---------------------------------------------------------------------------
// Starting and stopping

/// Starts FalkorDB.
pub enum StartFalkor {
    Launching { path: String },
    Waiting { path: String, process: FalkorProcess },
    /// The server does not answer and is ended again.
    Ending { process: FalkorProcess, error: BenchmarkError },
    Ended(BenchmarkResult<Falkor<Started>>),
}

impl Flow for StartFalkor {
    type Output = Falkor<Started>;

    open spec fn request(&self) -> Option<Request> {
        match self {
            StartFalkor::Launching { path } => Some(Request::StartFalkorProcess),
            StartFalkor::Waiting { path, process } => Some(
                Request::WaitForRedis { max_attempts: 10, delay_ms: 500 },
            ),
            StartFalkor::Ending { process, error } => Some(Request::EndFalkorProcess(*process)),
            StartFalkor::Ended(_) => None,
        }
    }

    open spec fn after(self, reply: Reply) -> Self {
        match (self, reply) {
            (StartFalkor::Launching { path }, Reply::Falkor(process)) => StartFalkor::Waiting {
                path,
                process,
            },
            (StartFalkor::Launching { path }, Reply::Failed(e)) => StartFalkor::Ended(Err(e)),
            (StartFalkor::Waiting { path, process }, Reply::Done) => StartFalkor::Ended(
                Ok(Falkor { path, state: Started(process) }),
            ),
            (StartFalkor::Waiting { path, process }, Reply::Failed(e)) => StartFalkor::Ending {
                process,
                error: e,
            },
            (StartFalkor::Ending { process, error }, Reply::Done) => StartFalkor::Ended(
                Err(error),
            ),
            (state, _) => state,
        }
    }

    open spec fn gives(&self, result: BenchmarkResult<Falkor<Started>>) -> bool {
        *self == StartFalkor::Ended(result)
    }

    proof fn goes_on(self, reply: Reply) {
    }

    fn action(&self) -> (action: Option<Action>) {
        match self {
            StartFalkor::Launching { path } => Some(Action::StartFalkorProcess),
            StartFalkor::Waiting { path, process } => Some(
                Action::WaitForRedis { max_attempts: 10, delay_ms: 500 },
            ),
            StartFalkor::Ending { process, error } => Some(Action::EndFalkorProcess(*process)),
            StartFalkor::Ended(_) => None,
        }
    }

    fn next(self, reply: Reply) -> (state: Self) {
        match (self, reply) {
            (StartFalkor::Launching { path }, Reply::Falkor(process)) => StartFalkor::Waiting {
                path,
                process,
            },
            (StartFalkor::Launching { path }, Reply::Failed(e)) => StartFalkor::Ended(Err(e)),
            (StartFalkor::Waiting { path, process }, Reply::Done) => StartFalkor::Ended(
                Ok(Falkor { path, state: Started(process) }),
            ),
            (StartFalkor::Waiting { path, process }, Reply::Failed(e)) => StartFalkor::Ending {
                process,
                error: e,
            },
            (StartFalkor::Ending { process, error }, Reply::Done) => StartFalkor::Ended(
                Err(error),
            ),
            (state, _) => state,
        }
    }

    fn finish(self) -> (result: BenchmarkResult<Falkor<Started>>) {
        match self {
            StartFalkor::Ended(r) => r,
            _ => unreached(),
        }
    }
}

/// Stops FalkorDB. The server is ended whether or not it could be saved.
pub enum StopFalkor {
    Saving { path: String, process: FalkorProcess },
    Waiting { path: String, process: FalkorProcess },
    Ending { path: String, process: FalkorProcess, result: BenchmarkResult<()> },
    Ended(BenchmarkResult<Falkor<Stopped>>),
}

impl Flow for StopFalkor {
    type Output = Falkor<Stopped>;

    open spec fn request(&self) -> Option<Request> {
        match self {
            StopFalkor::Saving { path, process } => Some(Request::SaveRedis),
            StopFalkor::Waiting { path, process } => Some(
                Request::WaitForRedis { max_attempts: 10, delay_ms: 500 },
            ),
            StopFalkor::Ending { path, process, result } => Some(
                Request::EndFalkorProcess(*process),
            ),
            StopFalkor::Ended(_) => None,
        }
    }

    open spec fn after(self, reply: Reply) -> Self {
        match (self, reply) {
            (StopFalkor::Saving { path, process }, Reply::Done) => StopFalkor::Waiting {
                path,
                process,
            },
            (StopFalkor::Saving { path, process }, Reply::Failed(e)) => StopFalkor::Ending {
                path,
                process,
                result: Err(e),
            },
            (StopFalkor::Waiting { path, process }, Reply::Done) => StopFalkor::Ending {
                path,
                process,
                result: Ok(()),
            },
            (StopFalkor::Waiting { path, process }, Reply::Failed(e)) => StopFalkor::Ending {
                path,
                process,
                result: Err(e),
            },
            (StopFalkor::Ending { path, process, result }, Reply::Done) => StopFalkor::Ended(
                match result {
                    Ok(_) => Ok(Falkor { path, state: Stopped }),
                    Err(e) => Err(e),
                },
            ),
            (state, _) => state,
        }
    }

    open spec fn gives(&self, result: BenchmarkResult<Falkor<Stopped>>) -> bool {
        *self == StopFalkor::Ended(result)
    }

    proof fn goes_on(self, reply: Reply) {
    }

    fn action(&self) -> (action: Option<Action>) {
        match self {
            StopFalkor::Saving { path, process } => Some(Action::SaveRedis),
            StopFalkor::Waiting { path, process } => Some(
                Action::WaitForRedis { max_attempts: 10, delay_ms: 500 },
            ),
            StopFalkor::Ending { path, process, result } => Some(
                Action::EndFalkorProcess(*process),
            ),
            StopFalkor::Ended(_) => None,
        }
    }

    fn next(self, reply: Reply) -> (state: Self) {
        match (self, reply) {
            (StopFalkor::Saving { path, process }, Reply::Done) => StopFalkor::Waiting {
                path,
                process,
            },
            (StopFalkor::Saving { path, process }, Reply::Failed(e)) => StopFalkor::Ending {
                path,
                process,
                result: Err(e),
            },
            (StopFalkor::Waiting { path, process }, Reply::Done) => StopFalkor::Ending {
                path,
                process,
                result: Ok(()),
            },
            (StopFalkor::Waiting { path, process }, Reply::Failed(e)) => StopFalkor::Ending {
                path,
                process,
                result: Err(e),
            },
            (StopFalkor::Ending { path, process, result }, Reply::Done) => StopFalkor::Ended(
                match result {
                    Ok(_) => Ok(Falkor { path, state: Stopped }),
                    Err(e) => Err(e),
                },
            ),
            (state, _) => state,
        }
    }

    fn finish(self) -> (result: BenchmarkResult<Falkor<Stopped>>) {
        match self {
            StopFalkor::Ended(r) => r,
            _ => unreached(),
        }
    }
}

/// A start that fails leaves no server behind, and a stop never does: the server process
/// is ended in between, unless it never came to be.
pub proof fn no_server_is_left_behind(start: StartFalkor, stop: StopFalkor, reply: Reply)
    requires
        start.request() is Some,
        stop.request() is Some,
    ensures
        start.after(reply) is Ended && start.after(reply)->Ended_0 is Err ==> start is Launching
            || start is Ending,
        start is Waiting && reply is Failed ==> start.after(reply).request() == Some(
            Request::EndFalkorProcess(start->Waiting_process),
        ),
        stop.after(reply) is Ended ==> stop.request() == Some(
            Request::EndFalkorProcess(stop->Ending_process),
        ),
{
}

/// Stopping FalkorDB after it was started gives it back as it was.
pub proof fn stop_undoes_start(path: String, process: FalkorProcess)
    ensures
        flow::run(
            StartFalkor::Launching { path },
            seq![Reply::Falkor(process), Reply::Done],
        ).gives(Ok(Falkor { path, state: Started(process) })),
        flow::run(
            StopFalkor::Saving { path, process },
            seq![Reply::Done, Reply::Done, Reply::Done],
        ).gives(Ok(Falkor { path, state: Stopped })),
{
    broadcast use flow::group_flow;

}

// ---------------------------------------------------------------------------
// Dumps

/// Keeps the data as a dump.
pub enum SaveDb {
    CheckingMode { size: Size },
    Finding { size: Size },
    ShuttingDown { size: Size },
    Copying { size: Size },
    Ended(BenchmarkResult<()>),
}

impl Flow for SaveDb {
    type Output = ();

    open spec fn request(&self) -> Option<Request> {
        match self {
            SaveDb::CheckingMode { size } => Some(Request::EnvIsSet("FALKOR_EXTERNAL"@)),
            SaveDb::Finding { size } => Some(Request::FindProcess("redis-server"@)),
            SaveDb::ShuttingDown { size } => Some(Request::ShutDownRedis),
            SaveDb::Copying { size } => Some(
                Request::CopyFile { from: REDIS_DUMP_FILE@, to: dump_file(*size) },
            ),
            SaveDb::Ended(_) => None,
        }
    }

    open spec fn after(self, reply: Reply) -> Self {
        match (self, reply) {
            (SaveDb::CheckingMode { size }, Reply::Flag(true)) => SaveDb::Ended(Ok(())),
            (SaveDb::CheckingMode { size }, Reply::Flag(false)) => SaveDb::Finding { size },
            (SaveDb::Finding { size }, Reply::Pid(_)) => SaveDb::ShuttingDown { size },
            (SaveDb::Finding { size }, Reply::Failed(_)) => SaveDb::Copying { size },
            (SaveDb::ShuttingDown { size }, Reply::Done) => SaveDb::Copying { size },
            (SaveDb::ShuttingDown { size }, Reply::Failed(e)) => SaveDb::Ended(Err(e)),
            (SaveDb::Copying { size }, Reply::Done) => SaveDb::Ended(Ok(())),
            (SaveDb::Copying { size }, Reply::Failed(e)) => SaveDb::Ended(Err(e)),
            (state, _) => state,
        }
    }

    open spec fn gives(&self, result: BenchmarkResult<()>) -> bool {
        *self == SaveDb::Ended(result)
    }

    proof fn goes_on(self, reply: Reply) {
    }

    fn action(&self) -> (action: Option<Action>) {
        match self {
            SaveDb::CheckingMode { size } => Some(Action::EnvIsSet("FALKOR_EXTERNAL".to_string())),
            SaveDb::Finding { size } => Some(Action::FindProcess("redis-server".to_string())),
            SaveDb::ShuttingDown { size } => Some(Action::ShutDownRedis),
            SaveDb::Copying { size } => Some(
                Action::CopyFile { from: REDIS_DUMP_FILE.to_string(), to: dump_path(*size) },
            ),
            SaveDb::Ended(_) => None,
        }
    }

    fn next(self, reply: Reply) -> (state: Self) {
        match (self, reply) {
            (SaveDb::CheckingMode { size }, Reply::Flag(true)) => SaveDb::Ended(Ok(())),
            (SaveDb::CheckingMode { size }, Reply::Flag(false)) => SaveDb::Finding { size },
            (SaveDb::Finding { size }, Reply::Pid(_)) => SaveDb::ShuttingDown { size },
            (SaveDb::Finding { size }, Reply::Failed(_)) => SaveDb::Copying { size },
            (SaveDb::ShuttingDown { size }, Reply::Done) => SaveDb::Copying { size },
            (SaveDb::ShuttingDown { size }, Reply::Failed(e)) => SaveDb::Ended(Err(e)),
            (SaveDb::Copying { size }, Reply::Done) => SaveDb::Ended(Ok(())),
            (SaveDb::Copying { size }, Reply::Failed(e)) => SaveDb::Ended(Err(e)),
            (state, _) => state,
        }
    }

    fn finish(self) -> (result: BenchmarkResult<()>) {
        match self {
            SaveDb::Ended(r) => r,
            _ => unreached(),
        }
    }
}

/// Puts a dump in place.
pub enum RestoreDb {
    CheckingMode { size: Size },
    Finding { size: Size },
    ShuttingDown { size: Size },
    Probing { size: Size },
    Copying { size: Size },
    Ended(BenchmarkResult<()>),
}

impl Flow for RestoreDb {
    type Output = ();

    open spec fn request(&self) -> Option<Request> {
        match self {
            RestoreDb::CheckingMode { size } => Some(Request::EnvIsSet("FALKOR_EXTERNAL"@)),
            RestoreDb::Finding { size } => Some(Request::FindProcess("redis-server"@)),
            RestoreDb::ShuttingDown { size } => Some(Request::ShutDownRedis),
            RestoreDb::Probing { size } => Some(Request::FileExists(dump_file(*size))),
            RestoreDb::Copying { size } => Some(
                Request::CopyFile { from: dump_file(*size), to: REDIS_DUMP_FILE@ },
            ),
            RestoreDb::Ended(_) => None,
        }
    }

    open spec fn after(self, reply: Reply) -> Self {
        match (self, reply) {
            (RestoreDb::CheckingMode { size }, Reply::Flag(true)) => RestoreDb::Ended(Ok(())),
            (RestoreDb::CheckingMode { size }, Reply::Flag(false)) => RestoreDb::Finding { size },
            (RestoreDb::Finding { size }, Reply::Pid(_)) => RestoreDb::ShuttingDown { size },
            (RestoreDb::Finding { size }, Reply::Failed(_)) => RestoreDb::Probing { size },
            (RestoreDb::ShuttingDown { size }, Reply::Done) => RestoreDb::Probing { size },
            (RestoreDb::ShuttingDown { size }, Reply::Failed(e)) => RestoreDb::Ended(Err(e)),
            (RestoreDb::Probing { size }, Reply::Flag(true)) => RestoreDb::Copying { size },
            (RestoreDb::Probing { size }, Reply::Flag(false)) => RestoreDb::Ended(Ok(())),
            (RestoreDb::Copying { size }, Reply::Done) => RestoreDb::Ended(Ok(())),
            (RestoreDb::Copying { size }, Reply::Failed(e)) => RestoreDb::Ended(Err(e)),
            (state, _) => state,
        }
    }

    open spec fn gives(&self, result: BenchmarkResult<()>) -> bool {
        *self == RestoreDb::Ended(result)
    }

    proof fn goes_on(self, reply: Reply) {
    }

    fn action(&self) -> (action: Option<Action>) {
        match self {
            RestoreDb::CheckingMode { size } => Some(
                Action::EnvIsSet("FALKOR_EXTERNAL".to_string()),
            ),
            RestoreDb::Finding { size } => Some(Action::FindProcess("redis-server".to_string())),
            RestoreDb::ShuttingDown { size } => Some(Action::ShutDownRedis),
            RestoreDb::Probing { size } => Some(Action::FileExists(dump_path(*size))),
            RestoreDb::Copying { size } => Some(
                Action::CopyFile { from: dump_path(*size), to: REDIS_DUMP_FILE.to_string() },
            ),
            RestoreDb::Ended(_) => None,
        }
    }

    fn next(self, reply: Reply) -> (state: Self) {
        match (self, reply) {
            (RestoreDb::CheckingMode { size }, Reply::Flag(true)) => RestoreDb::Ended(Ok(())),
            (RestoreDb::CheckingMode { size }, Reply::Flag(false)) => RestoreDb::Finding { size },
            (RestoreDb::Finding { size }, Reply::Pid(_)) => RestoreDb::ShuttingDown { size },
            (RestoreDb::Finding { size }, Reply::Failed(_)) => RestoreDb::Probing { size },
            (RestoreDb::ShuttingDown { size }, Reply::Done) => RestoreDb::Probing { size },
            (RestoreDb::ShuttingDown { size }, Reply::Failed(e)) => RestoreDb::Ended(Err(e)),
            (RestoreDb::Probing { size }, Reply::Flag(true)) => RestoreDb::Copying { size },
            (RestoreDb::Probing { size }, Reply::Flag(false)) => RestoreDb::Ended(Ok(())),
            (RestoreDb::Copying { size }, Reply::Done) => RestoreDb::Ended(Ok(())),
            (RestoreDb::Copying { size }, Reply::Failed(e)) => RestoreDb::Ended(Err(e)),
            (state, _) => state,
        }
    }

    fn finish(self) -> (result: BenchmarkResult<()>) {
        match self {
            RestoreDb::Ended(r) => r,
            _ => unreached(),
        }
    }
}

/// Looks for a dump.
pub enum DumpExists {
    CheckingMode { size: Size },
    Probing { size: Size },
    Missing { size: Size },
    Ended(BenchmarkResult<()>),
}

impl Flow for DumpExists {
    type Output = ();

    open spec fn request(&self) -> Option<Request> {
        match self {
            DumpExists::CheckingMode { size } => Some(Request::EnvIsSet("FALKOR_EXTERNAL"@)),
            DumpExists::Probing { size } => Some(Request::FileExists(dump_file(*size))),
            _ => None,
        }
    }

    open spec fn after(self, reply: Reply) -> Self {
        match (self, reply) {
            (DumpExists::CheckingMode { size }, Reply::Flag(true)) => DumpExists::Ended(Ok(())),
            (DumpExists::CheckingMode { size }, Reply::Flag(false)) => DumpExists::Probing { size },
            (DumpExists::Probing { size }, Reply::Flag(true)) => DumpExists::Ended(Ok(())),
            (DumpExists::Probing { size }, Reply::Flag(false)) => DumpExists::Missing { size },
            (state, _) => state,
        }
    }

    open spec fn gives(&self, result: BenchmarkResult<()>) -> bool {
        match self {
            DumpExists::Missing { size } => result matches Err(e) && e.is_other(
                "Dump file not found: "@ + dump_file(*size),
            ),
            DumpExists::Ended(r) => result == *r,
            _ => false,
        }
    }

    proof fn goes_on(self, reply: Reply) {
    }

    fn action(&self) -> (action: Option<Action>) {
        match self {
            DumpExists::CheckingMode { size } => Some(
                Action::EnvIsSet("FALKOR_EXTERNAL".to_string()),
            ),
            DumpExists::Probing { size } => Some(Action::FileExists(dump_path(*size))),
            _ => None,
        }
    }

    fn next(self, reply: Reply) -> (state: Self) {
        match (self, reply) {
            (DumpExists::CheckingMode { size }, Reply::Flag(true)) => DumpExists::Ended(Ok(())),
            (DumpExists::CheckingMode { size }, Reply::Flag(false)) => DumpExists::Probing { size },
            (DumpExists::Probing { size }, Reply::Flag(true)) => DumpExists::Ended(Ok(())),
            (DumpExists::Probing { size }, Reply::Flag(false)) => DumpExists::Missing { size },
            (state, _) => state,
        }
    }

    fn finish(self) -> (result: BenchmarkResult<()>) {
        match self {
            DumpExists::Missing { size } => {
                let path = dump_path(size);
                let said = "Dump file not found: ".to_string().concat(path.as_str());
                Err(other_error(said.as_str()))
            },
            DumpExists::Ended(r) => r,
            _ => unreached(),
        }
    }
}

/// With an external server the dumps are left alone: nothing is asked but whether the
/// server is external.
pub proof fn external_server_keeps_its_dumps(size: Size)
    ensures
        (SaveDb::CheckingMode { size }).after(Reply::Flag(true)) == SaveDb::Ended(Ok(())),
        (RestoreDb::CheckingMode { size }).after(Reply::Flag(true)) == RestoreDb::Ended(Ok(())),
        (DumpExists::CheckingMode { size }).after(Reply::Flag(true)) == DumpExists::Ended(Ok(())),
{
}

/// The data file is copied only once the server is down: it was not found, or it was shut
/// down.
pub proof fn data_is_copied_while_server_is_down(save: SaveDb, restore: RestoreDb, reply: Reply)
    requires
        !(save is Copying),
        !(restore is Probing),
    ensures
        save.after(reply) is Copying ==> (save is Finding && reply is Failed) || (save
            is ShuttingDown && reply is Done),
        restore.after(reply) is Probing ==> (restore is Finding && reply is Failed) || (restore
            is ShuttingDown && reply is Done),
        restore.after(reply) is Copying ==> restore is Copying,
{
}

// ---------------------------------------------------------------------------
// Size of the graph

/// Asks for the size of the graph.
pub enum FalkorGraphSize {
    Connecting,
    CountingNodes,
    CountingRelations { nodes: u64 },
    Counted { nodes: u64, relations: u64 },
    Unexpected,
    Failed(BenchmarkError),
}

impl Flow for FalkorGraphSize {
    type Output = (u64, u64);

    open spec fn request(&self) -> Option<Request> {
        match self {
            FalkorGraphSize::Connecting => Some(Request::ConnectFalkor),
            FalkorGraphSize::CountingNodes => Some(
                Request::FalkorRow {
                    query: "MATCH (n) RETURN count(n) as count"@,
                    timeout_ms: 5000,
                },
            ),
            FalkorGraphSize::CountingRelations { nodes } => Some(
                Request::FalkorRow {
                    query: "MATCH ()-->() RETURN count(*) AS relationshipCount"@,
                    timeout_ms: 5000,
                },
            ),
            _ => None,
        }
    }

    open spec fn after(self, reply: Reply) -> Self {
        match (self, reply) {
            (FalkorGraphSize::Connecting, Reply::Done) => FalkorGraphSize::CountingNodes,
            (FalkorGraphSize::CountingNodes, Reply::Row(row)) => match single_number(row) {
                Some(n) => FalkorGraphSize::CountingRelations { nodes: n as u64 },
                None => FalkorGraphSize::Unexpected,
            },
            (FalkorGraphSize::CountingRelations { nodes }, Reply::Row(row)) => match single_number(
                row,
            ) {
                Some(n) => FalkorGraphSize::Counted { nodes, relations: n as u64 },
                None => FalkorGraphSize::Unexpected,
            },
            (FalkorGraphSize::Connecting, Reply::Failed(e)) => FalkorGraphSize::Failed(e),
            (FalkorGraphSize::CountingNodes, Reply::Failed(e)) => FalkorGraphSize::Failed(e),
            (FalkorGraphSize::CountingRelations { nodes }, Reply::Failed(e)) =>
                FalkorGraphSize::Failed(e),
            (state, _) => state,
        }
    }

    open spec fn gives(&self, result: BenchmarkResult<(u64, u64)>) -> bool {
        match self {
            FalkorGraphSize::Counted { nodes, relations } => result == BenchmarkResult::<
                (u64, u64),
            >::Ok((*nodes, *relations)),
            FalkorGraphSize::Unexpected => result matches Err(e) && e.is_other(
                "Value not found or not of expected type"@,
            ),
            FalkorGraphSize::Failed(e) => result == BenchmarkResult::<(u64, u64)>::Err(*e),
            _ => false,
        }
    }

    proof fn goes_on(self, reply: Reply) {
    }

    fn action(&self) -> (action: Option<Action>) {
        match self {
            FalkorGraphSize::Connecting => Some(Action::ConnectFalkor),
            FalkorGraphSize::CountingNodes => Some(
                Action::FalkorRow {
                    query: "MATCH (n) RETURN count(n) as count".to_string(),
                    timeout_ms: 5000,
                },
            ),
            FalkorGraphSize::CountingRelations { nodes } => Some(
                Action::FalkorRow {
                    query: "MATCH ()-->() RETURN count(*) AS relationshipCount".to_string(),
                    timeout_ms: 5000,
                },
            ),
            _ => None,
        }
    }

    fn next(self, reply: Reply) -> (state: Self) {
        match (self, reply) {
            (FalkorGraphSize::Connecting, Reply::Done) => FalkorGraphSize::CountingNodes,
            (FalkorGraphSize::CountingNodes, Reply::Row(row)) => match number_in(&row) {
                Some(n) => FalkorGraphSize::CountingRelations { nodes: n as u64 },
                None => FalkorGraphSize::Unexpected,
            },
            (FalkorGraphSize::CountingRelations { nodes }, Reply::Row(row)) => match number_in(
                &row,
            ) {
                Some(n) => FalkorGraphSize::Counted { nodes, relations: n as u64 },
                None => FalkorGraphSize::Unexpected,
            },
            (FalkorGraphSize::Connecting, Reply::Failed(e)) => FalkorGraphSize::Failed(e),
            (FalkorGraphSize::CountingNodes, Reply::Failed(e)) => FalkorGraphSize::Failed(e),
            (FalkorGraphSize::CountingRelations { nodes }, Reply::Failed(e)) =>
                FalkorGraphSize::Failed(e),
            (state, _) => state,
        }
    }

    fn finish(self) -> (result: BenchmarkResult<(u64, u64)>) {
        match self {
            FalkorGraphSize::Counted { nodes, relations } => Ok((nodes, relations)),
            FalkorGraphSize::Unexpected => Err(
                other_error("Value not found or not of expected type"),
            ),
            FalkorGraphSize::Failed(e) => Err(e),
            _ => unreached(),
        }
    }
}

// ---------------------------------------------------------------------------
// Queries

/// What sends queries to FalkorDB.
pub struct FalkorBenchmarkClient;

impl FalkorBenchmarkClient {
    /// Executes the queries one after the other. Queries that someone else still holds
    /// are left alone.
    pub fn execute_queries(&self, spawn_id: usize, queries: Option<Vec<PreparedQuery>>) -> (flow:
        ExecuteQueries)
        ensures
            flow.target == Target::Falkor,
            flow.spawn_id@ == text::decimal(spawn_id as nat),
            flow.queries@ == match queries {
                Some(all) => all@,
                None => Seq::empty(),
            },
            flow.position == 0,
    {
        execution::execute_queries(Target::Falkor, spawn_id, queries)
    }

    /// Sends a prepared query when it is due, in `offset_ms` milliseconds. With
    /// `simulate`, a pause of that many milliseconds stands for the query.
    pub fn execute_prepared_query(
        &self,
        worker_id: &str,
        query: &PreparedQuery,
        offset_ms: i64,
        simulate: Option<usize>,
    ) -> (flow: SendPrepared)
        ensures
            flow.target == Target::Falkor,
            flow.worker_id@ == worker_id@,
            flow.q_name == query.q_name,
            flow.query == query.cypher,
            flow.read_only == (query.q_type == QueryType::Read),
            flow.offset_ms == offset_ms,
            flow.simulate == simulate,
            flow.stage == SendStage::Noting,
    {
        execution::send_prepared(Target::Falkor, worker_id, query, offset_ms, simulate)
    }

    /// Counts the query and sends it at once.
    pub fn _execute_query(&self, spawn_id: &str, query_name: &str, query: &str) -> (flow:
        ExecuteQuery)
        ensures
            flow.target == Target::Falkor,
            flow.spawn_id@ == spawn_id@,
            flow.query_name@ == query_name@,
            flow.query@ == query@,
            flow.stage == ExecuteStage::Counting,
    {
        execution::execute_query(Target::Falkor, spawn_id, query_name, query)
    }
}

} // verus!
