//! ibexdb as the benchmark sees it: started or stopped, with its saved databases and its
//! size.
use vstd::pervasive::unreached;
use vstd::prelude::*;
use vstd::string::*;
use crate::action::{Action, Reply, Request};
use crate::error::{other_error, BenchmarkError, BenchmarkResult};
use crate::execution;
use crate::execution::{ExecuteQueries, ExecuteQuery, ExecuteStage, SendPrepared, SendStage, Target};
use crate::flow;
use crate::flow::Flow;
use crate::ibex::ibex_process::{fetch_stats, FetchStats, IbexProcess, IBEX_DATA_DIR};
use crate::query::{PreparedQuery, QueryType};
use crate::scenario::Size;
use crate::text;

verus! {

/// The database that is in use.
pub const IBEX_DB_DIR: &'static str = "./ibex-data/db";

/// The server is running.
pub struct Started(pub IbexProcess);

/// The server is not running.
pub struct Stopped;

/// ibexdb in the state `U`.
pub struct Ibex<U> {
    pub database: String,
    pub state: U,
}

/// Where the database with a data set is kept.
pub open spec fn saved_db(size: Size) -> Seq<char> {
    IBEX_DATA_DIR@ + "/"@ + size.label() + "_db"@
}

/// Where the database with a data set is kept.
pub fn saved_db_path(size: Size) -> (s: String)
    ensures
        s@ == saved_db(size),
{
    let label = size.to_string();
    IBEX_DATA_DIR.to_string().concat("/").concat(label.as_str()).concat("_db")
}

/// Data sets of different sizes are kept apart, and none where the database in use is.
pub proof fn saved_dbs_are_distinct(a: Size, b: Size)
    ensures
        saved_db(a) == saved_db(b) ==> a == b,
        saved_db(a) != IBEX_DB_DIR@,
{
    reveal_strlit("./ibex-data");
    reveal_strlit("./ibex-data/db");
    reveal_strlit("/");
    reveal_strlit("_db");
    reveal_strlit("small");
    reveal_strlit("medium");
    reveal_strlit("large");
    assert(saved_db(a)[12] == a.label()[0]);
    assert(saved_db(b)[12] == b.label()[0]);
}

impl Default for Ibex<Stopped> {
    /// ibexdb with the database that is in use.
    fn default() -> (ibex: Self)
        ensures
            ibex.database@ == IBEX_DB_DIR@,
    {
        Ibex::new()
    }
}

impl Ibex<Stopped> {
    /// ibexdb with the database that is in use.
    pub fn new() -> (ibex: Ibex<Stopped>)
        ensures
            ibex.database@ == IBEX_DB_DIR@,
    {
        Ibex { database: IBEX_DB_DIR.to_string(), state: Stopped }
    }

    /// Starts the server and waits until it answers.
    pub fn start(self) -> (flow: StartIbex)
        ensures
            flow == (StartIbex { database: self.database, stage: StartStage::EnsuringData }),
    {
        StartIbex { database: self.database, stage: StartStage::EnsuringData }
    }

    /// Makes the database empty.
    pub fn clean_db(&self) -> (flow: CleanDb)
        ensures
            flow == (CleanDb { database: self.database, stage: CleanStage::Probing }),
    {
        CleanDb { database: self.database.clone(), stage: CleanStage::Probing }
    }

    /// Keeps a copy of the database for this size, in place of an earlier one.
    pub fn save_db(&self, size: Size) -> (flow: CopyDb)
        ensures
            flow.from@ == self.database@,
            flow.to@ == saved_db(size),
            !flow.optional,
            flow.stage == CopyStage::Probing,
    {
        CopyDb {
            from: self.database.clone(),
            to: saved_db_path(size),
            optional: false,
            stage: CopyStage::Probing,
        }
    }
}

impl Ibex<Started> {
    /// Ends the server.
    pub fn stop(self) -> (flow: StopIbex)
        ensures
            flow == (StopIbex::Ending { database: self.database, process: self.state.0 }),
    {
        StopIbex::Ending { database: self.database, process: self.state.0 }
    }

    /// How many nodes and edges the graph has.
    pub fn graph_size(&self, endpoint: &str) -> (flow: FetchStats)
        ensures
            flow matches FetchStats::Asking { url } && url@ == endpoint@ + "/api/stats"@,
    {
        fetch_stats(endpoint)
    }
}

impl<U> Ibex<U> {
    /// Waits until the server at `endpoint` answers.
    pub fn wait_for_ready(endpoint: &str) -> (flow: WaitForIbex)
        ensures
            flow.url@ == endpoint@ + "/api/stats"@,
            flow.attempt == WaitAttempt::Asking(1),
    {
        WaitForIbex {
            url: endpoint.to_string().concat("/api/stats"),
            attempt: WaitAttempt::Asking(1),
        }
    }

    /// Puts the copy of the database for this size in place, if there is one. The
    /// database in use is removed in either case.
    pub fn restore_db(&self, size: Size) -> (flow: CopyDb)
        ensures
            flow.from@ == saved_db(size),
            flow.to@ == self.database@,
            flow.optional,
            flow.stage == CopyStage::Probing,
    {
        CopyDb {
            from: saved_db_path(size),
            to: self.database.clone(),
            optional: true,
            stage: CopyStage::Probing,
        }
    }

    /// Fails where there is no copy of the database for this size.
    pub fn dump_exists_or_error(&self, size: Size) -> (flow: SavedDbExists)
        ensures
            flow == SavedDbExists::Probing(size),
    {
        SavedDbExists::Probing(size)
    }
}

// ---------------------------------------------------------------------------
// Starting and stopping

/// Where the start of ibexdb stands.
pub enum StartStage {
    EnsuringData,
    EnsuringDatabase,
    Launching,
    Waiting(IbexProcess),
    /// The server does not answer and is ended again.
    Ending(IbexProcess, BenchmarkError),
    Failed(BenchmarkError),
    Running(IbexProcess),
}

/// Starts ibexdb.
pub struct StartIbex {
    pub database: String,
    pub stage: StartStage,
}

impl StartIbex {
    /// The stage after a reply.
    pub open spec fn stage_after(&self, reply: Reply) -> StartStage {
        match (self.stage, reply) {
            (StartStage::EnsuringData, Reply::Done) => StartStage::EnsuringDatabase,
            (StartStage::EnsuringData, Reply::Failed(e)) => StartStage::Failed(e),
            (StartStage::EnsuringDatabase, Reply::Done) => StartStage::Launching,
            (StartStage::EnsuringDatabase, Reply::Failed(e)) => StartStage::Failed(e),
            (StartStage::Launching, Reply::Ibex(process)) => StartStage::Waiting(process),
            (StartStage::Launching, Reply::Failed(e)) => StartStage::Failed(e),
            (StartStage::Waiting(process), Reply::Done) => StartStage::Running(process),
            (StartStage::Waiting(process), Reply::Failed(e)) => StartStage::Ending(process, e),
            (StartStage::Ending(process, e), Reply::Done) => StartStage::Failed(e),
            (stage, _) => stage,
        }
    }
}

impl Flow for StartIbex {
    type Output = Ibex<Started>;

    open spec fn request(&self) -> Option<Request> {
        match self.stage {
            StartStage::EnsuringData => Some(Request::EnsureDirectory(IBEX_DATA_DIR@)),
            StartStage::EnsuringDatabase => Some(Request::EnsureDirectory(self.database@)),
            StartStage::Launching => Some(Request::StartIbexProcess(self.database@)),
            StartStage::Waiting(_) => Some(Request::WaitForIbex),
            StartStage::Ending(process, _) => Some(Request::EndIbexProcess(process)),
            StartStage::Failed(_) | StartStage::Running(_) => None,
        }
    }

    open spec fn after(self, reply: Reply) -> Self {
        StartIbex { stage: self.stage_after(reply), ..self }
    }

    open spec fn gives(&self, result: BenchmarkResult<Ibex<Started>>) -> bool {
        match self.stage {
            StartStage::Running(process) => result == BenchmarkResult::<Ibex<Started>>::Ok(
                Ibex { database: self.database, state: Started(process) },
            ),
            StartStage::Failed(e) => result == BenchmarkResult::<Ibex<Started>>::Err(e),
            _ => false,
        }
    }

    proof fn goes_on(self, reply: Reply) {
    }

    fn action(&self) -> (action: Option<Action>) {
        match &self.stage {
            StartStage::EnsuringData => Some(Action::EnsureDirectory(IBEX_DATA_DIR.to_string())),
            StartStage::EnsuringDatabase => Some(Action::EnsureDirectory(self.database.clone())),
            StartStage::Launching => Some(Action::StartIbexProcess(self.database.clone())),
            StartStage::Waiting(_) => Some(Action::WaitForIbex),
            StartStage::Ending(process, _) => Some(Action::EndIbexProcess(*process)),
            StartStage::Failed(_) | StartStage::Running(_) => None,
        }
    }

    fn next(self, reply: Reply) -> (state: Self) {
        let stage = match (self.stage, reply) {
            (StartStage::EnsuringData, Reply::Done) => StartStage::EnsuringDatabase,
            (StartStage::EnsuringData, Reply::Failed(e)) => StartStage::Failed(e),
            (StartStage::EnsuringDatabase, Reply::Done) => StartStage::Launching,
            (StartStage::EnsuringDatabase, Reply::Failed(e)) => StartStage::Failed(e),
            (StartStage::Launching, Reply::Ibex(process)) => StartStage::Waiting(process),
            (StartStage::Launching, Reply::Failed(e)) => StartStage::Failed(e),
            (StartStage::Waiting(process), Reply::Done) => StartStage::Running(process),
            (StartStage::Waiting(process), Reply::Failed(e)) => StartStage::Ending(process, e),
            (StartStage::Ending(process, e), Reply::Done) => StartStage::Failed(e),
            (stage, _) => stage,
        };
        StartIbex { stage, ..self }
    }

    fn finish(self) -> (result: BenchmarkResult<Ibex<Started>>) {
        match self.stage {
            StartStage::Running(process) => Ok(
                Ibex { database: self.database, state: Started(process) },
            ),
            StartStage::Failed(e) => Err(e),
            _ => unreached(),
        }
    }
}

/// Stops ibexdb.
pub enum StopIbex {
    Ending { database: String, process: IbexProcess },
    Ended { database: String },
}

impl Flow for StopIbex {
    type Output = Ibex<Stopped>;

    open spec fn request(&self) -> Option<Request> {
        match self {
            StopIbex::Ending { database, process } => Some(Request::EndIbexProcess(*process)),
            StopIbex::Ended { database } => None,
        }
    }

    open spec fn after(self, reply: Reply) -> Self {
        match (self, reply) {
            (StopIbex::Ending { database, process }, Reply::Done) => StopIbex::Ended { database },
            (state, _) => state,
        }
    }

    open spec fn gives(&self, result: BenchmarkResult<Ibex<Stopped>>) -> bool {
        match self {
            StopIbex::Ending { database, process } => false,
            StopIbex::Ended { database } => result == BenchmarkResult::<Ibex<Stopped>>::Ok(
                Ibex { database: *database, state: Stopped },
            ),
        }
    }

    proof fn goes_on(self, reply: Reply) {
    }

    fn action(&self) -> (action: Option<Action>) {
        match self {
            StopIbex::Ending { database, process } => Some(Action::EndIbexProcess(*process)),
            StopIbex::Ended { database } => None,
        }
    }

    fn next(self, reply: Reply) -> (state: Self) {
        match (self, reply) {
            (StopIbex::Ending { database, process }, Reply::Done) => StopIbex::Ended { database },
            (state, _) => state,
        }
    }

    fn finish(self) -> (result: BenchmarkResult<Ibex<Stopped>>) {
        match self {
            StopIbex::Ending { database, process } => unreached(),
            StopIbex::Ended { database } => Ok(Ibex { database, state: Stopped }),
        }
    }
}

/// A start that fails leaves no server behind, and a stop never does: the server process
/// is ended in between, unless it never came to be.
pub proof fn no_server_is_left_behind(start: StartIbex, stop: StopIbex, reply: Reply)
    requires
        start.request() is Some,
        stop.request() is Some,
    ensures
        start.after(reply).stage is Failed ==> !(start.stage is Waiting),
        start.stage is Waiting && reply is Failed ==> start.after(reply).request() == Some(
            Request::EndIbexProcess(start.stage->Waiting_0),
        ),
        stop.request() == Some(Request::EndIbexProcess(stop->process)),
        stop.after(reply) is Ended ==> reply is Done,
{
}

// ---------------------------------------------------------------------------
// Waiting for ibexdb

/// How often ibexdb is asked before the wait gives up.
pub const MAX_ATTEMPTS: u32 = 20;

/// Where a wait stands. The attempts are numbered from one.
#[derive(Debug, Clone, Copy, PartialEq, Eq, Structural)]
pub enum WaitAttempt {
    Asking(u32),
    SleepingBefore(u32),
    Ready,
    GaveUp,
}

/// Asks ibexdb for its size until it answers.
pub struct WaitForIbex {
    pub url: String,
    pub attempt: WaitAttempt,
}

impl WaitForIbex {
    /// The attempt after a reply.
    pub open spec fn attempt_after(&self, reply: Reply) -> WaitAttempt {
        match (self.attempt, reply) {
            (WaitAttempt::Asking(n), Reply::Counts { nodes, relations }) => WaitAttempt::Ready,
            (WaitAttempt::Asking(n), Reply::Failed(_)) => if n < MAX_ATTEMPTS {
                WaitAttempt::SleepingBefore((n + 1) as u32)
            } else {
                WaitAttempt::GaveUp
            },
            (WaitAttempt::SleepingBefore(n), Reply::Done) => WaitAttempt::Asking(n),
            (attempt, _) => attempt,
        }
    }

    /// The number of the attempt that is made or comes next is in range.
    pub open spec fn in_range(&self) -> bool {
        match self.attempt {
            WaitAttempt::Asking(n) => 1 <= n <= MAX_ATTEMPTS,
            WaitAttempt::SleepingBefore(n) => 2 <= n <= MAX_ATTEMPTS,
            WaitAttempt::Ready | WaitAttempt::GaveUp => true,
        }
    }
}

impl Flow for WaitForIbex {
    type Output = ();

    open spec fn request(&self) -> Option<Request> {
        match self.attempt {
            WaitAttempt::Asking(_) => Some(Request::FetchStats(self.url@)),
            WaitAttempt::SleepingBefore(_) => Some(Request::Sleep(500)),
            WaitAttempt::Ready | WaitAttempt::GaveUp => None,
        }
    }

    open spec fn after(self, reply: Reply) -> Self {
        WaitForIbex { attempt: self.attempt_after(reply), ..self }
    }

    open spec fn gives(&self, result: BenchmarkResult<()>) -> bool {
        match self.attempt {
            WaitAttempt::Ready => result == BenchmarkResult::<()>::Ok(()),
            WaitAttempt::GaveUp => result matches Err(e) && e.is_other(
                "ibexdb server not ready after "@ + text::decimal(MAX_ATTEMPTS as nat)
                    + " attempts"@,
            ),
            _ => false,
        }
    }

    proof fn goes_on(self, reply: Reply) {
    }

    fn action(&self) -> (action: Option<Action>) {
        match self.attempt {
            WaitAttempt::Asking(_) => Some(Action::FetchStats(self.url.clone())),
            WaitAttempt::SleepingBefore(_) => Some(Action::Sleep(500)),
            WaitAttempt::Ready | WaitAttempt::GaveUp => None,
        }
    }

    fn next(self, reply: Reply) -> (state: Self) {
        let attempt = match (self.attempt, reply) {
            (WaitAttempt::Asking(n), Reply::Counts { nodes, relations }) => WaitAttempt::Ready,
            (WaitAttempt::Asking(n), Reply::Failed(_)) => {
                if n < MAX_ATTEMPTS {
                    WaitAttempt::SleepingBefore(n + 1)
                } else {
                    WaitAttempt::GaveUp
                }
            },
            (WaitAttempt::SleepingBefore(n), Reply::Done) => WaitAttempt::Asking(n),
            (attempt, _) => attempt,
        };
        WaitForIbex { attempt, ..self }
    }

    fn finish(self) -> (result: BenchmarkResult<()>) {
        match self.attempt {
            WaitAttempt::Ready => Ok(()),
            WaitAttempt::GaveUp => {
                let digits = text::decimal_text(MAX_ATTEMPTS as u64);
                let said = "ibexdb server not ready after ".to_string().concat(
                    digits.as_str(),
                ).concat(" attempts");
                Err(other_error(said.as_str()))
            },
            _ => unreached(),
        }
    }
}

/// Whatever ibexdb answers, no more than [`MAX_ATTEMPTS`] attempts are made.
pub proof fn wait_is_bounded(wait: WaitForIbex, replies: Seq<Reply>)
    requires
        wait.in_range(),
    ensures
        flow::run(wait, replies).in_range(),
        flow::run(wait, replies).url == wait.url,
    decreases replies.len(),
{
    if replies.len() > 0 {
        wait_is_bounded(wait.after(replies[0]), replies.drop_first());
    }
}

/// Whether every attempt among the replies fails and every sleep ends.
pub open spec fn all_attempts_fail(replies: Seq<Reply>) -> bool {
    &&& forall|i: int| 0 <= i < replies.len() && i % 2 == 0 ==> #[trigger] replies[i] is Failed
    &&& forall|i: int| 0 <= i < replies.len() && i % 2 == 1 ==> #[trigger] replies[i] == Reply::Done
}

/// Where every attempt fails, the wait gives up after [`MAX_ATTEMPTS`] attempts with a
/// sleep between each two, and not before.
pub proof fn wait_gives_up(wait: WaitForIbex, n: u32, replies: Seq<Reply>)
    requires
        wait.attempt == WaitAttempt::Asking(n),
        1 <= n <= MAX_ATTEMPTS,
        all_attempts_fail(replies),
    ensures
        replies.len() == 2 * (MAX_ATTEMPTS - n) + 1 ==> flow::run(wait, replies).attempt
            == WaitAttempt::GaveUp,
        replies.len() <= 2 * (MAX_ATTEMPTS - n) ==> flow::run(wait, replies).request() == Some(
            if replies.len() % 2 == 0 {
                Request::FetchStats(wait.url@)
            } else {
                Request::Sleep(500)
            },
        ),
    decreases replies.len(),
{
    if replies.len() > 0 {
        let slept = wait.after(replies[0]);
        let rest = replies.drop_first();
        if n < MAX_ATTEMPTS && rest.len() > 0 {
            assert(rest[0] == replies[1]);
            let again = slept.after(rest[0]);
            let later = rest.drop_first();
            assert forall|i: int| 0 <= i < later.len() && i % 2 == 0 implies #[trigger] later[i]
                is Failed by {
                assert(later[i] == replies[i + 2]);
            }
            assert forall|i: int| 0 <= i < later.len() && i % 2 == 1 implies #[trigger] later[i]
                == Reply::Done by {
                assert(later[i] == replies[i + 2]);
            }
            wait_gives_up(again, (n + 1) as u32, later);
            assert(flow::run(wait, replies) == flow::run(again, later));
        } else {
            assert(flow::run(slept, rest) == if rest.len() == 0 {
                slept
            } else {
                flow::run(slept.after(rest[0]), rest.drop_first())
            });
        }
    }
}

// ---------------------------------------------------------------------------
// Databases on disk

/// The arguments that remove a directory with what is in it.
pub open spec fn removal(path: Seq<char>) -> Request {
    Request::SpawnCommand { command: "rm"@, args: seq!["-rf"@, path] }
}

/// The arguments that copy a directory with what is in it.
pub open spec fn copying(from: Seq<char>, to: Seq<char>) -> Request {
    Request::SpawnCommand { command: "cp"@, args: seq!["-r"@, from, to] }
}

fn removal_action(path: &String) -> (action: Action)
    ensures
        action@ == removal(path@),
{
    let args = vec!["-rf".to_string(), path.clone()];
    proof {
        assert(text::texts(args@) =~= seq!["-rf"@, path@]);
    }
    Action::SpawnCommand { command: "rm".to_string(), args }
}

fn copying_action(from: &String, to: &String) -> (action: Action)
    ensures
        action@ == copying(from@, to@),
{
    let args = vec!["-r".to_string(), from.clone(), to.clone()];
    proof {
        assert(text::texts(args@) =~= seq!["-r"@, from@, to@]);
    }
    Action::SpawnCommand { command: "cp".to_string(), args }
}

/// Where the emptying of a database stands.
pub enum CleanStage {
    Probing,
    Removing,
    Creating,
    Ended(BenchmarkResult<()>),
}

/// Makes a database empty: removes it if it is there, and creates it anew.
pub struct CleanDb {
    pub database: String,
    pub stage: CleanStage,
}

impl CleanDb {
    /// The stage after a reply.
    pub open spec fn stage_after(&self, reply: Reply) -> CleanStage {
        match (self.stage, reply) {
            (CleanStage::Probing, Reply::Flag(true)) => CleanStage::Removing,
            (CleanStage::Probing, Reply::Flag(false)) => CleanStage::Creating,
            (CleanStage::Removing, Reply::Process(_)) => CleanStage::Creating,
            (CleanStage::Removing, Reply::Failed(e)) => CleanStage::Ended(Err(e)),
            (CleanStage::Creating, Reply::Done) => CleanStage::Ended(Ok(())),
            (CleanStage::Creating, Reply::Failed(e)) => CleanStage::Ended(Err(e)),
            (stage, _) => stage,
        }
    }
}

impl Flow for CleanDb {
    type Output = ();

    open spec fn request(&self) -> Option<Request> {
        match self.stage {
            CleanStage::Probing => Some(Request::FileExists(self.database@)),
            CleanStage::Removing => Some(removal(self.database@)),
            CleanStage::Creating => Some(Request::EnsureDirectory(self.database@)),
            CleanStage::Ended(_) => None,
        }
    }

    open spec fn after(self, reply: Reply) -> Self {
        CleanDb { stage: self.stage_after(reply), ..self }
    }

    open spec fn gives(&self, result: BenchmarkResult<()>) -> bool {
        self.stage == CleanStage::Ended(result)
    }

    proof fn goes_on(self, reply: Reply) {
    }

    fn action(&self) -> (action: Option<Action>) {
        match &self.stage {
            CleanStage::Probing => Some(Action::FileExists(self.database.clone())),
            CleanStage::Removing => Some(removal_action(&self.database)),
            CleanStage::Creating => Some(Action::EnsureDirectory(self.database.clone())),
            CleanStage::Ended(_) => None,
        }
    }

    fn next(self, reply: Reply) -> (state: Self) {
        let stage = match (self.stage, reply) {
            (CleanStage::Probing, Reply::Flag(true)) => CleanStage::Removing,
            (CleanStage::Probing, Reply::Flag(false)) => CleanStage::Creating,
            (CleanStage::Removing, Reply::Process(_)) => CleanStage::Creating,
            (CleanStage::Removing, Reply::Failed(e)) => CleanStage::Ended(Err(e)),
            (CleanStage::Creating, Reply::Done) => CleanStage::Ended(Ok(())),
            (CleanStage::Creating, Reply::Failed(e)) => CleanStage::Ended(Err(e)),
            (stage, _) => stage,
        };
        CleanDb { stage, ..self }
    }

    fn finish(self) -> (result: BenchmarkResult<()>) {
        match self.stage {
            CleanStage::Ended(r) => r,
            _ => unreached(),
        }
    }
}

/// Where the copying of a database stands.
pub enum CopyStage {
    Probing,
    Removing,
    ProbingSource,
    Copying,
    Ended(BenchmarkResult<()>),
}

/// Copies a database to a place where an earlier one is removed first. A copy that is
/// optional is left out where there is nothing to copy.
pub struct CopyDb {
    pub from: String,
    pub to: String,
    pub optional: bool,
    pub stage: CopyStage,
}

impl CopyDb {
    /// The stage once nothing stands in the way of the copy.
    pub open spec fn cleared(&self) -> CopyStage {
        if self.optional {
            CopyStage::ProbingSource
        } else {
            CopyStage::Copying
        }
    }

    /// The stage after a reply.
    pub open spec fn stage_after(&self, reply: Reply) -> CopyStage {
        match (self.stage, reply) {
            (CopyStage::Probing, Reply::Flag(true)) => CopyStage::Removing,
            (CopyStage::Probing, Reply::Flag(false)) => self.cleared(),
            (CopyStage::Removing, Reply::Process(_)) => self.cleared(),
            (CopyStage::Removing, Reply::Failed(e)) => CopyStage::Ended(Err(e)),
            (CopyStage::ProbingSource, Reply::Flag(true)) => CopyStage::Copying,
            (CopyStage::ProbingSource, Reply::Flag(false)) => CopyStage::Ended(Ok(())),
            (CopyStage::Copying, Reply::Process(_)) => CopyStage::Ended(Ok(())),
            (CopyStage::Copying, Reply::Failed(e)) => CopyStage::Ended(Err(e)),
            (stage, _) => stage,
        }
    }
}

impl Flow for CopyDb {
    type Output = ();

    open spec fn request(&self) -> Option<Request> {
        match self.stage {
            CopyStage::Probing => Some(Request::FileExists(self.to@)),
            CopyStage::Removing => Some(removal(self.to@)),
            CopyStage::ProbingSource => Some(Request::FileExists(self.from@)),
            CopyStage::Copying => Some(copying(self.from@, self.to@)),
            CopyStage::Ended(_) => None,
        }
    }

    open spec fn after(self, reply: Reply) -> Self {
        CopyDb { stage: self.stage_after(reply), ..self }
    }

    open spec fn gives(&self, result: BenchmarkResult<()>) -> bool {
        self.stage == CopyStage::Ended(result)
    }

    proof fn goes_on(self, reply: Reply) {
    }

    fn action(&self) -> (action: Option<Action>) {
        match &self.stage {
            CopyStage::Probing => Some(Action::FileExists(self.to.clone())),
            CopyStage::Removing => Some(removal_action(&self.to)),
            CopyStage::ProbingSource => Some(Action::FileExists(self.from.clone())),
            CopyStage::Copying => Some(copying_action(&self.from, &self.to)),
            CopyStage::Ended(_) => None,
        }
    }

    fn next(self, reply: Reply) -> (state: Self) {
        let cleared = if self.optional {
            CopyStage::ProbingSource
        } else {
            CopyStage::Copying
        };
        let stage = match (self.stage, reply) {
            (CopyStage::Probing, Reply::Flag(true)) => CopyStage::Removing,
            (CopyStage::Probing, Reply::Flag(false)) => cleared,
            (CopyStage::Removing, Reply::Process(_)) => cleared,
            (CopyStage::Removing, Reply::Failed(e)) => CopyStage::Ended(Err(e)),
            (CopyStage::ProbingSource, Reply::Flag(true)) => CopyStage::Copying,
            (CopyStage::ProbingSource, Reply::Flag(false)) => CopyStage::Ended(Ok(())),
            (CopyStage::Copying, Reply::Process(_)) => CopyStage::Ended(Ok(())),
            (CopyStage::Copying, Reply::Failed(e)) => CopyStage::Ended(Err(e)),
            (stage, _) => stage,
        };
        CopyDb { stage, ..self }
    }

    fn finish(self) -> (result: BenchmarkResult<()>) {
        match self.stage {
            CopyStage::Ended(r) => r,
            _ => unreached(),
        }
    }
}

/// A copy goes to a place that is clear: nothing was there, or it was removed.
pub proof fn copies_go_to_a_clear_place(flow: CopyDb, reply: Reply)
    requires
        flow.stage is Probing || flow.stage is Removing,
        flow.after(reply).stage is Copying || flow.after(reply).stage is ProbingSource,
    ensures
        (flow.request() == Some(Request::FileExists(flow.to@)) && reply == Reply::Flag(false)) || (
        flow.request() == Some(removal(flow.to@)) && reply is Process),
{
}

/// Looks for a saved database.
pub enum SavedDbExists {
    Probing(Size),
    Found,
    Missing(Size),
}

impl Flow for SavedDbExists {
    type Output = ();

    open spec fn request(&self) -> Option<Request> {
        match self {
            SavedDbExists::Probing(size) => Some(Request::FileExists(saved_db(*size))),
            _ => None,
        }
    }

    open spec fn after(self, reply: Reply) -> Self {
        match (self, reply) {
            (SavedDbExists::Probing(size), Reply::Flag(true)) => SavedDbExists::Found,
            (SavedDbExists::Probing(size), Reply::Flag(false)) => SavedDbExists::Missing(size),
            (state, _) => state,
        }
    }

    open spec fn gives(&self, result: BenchmarkResult<()>) -> bool {
        match self {
            SavedDbExists::Probing(size) => false,
            SavedDbExists::Found => result == BenchmarkResult::<()>::Ok(()),
            SavedDbExists::Missing(size) => result matches Err(e) && e.is_other(
                "Dump directory not found: "@ + saved_db(*size),
            ),
        }
    }

    proof fn goes_on(self, reply: Reply) {
    }

    fn action(&self) -> (action: Option<Action>) {
        match self {
            SavedDbExists::Probing(size) => Some(Action::FileExists(saved_db_path(*size))),
            _ => None,
        }
    }

    fn next(self, reply: Reply) -> (state: Self) {
        match (self, reply) {
            (SavedDbExists::Probing(size), Reply::Flag(true)) => SavedDbExists::Found,
            (SavedDbExists::Probing(size), Reply::Flag(false)) => SavedDbExists::Missing(size),
            (state, _) => state,
        }
    }

    fn finish(self) -> (result: BenchmarkResult<()>) {
        match self {
            SavedDbExists::Probing(size) => unreached(),
            SavedDbExists::Found => Ok(()),
            SavedDbExists::Missing(size) => {
                let path = saved_db_path(size);
                let said = "Dump directory not found: ".to_string().concat(path.as_str());
                Err(other_error(said.as_str()))
            },
        }
    }
}

// ---------------------------------------------------------------------------
// Queries

/// What sends queries to ibexdb.
pub struct IbexBenchmarkClient;

impl IbexBenchmarkClient {
    /// Executes the queries one after the other. Queries that someone else still holds
    /// are left alone.
    pub fn execute_queries(&self, spawn_id: usize, queries: Option<Vec<PreparedQuery>>) -> (flow:
        ExecuteQueries)
        ensures
            flow.target == Target::Ibex,
            flow.spawn_id@ == text::decimal(spawn_id as nat),
            flow.queries@ == match queries {
                Some(all) => all@,
                None => Seq::empty(),
            },
            flow.position == 0,
    {
        execution::execute_queries(Target::Ibex, spawn_id, queries)
    }

    /// Sends a prepared query when it is due, in `offset_ms` milliseconds. With
    /// `simulate`, a pause of that many milliseconds stands for the query.
    pub fn execute_prepared_query(
        &self,
        worker_id: &str,
        query: &PreparedQuery,
        offset_ms: i64,
        simulate: Option<usize>,
    ) -> (flow: SendPrepared)
        ensures
            flow.target == Target::Ibex,
            flow.worker_id@ == worker_id@,
            flow.q_name == query.q_name,
            flow.query == query.cypher,
            flow.read_only == (query.q_type == QueryType::Read),
            flow.offset_ms == offset_ms,
            flow.simulate == simulate,
            flow.stage == SendStage::Noting,
    {
        execution::send_prepared(Target::Ibex, worker_id, query, offset_ms, simulate)
    }

    /// Counts the query and sends it at once.
    pub fn _execute_query(&self, spawn_id: &str, query_name: &str, query: &str) -> (flow:
        ExecuteQuery)
        ensures
            flow.target == Target::Ibex,
            flow.spawn_id@ == spawn_id@,
            flow.query_name@ == query_name@,
            flow.query@ == query@,
            flow.stage == ExecuteStage::Counting,
    {
        execution::execute_query(Target::Ibex, spawn_id, query_name, query)
    }
}

} // verus!
