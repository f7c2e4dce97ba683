//! The server process of FalkorDB and the tasks that belong to it.
use vstd::pervasive::unreached;
use vstd::prelude::*;
use vstd::string::*;
use crate::action::{Action, Reply, Request, Task};
use crate::error::{other_error, BenchmarkResult};
use crate::execution::Target;
use crate::flow;
use crate::flow::Flow;
use crate::text;

verus! {

/// Where the data of Redis is kept.
pub const REDIS_DATA_DIR: &'static str = "./redis-data";

/// Which parts of the FalkorDB server are running.
#[derive(Debug, Clone, Copy, PartialEq, Eq, Structural)]
pub struct FalkorProcess {
    pub monitor: bool,
    pub reporter: bool,
    pub ping_server: bool,
    pub dropped: bool,
}

impl FalkorProcess {
    /// Whether no part is running.
    pub open spec fn is_idle(&self) -> bool {
        !self.monitor && !self.reporter && !self.ping_server
    }

    /// Starts the server with the tasks that belong to it. Where `FALKOR_EXTERNAL` is set
    /// the server runs elsewhere, and only the tasks are started.
    pub fn new(settings: FalkorSettings) -> (flow: LaunchFalkor)
        ensures
            flow == (LaunchFalkor { settings, stage: LaunchStage::CheckingMode }),
    {
        LaunchFalkor { settings, stage: LaunchStage::CheckingMode }
    }

    /// Stops the parts that are running, one after the other.
    pub fn terminate(self) -> (flow: TerminateFalkor)
        ensures
            flow == (TerminateFalkor { process: self }),
    {
        TerminateFalkor { process: self }
    }

    /// Takes every part away from a process that goes out of use, and says how they are
    /// stopped. Of a process that was taken apart before, nothing is left to stop.
    pub fn drop(&mut self) -> (flow: Option<TerminateFalkor>)
        ensures
            old(self).dropped ==> flow is None && *final(self) == *old(self),
            !old(self).dropped ==> flow == Some(
                TerminateFalkor { process: FalkorProcess { dropped: true, ..*old(self) } },
            ) && final(self).is_idle() && !final(self).dropped,
    {
        if self.dropped {
            None
        } else {
            let process = FalkorProcess {
                monitor: self.monitor,
                reporter: self.reporter,
                ping_server: self.ping_server,
                dropped: true,
            };
            self.monitor = false;
            self.reporter = false;
            self.ping_server = false;
            Some(process.terminate())
        }
    }
}

// ---------------------------------------------------------------------------
// Starting

/// What the environment says of the server: the current directory, if it is known, and
/// the values of `FALKOR_LOG_PATH` and `FALKOR_PATH`.
pub struct FalkorSettings {
    pub current_dir: Option<String>,
    pub log_path: Option<String>,
    pub falkor_path: Option<String>,
}

/// `chosen`, or the file in the directory where nothing was chosen.
pub open spec fn chosen_or_in(chosen: Option<String>, dir: Seq<char>, file: Seq<char>) -> Seq<char> {
    match chosen {
        Some(path) => path@,
        None => dir + file,
    }
}

fn choose_or_in(chosen: &Option<String>, dir: &str, file: &str) -> (s: String)
    ensures
        s@ == chosen_or_in(*chosen, dir@, file@),
{
    match chosen {
        Some(path) => path.clone(),
        None => dir.to_string().concat(file),
    }
}

impl FalkorSettings {
    /// Where the server logs.
    pub open spec fn log_file(&self) -> Seq<char> {
        chosen_or_in(self.log_path, self.current_dir->0@, "/falkordb.log"@)
    }

    /// Where the shared library of FalkorDB is.
    pub open spec fn shared_lib(&self) -> Seq<char> {
        chosen_or_in(self.falkor_path, self.current_dir->0@, "/falkordb.so"@)
    }

    /// The arguments of the server.
    pub open spec fn server_args(&self) -> Seq<Seq<char>> {
        seq![
            "--dir"@,
            REDIS_DATA_DIR@,
            "--logfile"@,
            self.log_file(),
            "--protected-mode"@,
            "no"@,
            "--loadmodule"@,
            self.shared_lib(),
            "CACHE_SIZE"@,
            "40"@,
            "MAX_QUEUED_QUERIES"@,
            "400"@,
        ]
    }

    fn log_file_text(&self) -> (s: String)
        requires
            self.current_dir is Some,
        ensures
            s@ == self.log_file(),
    {
        match &self.current_dir {
            Some(dir) => choose_or_in(&self.log_path, dir.as_str(), "/falkordb.log"),
            None => unreached(),
        }
    }

    fn server_args_text(&self) -> (args: Vec<String>)
        requires
            self.current_dir is Some,
        ensures
            text::texts(args@) == self.server_args(),
    {
        let log_file = self.log_file_text();
        let shared_lib = match &self.current_dir {
            Some(dir) => choose_or_in(&self.falkor_path, dir.as_str(), "/falkordb.so"),
            None => unreached(),
        };
        let args = vec![
            "--dir".to_string(),
            REDIS_DATA_DIR.to_string(),
            "--logfile".to_string(),
            log_file,
            "--protected-mode".to_string(),
            "no".to_string(),
            "--loadmodule".to_string(),
            shared_lib,
            "CACHE_SIZE".to_string(),
            "40".to_string(),
            "MAX_QUEUED_QUERIES".to_string(),
            "400".to_string(),
        ];
        proof {
            assert(text::texts(args@) =~= self.server_args());
        }
        args
    }
}

/// Where the start of the server stands.
pub enum LaunchStage {
    CheckingMode,
    ShuttingDown,
    EnsuringDirectory,
    DeletingLog,
    StartingMonitor,
    StartingReporter { monitor: bool },
    StartingPingServer { monitor: bool },
    /// The current directory is not known.
    Lost,
    Ended(BenchmarkResult<FalkorProcess>),
}

/// Starts the server with the tasks that belong to it.
pub struct LaunchFalkor {
    pub settings: FalkorSettings,
    pub stage: LaunchStage,
}

impl LaunchFalkor {
    /// The stage after a reply.
    pub open spec fn stage_after(&self, reply: Reply) -> LaunchStage {
        match (self.stage, reply) {
            (LaunchStage::CheckingMode, Reply::Flag(true)) => LaunchStage::StartingReporter {
                monitor: false,
            },
            (LaunchStage::CheckingMode, Reply::Flag(false)) => LaunchStage::ShuttingDown,
            (LaunchStage::ShuttingDown, Reply::Done) => LaunchStage::EnsuringDirectory,
            (LaunchStage::ShuttingDown, Reply::Failed(e)) => LaunchStage::Ended(Err(e)),
            (LaunchStage::EnsuringDirectory, Reply::Done) => if self.settings.current_dir is Some {
                LaunchStage::DeletingLog
            } else {
                LaunchStage::Lost
            },
            (LaunchStage::EnsuringDirectory, Reply::Failed(e)) => LaunchStage::Ended(Err(e)),
            (LaunchStage::DeletingLog, Reply::Done) => LaunchStage::StartingMonitor,
            (LaunchStage::DeletingLog, Reply::Failed(e)) => LaunchStage::Ended(Err(e)),
            (LaunchStage::StartingMonitor, Reply::Done) => LaunchStage::StartingReporter {
                monitor: true,
            },
            (LaunchStage::StartingReporter { monitor }, Reply::Done) =>
                LaunchStage::StartingPingServer { monitor },
            (LaunchStage::StartingPingServer { monitor }, Reply::Done) => LaunchStage::Ended(
                Ok(FalkorProcess { monitor, reporter: true, ping_server: true, dropped: false }),
            ),
            (stage, _) => stage,
        }
    }
}

impl Flow for LaunchFalkor {
    type Output = FalkorProcess;

    open spec fn request(&self) -> Option<Request> {
        match self.stage {
            LaunchStage::CheckingMode => Some(Request::EnvIsSet("FALKOR_EXTERNAL"@)),
            LaunchStage::ShuttingDown => Some(Request::ShutDownRedis),
            LaunchStage::EnsuringDirectory => Some(Request::EnsureDirectory(REDIS_DATA_DIR@)),
            LaunchStage::DeletingLog => if self.settings.current_dir is Some {
                Some(Request::DeleteFile(self.settings.log_file()))
            } else {
                None
            },
            LaunchStage::StartingMonitor => if self.settings.current_dir is Some {
                Some(
                    Request::StartMonitor {
                        target: Target::Falkor,
                        command: "redis-server"@,
                        args: self.settings.server_args(),
                        restart_delay_secs: 5,
                    },
                )
            } else {
                None
            },
            LaunchStage::StartingReporter { monitor } => Some(
                Request::StartMetricsReporter(Target::Falkor),
            ),
            LaunchStage::StartingPingServer { monitor } => Some(Request::StartPingServer),
            LaunchStage::Lost | LaunchStage::Ended(_) => None,
        }
    }

    open spec fn after(self, reply: Reply) -> Self {
        LaunchFalkor { stage: self.stage_after(reply), ..self }
    }

    open spec fn gives(&self, result: BenchmarkResult<FalkorProcess>) -> bool {
        match self.stage {
            LaunchStage::Ended(r) => result == r,
            _ => result matches Err(e) && e.is_other("Failed to get current directory"@),
        }
    }

    proof fn goes_on(self, reply: Reply) {
    }

    fn action(&self) -> (action: Option<Action>) {
        match &self.stage {
            LaunchStage::CheckingMode => Some(Action::EnvIsSet("FALKOR_EXTERNAL".to_string())),
            LaunchStage::ShuttingDown => Some(Action::ShutDownRedis),
            LaunchStage::EnsuringDirectory => Some(
                Action::EnsureDirectory(REDIS_DATA_DIR.to_string()),
            ),
            LaunchStage::DeletingLog => {
                if self.settings.current_dir.is_some() {
                    Some(Action::DeleteFile(self.settings.log_file_text()))
                } else {
                    None
                }
            },
            LaunchStage::StartingMonitor => {
                if self.settings.current_dir.is_some() {
                    Some(
                        Action::StartMonitor {
                            target: Target::Falkor,
                            command: "redis-server".to_string(),
                            args: self.settings.server_args_text(),
                            restart_delay_secs: 5,
                        },
                    )
                } else {
                    None
                }
            },
            LaunchStage::StartingReporter { monitor } => Some(
                Action::StartMetricsReporter(Target::Falkor),
            ),
            LaunchStage::StartingPingServer { monitor } => Some(Action::StartPingServer),
            LaunchStage::Lost | LaunchStage::Ended(_) => None,
        }
    }

    fn next(self, reply: Reply) -> (state: Self) {
        let stage = match (self.stage, reply) {
            (LaunchStage::CheckingMode, Reply::Flag(true)) => LaunchStage::StartingReporter {
                monitor: false,
            },
            (LaunchStage::CheckingMode, Reply::Flag(false)) => LaunchStage::ShuttingDown,
            (LaunchStage::ShuttingDown, Reply::Done) => LaunchStage::EnsuringDirectory,
            (LaunchStage::ShuttingDown, Reply::Failed(e)) => LaunchStage::Ended(Err(e)),
            (LaunchStage::EnsuringDirectory, Reply::Done) => {
                if self.settings.current_dir.is_some() {
                    LaunchStage::DeletingLog
                } else {
                    LaunchStage::Lost
                }
            },
            (LaunchStage::EnsuringDirectory, Reply::Failed(e)) => LaunchStage::Ended(Err(e)),
            (LaunchStage::DeletingLog, Reply::Done) => LaunchStage::StartingMonitor,
            (LaunchStage::DeletingLog, Reply::Failed(e)) => LaunchStage::Ended(Err(e)),
            (LaunchStage::StartingMonitor, Reply::Done) => LaunchStage::StartingReporter {
                monitor: true,
            },
            (LaunchStage::StartingReporter { monitor }, Reply::Done) =>
                LaunchStage::StartingPingServer { monitor },
            (LaunchStage::StartingPingServer { monitor }, Reply::Done) => LaunchStage::Ended(
                Ok(FalkorProcess { monitor, reporter: true, ping_server: true, dropped: false }),
            ),
            (stage, _) => stage,
        };
        LaunchFalkor { stage, ..self }
    }

    fn finish(self) -> (result: BenchmarkResult<FalkorProcess>) {
        match self.stage {
            LaunchStage::Ended(r) => r,
            _ => Err(other_error("Failed to get current directory")),
        }
    }
}

/// With an external server nothing is asked of the machine but the two tasks: no server
/// is shut down or started, and no file is touched.
pub proof fn external_server_gets_tasks_only(settings: FalkorSettings)
    ensures
        ({
            let flow = LaunchFalkor { settings, stage: LaunchStage::CheckingMode };
            let replies = seq![Reply::Flag(true), Reply::Done, Reply::Done];
            &&& flow::requests(flow, replies) == seq![
                Some(Request::EnvIsSet("FALKOR_EXTERNAL"@)),
                Some(Request::StartMetricsReporter(Target::Falkor)),
                Some(Request::StartPingServer),
                None,
            ]
            &&& flow::run(flow, replies).gives(
                Ok(
                    FalkorProcess {
                        monitor: false,
                        reporter: true,
                        ping_server: true,
                        dropped: false,
                    },
                ),
            )
        }),
{
    broadcast use flow::group_flow;

}

/// The server is started only after an earlier one was shut down, its data directory was
/// made sure of and its log was deleted.
pub proof fn launch_order(flow: LaunchFalkor, reply: Reply)
    ensures
        flow.after(reply).stage is StartingMonitor && !(flow.stage is StartingMonitor) ==> flow.stage
            is DeletingLog && reply is Done,
        flow.after(reply).stage is DeletingLog && !(flow.stage is DeletingLog) ==> flow.stage
            is EnsuringDirectory && reply is Done,
        flow.after(reply).stage is EnsuringDirectory && !(flow.stage is EnsuringDirectory)
            ==> flow.stage is ShuttingDown && reply is Done,
        flow.after(reply).stage is ShuttingDown && !(flow.stage is ShuttingDown) ==> flow.stage
            is CheckingMode && reply == Reply::Flag(false),
{
}

// ---------------------------------------------------------------------------
// Stopping

/// Stops the parts of a server process that are running.
#[derive(Debug, Clone, Copy, PartialEq, Eq, Structural)]
pub struct TerminateFalkor {
    pub process: FalkorProcess,
}

impl Flow for TerminateFalkor {
    type Output = ();

    open spec fn request(&self) -> Option<Request> {
        if self.process.ping_server {
            Some(Request::StopTask(Task::PingServer))
        } else if self.process.reporter {
            Some(Request::StopTask(Task::MetricsReporter))
        } else if self.process.monitor {
            Some(Request::StopTask(Task::Monitor))
        } else {
            None
        }
    }

    open spec fn after(self, reply: Reply) -> Self {
        if reply is Done || reply is Failed {
            if self.process.ping_server {
                TerminateFalkor { process: FalkorProcess { ping_server: false, ..self.process } }
            } else if self.process.reporter {
                TerminateFalkor { process: FalkorProcess { reporter: false, ..self.process } }
            } else {
                TerminateFalkor { process: FalkorProcess { monitor: false, ..self.process } }
            }
        } else {
            self
        }
    }

    open spec fn gives(&self, result: BenchmarkResult<()>) -> bool {
        result == BenchmarkResult::<()>::Ok(())
    }

    proof fn goes_on(self, reply: Reply) {
    }

    fn action(&self) -> (action: Option<Action>) {
        if self.process.ping_server {
            Some(Action::StopTask(Task::PingServer))
        } else if self.process.reporter {
            Some(Action::StopTask(Task::MetricsReporter))
        } else if self.process.monitor {
            Some(Action::StopTask(Task::Monitor))
        } else {
            None
        }
    }

    fn next(self, reply: Reply) -> (state: Self) {
        match reply {
            Reply::Done | Reply::Failed(_) => {
                if self.process.ping_server {
                    TerminateFalkor {
                        process: FalkorProcess { ping_server: false, ..self.process },
                    }
                } else if self.process.reporter {
                    TerminateFalkor { process: FalkorProcess { reporter: false, ..self.process } }
                } else {
                    TerminateFalkor { process: FalkorProcess { monitor: false, ..self.process } }
                }
            },
            _ => self,
        }
    }

    fn finish(self) -> (result: BenchmarkResult<()>) {
        Ok(())
    }
}

/// After three answers nothing is running, whatever was running before and whatever the
/// answers say.
pub proof fn nothing_is_left_running(flow: TerminateFalkor, replies: Seq<Reply>)
    requires
        replies.len() == 3,
        forall|i: int| 0 <= i < 3 ==> #[trigger] replies[i] is Done || replies[i] is Failed,
    ensures
        flow::run(flow, replies).request() is None,
        flow::run(flow, replies).process.is_idle(),
{
    reveal_with_fuel(flow::run, 4);
    assert(replies[0] is Done || replies[0] is Failed);
    assert(replies[1] is Done || replies[1] is Failed);
    assert(replies[2] is Done || replies[2] is Failed);
    let r1 = replies.drop_first();
    let r2 = r1.drop_first();
    assert(r1[0] == replies[1]);
    assert(r2[0] == replies[2]);
}

/// The server itself is stopped last: not before the tasks that talk to it.
pub proof fn server_is_stopped_last(flow: TerminateFalkor)
    ensures
        flow.request() == Some(Request::StopTask(Task::Monitor)) ==> !flow.process.ping_server
            && !flow.process.reporter,
{
}

// ---------------------------------------------------------------------------
// Pinging

/// Pings the server every five seconds until it is told to stop.
#[derive(Debug, Clone, Copy, PartialEq, Eq, Structural)]
pub enum PingServer {
    Sleeping,
    Pinging,
    Ended,
}

/// Pings the server every five seconds until it is told to stop.
pub fn ping_server() -> (flow: PingServer)
    ensures
        flow == PingServer::Sleeping,
{
    PingServer::Sleeping
}

impl Flow for PingServer {
    type Output = ();

    open spec fn request(&self) -> Option<Request> {
        match self {
            PingServer::Sleeping => Some(Request::SleepOrStop(5000)),
            PingServer::Pinging => Some(Request::PingRedis),
            PingServer::Ended => None,
        }
    }

    open spec fn after(self, reply: Reply) -> Self {
        match (self, reply) {
            (PingServer::Sleeping, Reply::Done) => PingServer::Pinging,
            (PingServer::Sleeping, Reply::End) => PingServer::Ended,
            (PingServer::Pinging, Reply::Done) => PingServer::Sleeping,
            (PingServer::Pinging, Reply::Failed(_)) => PingServer::Sleeping,
            (state, _) => state,
        }
    }

    open spec fn gives(&self, result: BenchmarkResult<()>) -> bool {
        result == BenchmarkResult::<()>::Ok(())
    }

    proof fn goes_on(self, reply: Reply) {
    }

    fn action(&self) -> (action: Option<Action>) {
        match self {
            PingServer::Sleeping => Some(Action::SleepOrStop(5000)),
            PingServer::Pinging => Some(Action::PingRedis),
            PingServer::Ended => None,
        }
    }

    fn next(self, reply: Reply) -> (state: Self) {
        match (self, reply) {
            (PingServer::Sleeping, Reply::Done) => PingServer::Pinging,
            (PingServer::Sleeping, Reply::End) => PingServer::Ended,
            (PingServer::Pinging, Reply::Done) => PingServer::Sleeping,
            (PingServer::Pinging, Reply::Failed(_)) => PingServer::Sleeping,
            (state, _) => state,
        }
    }

    fn finish(self) -> (result: BenchmarkResult<()>) {
        Ok(())
    }
}

/// Only the order to stop ends the pinging: no failure of a ping does.
pub proof fn pinging_goes_on(flow: PingServer, replies: Seq<Reply>)
    requires
        !(flow is Ended),
        forall|i: int| 0 <= i < replies.len() ==> !(#[trigger] replies[i] is End),
    ensures
        flow::run(flow, replies).request() is Some,
    decreases replies.len(),
{
    if replies.len() > 0 {
        assert(!(replies[0] is End));
        let rest = replies.drop_first();
        assert forall|i: int| 0 <= i < rest.len() implies !(#[trigger] rest[i] is End) by {
            assert(rest[i] == replies[i + 1]);
        }
        pinging_goes_on(flow.after(replies[0]), rest);
    }
}

} // verus!
