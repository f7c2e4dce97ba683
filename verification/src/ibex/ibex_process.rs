//! The server process of ibexdb, the task that belongs to it, and what is reported of it.
use vstd::pervasive::unreached;
use vstd::prelude::*;
use vstd::string::*;
use crate::action::{Action, Gauge, Reply, Request, Task};
use crate::error::{BenchmarkError, BenchmarkResult};
use crate::execution::Target;
use crate::flow;
use crate::flow::Flow;
use crate::text;
use crate::usage;

verus! {

/// The address at which the server listens.
pub const IBEX_HOST: &'static str = "127.0.0.1";

/// The port at which the server listens. It is not the one at which the benchmark offers
/// its own metrics, so that both can run on one machine.
pub const IBEX_PORT: u16 = 8088;

/// The port at which the benchmark offers its metrics.
pub const METRICS_PORT: u16 = 8080;

/// Where the data of ibexdb is kept.
pub const IBEX_DATA_DIR: &'static str = "./ibex-data";

// ---------------------------------------------------------------------------
// Where the server is

/// Where the server is reached: `endpoint`, the value of `IBEX_ENDPOINT`, if that is set.
pub open spec fn endpoint_of(endpoint: Option<Seq<char>>) -> Seq<char> {
    match endpoint {
        Some(e) => e,
        None => "http://"@ + IBEX_HOST@ + ":"@ + text::decimal(IBEX_PORT as nat),
    }
}

/// Where the server is reached: `endpoint`, the value of `IBEX_ENDPOINT`, if that is set.
pub fn ibex_endpoint(endpoint: Option<&str>) -> (s: String)
    ensures
        s@ == endpoint_of(
            match endpoint {
                Some(e) => Some(e@),
                None => None,
            },
        ),
{
    match endpoint {
        Some(e) => e.to_string(),
        None => {
            let port = text::decimal_text(IBEX_PORT as u64);
            "http://".to_string().concat(IBEX_HOST).concat(":").concat(port.as_str())
        },
    }
}

/// Asks the server for its size.
pub enum FetchStats {
    Asking { url: String },
    Ended(BenchmarkResult<(u64, u64)>),
}

/// Asks the server at `endpoint` how many nodes and edges it holds.
pub fn fetch_stats(endpoint: &str) -> (flow: FetchStats)
    ensures
        flow matches FetchStats::Asking { url } && url@ == endpoint@ + "/api/stats"@,
{
    FetchStats::Asking { url: endpoint.to_string().concat("/api/stats") }
}

impl Flow for FetchStats {
    type Output = (u64, u64);

    open spec fn request(&self) -> Option<Request> {
        match self {
            FetchStats::Asking { url } => Some(Request::FetchStats(url@)),
            FetchStats::Ended(_) => None,
        }
    }

    open spec fn after(self, reply: Reply) -> Self {
        match (self, reply) {
            (FetchStats::Asking { url }, Reply::Counts { nodes, relations }) => FetchStats::Ended(
                Ok((nodes, relations)),
            ),
            (FetchStats::Asking { url }, Reply::Failed(e)) => FetchStats::Ended(Err(e)),
            (state, _) => state,
        }
    }

    open spec fn gives(&self, result: BenchmarkResult<(u64, u64)>) -> bool {
        *self == FetchStats::Ended(result)
    }

    proof fn goes_on(self, reply: Reply) {
    }

    fn action(&self) -> (action: Option<Action>) {
        match self {
            FetchStats::Asking { url } => Some(Action::FetchStats(url.clone())),
            FetchStats::Ended(_) => None,
        }
    }

    fn next(self, reply: Reply) -> (state: Self) {
        match (self, reply) {
            (FetchStats::Asking { url }, Reply::Counts { nodes, relations }) => FetchStats::Ended(
                Ok((nodes, relations)),
            ),
            (FetchStats::Asking { url }, Reply::Failed(e)) => FetchStats::Ended(Err(e)),
            (state, _) => state,
        }
    }

    fn finish(self) -> (result: BenchmarkResult<(u64, u64)>) {
        match self {
            FetchStats::Ended(r) => r,
            _ => unreached(),
        }
    }
}

// ---------------------------------------------------------------------------
// Starting

/// Which parts of the ibexdb server are running.
#[derive(Debug, Clone, Copy, PartialEq, Eq, Structural)]
pub struct IbexProcess {
    pub monitor: bool,
    pub reporter: bool,
    pub dropped: bool,
}

/// The arguments of the server.
pub open spec fn server_args(database: Seq<char>) -> Seq<Seq<char>> {
    seq![
        "server"@,
        "--database"@,
        database,
        "--host"@,
        IBEX_HOST@,
        "--port"@,
        text::decimal(IBEX_PORT as nat),
    ]
}

fn server_args_text(database: &String) -> (args: Vec<String>)
    ensures
        text::texts(args@) == server_args(database@),
{
    let args = vec![
        "server".to_string(),
        "--database".to_string(),
        database.clone(),
        "--host".to_string(),
        IBEX_HOST.to_string(),
        "--port".to_string(),
        text::decimal_text(IBEX_PORT as u64),
    ];
    proof {
        assert(text::texts(args@) =~= server_args(database@));
    }
    args
}

impl IbexProcess {
    /// Whether no part is running.
    pub open spec fn is_idle(&self) -> bool {
        !self.monitor && !self.reporter
    }

    /// Starts the server on the database, and the task that belongs to it. Where
    /// `IBEX_EXTERNAL` is set the server runs elsewhere, and only the task is started.
    pub fn new(database: &str) -> (flow: LaunchIbex)
        ensures
            flow matches LaunchIbex::StartingReporter { database: d } && d@ == database@,
    {
        LaunchIbex::StartingReporter { database: database.to_string() }
    }

    /// Stops the parts that are running, one after the other.
    pub fn terminate(self) -> (flow: TerminateIbex)
        ensures
            flow == (TerminateIbex { process: self }),
    {
        TerminateIbex { process: self }
    }

    /// Takes every part away from a process that goes out of use, and says how they are
    /// stopped. Of a process that was taken apart before, nothing is left to stop.
    pub fn drop(&mut self) -> (flow: Option<TerminateIbex>)
        ensures
            old(self).dropped ==> flow is None && *final(self) == *old(self),
            !old(self).dropped ==> flow == Some(
                TerminateIbex { process: IbexProcess { dropped: true, ..*old(self) } },
            ) && final(self).is_idle() && !final(self).dropped,
    {
        if self.dropped {
            None
        } else {
            let process = IbexProcess {
                monitor: self.monitor,
                reporter: self.reporter,
                dropped: true,
            };
            self.monitor = false;
            self.reporter = false;
            Some(process.terminate())
        }
    }
}

/// Starts the server with the task that belongs to it. The task is started first.
pub enum LaunchIbex {
    StartingReporter { database: String },
    CheckingMode { database: String },
    Locating { database: String },
    StartingMonitor { database: String, program: String },
    /// There is no program to start, and the task is stopped again.
    StoppingReporter { error: BenchmarkError },
    Ended(BenchmarkResult<IbexProcess>),
}

impl Flow for LaunchIbex {
    type Output = IbexProcess;

    open spec fn request(&self) -> Option<Request> {
        match self {
            LaunchIbex::StartingReporter { database } => Some(
                Request::StartMetricsReporter(Target::Ibex),
            ),
            LaunchIbex::CheckingMode { database } => Some(Request::EnvIsSet("IBEX_EXTERNAL"@)),
            LaunchIbex::Locating { database } => Some(Request::FindIbexBinary),
            LaunchIbex::StartingMonitor { database, program } => Some(
                Request::StartMonitor {
                    target: Target::Ibex,
                    command: program@,
                    args: server_args(database@),
                    restart_delay_secs: 5,
                },
            ),
            LaunchIbex::StoppingReporter { error } => Some(
                Request::StopTask(Task::MetricsReporter),
            ),
            LaunchIbex::Ended(_) => None,
        }
    }

    open spec fn after(self, reply: Reply) -> Self {
        match (self, reply) {
            (LaunchIbex::StartingReporter { database }, Reply::Done) => LaunchIbex::CheckingMode {
                database,
            },
            (LaunchIbex::CheckingMode { database }, Reply::Flag(true)) => LaunchIbex::Ended(
                Ok(IbexProcess { monitor: false, reporter: true, dropped: false }),
            ),
            (LaunchIbex::CheckingMode { database }, Reply::Flag(false)) => LaunchIbex::Locating {
                database,
            },
            (LaunchIbex::Locating { database }, Reply::Text(program)) =>
                LaunchIbex::StartingMonitor { database, program },
            (LaunchIbex::Locating { database }, Reply::Failed(e)) => LaunchIbex::StoppingReporter {
                error: e,
            },
            (LaunchIbex::StoppingReporter { error }, Reply::Done) => LaunchIbex::Ended(Err(error)),
            (LaunchIbex::StoppingReporter { error }, Reply::Failed(_)) => LaunchIbex::Ended(
                Err(error),
            ),
            (LaunchIbex::StartingMonitor { database, program }, Reply::Done) => LaunchIbex::Ended(
                Ok(IbexProcess { monitor: true, reporter: true, dropped: false }),
            ),
            (state, _) => state,
        }
    }

    open spec fn gives(&self, result: BenchmarkResult<IbexProcess>) -> bool {
        *self == LaunchIbex::Ended(result)
    }

    proof fn goes_on(self, reply: Reply) {
    }

    fn action(&self) -> (action: Option<Action>) {
        match self {
            LaunchIbex::StartingReporter { database } => Some(
                Action::StartMetricsReporter(Target::Ibex),
            ),
            LaunchIbex::CheckingMode { database } => Some(
                Action::EnvIsSet("IBEX_EXTERNAL".to_string()),
            ),
            LaunchIbex::Locating { database } => Some(Action::FindIbexBinary),
            LaunchIbex::StartingMonitor { database, program } => Some(
                Action::StartMonitor {
                    target: Target::Ibex,
                    command: program.clone(),
                    args: server_args_text(database),
                    restart_delay_secs: 5,
                },
            ),
            LaunchIbex::StoppingReporter { error } => Some(Action::StopTask(Task::MetricsReporter)),
            LaunchIbex::Ended(_) => None,
        }
    }

    fn next(self, reply: Reply) -> (state: Self) {
        match (self, reply) {
            (LaunchIbex::StartingReporter { database }, Reply::Done) => LaunchIbex::CheckingMode {
                database,
            },
            (LaunchIbex::CheckingMode { database }, Reply::Flag(true)) => LaunchIbex::Ended(
                Ok(IbexProcess { monitor: false, reporter: true, dropped: false }),
            ),
            (LaunchIbex::CheckingMode { database }, Reply::Flag(false)) => LaunchIbex::Locating {
                database,
            },
            (LaunchIbex::Locating { database }, Reply::Text(program)) =>
                LaunchIbex::StartingMonitor { database, program },
            (LaunchIbex::Locating { database }, Reply::Failed(e)) => LaunchIbex::StoppingReporter {
                error: e,
            },
            (LaunchIbex::StoppingReporter { error }, Reply::Done) => LaunchIbex::Ended(Err(error)),
            (LaunchIbex::StoppingReporter { error }, Reply::Failed(_)) => LaunchIbex::Ended(
                Err(error),
            ),
            (LaunchIbex::StartingMonitor { database, program }, Reply::Done) => LaunchIbex::Ended(
                Ok(IbexProcess { monitor: true, reporter: true, dropped: false }),
            ),
            (state, _) => state,
        }
    }

    fn finish(self) -> (result: BenchmarkResult<IbexProcess>) {
        match self {
            LaunchIbex::Ended(r) => r,
            _ => unreached(),
        }
    }
}

/// Without a program to start, the task that reports is stopped again, once, and then the
/// error is given: a launch that fails leaves nothing running.
pub proof fn failed_launch_stops_the_reporter(
    database: String,
    error: BenchmarkError,
    stopped: Reply,
)
    requires
        stopped is Done || stopped is Failed,
    ensures
        ({
            let flow = LaunchIbex::CheckingMode { database };
            let replies = seq![Reply::Flag(false), Reply::Failed(error), stopped];
            &&& flow::requests(flow, replies) == seq![
                Some(Request::EnvIsSet("IBEX_EXTERNAL"@)),
                Some(Request::FindIbexBinary),
                Some(Request::StopTask(Task::MetricsReporter)),
                None,
            ]
            &&& flow::run(flow, replies).gives(Err(error))
        }),
{
    broadcast use flow::group_flow;

}

/// A server that is started here listens where it is looked for when `IBEX_ENDPOINT` is
/// not set, and not where the benchmark offers its metrics.
pub proof fn server_listens_where_it_is_looked_for(database: Seq<char>)
    ensures
        endpoint_of(None) == "http://"@ + server_args(database)[4] + ":"@ + server_args(database)[6],
        server_args(database)[6] != text::decimal(METRICS_PORT as nat),
{
    text::decimal_reads_back(IBEX_PORT as nat);
    text::decimal_reads_back(METRICS_PORT as nat);
}

/// With an external server nothing is asked of the machine but the task that reports.
pub proof fn external_server_is_only_reported(database: String)
    ensures
        ({
            let flow = LaunchIbex::StartingReporter { database };
            let replies = seq![Reply::Done, Reply::Flag(true)];
            &&& flow::requests(flow, replies) == seq![
                Some(Request::StartMetricsReporter(Target::Ibex)),
                Some(Request::EnvIsSet("IBEX_EXTERNAL"@)),
                None,
            ]
            &&& flow::run(flow, replies).gives(
                Ok(IbexProcess { monitor: false, reporter: true, dropped: false }),
            )
        }),
{
    broadcast use flow::group_flow;

}

// ---------------------------------------------------------------------------
// Stopping

/// Stops the parts of a server process that are running.
#[derive(Debug, Clone, Copy, PartialEq, Eq, Structural)]
pub struct TerminateIbex {
    pub process: IbexProcess,
}

impl Flow for TerminateIbex {
    type Output = ();

    open spec fn request(&self) -> Option<Request> {
        if self.process.reporter {
            Some(Request::StopTask(Task::MetricsReporter))
        } else if self.process.monitor {
            Some(Request::StopTask(Task::Monitor))
        } else {
            None
        }
    }

    open spec fn after(self, reply: Reply) -> Self {
        if reply is Done || reply is Failed {
            if self.process.reporter {
                TerminateIbex { process: IbexProcess { reporter: false, ..self.process } }
            } else {
                TerminateIbex { process: IbexProcess { monitor: false, ..self.process } }
            }
        } else {
            self
        }
    }

    open spec fn gives(&self, result: BenchmarkResult<()>) -> bool {
        result == BenchmarkResult::<()>::Ok(())
    }

    proof fn goes_on(self, reply: Reply) {
    }

    fn action(&self) -> (action: Option<Action>) {
        if self.process.reporter {
            Some(Action::StopTask(Task::MetricsReporter))
        } else if self.process.monitor {
            Some(Action::StopTask(Task::Monitor))
        } else {
            None
        }
    }

    fn next(self, reply: Reply) -> (state: Self) {
        match reply {
            Reply::Done | Reply::Failed(_) => {
                if self.process.reporter {
                    TerminateIbex { process: IbexProcess { reporter: false, ..self.process } }
                } else {
                    TerminateIbex { process: IbexProcess { monitor: false, ..self.process } }
                }
            },
            _ => self,
        }
    }

    fn finish(self) -> (result: BenchmarkResult<()>) {
        Ok(())
    }
}

/// After two answers nothing is running, whatever was running before and whatever the
/// answers say; and the server is not stopped before the task that talks to it.
pub proof fn nothing_is_left_running(flow: TerminateIbex, first: Reply, second: Reply)
    requires
        first is Done || first is Failed,
        second is Done || second is Failed,
    ensures
        flow::run(flow, seq![first, second]).request() is None,
        flow::run(flow, seq![first, second]).process.is_idle(),
        flow.request() == Some(Request::StopTask(Task::Monitor)) ==> !flow.process.reporter,
{
    broadcast use flow::group_flow;

}

// ---------------------------------------------------------------------------
// Reporting

/// Reports how large the graph is and what the server uses.
pub enum ReportIbex {
    Asking { url: String },
    SettingNodes { nodes: u64, relations: u64 },
    SettingRelations { relations: u64 },
    Filling,
    Ended(BenchmarkResult<()>),
}

/// Reports how large the graph at `endpoint` is and what the server uses. A size that
/// cannot be had is left out.
pub fn report_metrics(endpoint: &str) -> (flow: ReportIbex)
    ensures
        flow matches ReportIbex::Asking { url } && url@ == endpoint@ + "/api/stats"@,
{
    ReportIbex::Asking { url: endpoint.to_string().concat("/api/stats") }
}

impl Flow for ReportIbex {
    type Output = ();

    open spec fn request(&self) -> Option<Request> {
        match self {
            ReportIbex::Asking { url } => Some(Request::FetchStats(url@)),
            ReportIbex::SettingNodes { nodes, relations } => Some(
                Request::SetGauge { gauge: Gauge::IbexNodes, value: *nodes as i64 },
            ),
            ReportIbex::SettingRelations { relations } => Some(
                Request::SetGauge { gauge: Gauge::IbexRelationships, value: *relations as i64 },
            ),
            ReportIbex::Filling => Some(Request::FillMemoryAndCpuMetrics(Target::Ibex)),
            ReportIbex::Ended(_) => None,
        }
    }

    open spec fn after(self, reply: Reply) -> Self {
        match (self, reply) {
            (ReportIbex::Asking { url }, Reply::Counts { nodes, relations }) =>
                ReportIbex::SettingNodes { nodes, relations },
            (ReportIbex::Asking { url }, Reply::Failed(_)) => ReportIbex::Filling,
            (ReportIbex::SettingNodes { nodes, relations }, Reply::Done) =>
                ReportIbex::SettingRelations { relations },
            (ReportIbex::SettingRelations { relations }, Reply::Done) => ReportIbex::Filling,
            (ReportIbex::Filling, Reply::Done) => ReportIbex::Ended(Ok(())),
            (ReportIbex::Filling, Reply::Failed(e)) => ReportIbex::Ended(Err(e)),
            (state, _) => state,
        }
    }

    open spec fn gives(&self, result: BenchmarkResult<()>) -> bool {
        *self == ReportIbex::Ended(result)
    }

    proof fn goes_on(self, reply: Reply) {
    }

    fn action(&self) -> (action: Option<Action>) {
        match self {
            ReportIbex::Asking { url } => Some(Action::FetchStats(url.clone())),
            ReportIbex::SettingNodes { nodes, relations } => Some(
                Action::SetGauge { gauge: Gauge::IbexNodes, value: *nodes as i64 },
            ),
            ReportIbex::SettingRelations { relations } => Some(
                Action::SetGauge { gauge: Gauge::IbexRelationships, value: *relations as i64 },
            ),
            ReportIbex::Filling => Some(Action::FillMemoryAndCpuMetrics(Target::Ibex)),
            ReportIbex::Ended(_) => None,
        }
    }

    fn next(self, reply: Reply) -> (state: Self) {
        match (self, reply) {
            (ReportIbex::Asking { url }, Reply::Counts { nodes, relations }) =>
                ReportIbex::SettingNodes { nodes, relations },
            (ReportIbex::Asking { url }, Reply::Failed(_)) => ReportIbex::Filling,
            (ReportIbex::SettingNodes { nodes, relations }, Reply::Done) =>
                ReportIbex::SettingRelations { relations },
            (ReportIbex::SettingRelations { relations }, Reply::Done) => ReportIbex::Filling,
            (ReportIbex::Filling, Reply::Done) => ReportIbex::Ended(Ok(())),
            (ReportIbex::Filling, Reply::Failed(e)) => ReportIbex::Ended(Err(e)),
            (state, _) => state,
        }
    }

    fn finish(self) -> (result: BenchmarkResult<()>) {
        match self {
            ReportIbex::Ended(r) => r,
            _ => unreached(),
        }
    }
}

/// The id of the server among the processes of the machine.
pub fn get_ibex_server_pid(processes: &Vec<(u32, Option<String>)>) -> (pid: Option<u32>)
    ensures
        pid == usage::first_named(processes@, "ibexdb"@),
{
    usage::find_named(processes, "ibexdb")
}

} // verus!
