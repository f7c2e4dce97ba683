//! ibexdb: its server, its databases, its size and its reports.
use vstd::prelude::*;
use crate::action::{Gauge, Reply, Request, Task};
use crate::error::BenchmarkError;
use crate::execution::Target;
use crate::flow;
use crate::ibex::ibex_driver::{
    CleanDb, CleanStage, CopyDb, Ibex, SavedDbExists, StartIbex, StartStage, Started,
    StopIbex, Stopped, WaitAttempt, WaitForIbex,
};
use crate::ibex::ibex_process;
use crate::ibex::ibex_process::{FetchStats, IbexProcess, LaunchIbex, ReportIbex, TerminateIbex};
use crate::laws::loading;
use crate::laws::system;
use crate::query::ProcessOutput;
use crate::scenario::Size;
use crate::text;

verus! {

// ---------------------------------------------------------------------------
// Starting and stopping

/// A start makes sure of the directories, launches the server on its database and waits
/// until it answers. A server that was launched and does not answer is ended again, and the
/// reason why it did not answer is given.
pub proof fn start_launches_and_waits(database: String, process: IbexProcess, e: BenchmarkError)
    ensures
        ({
            let start = StartIbex { database, stage: StartStage::EnsuringData };
            let data = Request::EnsureDirectory("./ibex-data"@);
            let own = Request::EnsureDirectory(database@);
            let launch = Request::StartIbexProcess(database@);
            &&& flow::ends(
                start,
                seq![
                    (data, Reply::Done),
                    (own, Reply::Done),
                    (launch, Reply::Ibex(process)),
                    (Request::WaitForIbex, Reply::Done),
                ],
                Ok(Ibex { database, state: Started(process) }),
            )
            &&& flow::ends(
                start,
                seq![
                    (data, Reply::Done),
                    (own, Reply::Done),
                    (launch, Reply::Ibex(process)),
                    (Request::WaitForIbex, Reply::Failed(e)),
                    (Request::EndIbexProcess(process), Reply::Done),
                ],
                Err(e),
            )
            &&& flow::ends(start, seq![(data, Reply::Failed(e))], Err(e))
            &&& flow::ends(start, seq![(data, Reply::Done), (own, Reply::Failed(e))], Err(e))
            &&& flow::ends(
                start,
                seq![(data, Reply::Done), (own, Reply::Done), (launch, Reply::Failed(e))],
                Err(e),
            )
        }),
{
    reveal_with_fuel(flow::follows_from, 7);
    reveal_with_fuel(flow::played_from, 7);
}

/// A stop ends the very process that was running and gives the database back.
pub proof fn stop_ends_the_server(database: String, process: IbexProcess)
    ensures
        flow::ends(
            StopIbex::Ending { database, process },
            seq![(Request::EndIbexProcess(process), Reply::Done)],
            Ok(Ibex { database, state: Stopped }),
        ),
{
    reveal_with_fuel(flow::follows_from, 3);
    reveal_with_fuel(flow::played_from, 3);
}

proof fn lemma_wait_after_failures(wait: WaitForIbex, errors: Seq<BenchmarkError>)
    requires
        wait.attempt == WaitAttempt::Asking(1),
        errors.len() < 20,
    ensures
        flow::arrives(
            wait,
            system::failed_attempts(
                Request::FetchStats(wait.url@),
                Request::Sleep(500),
                errors,
            ),
            (WaitForIbex { attempt: WaitAttempt::Asking((1 + errors.len()) as u32), ..wait }),
        ),
    decreases errors.len(),
{
    if errors.len() > 0 {
        let before = errors.drop_last();
        let (ask, pause) = (Request::FetchStats(wait.url@), Request::Sleep(500));
        lemma_wait_after_failures(wait, before);
        let there = WaitForIbex {
            attempt: WaitAttempt::Asking((1 + before.len()) as u32),
            ..wait
        };
        let last = seq![(ask, Reply::Failed(errors.last())), (pause, Reply::Done)];
        assert(flow::arrives(
            there,
            last,
            (WaitForIbex { attempt: WaitAttempt::Asking((1 + errors.len()) as u32), ..wait }),
        )) by {
            reveal_with_fuel(flow::follows_from, 4);
            reveal_with_fuel(flow::played_from, 4);
        }
        flow::script_in_parts(wait, system::failed_attempts(ask, pause, before), last);
    }
}

/// ibexdb is asked for its size until it answers, with half a second after each question
/// that fails. The first answer ends the wait, however often the question failed before,
/// and the twentieth failure does.
pub proof fn ibex_is_asked_twenty_times(
    wait: WaitForIbex,
    errors: Seq<BenchmarkError>,
    nodes: u64,
    relations: u64,
    e: BenchmarkError,
)
    requires
        wait.attempt == WaitAttempt::Asking(1),
        errors.len() < 20,
    ensures
        ({
            let ask = Request::FetchStats(wait.url@);
            let failures = system::failed_attempts(ask, Request::Sleep(500), errors);
            &&& flow::ends(
                wait,
                failures + seq![(ask, Reply::Counts { nodes, relations })],
                Ok(()),
            )
            &&& errors.len() == 19 ==> flow::ends_badly(
                wait,
                failures + seq![(ask, Reply::Failed(e))],
                "ibexdb server not ready after "@ + "20"@ + " attempts"@,
            )
        }),
{
    let ask = Request::FetchStats(wait.url@);
    let failures = system::failed_attempts(ask, Request::Sleep(500), errors);
    lemma_wait_after_failures(wait, errors);
    flow::script_in_parts(wait, failures, seq![(ask, Reply::Counts { nodes, relations })]);
    flow::script_in_parts(wait, failures, seq![(ask, Reply::Failed(e))]);
    reveal_with_fuel(flow::follows_from, 3);
    reveal_with_fuel(flow::played_from, 3);
    reveal_strlit("20");
    reveal_with_fuel(text::decimal, 3);
    assert(text::decimal(20) =~= "20"@);
}

/// The server of our own is launched after its reporter, with the program that was found,
/// on its database, and listening on port 8088 of this machine; it is started again five
/// seconds after it ends. With an external server only the reporter begins. Without a
/// program the reporter is stopped again.
pub proof fn server_is_launched_after_its_reporter(
    database: String,
    program: String,
    e: BenchmarkError,
    stopped: Reply,
)
    requires
        stopped is Done || stopped is Failed,
    ensures
        ({
            let launch = LaunchIbex::StartingReporter { database };
            let report = (Request::StartMetricsReporter(Target::Ibex), Reply::Done);
            let external = Request::EnvIsSet("IBEX_EXTERNAL"@);
            let args = seq![
                "server"@,
                "--database"@,
                database@,
                "--host"@,
                "127.0.0.1"@,
                "--port"@,
                "8088"@,
            ];
            &&& flow::ends(
                launch,
                seq![
                    report,
                    (external, Reply::Flag(false)),
                    (Request::FindIbexBinary, Reply::Text(program)),
                    (
                        Request::StartMonitor {
                            target: Target::Ibex,
                            command: program@,
                            args,
                            restart_delay_secs: 5,
                        },
                        Reply::Done,
                    ),
                ],
                Ok(IbexProcess { monitor: true, reporter: true, dropped: false }),
            )
            &&& flow::ends(
                launch,
                seq![report, (external, Reply::Flag(true))],
                Ok(IbexProcess { monitor: false, reporter: true, dropped: false }),
            )
            &&& flow::ends(
                launch,
                seq![
                    report,
                    (external, Reply::Flag(false)),
                    (Request::FindIbexBinary, Reply::Failed(e)),
                    (Request::StopTask(Task::MetricsReporter), stopped),
                ],
                Err(e),
            )
        }),
{
    lemma_port();
    reveal_with_fuel(flow::follows_from, 6);
    reveal_with_fuel(flow::played_from, 6);
}

proof fn lemma_port()
    ensures
        text::decimal(8088) == "8088"@,
{
    reveal_strlit("8088");
    reveal_with_fuel(text::decimal, 5);
    assert(text::decimal(8088) =~= "8088"@);
}

/// The server is looked for where the environment says, and else on port 8088 of this
/// machine.
pub proof fn server_is_looked_for_where_it_listens(endpoint: Seq<char>)
    ensures
        ibex_process::endpoint_of(Some(endpoint)) == endpoint,
        ibex_process::endpoint_of(None) == "http://"@ + "127.0.0.1"@ + ":"@ + "8088"@,
{
    lemma_port();
}

/// Of a server process exactly the parts that run are stopped, each once: the reporter,
/// then the server. What becomes of one makes no difference to the other.
pub proof fn running_parts_are_stopped(process: IbexProcess, r1: Reply, r2: Reply)
    requires
        r1 is Done || r1 is Failed,
        r2 is Done || r2 is Failed,
    ensures
        ({
            let stop = TerminateIbex { process };
            let reporter = Request::StopTask(Task::MetricsReporter);
            let server = Request::StopTask(Task::Monitor);
            match (process.reporter, process.monitor) {
                (true, true) => flow::ends(stop, seq![(reporter, r1), (server, r2)], Ok(())),
                (true, false) => flow::ends(stop, seq![(reporter, r1)], Ok(())),
                (false, true) => flow::ends(stop, seq![(server, r2)], Ok(())),
                (false, false) => flow::ends(stop, seq![], Ok(())),
            }
        }),
{
    reveal_with_fuel(flow::follows_from, 4);
    reveal_with_fuel(flow::played_from, 4);
}

// ---------------------------------------------------------------------------
// Databases

/// The saved database with a data set of the size.
pub open spec fn saved_of(size: Size) -> Seq<char> {
    "./ibex-data"@ + "/"@ + loading::size_in_path(size) + "_db"@
}

/// A database is emptied by removing it where it is there, and making its directory anew.
pub proof fn database_is_emptied(database: String, output: ProcessOutput, e: BenchmarkError)
    ensures
        ({
            let clean = CleanDb { database, stage: CleanStage::Probing };
            let probe = Request::FileExists(database@);
            let remove = Request::SpawnCommand { command: "rm"@, args: seq!["-rf"@, database@] };
            let create = Request::EnsureDirectory(database@);
            let there = (probe, Reply::Flag(true));
            let gone = (probe, Reply::Flag(false));
            let removed = (remove, Reply::Process(output));
            &&& flow::ends(clean, seq![there, removed, (create, Reply::Done)], Ok(()))
            &&& flow::ends(clean, seq![there, removed, (create, Reply::Failed(e))], Err(e))
            &&& flow::ends(clean, seq![there, (remove, Reply::Failed(e))], Err(e))
            &&& flow::ends(clean, seq![gone, (create, Reply::Done)], Ok(()))
            &&& flow::ends(clean, seq![gone, (create, Reply::Failed(e))], Err(e))
        }),
{
    reveal_with_fuel(flow::follows_from, 5);
    reveal_with_fuel(flow::played_from, 5);
}

/// A database is copied from the one place to the other, where what was there is removed
/// first. A copy that may be left out is left out where there is nothing to copy; the
/// other place is cleared even so.
pub proof fn database_is_copied(flow: CopyDb, output: ProcessOutput, e: BenchmarkError)
    requires
        flow.stage is Probing,
    ensures
        ({
            let probe = Request::FileExists(flow.to@);
            let remove = Request::SpawnCommand { command: "rm"@, args: seq!["-rf"@, flow.to@] };
            let probe_source = Request::FileExists(flow.from@);
            let copy = Request::SpawnCommand {
                command: "cp"@,
                args: seq!["-r"@, flow.from@, flow.to@],
            };
            let there = (probe, Reply::Flag(true));
            let clear = (probe, Reply::Flag(false));
            let removed = (remove, Reply::Process(output));
            let source = (probe_source, Reply::Flag(true));
            let no_source = (probe_source, Reply::Flag(false));
            let copied = (copy, Reply::Process(output));
            let failed = (copy, Reply::Failed(e));
            &&& flow::ends(flow, seq![there, (remove, Reply::Failed(e))], Err(e))
            &&& !flow.optional ==> {
                &&& flow::ends(flow, seq![clear, copied], Ok(()))
                &&& flow::ends(flow, seq![clear, failed], Err(e))
                &&& flow::ends(flow, seq![there, removed, copied], Ok(()))
                &&& flow::ends(flow, seq![there, removed, failed], Err(e))
            }
            &&& flow.optional ==> {
                &&& flow::ends(flow, seq![clear, no_source], Ok(()))
                &&& flow::ends(flow, seq![clear, source, copied], Ok(()))
                &&& flow::ends(flow, seq![clear, source, failed], Err(e))
                &&& flow::ends(flow, seq![there, removed, no_source], Ok(()))
                &&& flow::ends(flow, seq![there, removed, source, copied], Ok(()))
                &&& flow::ends(flow, seq![there, removed, source, failed], Err(e))
            }
        }),
{
    reveal_with_fuel(flow::follows_from, 6);
    reveal_with_fuel(flow::played_from, 6);
}

/// A saved database of the size is demanded, and the error names the directory that is
/// missing. Each size has its own.
pub proof fn missing_database_is_named(size: Size)
    ensures
        ({
            let check = SavedDbExists::Probing(size);
            let probe = Request::FileExists(saved_of(size));
            &&& flow::ends(check, seq![(probe, Reply::Flag(true))], Ok(()))
            &&& flow::ends_badly(
                check,
                seq![(probe, Reply::Flag(false))],
                "Dump directory not found: "@ + saved_of(size),
            )
        }),
        crate::ibex::ibex_driver::saved_db(size) == saved_of(size),
{
    reveal_with_fuel(flow::follows_from, 3);
    reveal_with_fuel(flow::played_from, 3);
}

// ---------------------------------------------------------------------------
// Counting

/// The size of the graph in ibexdb is what ibexdb says that it is.
pub proof fn ibex_size_is_as_told(url: String, nodes: u64, relations: u64, e: BenchmarkError)
    ensures
        ({
            let size = FetchStats::Asking { url };
            let ask = Request::FetchStats(url@);
            &&& flow::ends(
                size,
                seq![(ask, Reply::Counts { nodes, relations })],
                Ok((nodes, relations)),
            )
            &&& flow::ends(size, seq![(ask, Reply::Failed(e))], Err(e))
        }),
{
    reveal_with_fuel(flow::follows_from, 3);
    reveal_with_fuel(flow::played_from, 3);
}

/// A report sets the gauges for the nodes and the edges to what ibexdb says, where it says
/// something, and fills those for memory and CPU in either case.
pub proof fn report_sets_what_was_told(url: String, nodes: u64, relations: u64, e: BenchmarkError)
    ensures
        ({
            let report = ReportIbex::Asking { url };
            let ask = Request::FetchStats(url@);
            let told = (ask, Reply::Counts { nodes, relations });
            let set_nodes = Request::SetGauge { gauge: Gauge::IbexNodes, value: nodes as i64 };
            let set_edges = Request::SetGauge {
                gauge: Gauge::IbexRelationships,
                value: relations as i64,
            };
            let fill = Request::FillMemoryAndCpuMetrics(Target::Ibex);
            &&& flow::ends(
                report,
                seq![
                    told,
                    (set_nodes, Reply::Done),
                    (set_edges, Reply::Done),
                    (fill, Reply::Done),
                ],
                Ok(()),
            )
            &&& flow::ends(
                report,
                seq![
                    told,
                    (set_nodes, Reply::Done),
                    (set_edges, Reply::Done),
                    (fill, Reply::Failed(e)),
                ],
                Err(e),
            )
            &&& flow::ends(report, seq![(ask, Reply::Failed(e)), (fill, Reply::Done)], Ok(()))
            &&& flow::ends(report, seq![(ask, Reply::Failed(e)), (fill, Reply::Failed(e))], Err(e))
        }),
{
    reveal_with_fuel(flow::follows_from, 6);
    reveal_with_fuel(flow::played_from, 6);
}

} // verus!
