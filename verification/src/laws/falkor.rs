//! FalkorDB: its server, its dumps, its size and its reports.
use vstd::prelude::*;
use crate::action::{Gauge, Reply, Request, Task};
use crate::error::BenchmarkError;
use crate::execution::Target;
use crate::falkor::falkor_driver;
use crate::falkor::falkor_driver::{
    DumpExists, Falkor, FalkorGraphSize, RestoreDb, SaveDb, StartFalkor, Started, StopFalkor,
    Stopped,
};
use crate::falkor::falkor_metrics;
use crate::falkor::falkor_metrics::{CountQuery, ReportFalkor};
use crate::falkor::falkor_process::{
    FalkorProcess, FalkorSettings, LaunchFalkor, LaunchStage, PingServer, TerminateFalkor,
};
use crate::flow;
use crate::laws::loading;
use crate::query::{FalkorValue, RedisValue, Row};
use crate::scenario::Size;

verus! {

// ---------------------------------------------------------------------------
// Starting and stopping

/// A start launches the server and waits for its first answer, up to ten times with half a
/// second between. A server that was launched and does not answer is ended again, and the
/// reason why it did not answer is given.
pub proof fn start_launches_and_waits(path: String, process: FalkorProcess, e: BenchmarkError)
    ensures
        ({
            let start = StartFalkor::Launching { path };
            let wait = Request::WaitForRedis { max_attempts: 10, delay_ms: 500 };
            let launched = Reply::Falkor(process);
            &&& flow::ends(
                start,
                seq![(Request::StartFalkorProcess, launched), (wait, Reply::Done)],
                Ok(Falkor { path, state: Started(process) }),
            )
            &&& flow::ends(
                start,
                seq![
                    (Request::StartFalkorProcess, launched),
                    (wait, Reply::Failed(e)),
                    (Request::EndFalkorProcess(process), Reply::Done),
                ],
                Err(e),
            )
            &&& flow::ends(start, seq![(Request::StartFalkorProcess, Reply::Failed(e))], Err(e))
        }),
{
    reveal_with_fuel(flow::follows_from, 5);
    reveal_with_fuel(flow::played_from, 5);
}

/// A stop saves the data and waits until the server answers again. The very process that
/// was running is ended in any case, and then the first error is given, if there was one.
pub proof fn stop_saves_and_ends(path: String, process: FalkorProcess, e: BenchmarkError)
    ensures
        ({
            let stop = StopFalkor::Saving { path, process };
            let wait = Request::WaitForRedis { max_attempts: 10, delay_ms: 500 };
            let end = Request::EndFalkorProcess(process);
            &&& flow::ends(
                stop,
                seq![(Request::SaveRedis, Reply::Done), (wait, Reply::Done), (end, Reply::Done)],
                Ok(Falkor { path, state: Stopped }),
            )
            &&& flow::ends(
                stop,
                seq![
                    (Request::SaveRedis, Reply::Done),
                    (wait, Reply::Failed(e)),
                    (end, Reply::Done),
                ],
                Err(e),
            )
            &&& flow::ends(
                stop,
                seq![(Request::SaveRedis, Reply::Failed(e)), (end, Reply::Done)],
                Err(e),
            )
        }),
{
    reveal_with_fuel(flow::follows_from, 5);
    reveal_with_fuel(flow::played_from, 5);
}

/// A path that was chosen, or else the file in the current directory.
pub open spec fn chosen_path(chosen: Option<String>, dir: Seq<char>, file: Seq<char>) -> Seq<char> {
    if chosen is Some {
        chosen->0@
    } else {
        dir + file
    }
}

/// A server of our own is launched after the one before it was shut down, its directory
/// was made sure of and its log deleted. It runs with its data, its log and its library at
/// the places that the settings say, and is started again five seconds after it ends. Then
/// its reporter and its pings begin.
pub proof fn own_server_is_launched(settings: FalkorSettings)
    requires
        settings.current_dir is Some,
    ensures
        ({
            let dir = settings.current_dir->0@;
            let log = chosen_path(settings.log_path, dir, "/falkordb.log"@);
            let library = chosen_path(settings.falkor_path, dir, "/falkordb.so"@);
            let args = seq![
                "--dir"@,
                "./redis-data"@,
                "--logfile"@,
                log,
                "--protected-mode"@,
                "no"@,
                "--loadmodule"@,
                library,
                "CACHE_SIZE"@,
                "40"@,
                "MAX_QUEUED_QUERIES"@,
                "400"@,
            ];
            flow::ends(
                LaunchFalkor { settings, stage: LaunchStage::CheckingMode },
                seq![
                    (Request::EnvIsSet("FALKOR_EXTERNAL"@), Reply::Flag(false)),
                    (Request::ShutDownRedis, Reply::Done),
                    (Request::EnsureDirectory("./redis-data"@), Reply::Done),
                    (Request::DeleteFile(log), Reply::Done),
                    (
                        Request::StartMonitor {
                            target: Target::Falkor,
                            command: "redis-server"@,
                            args,
                            restart_delay_secs: 5,
                        },
                        Reply::Done,
                    ),
                    (Request::StartMetricsReporter(Target::Falkor), Reply::Done),
                    (Request::StartPingServer, Reply::Done),
                ],
                Ok(
                    FalkorProcess {
                        monitor: true,
                        reporter: true,
                        ping_server: true,
                        dropped: false,
                    },
                ),
            )
        }),
{
    reveal_with_fuel(flow::follows_from, 9);
    reveal_with_fuel(flow::played_from, 9);
}

/// With an external server only the reporter and the pings begin.
pub proof fn external_server_is_reported_and_pinged(settings: FalkorSettings)
    ensures
        flow::ends(
            LaunchFalkor { settings, stage: LaunchStage::CheckingMode },
            seq![
                (Request::EnvIsSet("FALKOR_EXTERNAL"@), Reply::Flag(true)),
                (Request::StartMetricsReporter(Target::Falkor), Reply::Done),
                (Request::StartPingServer, Reply::Done),
            ],
            Ok(
                FalkorProcess {
                    monitor: false,
                    reporter: true,
                    ping_server: true,
                    dropped: false,
                },
            ),
        ),
{
    reveal_with_fuel(flow::follows_from, 5);
    reveal_with_fuel(flow::played_from, 5);
}

/// A launch whose steps fail before the server is started gives the error of the step, and
/// one that does not know its directory says so.
pub proof fn failed_launch_starts_nothing(settings: FalkorSettings, e: BenchmarkError)
    ensures
        ({
            let launch = LaunchFalkor { settings, stage: LaunchStage::CheckingMode };
            let own = (Request::EnvIsSet("FALKOR_EXTERNAL"@), Reply::Flag(false));
            let down = (Request::ShutDownRedis, Reply::Done);
            let ensure = Request::EnsureDirectory("./redis-data"@);
            let dir = settings.current_dir->0@;
            let log = chosen_path(settings.log_path, dir, "/falkordb.log"@);
            &&& flow::ends(launch, seq![own, (Request::ShutDownRedis, Reply::Failed(e))], Err(e))
            &&& flow::ends(launch, seq![own, down, (ensure, Reply::Failed(e))], Err(e))
            &&& settings.current_dir is None ==> flow::ends_badly(
                launch,
                seq![own, down, (ensure, Reply::Done)],
                "Failed to get current directory"@,
            )
            &&& settings.current_dir is Some ==> flow::ends(
                launch,
                seq![
                    own,
                    down,
                    (ensure, Reply::Done),
                    (Request::DeleteFile(log), Reply::Failed(e)),
                ],
                Err(e),
            )
        }),
{
    reveal_with_fuel(flow::follows_from, 6);
    reveal_with_fuel(flow::played_from, 6);
}

/// Of a server process exactly the parts that run are stopped, each once: the pings, then
/// the reporter, then the server. What becomes of one makes no difference to the others.
pub proof fn running_parts_are_stopped(process: FalkorProcess, r1: Reply, r2: Reply, r3: Reply)
    requires
        r1 is Done || r1 is Failed,
        r2 is Done || r2 is Failed,
        r3 is Done || r3 is Failed,
    ensures
        ({
            let stop = TerminateFalkor { process };
            let pings = Request::StopTask(Task::PingServer);
            let reporter = Request::StopTask(Task::MetricsReporter);
            let server = Request::StopTask(Task::Monitor);
            match (process.ping_server, process.reporter, process.monitor) {
                (true, true, true) => flow::ends(
                    stop,
                    seq![(pings, r1), (reporter, r2), (server, r3)],
                    Ok(()),
                ),
                (true, true, false) => flow::ends(stop, seq![(pings, r1), (reporter, r2)], Ok(())),
                (true, false, true) => flow::ends(stop, seq![(pings, r1), (server, r3)], Ok(())),
                (true, false, false) => flow::ends(stop, seq![(pings, r1)], Ok(())),
                (false, true, true) => flow::ends(stop, seq![(reporter, r2), (server, r3)], Ok(())),
                (false, true, false) => flow::ends(stop, seq![(reporter, r2)], Ok(())),
                (false, false, true) => flow::ends(stop, seq![(server, r3)], Ok(())),
                (false, false, false) => flow::ends(stop, seq![], Ok(())),
            }
        }),
{
    reveal_with_fuel(flow::follows_from, 5);
    reveal_with_fuel(flow::played_from, 5);
}

/// Every five seconds the server is pinged, whatever becomes of the ping, until the order
/// to stop.
pub proof fn server_is_pinged_until_told(e: BenchmarkError)
    ensures
        ({
            let (wait, ping) = (Request::SleepOrStop(5000), Request::PingRedis);
            let sleeping = PingServer::Sleeping;
            &&& flow::arrives(sleeping, seq![(wait, Reply::Done), (ping, Reply::Done)], sleeping)
            &&& flow::arrives(
                sleeping,
                seq![(wait, Reply::Done), (ping, Reply::Failed(e))],
                sleeping,
            )
            &&& flow::ends(sleeping, seq![(wait, Reply::End)], Ok(()))
        }),
{
    reveal_with_fuel(flow::follows_from, 4);
    reveal_with_fuel(flow::played_from, 4);
}

// ---------------------------------------------------------------------------
// Dumps

/// The dump of a data set of the size.
pub open spec fn dump_of(size: Size) -> Seq<char> {
    "./redis-data"@ + "/"@ + loading::size_in_path(size) + "_dump.rdb"@
}

/// The data is kept as the dump of the size that was asked for, once a server that is found
/// is shut down. With an external server nothing is kept.
pub proof fn data_is_kept_as_the_dump_of_its_size(size: Size, pid: u32, e: BenchmarkError)
    ensures
        ({
            let save = SaveDb::CheckingMode { size };
            let external = Request::EnvIsSet("FALKOR_EXTERNAL"@);
            let find = Request::FindProcess("redis-server"@);
            let copy = Request::CopyFile { from: "./redis-data/dump.rdb"@, to: dump_of(size) };
            let own = (external, Reply::Flag(false));
            let gone = (find, Reply::Failed(e));
            let found = (find, Reply::Pid(pid));
            let down = (Request::ShutDownRedis, Reply::Done);
            &&& flow::ends(save, seq![(external, Reply::Flag(true))], Ok(()))
            &&& flow::ends(save, seq![own, gone, (copy, Reply::Done)], Ok(()))
            &&& flow::ends(save, seq![own, gone, (copy, Reply::Failed(e))], Err(e))
            &&& flow::ends(save, seq![own, found, down, (copy, Reply::Done)], Ok(()))
            &&& flow::ends(save, seq![own, found, down, (copy, Reply::Failed(e))], Err(e))
            &&& flow::ends(
                save,
                seq![own, found, (Request::ShutDownRedis, Reply::Failed(e))],
                Err(e),
            )
        }),
{
    reveal_with_fuel(flow::follows_from, 6);
    reveal_with_fuel(flow::played_from, 6);
}

/// The dump of the size that was asked for is put in place where there is one, once a
/// server that is found is shut down. With an external server nothing is put in place.
pub proof fn dump_of_its_size_is_put_in_place(size: Size, pid: u32, e: BenchmarkError)
    ensures
        ({
            let restore = RestoreDb::CheckingMode { size };
            let external = Request::EnvIsSet("FALKOR_EXTERNAL"@);
            let find = Request::FindProcess("redis-server"@);
            let probe = Request::FileExists(dump_of(size));
            let copy = Request::CopyFile { from: dump_of(size), to: "./redis-data/dump.rdb"@ };
            let own = (external, Reply::Flag(false));
            let gone = (find, Reply::Failed(e));
            let found = (find, Reply::Pid(pid));
            let down = (Request::ShutDownRedis, Reply::Done);
            let there = (probe, Reply::Flag(true));
            &&& flow::ends(restore, seq![(external, Reply::Flag(true))], Ok(()))
            &&& flow::ends(restore, seq![own, gone, (probe, Reply::Flag(false))], Ok(()))
            &&& flow::ends(restore, seq![own, gone, there, (copy, Reply::Done)], Ok(()))
            &&& flow::ends(restore, seq![own, gone, there, (copy, Reply::Failed(e))], Err(e))
            &&& flow::ends(restore, seq![own, found, down, (probe, Reply::Flag(false))], Ok(()))
            &&& flow::ends(restore, seq![own, found, down, there, (copy, Reply::Done)], Ok(()))
            &&& flow::ends(
                restore,
                seq![own, found, down, there, (copy, Reply::Failed(e))],
                Err(e),
            )
            &&& flow::ends(
                restore,
                seq![own, found, (Request::ShutDownRedis, Reply::Failed(e))],
                Err(e),
            )
        }),
{
    reveal_with_fuel(flow::follows_from, 7);
    reveal_with_fuel(flow::played_from, 7);
}

/// A dump of the size is demanded of a server of our own, and the error names the file that
/// is missing. Of an external server none is demanded.
pub proof fn missing_dump_is_named(size: Size)
    ensures
        ({
            let check = DumpExists::CheckingMode { size };
            let external = Request::EnvIsSet("FALKOR_EXTERNAL"@);
            let probe = Request::FileExists(dump_of(size));
            let own = (external, Reply::Flag(false));
            &&& flow::ends(check, seq![(external, Reply::Flag(true))], Ok(()))
            &&& flow::ends(check, seq![own, (probe, Reply::Flag(true))], Ok(()))
            &&& flow::ends_badly(
                check,
                seq![own, (probe, Reply::Flag(false))],
                "Dump file not found: "@ + dump_of(size),
            )
        }),
{
    reveal_with_fuel(flow::follows_from, 4);
    reveal_with_fuel(flow::played_from, 4);
}

// ---------------------------------------------------------------------------
// Counting

/// A row holds a number where that number is all that it holds.
pub proof fn row_of_one_number_holds_it(row: Row, n: i64)
    ensures
        falkor_driver::single_number(None) is None,
        falkor_driver::single_number(Some(row)) == Some(n) <==> row.values@ == seq![
            FalkorValue::I64(n),
        ],
        falkor_driver::single_number(Some(row)) is None <==> row.values@.len() != 1
            || row.values@[0] is Other,
{
    if row.values@.len() == 1 && row.values@[0] == FalkorValue::I64(n) {
        assert(row.values@ =~= seq![FalkorValue::I64(n)]);
    }
}

/// The size of the graph in FalkorDB is what the rows of the two counts hold, the nodes
/// first.
pub proof fn falkor_size_is_as_counted(nodes: Row, relations: Row, n: i64, m: i64)
    requires
        nodes.values@ == seq![FalkorValue::I64(n)],
        relations.values@ == seq![FalkorValue::I64(m)],
    ensures
        flow::ends(
            FalkorGraphSize::Connecting,
            seq![
                (Request::ConnectFalkor, Reply::Done),
                (
                    Request::FalkorRow {
                        query: "MATCH (n) RETURN count(n) as count"@,
                        timeout_ms: 5000,
                    },
                    Reply::Row(Some(nodes)),
                ),
                (
                    Request::FalkorRow {
                        query: "MATCH ()-->() RETURN count(*) AS relationshipCount"@,
                        timeout_ms: 5000,
                    },
                    Reply::Row(Some(relations)),
                ),
            ],
            Ok((n as u64, m as u64)),
        ),
        n >= 0 ==> n as u64 == n,
        m >= 0 ==> m as u64 == m,
{
    reveal_with_fuel(flow::follows_from, 5);
    reveal_with_fuel(flow::played_from, 5);
}

/// A row that does not hold one number is not taken for a size, and a question that fails
/// gives its error.
pub proof fn falkor_size_may_be_unknown(nodes: Row, n: i64, odd: Option<Row>, e: BenchmarkError)
    requires
        nodes.values@ == seq![FalkorValue::I64(n)],
        odd is None || odd->0.values@.len() != 1 || odd->0.values@[0] is Other,
    ensures
        ({
            let size = FalkorGraphSize::Connecting;
            let connect = (Request::ConnectFalkor, Reply::Done);
            let first = Request::FalkorRow {
                query: "MATCH (n) RETURN count(n) as count"@,
                timeout_ms: 5000,
            };
            let second = Request::FalkorRow {
                query: "MATCH ()-->() RETURN count(*) AS relationshipCount"@,
                timeout_ms: 5000,
            };
            let counted = (first, Reply::Row(Some(nodes)));
            let said = "Value not found or not of expected type"@;
            &&& flow::ends(size, seq![(Request::ConnectFalkor, Reply::Failed(e))], Err(e))
            &&& flow::ends(size, seq![connect, (first, Reply::Failed(e))], Err(e))
            &&& flow::ends(size, seq![connect, counted, (second, Reply::Failed(e))], Err(e))
            &&& flow::ends_badly(size, seq![connect, (first, Reply::Row(odd))], said)
            &&& flow::ends_badly(size, seq![connect, counted, (second, Reply::Row(odd))], said)
        }),
{
    reveal_with_fuel(flow::follows_from, 5);
    reveal_with_fuel(flow::played_from, 5);
}

/// A counting query gives the number in its row, or an error that names the row and the
/// query.
pub proof fn counting_query_gives_its_number(query: String, row: Row, e: BenchmarkError)
    ensures
        ({
            let count = CountQuery::Asking { query };
            let ask = Request::FalkorRow { query: query@, timeout_ms: 5000 };
            &&& match row.values@.len() == 1 {
                true => match row.values@[0] {
                    FalkorValue::I64(n) => flow::ends(
                        count,
                        seq![(ask, Reply::Row(Some(row)))],
                        Ok(n),
                    ),
                    FalkorValue::Other => flow::ends_badly(
                        count,
                        seq![(ask, Reply::Row(Some(row)))],
                        "Unexpected response: "@ + row.text@ + " for query "@ + query@,
                    ),
                },
                false => flow::ends_badly(
                    count,
                    seq![(ask, Reply::Row(Some(row)))],
                    "Unexpected response: "@ + row.text@ + " for query "@ + query@,
                ),
            }
            &&& flow::ends_badly(
                count,
                seq![(ask, Reply::Row(None))],
                "No response for query: "@ + query@,
            )
            &&& flow::ends(count, seq![(ask, Reply::Failed(e))], Err(e))
        }),
{
    reveal_with_fuel(flow::follows_from, 3);
    reveal_with_fuel(flow::played_from, 3);
}

// ---------------------------------------------------------------------------
// Reports

/// Of an answer with at least four items, the items of the second are the queries that run
/// and those of the fourth the queries that wait. Whatever else an answer holds makes no
/// difference; one that lacks something is named.
pub proof fn info_counts_running_and_waiting(value: RedisValue)
    ensures
        match value {
            RedisValue::Scalar { text } => falkor_metrics::query_info(value) == Err::<
                (nat, nat),
                Seq<char>,
            >("parsing array failed: "@ + text@),
            RedisValue::Array { items, text } => if items@.len() < 4 {
                falkor_metrics::query_info(value) == Err::<(nat, nat), Seq<char>>(
                    "Insufficient data in Redis response "@ + falkor_metrics::list_shown(items@),
                )
            } else {
                match (items@[1], items@[3]) {
                    (
                        RedisValue::Array { items: running, text: _ },
                        RedisValue::Array { items: waiting, text: _ },
                    ) => falkor_metrics::query_info(value) == Ok::<(nat, nat), Seq<char>>(
                        (running@.len(), waiting@.len()),
                    ),
                    (RedisValue::Scalar { text }, _) => falkor_metrics::query_info(value) == Err::<
                        (nat, nat),
                        Seq<char>,
                    >("parsing array failed: "@ + text@),
                    (_, RedisValue::Scalar { text }) => falkor_metrics::query_info(value) == Err::<
                        (nat, nat),
                        Seq<char>,
                    >("parsing array failed: "@ + text@),
                }
            },
        },
{
}

/// A report sets the gauges for the queries that run and wait, for the relationships and
/// for the nodes to just what was counted, and then fills those for memory and CPU.
pub proof fn report_sets_what_was_counted(
    items: Vec<RedisValue>,
    text: String,
    running: Vec<RedisValue>,
    running_text: String,
    waiting: Vec<RedisValue>,
    waiting_text: String,
    relationships: i64,
    nodes: i64,
)
    requires
        items@.len() >= 4,
        items@[1] == (RedisValue::Array { items: running, text: running_text }),
        items@[3] == (RedisValue::Array { items: waiting, text: waiting_text }),
    ensures
        flow::ends(
            ReportFalkor::AskingInfo,
            seq![
                (Request::GraphInfo, Reply::Value(RedisValue::Array { items, text })),
                (
                    Request::SetGauge {
                        gauge: Gauge::FalkorRunningRequests,
                        value: running.len() as i64,
                    },
                    Reply::Done,
                ),
                (
                    Request::SetGauge {
                        gauge: Gauge::FalkorWaitingRequests,
                        value: waiting.len() as i64,
                    },
                    Reply::Done,
                ),
                (Request::RequireFalkor, Reply::Done),
                (
                    Request::CountQuery("MATCH ()-[r]->() RETURN count(r)"@),
                    Reply::Number(relationships),
                ),
                (
                    Request::SetGauge { gauge: Gauge::FalkorRelationships, value: relationships },
                    Reply::Done,
                ),
                (Request::CountQuery("MATCH (n) RETURN count(n)"@), Reply::Number(nodes)),
                (Request::SetGauge { gauge: Gauge::FalkorNodes, value: nodes }, Reply::Done),
                (Request::FillMemoryAndCpuMetrics(Target::Falkor), Reply::Done),
            ],
            Ok(()),
        ),
{
    assert(running.len() == running@.len());
    assert(waiting.len() == waiting@.len());
    reveal_with_fuel(flow::follows_from, 11);
    reveal_with_fuel(flow::played_from, 11);
}

/// A count that fails leaves its gauge alone and nothing else: the other gauges are set as
/// they would have been.
pub proof fn failed_count_leaves_its_gauge(n: i64, e: BenchmarkError)
    ensures
        ({
            let report = ReportFalkor::CountingRelationships;
            let relationships = Request::CountQuery("MATCH ()-[r]->() RETURN count(r)"@);
            let nodes = Request::CountQuery("MATCH (n) RETURN count(n)"@);
            let fill = Request::FillMemoryAndCpuMetrics(Target::Falkor);
            let set_relationships = Request::SetGauge {
                gauge: Gauge::FalkorRelationships,
                value: n,
            };
            let set_nodes = Request::SetGauge { gauge: Gauge::FalkorNodes, value: n };
            &&& flow::ends(
                report,
                seq![
                    (relationships, Reply::Failed(e)),
                    (nodes, Reply::Number(n)),
                    (set_nodes, Reply::Done),
                    (fill, Reply::Done),
                ],
                Ok(()),
            )
            &&& flow::ends(
                report,
                seq![
                    (relationships, Reply::Number(n)),
                    (set_relationships, Reply::Done),
                    (nodes, Reply::Failed(e)),
                    (fill, Reply::Done),
                ],
                Ok(()),
            )
            &&& flow::ends(
                report,
                seq![
                    (relationships, Reply::Failed(e)),
                    (nodes, Reply::Failed(e)),
                    (fill, Reply::Failed(e)),
                ],
                Err(e),
            )
        }),
{
    reveal_with_fuel(flow::follows_from, 6);
    reveal_with_fuel(flow::played_from, 6);
}

/// Where the server is not informative, nothing is reported and the reason is given.
pub proof fn unclear_info_ends_the_report(
    text: String,
    info: RedisValue,
    said: Seq<char>,
    e: BenchmarkError,
)
    requires
        falkor_metrics::query_info(info) == Err::<(nat, nat), Seq<char>>(said),
    ensures
        ({
            let report = ReportFalkor::AskingInfo;
            &&& flow::ends(report, seq![(Request::GraphInfo, Reply::Failed(e))], Err(e))
            &&& flow::ends_badly(
                report,
                seq![(Request::GraphInfo, Reply::Value(RedisValue::Scalar { text }))],
                "parsing array failed: "@ + text@,
            )
            &&& flow::ends_badly(report, seq![(Request::GraphInfo, Reply::Value(info))], said)
        }),
{
    reveal_with_fuel(flow::follows_from, 3);
    reveal_with_fuel(flow::played_from, 3);
}

} // verus!
