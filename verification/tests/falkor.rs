use benchmark::action::{Action, Gauge, Reply, Task};
use benchmark::error::{other_error, BenchmarkResult};
use benchmark::execution::Target;
use benchmark::falkor::falkor_driver::dump_path;
use benchmark::falkor::falkor_metrics::{
    execute_i64_query, get_falkor_server_pid, redis_to_query_info, report_metrics,
};
use benchmark::falkor::falkor_process::{ping_server, FalkorProcess, FalkorSettings};
use benchmark::falkor::{Falkor, Started};
use benchmark::flow::Flow;
use benchmark::query::{FalkorValue, RedisValue, Row};
use benchmark::scenario::Size;

fn drive<F: Flow>(flow: F, script: Vec<(Action, Reply)>) -> BenchmarkResult<F::Output> {
    let mut flow = flow;
    for (action, reply) in script {
        assert_eq!(flow.action(), Some(action));
        flow = flow.next(reply);
    }
    assert_eq!(flow.action(), None);
    flow.finish()
}

fn failed(text: &str) -> Reply {
    Reply::Failed(other_error(text))
}

fn process(monitor: bool, reporter: bool, ping_server: bool) -> FalkorProcess {
    FalkorProcess { monitor, reporter, ping_server, dropped: false }
}

fn settings(dir: Option<&str>, log: Option<&str>, lib: Option<&str>) -> FalkorSettings {
    FalkorSettings {
        current_dir: dir.map(|s| s.to_string()),
        log_path: log.map(|s| s.to_string()),
        falkor_path: lib.map(|s| s.to_string()),
    }
}

fn external() -> Action {
    Action::EnvIsSet("FALKOR_EXTERNAL".to_string())
}

fn find() -> Action {
    Action::FindProcess("redis-server".to_string())
}

fn server(log: &str, lib: &str) -> Action {
    let args = [
        "--dir", "./redis-data", "--logfile", log, "--protected-mode", "no", "--loadmodule", lib,
        "CACHE_SIZE", "40", "MAX_QUEUED_QUERIES", "400",
    ];
    Action::StartMonitor {
        target: Target::Falkor,
        command: "redis-server".to_string(),
        args: args.iter().map(|s| s.to_string()).collect(),
        restart_delay_secs: 5,
    }
}

fn started() -> Falkor<Started> {
    Falkor { path: "lib".to_string(), state: Started(process(true, true, true)) }
}

#[test]
fn the_shared_library_is_chosen_by_the_environment() {
    assert_eq!(Falkor::new(Some("/w"), None).path, "/w/falkordb.so");
    assert_eq!(Falkor::new(Some("/w"), Some("/x.so")).path, "/x.so");
}

#[test]
fn dumps_are_kept_apart() {
    assert_eq!(dump_path(Size::Small), "./redis-data/small_dump.rdb");
    assert_eq!(dump_path(Size::Medium), "./redis-data/medium_dump.rdb");
    assert_eq!(dump_path(Size::Large), "./redis-data/large_dump.rdb");
}

#[test]
fn a_local_server_is_started_afresh() {
    let result = drive(
        FalkorProcess::new(settings(Some("/w"), None, None)),
        vec![
            (external(), Reply::Flag(false)),
            (Action::ShutDownRedis, Reply::Done),
            (Action::EnsureDirectory("./redis-data".to_string()), Reply::Done),
            (Action::DeleteFile("/w/falkordb.log".to_string()), Reply::Done),
            (server("/w/falkordb.log", "/w/falkordb.so"), Reply::Done),
            (Action::StartMetricsReporter(Target::Falkor), Reply::Done),
            (Action::StartPingServer, Reply::Done),
        ],
    );
    assert_eq!(result, Ok(process(true, true, true)));
}

#[test]
fn the_environment_chooses_log_and_library() {
    let result = drive(
        FalkorProcess::new(settings(Some("/w"), Some("/l"), Some("/x.so"))),
        vec![
            (external(), Reply::Flag(false)),
            (Action::ShutDownRedis, Reply::Done),
            (Action::EnsureDirectory("./redis-data".to_string()), Reply::Done),
            (Action::DeleteFile("/l".to_string()), Reply::Done),
            (server("/l", "/x.so"), Reply::Done),
            (Action::StartMetricsReporter(Target::Falkor), Reply::Done),
            (Action::StartPingServer, Reply::Done),
        ],
    );
    assert_eq!(result, Ok(process(true, true, true)));
}

#[test]
fn an_external_server_gets_tasks_only() {
    let result = drive(
        FalkorProcess::new(settings(None, None, None)),
        vec![
            (external(), Reply::Flag(true)),
            (Action::StartMetricsReporter(Target::Falkor), Reply::Done),
            (Action::StartPingServer, Reply::Done),
        ],
    );
    assert_eq!(result, Ok(process(false, true, true)));
}

#[test]
fn a_start_without_a_current_directory_fails() {
    let result = drive(
        FalkorProcess::new(settings(None, Some("/l"), Some("/x.so"))),
        vec![
            (external(), Reply::Flag(false)),
            (Action::ShutDownRedis, Reply::Done),
            (Action::EnsureDirectory("./redis-data".to_string()), Reply::Done),
        ],
    );
    assert_eq!(result, Err(other_error("Failed to get current directory")));
    let result = drive(
        FalkorProcess::new(settings(Some("/w"), None, None)),
        vec![(external(), Reply::Flag(false)), (Action::ShutDownRedis, failed("no"))],
    );
    assert_eq!(result, Err(other_error("no")));
}

#[test]
fn the_parts_are_stopped_in_order() {
    assert_eq!(
        drive(
            process(true, true, true).terminate(),
            vec![
                (Action::StopTask(Task::PingServer), Reply::Done),
                (Action::StopTask(Task::MetricsReporter), failed("gone")),
                (Action::StopTask(Task::Monitor), Reply::Done),
            ]
        ),
        Ok(())
    );
    assert_eq!(drive(process(false, false, false).terminate(), vec![]), Ok(()));
}

#[test]
fn a_process_is_taken_apart_once() {
    let mut whole = process(false, true, true);
    let first = whole.drop().unwrap();
    assert!(first.process.dropped);
    assert_eq!(
        drive(
            first,
            vec![
                (Action::StopTask(Task::PingServer), Reply::Done),
                (Action::StopTask(Task::MetricsReporter), Reply::Done),
            ]
        ),
        Ok(())
    );
    assert_eq!(drive(whole.drop().unwrap(), vec![]), Ok(()));
    let mut apart = FalkorProcess { dropped: true, ..process(true, true, true) };
    assert_eq!(apart.drop(), None);
}

#[test]
fn pinging_ends_only_by_order() {
    assert_eq!(
        drive(
            ping_server(),
            vec![
                (Action::SleepOrStop(5000), Reply::Done),
                (Action::PingRedis, failed("no")),
                (Action::SleepOrStop(5000), Reply::Done),
                (Action::PingRedis, Reply::Done),
                (Action::SleepOrStop(5000), Reply::End),
            ]
        ),
        Ok(())
    );
}

#[test]
fn a_start_waits_for_the_server() {
    let wait = || Action::WaitForRedis { max_attempts: 10, delay_ms: 500 };
    let p = process(true, true, true);
    let falkor = drive(
        Falkor::new(Some("/w"), None).start(),
        vec![(Action::StartFalkorProcess, Reply::Falkor(p)), (wait(), Reply::Done)],
    );
    match falkor {
        Ok(falkor) => {
            assert_eq!(falkor.path, "/w/falkordb.so");
            assert_eq!(falkor.state.0, p);
        }
        Err(e) => panic!("{:?}", e),
    }
    let falkor = drive(
        Falkor::new(Some("/w"), None).start(),
        vec![
            (Action::StartFalkorProcess, Reply::Falkor(p)),
            (wait(), failed("no")),
            (Action::EndFalkorProcess(p), Reply::Done),
        ],
    );
    assert_eq!(falkor.err(), Some(other_error("no")));
}

#[test]
fn a_stop_ends_the_server_in_any_case() {
    let wait = || Action::WaitForRedis { max_attempts: 10, delay_ms: 500 };
    let end = || Action::EndFalkorProcess(process(true, true, true));
    let stopped = drive(
        started().stop(),
        vec![(Action::SaveRedis, Reply::Done), (wait(), Reply::Done), (end(), Reply::Done)],
    );
    assert_eq!(stopped.ok().map(|f| f.path), Some("lib".to_string()));
    let stopped = drive(
        started().stop(),
        vec![(Action::SaveRedis, failed("no")), (end(), Reply::Done)],
    );
    assert_eq!(stopped.err(), Some(other_error("no")));
}

#[test]
fn the_data_is_saved_while_the_server_is_down() {
    let falkor = Falkor::new(Some("/w"), None);
    let copy = || Action::CopyFile {
        from: "./redis-data/dump.rdb".to_string(),
        to: "./redis-data/small_dump.rdb".to_string(),
    };
    assert_eq!(
        drive(falkor.save_db(Size::Small), vec![(external(), Reply::Flag(true))]),
        Ok(())
    );
    assert_eq!(
        drive(
            falkor.save_db(Size::Small),
            vec![
                (external(), Reply::Flag(false)),
                (find(), Reply::Pid(3)),
                (Action::ShutDownRedis, Reply::Done),
                (copy(), Reply::Done),
            ]
        ),
        Ok(())
    );
    assert_eq!(
        drive(
            falkor.save_db(Size::Small),
            vec![
                (external(), Reply::Flag(false)),
                (find(), failed("none")),
                (copy(), failed("full")),
            ]
        ),
        Err(other_error("full"))
    );
}

#[test]
fn a_dump_is_restored_where_there_is_one() {
    let falkor = started();
    let probe = || Action::FileExists("./redis-data/large_dump.rdb".to_string());
    let copy = || Action::CopyFile {
        from: "./redis-data/large_dump.rdb".to_string(),
        to: "./redis-data/dump.rdb".to_string(),
    };
    assert_eq!(
        drive(falkor.restore_db(Size::Large), vec![(external(), Reply::Flag(true))]),
        Ok(())
    );
    assert_eq!(
        drive(
            falkor.restore_db(Size::Large),
            vec![
                (external(), Reply::Flag(false)),
                (find(), Reply::Pid(3)),
                (Action::ShutDownRedis, Reply::Done),
                (probe(), Reply::Flag(true)),
                (copy(), Reply::Done),
            ]
        ),
        Ok(())
    );
    assert_eq!(
        drive(
            falkor.restore_db(Size::Large),
            vec![
                (external(), Reply::Flag(false)),
                (find(), failed("none")),
                (probe(), Reply::Flag(false)),
            ]
        ),
        Ok(())
    );
    assert_eq!(
        drive(
            falkor.restore_db(Size::Large),
            vec![
                (external(), Reply::Flag(false)),
                (find(), Reply::Pid(3)),
                (Action::ShutDownRedis, failed("no")),
            ]
        ),
        Err(other_error("no"))
    );
}

#[test]
fn a_missing_dump_is_an_error() {
    let falkor = Falkor::new(Some("/w"), None);
    let probe = || Action::FileExists("./redis-data/medium_dump.rdb".to_string());
    let check = || falkor.dump_exists_or_error(Size::Medium);
    assert_eq!(drive(check(), vec![(external(), Reply::Flag(true))]), Ok(()));
    assert_eq!(
        drive(check(), vec![(external(), Reply::Flag(false)), (probe(), Reply::Flag(true))]),
        Ok(())
    );
    assert_eq!(
        drive(check(), vec![(external(), Reply::Flag(false)), (probe(), Reply::Flag(false))]),
        Err(other_error("Dump file not found: ./redis-data/medium_dump.rdb"))
    );
}

#[test]
fn cleaning_deletes_the_data_file() {
    assert_eq!(
        drive(
            Falkor::new(Some("/w"), None).clean_db(),
            vec![
                (Action::FileExists("./redis-data/dump.rdb".to_string()), Reply::Flag(true)),
                (Action::RemoveFile("./redis-data/dump.rdb".to_string()), Reply::Done),
            ]
        ),
        Ok(())
    );
}

#[test]
fn the_server_is_found_by_its_command() {
    let flow = Falkor::new(Some("/w"), None).get_redis_pid();
    assert_eq!(flow.next(failed("no")).finish(), Err(other_error("no")));
    let named = |pid: u32, name: &str| (pid, Some(name.to_string()));
    let processes = vec![named(1, "redis-cli"), named(2, "redis-server")];
    assert_eq!(get_falkor_server_pid(&processes), Some(2));
}

fn row(values: Vec<FalkorValue>) -> Option<Row> {
    Some(Row { values, text: "[row]".to_string() })
}

fn ask(query: &str) -> Action {
    Action::FalkorRow { query: query.to_string(), timeout_ms: 5000 }
}

#[test]
fn the_graph_is_counted_by_two_queries() {
    let nodes = || ask("MATCH (n) RETURN count(n) as count");
    let relations = || ask("MATCH ()-->() RETURN count(*) AS relationshipCount");
    let number = |n: i64| Reply::Row(row(vec![FalkorValue::I64(n)]));
    assert_eq!(
        drive(
            started().graph_size(),
            vec![
                (Action::ConnectFalkor, Reply::Done),
                (nodes(), number(10000)),
                (relations(), number(121716)),
            ]
        ),
        Ok((10000, 121716))
    );
    let unexpected = || Err(other_error("Value not found or not of expected type"));
    assert_eq!(
        drive(
            started().graph_size(),
            vec![(Action::ConnectFalkor, Reply::Done), (nodes(), Reply::Row(None))]
        ),
        unexpected()
    );
    assert_eq!(
        drive(
            started().graph_size(),
            vec![
                (Action::ConnectFalkor, Reply::Done),
                (nodes(), number(1)),
                (relations(), Reply::Row(row(vec![FalkorValue::Other]))),
            ]
        ),
        unexpected()
    );
    assert_eq!(
        drive(started().graph_size(), vec![(Action::ConnectFalkor, failed("no"))]),
        Err(other_error("no"))
    );
}

#[test]
fn a_row_must_hold_one_number() {
    let falkor = started();
    assert_eq!(falkor.extract_u64_value(&row(vec![FalkorValue::I64(5)])), Ok(5));
    assert_eq!(falkor.extract_u64_value(&row(vec![FalkorValue::I64(-1)])), Ok(u64::MAX));
    for bad in [
        None,
        row(vec![]),
        row(vec![FalkorValue::Other]),
        row(vec![FalkorValue::I64(1), FalkorValue::I64(2)]),
    ] {
        assert_eq!(
            falkor.extract_u64_value(&bad),
            Err(other_error("Value not found or not of expected type"))
        );
    }
}

#[test]
fn a_counting_query_says_what_went_wrong() {
    assert_eq!(
        drive(
            execute_i64_query("Q"),
            vec![(ask("Q"), Reply::Row(row(vec![FalkorValue::I64(-3)])))]
        ),
        Ok(-3)
    );
    assert_eq!(
        drive(execute_i64_query("Q"), vec![(ask("Q"), Reply::Row(row(vec![])))]),
        Err(other_error("Unexpected response: [row] for query Q"))
    );
    assert_eq!(
        drive(execute_i64_query("Q"), vec![(ask("Q"), Reply::Row(None))]),
        Err(other_error("No response for query: Q"))
    );
    assert_eq!(
        drive(execute_i64_query("Q"), vec![(ask("Q"), failed("no"))]),
        Err(other_error("no"))
    );
}

fn scalar(text: &str) -> RedisValue {
    RedisValue::Scalar { text: text.to_string() }
}

fn array(items: Vec<RedisValue>, text: &str) -> RedisValue {
    RedisValue::Array { items, text: text.to_string() }
}

#[test]
fn running_and_waiting_queries_are_counted() {
    let info = array(
        vec![
            scalar("running"),
            array(vec![scalar("a"), scalar("b")], "array([a, b])"),
            scalar("waiting"),
            array(vec![scalar("c")], "array([c])"),
        ],
        "whole",
    );
    assert_eq!(redis_to_query_info(&info), Ok((2, 1)));
    assert_eq!(
        redis_to_query_info(&scalar("nil")),
        Err(other_error("parsing array failed: nil"))
    );
    assert_eq!(
        redis_to_query_info(&array(vec![scalar("int(1)"), scalar("nil")], "whole")),
        Err(other_error("Insufficient data in Redis response [int(1), nil]"))
    );
    let second = array(vec![scalar("0"), scalar("1"), scalar("2"), scalar("3")], "whole");
    assert_eq!(redis_to_query_info(&second), Err(other_error("parsing array failed: 1")));
    let fourth = array(vec![scalar("0"), array(vec![], "1"), scalar("2"), scalar("3")], "whole");
    assert_eq!(redis_to_query_info(&fourth), Err(other_error("parsing array failed: 3")));
}

#[test]
fn a_report_sets_its_gauges() {
    let set = |gauge: Gauge, value: i64| Action::SetGauge { gauge, value };
    let relations = || Action::CountQuery("MATCH ()-[r]->() RETURN count(r)".to_string());
    let nodes = || Action::CountQuery("MATCH (n) RETURN count(n)".to_string());
    let info = || {
        let none = || array(vec![], "array([])");
        array(vec![scalar("r"), array(vec![scalar("x")], "x"), scalar("w"), none()], "whole")
    };
    assert_eq!(
        drive(
            report_metrics(),
            vec![
                (Action::GraphInfo, Reply::Value(info())),
                (set(Gauge::FalkorRunningRequests, 1), Reply::Done),
                (set(Gauge::FalkorWaitingRequests, 0), Reply::Done),
                (Action::RequireFalkor, Reply::Done),
                (relations(), Reply::Number(7)),
                (set(Gauge::FalkorRelationships, 7), Reply::Done),
                (nodes(), Reply::Number(5)),
                (set(Gauge::FalkorNodes, 5), Reply::Done),
                (Action::FillMemoryAndCpuMetrics(Target::Falkor), Reply::Done),
            ]
        ),
        Ok(())
    );
    assert_eq!(
        drive(
            report_metrics(),
            vec![
                (Action::GraphInfo, Reply::Value(info())),
                (set(Gauge::FalkorRunningRequests, 1), Reply::Done),
                (set(Gauge::FalkorWaitingRequests, 0), Reply::Done),
                (Action::RequireFalkor, Reply::Done),
                (relations(), failed("1")),
                (nodes(), failed("2")),
                (Action::FillMemoryAndCpuMetrics(Target::Falkor), failed("3")),
            ]
        ),
        Err(other_error("3"))
    );
    assert_eq!(
        drive(report_metrics(), vec![(Action::GraphInfo, Reply::Value(scalar("nil")))]),
        Err(other_error("parsing array failed: nil"))
    );
    assert_eq!(
        drive(report_metrics(), vec![(Action::GraphInfo, failed("refused"))]),
        Err(other_error("refused"))
    );
}
