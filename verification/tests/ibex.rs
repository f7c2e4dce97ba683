use benchmark::action::{Action, Gauge, Reply, Task};
use benchmark::error::{other_error, BenchmarkResult};
use benchmark::execution::Target;
use benchmark::flow::Flow;
use benchmark::ibex::ibex_driver::saved_db_path;
use benchmark::ibex::ibex_process::{
    fetch_stats, get_ibex_server_pid, ibex_endpoint, report_metrics, IbexProcess, IBEX_PORT,
    METRICS_PORT,
};
use benchmark::ibex::{Ibex, Started, Stopped};
use benchmark::query::ProcessOutput;
use benchmark::scenario::Size;

fn drive<F: Flow>(flow: F, script: Vec<(Action, Reply)>) -> BenchmarkResult<F::Output> {
    let mut flow = flow;
    for (action, reply) in script {
        assert_eq!(flow.action(), Some(action));
        flow = flow.next(reply);
    }
    assert_eq!(flow.action(), None);
    flow.finish()
}

fn failed(text: &str) -> Reply {
    Reply::Failed(other_error(text))
}

fn process(monitor: bool, reporter: bool) -> IbexProcess {
    IbexProcess { monitor, reporter, dropped: false }
}

fn spawn(command: &str, args: &[&str]) -> Action {
    Action::SpawnCommand {
        command: command.to_string(),
        args: args.iter().map(|s| s.to_string()).collect(),
    }
}

fn ran() -> Reply {
    Reply::Process(ProcessOutput { success: true, code: Some(0), stdout: vec![], stderr: vec![] })
}

fn probe_for(path: &str) -> Action {
    Action::FileExists(path.to_string())
}

fn ensure(path: &str) -> Action {
    Action::EnsureDirectory(path.to_string())
}

fn stats() -> Action {
    Action::FetchStats("http://127.0.0.1:8088/api/stats".to_string())
}

fn counts(nodes: u64, relations: u64) -> Reply {
    Reply::Counts { nodes, relations }
}

const ENDPOINT: &str = "http://127.0.0.1:8088";

const DB: &str = "./ibex-data/db";

#[test]
fn test_saved_db_path() {
    assert_eq!(saved_db_path(Size::Small), "./ibex-data/small_db");
    assert_eq!(saved_db_path(Size::Medium), "./ibex-data/medium_db");
    assert_eq!(saved_db_path(Size::Large), "./ibex-data/large_db");
}

#[test]
fn the_endpoint_follows_the_environment() {
    assert_eq!(ibex_endpoint(None), ENDPOINT);
    assert_eq!(ibex_endpoint(Some("http://host:1")), "http://host:1");
    assert_ne!(IBEX_PORT, METRICS_PORT);
    assert_eq!(METRICS_PORT, 8080);
}

#[test]
fn the_size_is_asked_for_over_http() {
    assert_eq!(drive(fetch_stats(ENDPOINT), vec![(stats(), counts(3, 4))]), Ok((3, 4)));
    assert_eq!(
        drive(fetch_stats(ENDPOINT), vec![(stats(), failed("no"))]),
        Err(other_error("no"))
    );
    let ibex = Ibex { database: DB.to_string(), state: Started(process(true, true)) };
    assert_eq!(drive(ibex.graph_size(ENDPOINT), vec![(stats(), counts(1, 2))]), Ok((1, 2)));
}

#[test]
fn a_local_server_is_told_where_to_listen() {
    let monitor = Action::StartMonitor {
        target: Target::Ibex,
        command: "/bin/ibexdb".to_string(),
        args: ["server", "--database", DB, "--host", "127.0.0.1", "--port", "8088"]
            .iter()
            .map(|s| s.to_string())
            .collect(),
        restart_delay_secs: 5,
    };
    assert_eq!(
        drive(
            IbexProcess::new(DB),
            vec![
                (Action::StartMetricsReporter(Target::Ibex), Reply::Done),
                (Action::EnvIsSet("IBEX_EXTERNAL".to_string()), Reply::Flag(false)),
                (Action::FindIbexBinary, Reply::Text("/bin/ibexdb".to_string())),
                (monitor, Reply::Done),
            ]
        ),
        Ok(process(true, true))
    );
    assert_eq!(
        drive(
            IbexProcess::new(DB),
            vec![
                (Action::StartMetricsReporter(Target::Ibex), Reply::Done),
                (Action::EnvIsSet("IBEX_EXTERNAL".to_string()), Reply::Flag(false)),
                (Action::FindIbexBinary, failed("none")),
                (Action::StopTask(Task::MetricsReporter), Reply::Done),
            ]
        ),
        Err(other_error("none"))
    );
}

#[test]
fn an_external_ibexdb_is_only_reported() {
    assert_eq!(
        drive(
            IbexProcess::new(DB),
            vec![
                (Action::StartMetricsReporter(Target::Ibex), Reply::Done),
                (Action::EnvIsSet("IBEX_EXTERNAL".to_string()), Reply::Flag(true)),
            ]
        ),
        Ok(process(false, true))
    );
}

#[test]
fn the_reporter_is_stopped_before_the_server() {
    assert_eq!(
        drive(
            process(true, true).terminate(),
            vec![
                (Action::StopTask(Task::MetricsReporter), failed("gone")),
                (Action::StopTask(Task::Monitor), Reply::Done),
            ]
        ),
        Ok(())
    );
    let mut whole = process(false, true);
    let first = whole.drop().unwrap();
    assert_eq!(
        drive(first, vec![(Action::StopTask(Task::MetricsReporter), Reply::Done)]),
        Ok(())
    );
    assert_eq!(drive(whole.drop().unwrap(), vec![]), Ok(()));
    let mut apart = IbexProcess { dropped: true, ..process(true, true) };
    assert_eq!(apart.drop(), None);
}

#[test]
fn ibexdb_starts_on_its_database() {
    let p = process(true, true);
    let result = drive(
        Ibex::new().start(),
        vec![
            (ensure("./ibex-data"), Reply::Done),
            (ensure(DB), Reply::Done),
            (Action::StartIbexProcess(DB.to_string()), Reply::Ibex(p)),
            (Action::WaitForIbex, Reply::Done),
        ],
    );
    match result {
        Ok(ibex) => {
            assert_eq!(ibex.database, DB);
            assert_eq!(ibex.state.0, p);
        }
        Err(e) => panic!("{:?}", e),
    }
    let result = drive(
        Ibex::new().start(),
        vec![
            (ensure("./ibex-data"), Reply::Done),
            (ensure(DB), Reply::Done),
            (Action::StartIbexProcess(DB.to_string()), Reply::Ibex(p)),
            (Action::WaitForIbex, failed("late")),
            (Action::EndIbexProcess(p), Reply::Done),
        ],
    );
    assert_eq!(result.err(), Some(other_error("late")));
    let result =
        drive(Ibex::new().start(), vec![(ensure("./ibex-data"), failed("no"))]);
    assert_eq!(result.err(), Some(other_error("no")));
}

#[test]
fn stopping_ends_the_server() {
    let p = process(true, true);
    let ibex = Ibex { database: DB.to_string(), state: Started(p) };
    let stopped = drive(ibex.stop(), vec![(Action::EndIbexProcess(p), Reply::Done)]);
    assert_eq!(stopped.ok().map(|i| i.database), Some(DB.to_string()));
}

#[test]
fn the_wait_for_ibexdb_is_bounded() {
    let wait = || Ibex::<Stopped>::wait_for_ready(ENDPOINT);
    assert_eq!(drive(wait(), vec![(stats(), counts(0, 0))]), Ok(()));
    let mut script = vec![];
    for attempt in 1..=20 {
        script.push((stats(), failed("no")));
        if attempt < 20 {
            script.push((Action::Sleep(500), Reply::Done));
        }
    }
    assert_eq!(
        drive(wait(), script),
        Err(other_error("ibexdb server not ready after 20 attempts"))
    );
    assert_eq!(
        drive(
            wait(),
            vec![
                (stats(), failed("no")),
                (Action::Sleep(500), Reply::Done),
                (stats(), counts(0, 0)),
            ]
        ),
        Ok(())
    );
}

#[test]
fn cleaning_leaves_an_empty_database() {
    assert_eq!(
        drive(
            Ibex::new().clean_db(),
            vec![
                (probe_for(DB), Reply::Flag(true)),
                (spawn("rm", &["-rf", DB]), ran()),
                (ensure(DB), Reply::Done),
            ]
        ),
        Ok(())
    );
    assert_eq!(
        drive(
            Ibex::new().clean_db(),
            vec![(probe_for(DB), Reply::Flag(false)), (ensure(DB), failed("no"))]
        ),
        Err(other_error("no"))
    );
}

#[test]
fn saving_replaces_an_earlier_copy() {
    let saved = "./ibex-data/small_db";
    assert_eq!(
        drive(
            Ibex::new().save_db(Size::Small),
            vec![
                (probe_for(saved), Reply::Flag(true)),
                (spawn("rm", &["-rf", saved]), ran()),
                (spawn("cp", &["-r", DB, saved]), ran()),
            ]
        ),
        Ok(())
    );
    assert_eq!(
        drive(
            Ibex::new().save_db(Size::Small),
            vec![
                (probe_for(saved), Reply::Flag(false)),
                (spawn("cp", &["-r", DB, saved]), failed("full")),
            ]
        ),
        Err(other_error("full"))
    );
}

#[test]
fn restoring_brings_the_copy_back() {
    let saved = "./ibex-data/large_db";
    assert_eq!(
        drive(
            Ibex::new().restore_db(Size::Large),
            vec![
                (probe_for(DB), Reply::Flag(true)),
                (spawn("rm", &["-rf", DB]), ran()),
                (probe_for(saved), Reply::Flag(true)),
                (spawn("cp", &["-r", saved, DB]), ran()),
            ]
        ),
        Ok(())
    );
    assert_eq!(
        drive(
            Ibex::new().restore_db(Size::Large),
            vec![(probe_for(DB), Reply::Flag(false)), (probe_for(saved), Reply::Flag(false))]
        ),
        Ok(())
    );
}

#[test]
fn a_missing_copy_is_an_error() {
    let check = || Ibex::new().dump_exists_or_error(Size::Medium);
    let probe = || probe_for("./ibex-data/medium_db");
    assert_eq!(drive(check(), vec![(probe(), Reply::Flag(true))]), Ok(()));
    assert_eq!(
        drive(check(), vec![(probe(), Reply::Flag(false))]),
        Err(other_error("Dump directory not found: ./ibex-data/medium_db"))
    );
}

#[test]
fn a_report_of_ibexdb_sets_its_gauges() {
    let set = |gauge: Gauge, value: i64| Action::SetGauge { gauge, value };
    let fill = || Action::FillMemoryAndCpuMetrics(Target::Ibex);
    assert_eq!(
        drive(
            report_metrics(ENDPOINT),
            vec![
                (stats(), counts(3, 4)),
                (set(Gauge::IbexNodes, 3), Reply::Done),
                (set(Gauge::IbexRelationships, 4), Reply::Done),
                (fill(), Reply::Done),
            ]
        ),
        Ok(())
    );
    assert_eq!(
        drive(report_metrics(ENDPOINT), vec![(stats(), failed("no")), (fill(), failed("poisoned"))]),
        Err(other_error("poisoned"))
    );
    let named = |pid: u32, name: &str| (pid, Some(name.to_string()));
    assert_eq!(get_ibex_server_pid(&vec![named(8, "ibexdb-server"), named(9, "ibexdb")]), Some(9));
}
