use benchmark::action::{Action, Reply, Task};
use benchmark::error::{other_error, BenchmarkResult};
use benchmark::execution::Target;
use benchmark::falkor::falkor_process::FalkorProcess;
use benchmark::falkor::falkor_server::{server_call, FalkorServer};
use benchmark::falkor::{Falkor, Started};
use benchmark::flow::Flow;
use benchmark::jobs::{job, Job};
use benchmark::runner::queries::{reading_reply, PrepareQueriesMetadata, ReadAction};
use benchmark::scenario::{open_data, open_indexes, Name, Size, Vendor};

fn drive<F: Flow>(flow: F, script: Vec<(Action, Reply)>) -> BenchmarkResult<F::Output> {
    let mut flow = flow;
    for (action, reply) in script {
        assert_eq!(flow.action(), Some(action));
        flow = flow.next(reply);
    }
    assert_eq!(flow.action(), None);
    flow.finish()
}

fn failed(text: &str) -> Reply {
    Reply::Failed(other_error(text))
}

fn process() -> FalkorProcess {
    FalkorProcess { monitor: true, reporter: true, ping_server: true, dropped: false }
}

fn stopped() -> FalkorServer {
    FalkorServer::Stopped(Falkor::new(Some("/w"), None))
}

fn started() -> FalkorServer {
    FalkorServer::Started(Falkor { path: "/w/falkordb.so".to_string(), state: Started(process()) })
}

fn serve(
    action: Action,
    server: FalkorServer,
    script: Vec<(Action, Reply)>,
) -> (Reply, FalkorServer) {
    let call = server_call(action, server).ok().expect("an action on the server");
    drive(call, script).unwrap()
}

fn wait() -> Action {
    Action::WaitForRedis { max_attempts: 10, delay_ms: 500 }
}

#[test]
fn a_spawned_worker_is_the_one_asked_for() {
    let spawn = Action::SpawnWorker { vendor: Vendor::Falkor, worker: 12, simulate: Some(3) };
    match job(spawn, "http://e") {
        Ok(Job::Work(worker)) => {
            assert_eq!(worker.vendor, Vendor::Falkor);
            assert_eq!(worker.worker_id, "12");
            assert_eq!(worker.simulate, Some(3));
            assert_eq!(worker.action(), Some(Action::Receive));
        }
        _ => panic!("a worker was asked for"),
    }
}

#[test]
fn jobs_are_for_their_actions() {
    match job(Action::ReadQueries("f".to_string()), "") {
        Ok(Job::Read(reader)) => {
            assert_eq!(reader.action(), Some(ReadAction::OpenFile("f".to_string())));
        }
        _ => panic!("a file was to be read"),
    }
    match job(Action::ImportStatements, "") {
        Ok(Job::Import(stream)) => assert_eq!(stream.action(), Some(Action::NextStatement)),
        _ => panic!("statements were to be run"),
    }
    match job(Action::StartMetricsReporter(Target::Falkor), "http://e") {
        Ok(Job::ReportFalkor(flow)) => assert_eq!(flow.action(), Some(Action::GraphInfo)),
        _ => panic!("FalkorDB was to be reported"),
    }
    match job(Action::StartMetricsReporter(Target::Ibex), "http://e") {
        Ok(Job::ReportIbex(flow)) => {
            let stats = "http://e/api/stats".to_string();
            assert_eq!(flow.action(), Some(Action::FetchStats(stats)));
        }
        _ => panic!("ibexdb was to be reported"),
    }
    match job(Action::StartPingServer, "") {
        Ok(Job::Ping(flow)) => assert_eq!(flow.action(), Some(Action::SleepOrStop(5000))),
        _ => panic!("the server was to be pinged"),
    }
    assert_eq!(job(Action::GraphInfo, "").err(), Some(Action::GraphInfo));
}

#[test]
fn backups_are_those_of_the_users() {
    for (action, path) in [
        (Action::RestoreNeo4j(Size::Small), "./backups/neo4j/users/small"),
        (Action::DumpNeo4j(Size::Large), "./backups/neo4j/users/large"),
    ] {
        let spec = match job(action, "") {
            Ok(Job::Restore(spec)) => spec,
            Ok(Job::Dump(spec)) => spec,
            _ => panic!("a backup was asked for"),
        };
        assert_eq!(spec.name, Name::Users);
        assert_eq!(spec.backup_path(), path);
    }
}

#[test]
fn what_was_read_is_handed_on() {
    let metadata = PrepareQueriesMetadata { size: 0, dataset: Size::Medium };
    let (reply, queries) = reading_reply(Ok((metadata, vec![])));
    assert_eq!(reply, Reply::Queries { size: 0, dataset: Size::Medium });
    assert!(queries.is_empty());
    assert_eq!(reading_reply(Err(other_error("no"))), (failed("no"), vec![]));
}

#[test]
fn the_cached_statements_are_opened() {
    let base = "https://s3.eu-west-1.amazonaws.com/deps.memgraph.io/dataset/pokec/benchmark/";
    let dir = || "./cache/falkor/users/small".to_string();
    let ensure = || (Action::EnsureDirectory(dir()), Reply::Done);
    let data = || format!("{}/pokec_small_import.cypher", dir());
    assert_eq!(
        drive(
            open_data(Vendor::Falkor, Size::Small),
            vec![
                ensure(),
                (Action::FileExists(data()), Reply::Flag(true)),
                (Action::OpenStatements(data()), Reply::Done),
            ]
        ),
        Ok(())
    );
    let download = |file: &str, to: String| Action::Download {
        url: format!("{}{}", base, file),
        file: to,
    };
    assert_eq!(
        drive(
            open_data(Vendor::Falkor, Size::Small),
            vec![
                ensure(),
                (Action::FileExists(data()), Reply::Flag(false)),
                (download("pokec_small_import.cypher", data()), failed("no page")),
            ]
        ),
        Err(other_error("no page"))
    );
    let indexes = || format!("{}/neo4j.cypher", dir());
    assert_eq!(
        drive(
            open_indexes(Vendor::Falkor, Size::Small),
            vec![
                ensure(),
                (Action::FileExists(indexes()), Reply::Flag(false)),
                (download("neo4j.cypher", indexes()), Reply::Done),
                (Action::OpenStatements(indexes()), failed("no file")),
            ]
        ),
        Err(other_error("no file"))
    );
}

#[test]
fn the_server_in_hand_is_started() {
    let (reply, server) = serve(
        Action::StartFalkor,
        stopped(),
        vec![(Action::StartFalkorProcess, Reply::Falkor(process())), (wait(), Reply::Done)],
    );
    assert_eq!(reply, Reply::Done);
    match server {
        FalkorServer::Started(falkor) => {
            assert_eq!(falkor.path, "/w/falkordb.so");
            assert_eq!(falkor.state.0, process());
        }
        _ => panic!("the server was started"),
    }
    let (reply, server) =
        serve(Action::StartFalkor, stopped(), vec![(Action::StartFalkorProcess, failed("no"))]);
    assert_eq!(reply, failed("no"));
    assert!(matches!(server, FalkorServer::Gone));
}

#[test]
fn the_server_in_hand_is_stopped() {
    let end = || (Action::EndFalkorProcess(process()), Reply::Done);
    let (reply, server) = serve(
        Action::StopFalkor,
        started(),
        vec![(Action::SaveRedis, Reply::Done), (wait(), Reply::Done), end()],
    );
    assert_eq!(reply, Reply::Done);
    assert!(matches!(server, FalkorServer::Stopped(_)));
    let (reply, server) =
        serve(Action::StopFalkor, started(), vec![(Action::SaveRedis, failed("no")), end()]);
    assert_eq!(reply, failed("no"));
    assert!(matches!(server, FalkorServer::Gone));
}

#[test]
fn only_a_started_server_is_let_go() {
    let end = (Action::EndFalkorProcess(process()), Reply::Done);
    let (reply, server) = serve(Action::DropFalkor, started(), vec![end]);
    assert_eq!(reply, Reply::Done);
    assert!(matches!(server, FalkorServer::Gone));
    let (reply, server) = serve(Action::DropFalkor, stopped(), vec![]);
    assert_eq!(reply, Reply::Done);
    assert!(matches!(server, FalkorServer::Stopped(_)));
    let stop = Action::StopTask(Task::Monitor);
    match server_call(stop, stopped()) {
        Err((action, _)) => assert_eq!(action, Action::StopTask(Task::Monitor)),
        Ok(_) => panic!("no action on the server"),
    }
}
