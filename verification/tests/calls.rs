use benchmark::action::{Action, Gauge, Reply};
use benchmark::calls::{call, Surroundings};
use benchmark::error::{other_error, BenchmarkResult};
use benchmark::falkor::falkor_process::{FalkorProcess, FalkorSettings};
use benchmark::flow::Flow;
use benchmark::query::{Bolt, BoltValue, Msg, PreparedQuery, QueryType};
use benchmark::scenario::{Size, Vendor};

fn around(offset_ms: i64) -> Surroundings {
    Surroundings {
        offset_ms,
        endpoint: "http://e".to_string(),
        settings: FalkorSettings { current_dir: None, log_path: None, falkor_path: None },
    }
}

fn answer(action: Action, script: Vec<(Action, Reply)>) -> BenchmarkResult<Reply> {
    let mut flow = call(action, around(-4)).ok().expect("an operation carries this out");
    for (action, reply) in script {
        assert_eq!(flow.action(), Some(action));
        flow = flow.next(reply);
    }
    assert_eq!(flow.action(), None);
    flow.finish()
}

fn failed(text: &str) -> Reply {
    Reply::Failed(other_error(text))
}

fn execute(vendor: Vendor) -> Action {
    Action::ExecuteReceived {
        vendor,
        worker_id: "w".to_string(),
        msg: Msg {
            due_ms: 7,
            payload: PreparedQuery {
                q_name: "q".to_string(),
                q_type: QueryType::Read,
                cypher: "RETURN 1".to_string(),
                bolt: bolt(),
            },
        },
        simulate: None,
    }
}

fn bolt() -> Bolt {
    Bolt {
        query: "RETURN $n".to_string(),
        params: vec![("n".to_string(), BoltValue::Integer(1))],
    }
}

fn counted(vendor: &str) -> Action {
    let labels = [vendor, "w", "", "q", "", ""];
    Action::CountOperation(labels.iter().map(|s| s.to_string()).collect())
}

#[test]
fn a_received_query_goes_to_its_database() {
    let note = |gauge: Gauge| (Action::SetGauge { gauge, value: -4 }, Reply::Done);
    assert_eq!(
        answer(
            execute(Vendor::Neo4j),
            vec![
                note(Gauge::Neo4jMsgDeadlineOffset),
                (Action::Neo4jSend { bolt: bolt(), timeout_secs: 60 }, Reply::Done),
                (counted("neo4j"), Reply::Done),
                (Action::Neo4jDrain, Reply::Done),
            ]
        ),
        Ok(Reply::Done)
    );
    let falkor = Action::FalkorSend {
        read_only: true,
        query: "RETURN 1".to_string(),
        server_timeout_ms: None,
        timeout_secs: 60,
    };
    assert_eq!(
        answer(
            execute(Vendor::Falkor),
            vec![
                note(Gauge::FalkorMsgDeadlineOffset),
                (falkor, Reply::Done),
                (counted("falkor"), Reply::Done),
            ]
        ),
        Ok(Reply::Done)
    );
    let ibex = Action::IbexSend { query: "RETURN 1".to_string(), timeout_secs: 60 };
    assert_eq!(
        answer(
            execute(Vendor::Ibex),
            vec![
                note(Gauge::IbexMsgDeadlineOffset),
                (ibex, Reply::Done),
                (counted("ibex"), Reply::Done),
            ]
        ),
        Ok(Reply::Done)
    );
}

#[test]
fn a_value_comes_with_the_answer() {
    let stats = || Action::FetchStats("http://e/api/stats".to_string());
    let counts = || Reply::Counts { nodes: 3, relations: 4 };
    assert_eq!(answer(Action::GraphSize(Vendor::Ibex), vec![(stats(), counts())]), Ok(counts()));
    assert_eq!(
        answer(Action::GraphSize(Vendor::Ibex), vec![(stats(), failed("no"))]),
        Ok(failed("no"))
    );
    let nodes = Action::Neo4jCount("MATCH (n) RETURN count(n) as count".to_string());
    assert_eq!(
        answer(Action::GraphSize(Vendor::Neo4j), vec![(nodes, failed("no"))]),
        Ok(failed("no"))
    );
}

#[test]
fn dumps_are_those_of_falkor() {
    let mode = || (Action::EnvIsSet("FALKOR_EXTERNAL".to_string()), Reply::Flag(false));
    let dump = || "./redis-data/small_dump.rdb".to_string();
    let data = || "./redis-data/dump.rdb".to_string();
    let no_server = || (Action::FindProcess("redis-server".to_string()), failed("none"));
    let copy = |from: String, to: String| (Action::CopyFile { from, to }, Reply::Done);
    assert_eq!(
        answer(
            Action::CheckDump(Size::Small),
            vec![mode(), (Action::FileExists(dump()), Reply::Flag(true))]
        ),
        Ok(Reply::Done)
    );
    assert_eq!(
        answer(
            Action::RestoreDump(Size::Small),
            vec![
                mode(),
                no_server(),
                (Action::FileExists(dump()), Reply::Flag(true)),
                copy(dump(), data()),
            ]
        ),
        Ok(Reply::Done)
    );
    assert_eq!(
        answer(Action::SaveDump(Size::Small), vec![mode(), no_server(), copy(data(), dump())]),
        Ok(Reply::Done)
    );
    assert_eq!(
        answer(Action::CleanFalkor, vec![(Action::FileExists(data()), Reply::Flag(false))]),
        Ok(Reply::Done)
    );
}

#[test]
fn a_process_out_of_use_needs_no_call() {
    let process = |dropped: bool| FalkorProcess {
        monitor: false,
        reporter: false,
        ping_server: false,
        dropped,
    };
    assert_eq!(answer(Action::EndFalkorProcess(process(true)), vec![]), Ok(Reply::Done));
    assert_eq!(answer(Action::EndFalkorProcess(process(false)), vec![]), Ok(Reply::Done));
}

#[test]
fn workers_are_started_as_their_database_asks() {
    let start = |vendor: Vendor| Action::StartWorker { vendor, worker: 5, simulate: Some(2) };
    let spawn = |vendor: Vendor| Action::SpawnWorker { vendor, worker: 5, simulate: Some(2) };
    assert_eq!(
        answer(start(Vendor::Neo4j), vec![(spawn(Vendor::Neo4j), Reply::Done)]),
        Ok(Reply::Done)
    );
    assert_eq!(
        answer(
            start(Vendor::Falkor),
            vec![(Action::ConnectFalkor, Reply::Done), (spawn(Vendor::Falkor), Reply::Done)]
        ),
        Ok(Reply::Done)
    );
}

#[test]
fn what_is_for_the_world_comes_back() {
    for action in [Action::Sleep(3), Action::Receive, Action::StartFalkor] {
        assert!(call(action, around(0)).is_err());
    }
    assert_eq!(call(Action::Sleep(3), around(0)).err(), Some(Action::Sleep(3)));
}
