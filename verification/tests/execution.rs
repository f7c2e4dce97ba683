use benchmark::action::{Action, Gauge, Reply};
use benchmark::error::{other_error, BenchmarkResult};
use benchmark::execution::{labels, read_reply, Answer};
use benchmark::falkor::FalkorBenchmarkClient;
use benchmark::flow::Flow;
use benchmark::ibex::IbexBenchmarkClient;
use benchmark::query::{Bolt, PreparedQuery, QueryType};
use benchmark::scenario::Vendor;

fn drive<F: Flow>(flow: F, script: Vec<(Action, Reply)>) -> BenchmarkResult<F::Output> {
    let mut flow = flow;
    for (action, reply) in script {
        assert_eq!(flow.action(), Some(action));
        flow = flow.next(reply);
    }
    assert_eq!(flow.action(), None);
    flow.finish()
}

fn failed(text: &str) -> Reply {
    Reply::Failed(other_error(text))
}

fn bolt() -> Bolt {
    Bolt { query: "RETURN 1".to_string(), params: vec![] }
}

fn prepared(q_type: QueryType) -> PreparedQuery {
    PreparedQuery {
        q_name: "name".to_string(),
        q_type,
        cypher: "RETURN 1".to_string(),
        bolt: bolt(),
    }
}

fn counted(vendor: &str, worker: &str, name: &str) -> Vec<String> {
    [vendor, worker, "", name, "", ""].iter().map(|s| s.to_string()).collect()
}

fn query_failed() -> Reply {
    Reply::QueryFailed { kind: "Kind".to_string(), text: "why".to_string() }
}

fn query_timed_out() -> Reply {
    Reply::QueryTimedOut { kind: "Elapsed".to_string(), text: "late".to_string() }
}

fn falkor_send(read_only: bool, server_timeout_ms: Option<u64>, timeout_secs: u64) -> Action {
    Action::FalkorSend {
        read_only,
        query: "RETURN 1".to_string(),
        server_timeout_ms,
        timeout_secs,
    }
}

#[test]
fn operations_are_counted_under_six_labels() {
    assert_eq!(labels("falkor", "3", "", "q"), counted("falkor", "3", "q"));
    assert_eq!(labels("a", "b", "c", "d"), vec!["a", "b", "c", "d", "", ""]);
}

#[test]
fn an_answer_becomes_a_result() {
    let answer = |kind: &str, text: &str| (kind.to_string(), text.to_string());
    assert_eq!(read_reply("q", Answer::Rows), Ok(()));
    let (kind, text) = answer("K", "t");
    assert_eq!(
        read_reply("q", Answer::Failed { kind, text }),
        Err(other_error("Error (type K) executing query: q, the error is: t"))
    );
    let (kind, text) = answer("E", "u");
    assert_eq!(
        read_reply("q", Answer::TimedOut { kind, text }),
        Err(other_error("Error (type E) executing query: q, the error is: u"))
    );
}

#[test]
fn a_late_query_is_sent_at_once() {
    let client = FalkorBenchmarkClient;
    let note = |value: i64| Action::SetGauge { gauge: Gauge::FalkorMsgDeadlineOffset, value };
    let count = || Action::CountOperation(counted("falkor", "4", "name"));
    for offset in [0, -5, i64::MIN] {
        let query = prepared(QueryType::Read);
        assert_eq!(
            drive(
                client.execute_prepared_query("4", &query, offset, None),
                vec![
                    (note(offset), Reply::Done),
                    (falkor_send(true, None, 60), Reply::Done),
                    (count(), Reply::Done),
                ]
            ),
            Ok(())
        );
    }
}

#[test]
fn an_early_query_waits_and_a_failed_one_is_counted_twice() {
    let client = FalkorBenchmarkClient;
    let query = prepared(QueryType::Write);
    assert_eq!(
        drive(
            client.execute_prepared_query("4", &query, 250, None),
            vec![
                (
                    Action::SetGauge { gauge: Gauge::FalkorMsgDeadlineOffset, value: 250 },
                    Reply::Done
                ),
                (Action::Sleep(250), Reply::Done),
                (falkor_send(false, None, 60), query_failed()),
                (Action::CountOperation(counted("falkor", "4", "name")), Reply::Done),
                (Action::CountOperationError(counted("falkor", "4", "name")), Reply::Done),
            ]
        ),
        Err(other_error(
            "Error (type Kind) executing query: RETURN 1, the error is: why"
        ))
    );
}

#[test]
fn a_query_without_an_answer_is_counted_twice() {
    let client = IbexBenchmarkClient;
    let query = prepared(QueryType::Read);
    assert_eq!(
        drive(
            client.execute_prepared_query("w", &query, 0, None),
            vec![
                (
                    Action::SetGauge { gauge: Gauge::IbexMsgDeadlineOffset, value: 0 },
                    Reply::Done
                ),
                (
                    Action::IbexSend { query: "RETURN 1".to_string(), timeout_secs: 60 },
                    query_timed_out()
                ),
                (Action::CountOperation(counted("ibex", "w", "name")), Reply::Done),
                (Action::CountOperationError(counted("ibex", "w", "name")), Reply::Done),
            ]
        ),
        Err(other_error(
            "Error (type Elapsed) executing query: RETURN 1, the error is: late"
        ))
    );
}

#[test]
fn a_simulated_query_is_not_sent() {
    let client = FalkorBenchmarkClient;
    let query = prepared(QueryType::Read);
    let note = |value: i64| Action::SetGauge { gauge: Gauge::FalkorMsgDeadlineOffset, value };
    assert_eq!(
        drive(
            client.execute_prepared_query("4", &query, 0, Some(0)),
            vec![(note(0), Reply::Done)]
        ),
        Ok(())
    );
    assert_eq!(
        drive(
            client.execute_prepared_query("4", &query, 7, Some(9)),
            vec![
                (note(7), Reply::Done),
                (Action::Sleep(7), Reply::Done),
                (Action::Sleep(9), Reply::Done),
            ]
        ),
        Ok(())
    );
}

#[test]
fn a_query_is_counted_before_it_is_sent() {
    let falkor = FalkorBenchmarkClient;
    let count = || Action::CountOperation(counted("falkor", "main", "q"));
    let execute = || falkor._execute_query("main", "q", "RETURN 1");
    assert_eq!(
        drive(
            execute(),
            vec![(count(), Reply::Done), (falkor_send(false, Some(5000), 5), Reply::Done)]
        ),
        Ok(())
    );
    assert_eq!(
        drive(
            execute(),
            vec![
                (count(), Reply::Done),
                (falkor_send(false, Some(5000), 5), query_failed()),
                (Action::CountOperationError(counted("falkor", "main", "q")), Reply::Done),
            ]
        ),
        Err(other_error(
            "Error (type Kind) executing query: RETURN 1, the error is: why"
        ))
    );
    let ibex = IbexBenchmarkClient;
    assert_eq!(
        drive(
            ibex._execute_query("main", "q", "RETURN 1"),
            vec![
                (Action::CountOperation(counted("ibex", "main", "q")), Reply::Done),
                (
                    Action::IbexSend { query: "RETURN 1".to_string(), timeout_secs: 5 },
                    query_timed_out()
                ),
                (Action::CountOperationError(counted("ibex", "main", "q")), Reply::Done),
            ]
        ),
        Err(other_error(
            "Error (type Elapsed) executing query: RETURN 1, the error is: late"
        ))
    );
}

#[test]
fn queries_are_executed_in_order_whatever_fails() {
    let query = |name: &str| PreparedQuery {
        q_name: name.to_string(),
        q_type: QueryType::Read,
        cypher: format!("RETURN {}", name),
        bolt: bolt(),
    };
    let execute = |vendor: Vendor, name: &str| Action::ExecuteQuery {
        vendor,
        spawn_id: "12".to_string(),
        name: name.to_string(),
        query: format!("RETURN {}", name),
    };
    let client = FalkorBenchmarkClient;
    assert_eq!(
        drive(
            client.execute_queries(12, Some(vec![query("1"), query("2"), query("3")])),
            vec![
                (execute(Vendor::Falkor, "1"), Reply::Done),
                (execute(Vendor::Falkor, "2"), failed("no")),
                (execute(Vendor::Falkor, "3"), Reply::Done),
            ]
        ),
        Ok(())
    );
    assert_eq!(drive(client.execute_queries(12, None), vec![]), Ok(()));
    let client = IbexBenchmarkClient;
    assert_eq!(
        drive(
            client.execute_queries(12, Some(vec![query("1")])),
            vec![(execute(Vendor::Ibex, "1"), failed("no"))]
        ),
        Ok(())
    );
}
