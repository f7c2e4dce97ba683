use benchmark::action::{Action, Gauge, Reply};
use benchmark::durations::import_histogram;
use benchmark::error::{other_error, BenchmarkError, BenchmarkResult};
use benchmark::flow::Flow;
use benchmark::neo4j_client::Neo4jClient;
use benchmark::query::{Bolt, BoltValue, PreparedQuery, QueryType};

fn drive<F: Flow>(flow: F, script: Vec<(Action, Reply)>) -> BenchmarkResult<F::Output> {
    let mut flow = flow;
    for (action, reply) in script {
        assert_eq!(flow.action(), Some(action));
        flow = flow.next(reply);
    }
    assert_eq!(flow.action(), None);
    flow.finish()
}

fn failed(text: &str) -> Reply {
    Reply::Failed(other_error(text))
}

fn bolt(query: &str) -> Bolt {
    Bolt {
        query: query.to_string(),
        params: vec![
            ("id".to_string(), BoltValue::Integer(7)),
            ("name".to_string(), BoltValue::Text("n".to_string())),
        ],
    }
}

fn query(text: &str) -> PreparedQuery {
    PreparedQuery {
        q_name: "name".to_string(),
        q_type: QueryType::Read,
        cypher: "RETURN 1".to_string(),
        bolt: bolt(text),
    }
}

fn prepared() -> PreparedQuery {
    query("MATCH (n {id: $id}) RETURN n")
}

fn note(value: i64) -> Action {
    Action::SetGauge { gauge: Gauge::Neo4jMsgDeadlineOffset, value }
}

fn labels(kind: &str) -> Vec<String> {
    ["neo4j", "w", kind, "name", "", ""].iter().map(|s| s.to_string()).collect()
}

fn count() -> Action {
    Action::CountOperation(labels(""))
}

fn send() -> Action {
    Action::Neo4jSend { bolt: bolt("MATCH (n {id: $id}) RETURN n"), timeout_secs: 60 }
}

#[test]
fn rows_are_read_after_the_query_is_counted() {
    assert_eq!(
        drive(
            Neo4jClient.execute_prepared_query("w", &prepared(), 3, None),
            vec![
                (note(3), Reply::Done),
                (Action::Sleep(3), Reply::Done),
                (send(), Reply::Done),
                (count(), Reply::Done),
                (Action::Neo4jDrain, Reply::Done),
            ]
        ),
        Ok(())
    );
}

#[test]
fn failures_are_counted_under_their_type() {
    let error = || BenchmarkError::Neo4rsError("no".to_string());
    assert_eq!(
        drive(
            Neo4jClient.execute_prepared_query("w", &prepared(), -3, None),
            vec![
                (note(-3), Reply::Done),
                (send(), Reply::Failed(error())),
                (count(), Reply::Done),
                (Action::CountOperationError(labels("error")), Reply::Done),
            ]
        ),
        Err(error())
    );
    assert_eq!(
        drive(
            Neo4jClient.execute_prepared_query("w", &prepared(), 0, None),
            vec![
                (note(0), Reply::Done),
                (send(), Reply::TimedOut),
                (count(), Reply::Done),
                (Action::CountOperationError(labels("timeout")), Reply::Done),
            ]
        ),
        Err(other_error("Timeout"))
    );
}

#[test]
fn a_simulated_bolt_query_is_not_sent() {
    assert_eq!(
        drive(
            Neo4jClient.execute_prepared_query("w", &prepared(), 0, Some(0)),
            vec![(note(0), Reply::Done)]
        ),
        Ok(())
    );
    assert_eq!(
        drive(
            Neo4jClient.execute_prepared_query("w", &prepared(), 1, Some(2)),
            vec![
                (note(1), Reply::Done),
                (Action::Sleep(1), Reply::Done),
                (Action::Sleep(2), Reply::Done),
            ]
        ),
        Ok(())
    );
}

#[test]
fn a_graph_without_rows_is_empty() {
    let nodes = || Action::Neo4jCount("MATCH (n) RETURN count(n) as count".to_string());
    let relations =
        || Action::Neo4jCount("MATCH ()-[r]->() RETURN count(r) as count".to_string());
    assert_eq!(
        drive(
            Neo4jClient.graph_size(),
            vec![(nodes(), Reply::Count(Some(7))), (relations(), Reply::Count(Some(9)))]
        ),
        Ok((7, 9))
    );
    assert_eq!(
        drive(
            Neo4jClient.graph_size(),
            vec![(nodes(), Reply::Count(None)), (relations(), Reply::Count(None))]
        ),
        Ok((0, 0))
    );
    assert_eq!(
        drive(
            Neo4jClient.graph_size(),
            vec![(nodes(), Reply::Count(None)), (relations(), failed("no"))]
        ),
        Err(other_error("no"))
    );
}

#[test]
fn the_first_failure_ends_an_iteration() {
    let execute = |text: &str| Action::Neo4jExecute(bolt(text));
    assert_eq!(
        drive(
            Neo4jClient.execute_query_iterator(vec![query("A"), query("B")]),
            vec![(execute("A"), Reply::Done), (execute("B"), Reply::Done)]
        ),
        Ok(())
    );
    assert_eq!(
        drive(
            Neo4jClient.execute_query_iterator(vec![query("A"), query("B"), query("C")]),
            vec![(execute("A"), Reply::Done), (execute("B"), failed("no"))]
        ),
        Err(other_error("no"))
    );
    assert_eq!(drive(Neo4jClient.execute_query_iterator(vec![]), vec![]), Ok(()));
}

#[test]
fn each_statement_is_executed_and_timed() {
    let mut histogram = import_histogram().unwrap();
    let mut stream = Neo4jClient.execute_query_stream();
    let line = |s: &str| Reply::Line(s.to_string());
    let script = vec![
        (Action::NextStatement, line("  ")),
        (Action::NextStatement, line(" CREATE (n);")),
        (Action::Neo4jStatement(" CREATE (n);".to_string()), Reply::Took(515)),
        (Action::NextStatement, Reply::LineFailed(other_error("broken"))),
        (Action::NextStatement, line(";")),
        (Action::NextStatement, line("RETURN 1")),
        (Action::Neo4jStatement("RETURN 1".to_string()), Reply::Took((1u128 << 64) + 3)),
        (Action::NextStatement, Reply::End),
    ];
    for (action, reply) in script {
        assert_eq!(stream.action(), Some(action));
        stream = stream.next(reply, &mut histogram);
    }
    assert_eq!(stream.action(), None);
    assert_eq!(stream.finish(), Ok(()));
    let counted: Vec<(usize, u64)> =
        histogram.as_slice().iter().copied().enumerate().filter(|(_, n)| *n > 0).collect();
    assert_eq!(counted, vec![(3, 1), (384, 1)]);
}

#[test]
fn a_failed_statement_ends_the_stream() {
    let mut histogram = import_histogram().unwrap();
    let stream = Neo4jClient.execute_query_stream();
    let stream = stream.next(Reply::Line("x".to_string()), &mut histogram);
    let stream = stream.next(failed("no"), &mut histogram);
    assert_eq!(stream.action(), None);
    assert_eq!(stream.finish(), Err(other_error("no")));
    assert!(histogram.as_slice().iter().all(|n| *n == 0));
}
