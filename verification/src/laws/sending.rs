//! Queries that are sent to a database.
use vstd::prelude::*;
use crate::action::{Gauge, Reply, Request};
use crate::error::BenchmarkError;
use crate::execution::{
    Answer, ExecuteQueries, ExecuteQuery, ExecuteStage, SendPrepared, SendStage, Target,
};
use crate::flow;
use crate::flow::Flow;
use crate::neo4j_client::{BoltAnswer, BoltStage, ExecuteAll, Neo4jGraphSize, SendBolt};
use crate::query::BoltView;
use crate::scenario::Vendor;

verus! {

// ---------------------------------------------------------------------------
// FalkorDB and ibexdb

/// The name under which operations on the database are counted.
pub open spec fn counted_as(target: Target) -> Seq<char> {
    if target == Target::Falkor {
        "falkor"@
    } else {
        "ibex"@
    }
}

/// The gauge for how late a query for the database is.
pub open spec fn lateness(target: Target) -> Gauge {
    if target == Target::Falkor {
        Gauge::FalkorMsgDeadlineOffset
    } else {
        Gauge::IbexMsgDeadlineOffset
    }
}

/// A query on its way to the database.
pub open spec fn sent(
    target: Target,
    read_only: bool,
    query: Seq<char>,
    server_timeout_ms: Option<u64>,
    timeout_secs: u64,
) -> Request {
    if target == Target::Falkor {
        Request::FalkorSend { read_only, query, server_timeout_ms, timeout_secs }
    } else {
        Request::IbexSend { query, timeout_secs }
    }
}

/// A prepared query that is not simulated is sent as it is, read-only where it reads, and
/// has a minute to be answered. Its lateness is noted first; one that is early waits for as
/// long as it is early. Once it is answered it is counted, and it succeeds.
pub proof fn answered_query_succeeds(flow: SendPrepared)
    requires
        flow.stage == SendStage::Noting,
        flow.simulate is None,
    ensures
        ({
            let note = Request::SetGauge { gauge: lateness(flow.target), value: flow.offset_ms };
            let send = sent(flow.target, flow.read_only, flow.query@, None, 60);
            let labels = seq![
                counted_as(flow.target),
                flow.worker_id@,
                ""@,
                flow.q_name@,
                ""@,
                ""@,
            ];
            &&& flow.offset_ms <= 0 ==> flow::ends(
                flow,
                seq![
                    (note, Reply::Done),
                    (send, Reply::Done),
                    (Request::CountOperation(labels), Reply::Done),
                ],
                Ok(()),
            )
            &&& flow.offset_ms > 0 ==> flow::ends(
                flow,
                seq![
                    (note, Reply::Done),
                    (Request::Sleep(flow.offset_ms as u64), Reply::Done),
                    (send, Reply::Done),
                    (Request::CountOperation(labels), Reply::Done),
                ],
                Ok(()),
            )
        }),
{
    reveal_with_fuel(flow::follows_from, 6);
    reveal_with_fuel(flow::played_from, 6);
}

/// A prepared query that the database answers with an error, or not in time, is counted
/// once as an operation and once as a failed one, under the same labels, and the error that
/// is given names the kind of the error, the query and the error.
pub proof fn unanswered_query_fails(flow: SendPrepared, kind: String, text: String, late: bool)
    requires
        flow.stage == SendStage::Noting,
        flow.simulate is None,
    ensures
        ({
            let note = Request::SetGauge { gauge: lateness(flow.target), value: flow.offset_ms };
            let send = sent(flow.target, flow.read_only, flow.query@, None, 60);
            let labels = seq![
                counted_as(flow.target),
                flow.worker_id@,
                ""@,
                flow.q_name@,
                ""@,
                ""@,
            ];
            let answer = if late {
                Reply::QueryTimedOut { kind, text }
            } else {
                Reply::QueryFailed { kind, text }
            };
            let said = "Error (type "@ + kind@ + ") executing query: "@ + flow.query@
                + ", the error is: "@ + text@;
            &&& flow.offset_ms <= 0 ==> flow::ends_badly(
                flow,
                seq![
                    (note, Reply::Done),
                    (send, answer),
                    (Request::CountOperation(labels), Reply::Done),
                    (Request::CountOperationError(labels), Reply::Done),
                ],
                said,
            )
            &&& flow.offset_ms > 0 ==> flow::ends_badly(
                flow,
                seq![
                    (note, Reply::Done),
                    (Request::Sleep(flow.offset_ms as u64), Reply::Done),
                    (send, answer),
                    (Request::CountOperation(labels), Reply::Done),
                    (Request::CountOperationError(labels), Reply::Done),
                ],
                said,
            )
        }),
{
    reveal_with_fuel(flow::follows_from, 7);
    reveal_with_fuel(flow::played_from, 7);
}

/// A simulated query is noted and waits like any other; then a pause of the given length
/// stands for it, and it succeeds without having been sent or counted.
pub proof fn simulated_query_pauses(flow: SendPrepared, delay: usize)
    requires
        flow.stage == SendStage::Noting,
        flow.simulate == Some(delay),
    ensures
        ({
            let note = Request::SetGauge { gauge: lateness(flow.target), value: flow.offset_ms };
            let wait = Request::Sleep(flow.offset_ms as u64);
            let pause = Request::Sleep(delay as u64);
            &&& flow.offset_ms <= 0 && delay == 0 ==> flow::ends(
                flow,
                seq![(note, Reply::Done)],
                Ok(()),
            )
            &&& flow.offset_ms <= 0 && delay > 0 ==> flow::ends(
                flow,
                seq![(note, Reply::Done), (pause, Reply::Done)],
                Ok(()),
            )
            &&& flow.offset_ms > 0 && delay == 0 ==> flow::ends(
                flow,
                seq![(note, Reply::Done), (wait, Reply::Done)],
                Ok(()),
            )
            &&& flow.offset_ms > 0 && delay > 0 ==> flow::ends(
                flow,
                seq![(note, Reply::Done), (wait, Reply::Done), (pause, Reply::Done)],
                Ok(()),
            )
        }),
{
    reveal_with_fuel(flow::follows_from, 5);
    reveal_with_fuel(flow::played_from, 5);
}

/// A query that is not simulated succeeds only where it was sent and rows came back,
/// whatever the replies are.
pub proof fn success_means_an_answer(flow: SendPrepared, replies: Seq<Reply>)
    requires
        flow.stage == SendStage::Noting,
        flow.simulate is None,
        flow::run(flow, replies).gives(Ok(())),
    ensures
        exists|i: int|
            0 <= i < replies.len() && replies[i] is Done && (#[trigger] flow::run(
                flow,
                replies.take(i),
            )).request() == Some(sent(flow.target, flow.read_only, flow.query@, None, 60)),
{
    lemma_answered(flow, replies);
}

proof fn lemma_answered(flow: SendPrepared, replies: Seq<Reply>)
    requires
        flow.stage == SendStage::Noting,
        flow.simulate is None,
    ensures
        ({
            let later = flow::run(flow, replies);
            &&& later == (SendPrepared { stage: later.stage, ..flow })
            &&& !(later.stage is Simulating)
            &&& later.stage matches SendStage::CountingError(answer) ==> !(answer is Rows)
            &&& later.stage == SendStage::Counting(Answer::Rows) || later.stage == SendStage::Ended(
                Answer::Rows,
            ) ==> exists|i: int|
                0 <= i < replies.len() && replies[i] is Done && (#[trigger] flow::run(
                    flow,
                    replies.take(i),
                )).request() == Some(sent(flow.target, flow.read_only, flow.query@, None, 60))
        }),
    decreases replies.len(),
{
    broadcast use flow::group_flow;

    if replies.len() == 0 {
        assert(replies =~= Seq::empty());
    } else {
        let before = replies.drop_last();
        let there = flow::run(flow, before);
        let send = sent(flow.target, flow.read_only, flow.query@, None, 60);
        lemma_answered(flow, before);
        assert(replies =~= before.push(replies.last()));
        assert(replies.take(before.len() as int) =~= before);
        if exists|i: int|
            0 <= i < before.len() && before[i] is Done && (#[trigger] flow::run(
                flow,
                before.take(i),
            )).request() == Some(send) {
            let i = choose|i: int|
                0 <= i < before.len() && before[i] is Done && (#[trigger] flow::run(
                    flow,
                    before.take(i),
                )).request() == Some(send);
            assert(replies.take(i) =~= before.take(i));
            assert(replies[i] is Done && flow::run(flow, replies.take(i)).request() == Some(send));
        } else if there.stage is Sending && replies.last() is Done {
            let i = before.len() as int;
            assert(replies[i] is Done && flow::run(flow, replies.take(i)).request() == Some(send));
        }
    }
}

/// A query that is executed at once is counted, then sent with five seconds to be answered;
/// one that is not answered with rows is also counted as failed and gives the error.
pub proof fn executed_query_is_counted_then_sent(
    flow: ExecuteQuery,
    kind: String,
    text: String,
    late: bool,
)
    requires
        flow.stage == ExecuteStage::Counting,
    ensures
        ({
            let labels = seq![
                counted_as(flow.target),
                flow.spawn_id@,
                ""@,
                flow.query_name@,
                ""@,
                ""@,
            ];
            let send = sent(flow.target, false, flow.query@, Some(5000), 5);
            let answer = if late {
                Reply::QueryTimedOut { kind, text }
            } else {
                Reply::QueryFailed { kind, text }
            };
            &&& flow::ends(
                flow,
                seq![(Request::CountOperation(labels), Reply::Done), (send, Reply::Done)],
                Ok(()),
            )
            &&& flow::ends_badly(
                flow,
                seq![
                    (Request::CountOperation(labels), Reply::Done),
                    (send, answer),
                    (Request::CountOperationError(labels), Reply::Done),
                ],
                "Error (type "@ + kind@ + ") executing query: "@ + flow.query@
                    + ", the error is: "@ + text@,
            )
        }),
{
    reveal_with_fuel(flow::follows_from, 5);
    reveal_with_fuel(flow::played_from, 5);
}

/// Of many queries each is executed by its name and text on the database that they are for,
/// one after the other, whatever becomes of those before it; together they succeed.
pub proof fn every_query_gets_its_turn(flow: ExecuteQueries, replies: Seq<Reply>)
    requires
        flow.position == 0,
        replies.len() <= flow.queries@.len(),
        forall|i: int|
            0 <= i < replies.len() ==> #[trigger] replies[i] is Done || replies[i] is Failed,
    ensures
        ({
            let later = flow::run(flow, replies);
            let n = replies.len() as int;
            &&& n < flow.queries@.len() ==> later.request() == Some(
                Request::ExecuteQuery {
                    vendor: if flow.target == Target::Falkor {
                        Vendor::Falkor
                    } else {
                        Vendor::Ibex
                    },
                    spawn_id: flow.spawn_id@,
                    name: flow.queries@[n].q_name@,
                    query: flow.queries@[n].cypher@,
                },
            )
            &&& n == flow.queries@.len() ==> later.request() is None && flow::gives_only(
                later,
                Ok(()),
            )
        }),
{
    crate::execution::queries_run_in_order(flow, replies);
}

// ---------------------------------------------------------------------------
// Neo4j

/// A prepared query for Neo4j that is not simulated is sent with its parameters and has a
/// minute to be answered, once its lateness is noted and, where it is early, waited out.
/// Once it is answered it is counted, its rows are read, and it succeeds.
pub proof fn answered_bolt_query_succeeds(flow: SendBolt)
    requires
        flow.stage == BoltStage::Noting,
        flow.simulate is None,
    ensures
        ({
            let note = Request::SetGauge {
                gauge: Gauge::Neo4jMsgDeadlineOffset,
                value: flow.offset_ms,
            };
            let send = Request::Neo4jSend {
                bolt: BoltView { query: flow.bolt.query@, params: flow.bolt@.params },
                timeout_secs: 60,
            };
            let labels = seq!["neo4j"@, flow.worker_id@, ""@, flow.q_name@, ""@, ""@];
            &&& flow.offset_ms <= 0 ==> flow::ends(
                flow,
                seq![
                    (note, Reply::Done),
                    (send, Reply::Done),
                    (Request::CountOperation(labels), Reply::Done),
                    (Request::Neo4jDrain, Reply::Done),
                ],
                Ok(()),
            )
            &&& flow.offset_ms > 0 ==> flow::ends(
                flow,
                seq![
                    (note, Reply::Done),
                    (Request::Sleep(flow.offset_ms as u64), Reply::Done),
                    (send, Reply::Done),
                    (Request::CountOperation(labels), Reply::Done),
                    (Request::Neo4jDrain, Reply::Done),
                ],
                Ok(()),
            )
        }),
{
    reveal_with_fuel(flow::follows_from, 7);
    reveal_with_fuel(flow::played_from, 7);
}

/// A prepared query for Neo4j that fails is counted once as an operation and once as a
/// failed one of the type `error`, and its error is given.
pub proof fn failed_bolt_query_fails(flow: SendBolt, e: BenchmarkError)
    requires
        flow.stage == BoltStage::Noting,
        flow.simulate is None,
    ensures
        ({
            let note = Request::SetGauge {
                gauge: Gauge::Neo4jMsgDeadlineOffset,
                value: flow.offset_ms,
            };
            let send = Request::Neo4jSend { bolt: flow.bolt@, timeout_secs: 60 };
            let labels = seq!["neo4j"@, flow.worker_id@, ""@, flow.q_name@, ""@, ""@];
            let errors = seq!["neo4j"@, flow.worker_id@, "error"@, flow.q_name@, ""@, ""@];
            &&& flow.offset_ms <= 0 ==> flow::ends(
                flow,
                seq![
                    (note, Reply::Done),
                    (send, Reply::Failed(e)),
                    (Request::CountOperation(labels), Reply::Done),
                    (Request::CountOperationError(errors), Reply::Done),
                ],
                Err(e),
            )
            &&& flow.offset_ms > 0 ==> flow::ends(
                flow,
                seq![
                    (note, Reply::Done),
                    (Request::Sleep(flow.offset_ms as u64), Reply::Done),
                    (send, Reply::Failed(e)),
                    (Request::CountOperation(labels), Reply::Done),
                    (Request::CountOperationError(errors), Reply::Done),
                ],
                Err(e),
            )
        }),
{
    reveal_with_fuel(flow::follows_from, 7);
    reveal_with_fuel(flow::played_from, 7);
}

/// A prepared query for Neo4j that is not answered in time is counted once as an operation
/// and once as a failed one of the type `timeout`, and gives that as its error.
pub proof fn late_bolt_query_fails(flow: SendBolt)
    requires
        flow.stage == BoltStage::Noting,
        flow.simulate is None,
    ensures
        ({
            let note = Request::SetGauge {
                gauge: Gauge::Neo4jMsgDeadlineOffset,
                value: flow.offset_ms,
            };
            let send = Request::Neo4jSend { bolt: flow.bolt@, timeout_secs: 60 };
            let labels = seq!["neo4j"@, flow.worker_id@, ""@, flow.q_name@, ""@, ""@];
            let timeouts = seq!["neo4j"@, flow.worker_id@, "timeout"@, flow.q_name@, ""@, ""@];
            &&& flow.offset_ms <= 0 ==> flow::ends_badly(
                flow,
                seq![
                    (note, Reply::Done),
                    (send, Reply::TimedOut),
                    (Request::CountOperation(labels), Reply::Done),
                    (Request::CountOperationError(timeouts), Reply::Done),
                ],
                "Timeout"@,
            )
            &&& flow.offset_ms > 0 ==> flow::ends_badly(
                flow,
                seq![
                    (note, Reply::Done),
                    (Request::Sleep(flow.offset_ms as u64), Reply::Done),
                    (send, Reply::TimedOut),
                    (Request::CountOperation(labels), Reply::Done),
                    (Request::CountOperationError(timeouts), Reply::Done),
                ],
                "Timeout"@,
            )
        }),
{
    reveal_with_fuel(flow::follows_from, 7);
    reveal_with_fuel(flow::played_from, 7);
}

/// A simulated query for Neo4j is noted and waits like any other; then a pause of the given
/// length stands for it, and it succeeds without having been sent or counted.
pub proof fn simulated_bolt_query_pauses(flow: SendBolt, delay: usize)
    requires
        flow.stage == BoltStage::Noting,
        flow.simulate == Some(delay),
    ensures
        ({
            let note = Request::SetGauge {
                gauge: Gauge::Neo4jMsgDeadlineOffset,
                value: flow.offset_ms,
            };
            let wait = Request::Sleep(flow.offset_ms as u64);
            let pause = Request::Sleep(delay as u64);
            &&& flow.offset_ms <= 0 && delay == 0 ==> flow::ends(
                flow,
                seq![(note, Reply::Done)],
                Ok(()),
            )
            &&& flow.offset_ms <= 0 && delay > 0 ==> flow::ends(
                flow,
                seq![(note, Reply::Done), (pause, Reply::Done)],
                Ok(()),
            )
            &&& flow.offset_ms > 0 && delay == 0 ==> flow::ends(
                flow,
                seq![(note, Reply::Done), (wait, Reply::Done)],
                Ok(()),
            )
            &&& flow.offset_ms > 0 && delay > 0 ==> flow::ends(
                flow,
                seq![(note, Reply::Done), (wait, Reply::Done), (pause, Reply::Done)],
                Ok(()),
            )
        }),
{
    reveal_with_fuel(flow::follows_from, 5);
    reveal_with_fuel(flow::played_from, 5);
}

/// A query for Neo4j that is not simulated succeeds only where it was sent and rows came
/// back, whatever the replies are.
pub proof fn bolt_success_means_an_answer(flow: SendBolt, replies: Seq<Reply>)
    requires
        flow.stage == BoltStage::Noting,
        flow.simulate is None,
        flow::run(flow, replies).gives(Ok(())),
    ensures
        exists|i: int|
            0 <= i < replies.len() && replies[i] is Done && (#[trigger] flow::run(
                flow,
                replies.take(i),
            )).request() == Some((Request::Neo4jSend { bolt: flow.bolt@, timeout_secs: 60 })),
{
    lemma_bolt_answered(flow, replies);
}

proof fn lemma_bolt_answered(flow: SendBolt, replies: Seq<Reply>)
    requires
        flow.stage == BoltStage::Noting,
        flow.simulate is None,
    ensures
        ({
            let later = flow::run(flow, replies);
            &&& later == (SendBolt { stage: later.stage, ..flow })
            &&& !(later.stage is Simulating)
            &&& later.stage == BoltStage::Counting(BoltAnswer::Rows) || later.stage is Draining
                || later.stage is Succeeded ==> exists|i: int|
                0 <= i < replies.len() && replies[i] is Done && (#[trigger] flow::run(
                    flow,
                    replies.take(i),
                )).request() == Some((Request::Neo4jSend { bolt: flow.bolt@, timeout_secs: 60 }))
        }),
    decreases replies.len(),
{
    broadcast use flow::group_flow;

    if replies.len() == 0 {
        assert(replies =~= Seq::empty());
    } else {
        let before = replies.drop_last();
        let there = flow::run(flow, before);
        let send = (Request::Neo4jSend { bolt: flow.bolt@, timeout_secs: 60 });
        lemma_bolt_answered(flow, before);
        assert(replies =~= before.push(replies.last()));
        assert(replies.take(before.len() as int) =~= before);
        if exists|i: int|
            0 <= i < before.len() && before[i] is Done && (#[trigger] flow::run(
                flow,
                before.take(i),
            )).request() == Some(send) {
            let i = choose|i: int|
                0 <= i < before.len() && before[i] is Done && (#[trigger] flow::run(
                    flow,
                    before.take(i),
                )).request() == Some(send);
            assert(replies.take(i) =~= before.take(i));
            assert(replies[i] is Done && flow::run(flow, replies.take(i)).request() == Some(send));
        } else if there.stage is Sending && replies.last() is Done {
            let i = before.len() as int;
            assert(replies[i] is Done && flow::run(flow, replies.take(i)).request() == Some(send));
        }
    }
}

/// The size of the graph in Neo4j is what the two counts say, the nodes first; a count
/// without a row is zero, and a count that fails gives its error.
pub proof fn neo4j_size_is_as_counted(n: u64, m: u64, e: BenchmarkError)
    ensures
        ({
            let size = Neo4jGraphSize::CountingNodes;
            let nodes = Request::Neo4jCount("MATCH (n) RETURN count(n) as count"@);
            let relations = Request::Neo4jCount("MATCH ()-[r]->() RETURN count(r) as count"@);
            let (some_n, some_m) = (Reply::Count(Some(n)), Reply::Count(Some(m)));
            let no_row = Reply::Count(None);
            &&& flow::ends(size, seq![(nodes, some_n), (relations, some_m)], Ok((n, m)))
            &&& flow::ends(size, seq![(nodes, no_row), (relations, some_m)], Ok((0, m)))
            &&& flow::ends(size, seq![(nodes, some_n), (relations, no_row)], Ok((n, 0)))
            &&& flow::ends(size, seq![(nodes, no_row), (relations, no_row)], Ok((0, 0)))
            &&& flow::ends(size, seq![(nodes, Reply::Failed(e))], Err(e))
            &&& flow::ends(size, seq![(nodes, some_n), (relations, Reply::Failed(e))], Err(e))
            &&& flow::ends(size, seq![(nodes, no_row), (relations, Reply::Failed(e))], Err(e))
        }),
{
    reveal_with_fuel(flow::follows_from, 4);
    reveal_with_fuel(flow::played_from, 4);
}

/// Queries for Neo4j are executed one after the other: as long as they succeed, all of
/// them, and then they have succeeded together; the first that fails is the last, and its
/// error is given.
pub proof fn queries_go_on_until_one_fails(flow: ExecuteAll, done: nat, e: BenchmarkError)
    requires
        flow.position == 0,
        flow.failure is None,
        done <= flow.queries@.len(),
    ensures
        ({
            let later = flow::run(flow, Seq::new(done, |i: int| Reply::Done));
            let failed = later.after(Reply::Failed(e));
            if done < flow.queries@.len() {
                &&& later.request() == Some(
                    Request::Neo4jExecute(flow.queries@[done as int].bolt@),
                )
                &&& failed.request() is None
                &&& flow::gives_only(failed, Err(e))
            } else {
                &&& later.request() is None
                &&& flow::gives_only(later, Ok(()))
            }
        }),
{
    lemma_position(flow, done);
    assert(flow.queries.len() == flow.queries@.len());
}

proof fn lemma_position(flow: ExecuteAll, done: nat)
    requires
        flow.failure is None,
        flow.position + done <= flow.queries@.len(),
    ensures
        flow::run(flow, Seq::new(done, |i: int| Reply::Done)) == (ExecuteAll {
            position: (flow.position + done) as usize,
            ..flow
        }),
    decreases done,
{
    let replies = Seq::new(done, |i: int| Reply::Done);
    assert(flow.queries.len() == flow.queries@.len());
    if done > 0 {
        let fewer = (done - 1) as nat;
        lemma_position(flow.after(Reply::Done), fewer);
        assert(replies.drop_first() =~= Seq::new(fewer, |i: int| Reply::Done));
    }
}

} // verus!
