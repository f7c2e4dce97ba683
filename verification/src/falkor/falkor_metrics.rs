//! What is reported of a running FalkorDB server.
use vstd::pervasive::unreached;
use vstd::prelude::*;
use vstd::string::*;
use crate::action::{Action, Gauge, Reply, Request};
use crate::error::{other_error, BenchmarkError, BenchmarkResult};
use crate::execution::Target;
use crate::falkor::falkor_driver;
use crate::flow;
use crate::flow::Flow;
use crate::query::{RedisValue, Row};
use crate::text;
use crate::usage;

verus! {

// ---------------------------------------------------------------------------
// The answer to GRAPH.INFO

/// The items of an array, or what is said of a value that is none.
pub open spec fn array_items(value: RedisValue) -> Result<Seq<RedisValue>, Seq<char>> {
    match value {
        RedisValue::Array { items, text } => Ok(items@),
        RedisValue::Scalar { text } => Err("parsing array failed: "@ + text@),
    }
}

/// A list of values as it is written in messages.
pub open spec fn list_shown(items: Seq<RedisValue>) -> Seq<char> {
    "["@ + text::joined(items.map_values(|v: RedisValue| v.shown()), ", "@) + "]"@
}

/// How many queries run and how many wait: the lengths of the second and the fourth item,
/// or what is said of a value that does not hold them.
pub open spec fn query_info(value: RedisValue) -> Result<(nat, nat), Seq<char>> {
    match array_items(value) {
        Err(e) => Err(e),
        Ok(queries) => if queries.len() < 4 {
            Err("Insufficient data in Redis response "@ + list_shown(queries))
        } else {
            match (array_items(queries[1]), array_items(queries[3])) {
                (Err(e), _) => Err(e),
                (_, Err(e)) => Err(e),
                (Ok(running), Ok(waiting)) => Ok((running.len(), waiting.len())),
            }
        },
    }
}

/// The items of an array.
pub fn redis_value_as_vec(value: &RedisValue) -> (result: BenchmarkResult<&Vec<RedisValue>>)
    ensures
        match array_items(*value) {
            Ok(items) => result matches Ok(r) && r@ == items,
            Err(said) => result matches Err(e) && e.is_other(said),
        },
{
    match value {
        RedisValue::Array { items, text } => Ok(items),
        RedisValue::Scalar { text } => {
            let said = "parsing array failed: ".to_string().concat(text.as_str());
            Err(other_error(said.as_str()))
        },
    }
}

/// A list of values as it is written in messages.
fn list_text(items: &Vec<RedisValue>) -> (s: String)
    ensures
        s@ == list_shown(items@),
{
    let mut parts: Vec<String> = Vec::new();
    let mut i: usize = 0;
    while i < items.len()
        invariant
            i <= items@.len(),
            text::texts(parts@) == items@.take(i as int).map_values(|v: RedisValue| v.shown()),
        decreases items@.len() - i,
    {
        let part = match &items[i] {
            RedisValue::Array { items: _, text } => text.clone(),
            RedisValue::Scalar { text } => text.clone(),
        };
        let ghost before = text::texts(parts@);
        parts.push(part);
        i = i + 1;
        proof {
            let shown = |v: RedisValue| v.shown();
            assert(text::texts(parts@) =~= before.push(part@));
            assert(items@.take(i as int) =~= items@.take(i - 1).push(items@[i - 1]));
            assert(items@.take(i as int).map_values(shown) =~= items@.take(i - 1).map_values(
                shown,
            ).push(items@[i - 1].shown()));
        }
    }
    proof {
        assert(items@.take(items@.len() as int) =~= items@);
    }
    let inner = text::join(&parts, ", ");
    "[".to_string().concat(inner.as_str()).concat("]")
}

/// How many queries run and how many wait.
pub fn redis_to_query_info(value: &RedisValue) -> (result: BenchmarkResult<(usize, usize)>)
    ensures
        match query_info(*value) {
            Ok((running, waiting)) => result matches Ok(r) && r.0 == running && r.1 == waiting,
            Err(said) => result matches Err(e) && e.is_other(said),
        },
{
    let queries = match redis_value_as_vec(value) {
        Ok(items) => items,
        Err(e) => return Err(e),
    };
    if queries.len() < 4 {
        let list = list_text(queries);
        let said = "Insufficient data in Redis response ".to_string().concat(list.as_str());
        return Err(other_error(said.as_str()));
    }
    let running = match redis_value_as_vec(&queries[1]) {
        Ok(items) => items,
        Err(e) => return Err(e),
    };
    let waiting = match redis_value_as_vec(&queries[3]) {
        Ok(items) => items,
        Err(e) => return Err(e),
    };
    Ok((running.len(), waiting.len()))
}

// ---------------------------------------------------------------------------
// Counting by a query

/// Runs a query that answers with one number.
pub enum CountQuery {
    Asking { query: String },
    Answered { query: String, row: Option<Row> },
    Failed(BenchmarkError),
}

/// Runs a query that answers with one number.
pub fn execute_i64_query(query: &str) -> (flow: CountQuery)
    ensures
        flow matches CountQuery::Asking { query: q } && q@ == query@,
{
    CountQuery::Asking { query: query.to_string() }
}

/// What a counting query gives for its first row.
pub open spec fn count_gives(
    query: Seq<char>,
    row: Option<Row>,
    result: BenchmarkResult<i64>,
) -> bool {
    match falkor_driver::single_number(row) {
        Some(n) => result == BenchmarkResult::<i64>::Ok(n),
        None => result matches Err(e) && e.is_other(
            match row {
                Some(r) => "Unexpected response: "@ + r.text@ + " for query "@ + query,
                None => "No response for query: "@ + query,
            },
        ),
    }
}

impl Flow for CountQuery {
    type Output = i64;

    open spec fn request(&self) -> Option<Request> {
        match self {
            CountQuery::Asking { query } => Some(
                Request::FalkorRow { query: query@, timeout_ms: 5000 },
            ),
            _ => None,
        }
    }

    open spec fn after(self, reply: Reply) -> Self {
        match (self, reply) {
            (CountQuery::Asking { query }, Reply::Row(row)) => CountQuery::Answered { query, row },
            (CountQuery::Asking { query }, Reply::Failed(e)) => CountQuery::Failed(e),
            (state, _) => state,
        }
    }

    open spec fn gives(&self, result: BenchmarkResult<i64>) -> bool {
        match self {
            CountQuery::Asking { query } => false,
            CountQuery::Answered { query, row } => count_gives(query@, *row, result),
            CountQuery::Failed(e) => result == BenchmarkResult::<i64>::Err(*e),
        }
    }

    proof fn goes_on(self, reply: Reply) {
    }

    fn action(&self) -> (action: Option<Action>) {
        match self {
            CountQuery::Asking { query } => Some(
                Action::FalkorRow { query: query.clone(), timeout_ms: 5000 },
            ),
            _ => None,
        }
    }

    fn next(self, reply: Reply) -> (state: Self) {
        match (self, reply) {
            (CountQuery::Asking { query }, Reply::Row(row)) => CountQuery::Answered { query, row },
            (CountQuery::Asking { query }, Reply::Failed(e)) => CountQuery::Failed(e),
            (state, _) => state,
        }
    }

    fn finish(self) -> (result: BenchmarkResult<i64>) {
        match self {
            CountQuery::Asking { query } => unreached(),
            CountQuery::Answered { query, row } => {
                if let Some(n) = falkor_driver::number_in(&row) {
                    return Ok(n);
                }
                let said = match row {
                    Some(r) => "Unexpected response: ".to_string().concat(r.text.as_str()).concat(
                        " for query ",
                    ).concat(query.as_str()),
                    None => "No response for query: ".to_string().concat(query.as_str()),
                };
                Err(other_error(said.as_str()))
            },
            CountQuery::Failed(e) => Err(e),
        }
    }
}

// ---------------------------------------------------------------------------
// One report

/// Where a report stands.
pub enum ReportFalkor {
    AskingInfo,
    SettingRunning { running: usize, waiting: usize },
    SettingWaiting { waiting: usize },
    Connecting,
    CountingRelationships,
    SettingRelationships(i64),
    CountingNodes,
    SettingNodes(i64),
    Filling,
    /// The answer to `GRAPH.INFO` does not hold what it has to.
    Unclear { info: RedisValue },
    Ended(BenchmarkResult<()>),
}

/// Reports how many queries run and wait, how large the graph is, and what the server uses.
pub fn report_metrics() -> (flow: ReportFalkor)
    ensures
        flow == ReportFalkor::AskingInfo,
{
    ReportFalkor::AskingInfo
}

impl Flow for ReportFalkor {
    type Output = ();

    open spec fn request(&self) -> Option<Request> {
        match self {
            ReportFalkor::AskingInfo => Some(Request::GraphInfo),
            ReportFalkor::SettingRunning { running, waiting } => Some(
                Request::SetGauge { gauge: Gauge::FalkorRunningRequests, value: *running as i64 },
            ),
            ReportFalkor::SettingWaiting { waiting } => Some(
                Request::SetGauge { gauge: Gauge::FalkorWaitingRequests, value: *waiting as i64 },
            ),
            ReportFalkor::Connecting => Some(Request::RequireFalkor),
            ReportFalkor::CountingRelationships => Some(
                Request::CountQuery("MATCH ()-[r]->() RETURN count(r)"@),
            ),
            ReportFalkor::SettingRelationships(n) => Some(
                Request::SetGauge { gauge: Gauge::FalkorRelationships, value: *n },
            ),
            ReportFalkor::CountingNodes => Some(Request::CountQuery("MATCH (n) RETURN count(n)"@)),
            ReportFalkor::SettingNodes(n) => Some(
                Request::SetGauge { gauge: Gauge::FalkorNodes, value: *n },
            ),
            ReportFalkor::Filling => Some(Request::FillMemoryAndCpuMetrics(Target::Falkor)),
            ReportFalkor::Unclear { info } => None,
            ReportFalkor::Ended(_) => None,
        }
    }

    open spec fn after(self, reply: Reply) -> Self {
        match (self, reply) {
            (ReportFalkor::AskingInfo, Reply::Value(info)) => match query_info(info) {
                Ok((running, waiting)) => ReportFalkor::SettingRunning {
                    running: running as usize,
                    waiting: waiting as usize,
                },
                Err(_) => ReportFalkor::Unclear { info },
            },
            (ReportFalkor::AskingInfo, Reply::Failed(e)) => ReportFalkor::Ended(Err(e)),
            (ReportFalkor::SettingRunning { running, waiting }, Reply::Done) =>
                ReportFalkor::SettingWaiting { waiting },
            (ReportFalkor::SettingWaiting { waiting }, Reply::Done) => ReportFalkor::Connecting,
            (ReportFalkor::Connecting, Reply::Done) => ReportFalkor::CountingRelationships,
            (ReportFalkor::CountingRelationships, Reply::Number(n)) =>
                ReportFalkor::SettingRelationships(n),
            (ReportFalkor::CountingRelationships, Reply::Failed(_)) => ReportFalkor::CountingNodes,
            (ReportFalkor::SettingRelationships(_), Reply::Done) => ReportFalkor::CountingNodes,
            (ReportFalkor::CountingNodes, Reply::Number(n)) => ReportFalkor::SettingNodes(n),
            (ReportFalkor::CountingNodes, Reply::Failed(_)) => ReportFalkor::Filling,
            (ReportFalkor::SettingNodes(_), Reply::Done) => ReportFalkor::Filling,
            (ReportFalkor::Filling, Reply::Done) => ReportFalkor::Ended(Ok(())),
            (ReportFalkor::Filling, Reply::Failed(e)) => ReportFalkor::Ended(Err(e)),
            (state, _) => state,
        }
    }

    open spec fn gives(&self, result: BenchmarkResult<()>) -> bool {
        match self {
            ReportFalkor::Unclear { info } => match query_info(*info) {
                Ok(_) => result == BenchmarkResult::<()>::Ok(()),
                Err(said) => result matches Err(e) && e.is_other(said),
            },
            ReportFalkor::Ended(r) => result == *r,
            _ => false,
        }
    }

    proof fn goes_on(self, reply: Reply) {
    }

    fn action(&self) -> (action: Option<Action>) {
        match self {
            ReportFalkor::AskingInfo => Some(Action::GraphInfo),
            ReportFalkor::SettingRunning { running, waiting } => Some(
                Action::SetGauge { gauge: Gauge::FalkorRunningRequests, value: *running as i64 },
            ),
            ReportFalkor::SettingWaiting { waiting } => Some(
                Action::SetGauge { gauge: Gauge::FalkorWaitingRequests, value: *waiting as i64 },
            ),
            ReportFalkor::Connecting => Some(Action::RequireFalkor),
            ReportFalkor::CountingRelationships => Some(
                Action::CountQuery("MATCH ()-[r]->() RETURN count(r)".to_string()),
            ),
            ReportFalkor::SettingRelationships(n) => Some(
                Action::SetGauge { gauge: Gauge::FalkorRelationships, value: *n },
            ),
            ReportFalkor::CountingNodes => Some(
                Action::CountQuery("MATCH (n) RETURN count(n)".to_string()),
            ),
            ReportFalkor::SettingNodes(n) => Some(
                Action::SetGauge { gauge: Gauge::FalkorNodes, value: *n },
            ),
            ReportFalkor::Filling => Some(Action::FillMemoryAndCpuMetrics(Target::Falkor)),
            ReportFalkor::Unclear { info } => None,
            ReportFalkor::Ended(_) => None,
        }
    }

    fn next(self, reply: Reply) -> (state: Self) {
        match (self, reply) {
            (ReportFalkor::AskingInfo, Reply::Value(info)) => match redis_to_query_info(&info) {
                Ok((running, waiting)) => ReportFalkor::SettingRunning { running, waiting },
                Err(_) => ReportFalkor::Unclear { info },
            },
            (ReportFalkor::AskingInfo, Reply::Failed(e)) => ReportFalkor::Ended(Err(e)),
            (ReportFalkor::SettingRunning { running, waiting }, Reply::Done) =>
                ReportFalkor::SettingWaiting { waiting },
            (ReportFalkor::SettingWaiting { waiting }, Reply::Done) => ReportFalkor::Connecting,
            (ReportFalkor::Connecting, Reply::Done) => ReportFalkor::CountingRelationships,
            (ReportFalkor::CountingRelationships, Reply::Number(n)) =>
                ReportFalkor::SettingRelationships(n),
            (ReportFalkor::CountingRelationships, Reply::Failed(_)) => ReportFalkor::CountingNodes,
            (ReportFalkor::SettingRelationships(_), Reply::Done) => ReportFalkor::CountingNodes,
            (ReportFalkor::CountingNodes, Reply::Number(n)) => ReportFalkor::SettingNodes(n),
            (ReportFalkor::CountingNodes, Reply::Failed(_)) => ReportFalkor::Filling,
            (ReportFalkor::SettingNodes(_), Reply::Done) => ReportFalkor::Filling,
            (ReportFalkor::Filling, Reply::Done) => ReportFalkor::Ended(Ok(())),
            (ReportFalkor::Filling, Reply::Failed(e)) => ReportFalkor::Ended(Err(e)),
            (state, _) => state,
        }
    }

    fn finish(self) -> (result: BenchmarkResult<()>) {
        match self {
            ReportFalkor::Unclear { info } => match redis_to_query_info(&info) {
                Ok(_) => Ok(()),
                Err(e) => Err(e),
            },
            ReportFalkor::Ended(r) => r,
            _ => unreached(),
        }
    }
}

/// A count that fails is left out of the report, and the report goes on.
pub proof fn failed_counts_are_left_out(e1: BenchmarkError, e2: BenchmarkError)
    ensures
        flow::requests(
            ReportFalkor::CountingRelationships,
            seq![Reply::Failed(e1), Reply::Failed(e2), Reply::Done],
        ) == seq![
            Some(Request::CountQuery("MATCH ()-[r]->() RETURN count(r)"@)),
            Some(Request::CountQuery("MATCH (n) RETURN count(n)"@)),
            Some(Request::FillMemoryAndCpuMetrics(Target::Falkor)),
            None,
        ],
{
    broadcast use flow::group_flow;

}

/// The id of the server among the processes of the machine.
pub fn get_falkor_server_pid(processes: &Vec<(u32, Option<String>)>) -> (pid: Option<u32>)
    ensures
        pid == usage::first_named(processes@, "redis-server"@),
{
    usage::find_named(processes, "redis-server")
}

} // verus!
