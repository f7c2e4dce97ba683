//! How one query is sent: with which delays, under which labels it is counted, and what
//! becomes of the answer.
use vstd::pervasive::unreached;
use vstd::prelude::*;
use vstd::string::*;
use crate::action::{Action, Gauge, Reply, Request};
use crate::error::{other_error, BenchmarkResult};
use crate::flow;
use crate::flow::Flow;
use crate::query::{PreparedQuery, QueryType};
use crate::scenario::Vendor;
use crate::text;

verus! {

/// The labels under which an operation is counted: database, worker, type, name, data set
/// and size. The last two are not used.
pub open spec fn operation_labels(
    vendor: Seq<char>,
    spawn_id: Seq<char>,
    kind: Seq<char>,
    name: Seq<char>,
) -> Seq<Seq<char>> {
    seq![vendor, spawn_id, kind, name, ""@, ""@]
}

/// The labels under which an operation is counted.
pub fn labels(vendor: &str, spawn_id: &str, kind: &str, name: &str) -> (r: Vec<String>)
    ensures
        text::texts(r@) == operation_labels(vendor@, spawn_id@, kind@, name@),
{
    let r = vec![
        vendor.to_string(),
        spawn_id.to_string(),
        kind.to_string(),
        name.to_string(),
        "".to_string(),
        "".to_string(),
    ];
    proof {
        assert(text::texts(r@) =~= operation_labels(vendor@, spawn_id@, kind@, name@));
    }
    r
}

/// What came back for a query.
pub enum Answer {
    Rows,
    Failed { kind: String, text: String },
    TimedOut { kind: String, text: String },
}

/// What is said of a query that failed with an error of type `kind`, written as `text`.
pub open spec fn query_failure(kind: Seq<char>, query: Seq<char>, text: Seq<char>) -> Seq<char> {
    "Error (type "@ + kind + ") executing query: "@ + query + ", the error is: "@ + text
}

/// What a query gives for an answer: nothing for rows, and the error otherwise.
pub open spec fn answer_gives(
    answer: Answer,
    query: Seq<char>,
    result: BenchmarkResult<()>,
) -> bool {
    match answer {
        Answer::Rows => result == BenchmarkResult::<()>::Ok(()),
        Answer::Failed { kind, text } => result matches Err(e) && e.is_other(
            query_failure(kind@, query, text@),
        ),
        Answer::TimedOut { kind, text } => result matches Err(e) && e.is_other(
            query_failure(kind@, query, text@),
        ),
    }
}

/// What a query gives for an answer.
pub fn read_reply(query: &str, answer: Answer) -> (result: BenchmarkResult<()>)
    ensures
        answer_gives(answer, query@, result),
{
    match answer {
        Answer::Rows => Ok(()),
        Answer::Failed { kind, text } | Answer::TimedOut { kind, text } => {
            let said = "Error (type ".to_string().concat(kind.as_str()).concat(
                ") executing query: ",
            ).concat(query).concat(", the error is: ").concat(text.as_str());
            Err(other_error(said.as_str()))
        },
    }
}

// ---------------------------------------------------------------------------
// A prepared query

/// The databases that take queries as text.
#[derive(Debug, Clone, Copy, PartialEq, Eq, Structural)]
pub enum Target {
    Falkor,
    Ibex,
}

impl Target {
    /// The database.
    pub open spec fn vendor(self) -> Vendor {
        match self {
            Target::Falkor => Vendor::Falkor,
            Target::Ibex => Vendor::Ibex,
        }
    }

    /// The name of the database.
    pub open spec fn label(self) -> Seq<char> {
        self.vendor().label()
    }

    /// The name of the database.
    pub fn to_string(&self) -> (s: String)
        ensures
            s@ == self.label(),
    {
        match self {
            Target::Falkor => "falkor".to_string(),
            Target::Ibex => "ibex".to_string(),
        }
    }

    /// The gauge for how late a query is.
    pub open spec fn offset_gauge(self) -> Gauge {
        match self {
            Target::Falkor => Gauge::FalkorMsgDeadlineOffset,
            Target::Ibex => Gauge::IbexMsgDeadlineOffset,
        }
    }

    /// The request that sends a query.
    pub open spec fn send(
        self,
        read_only: bool,
        query: Seq<char>,
        server_timeout_ms: Option<u64>,
        timeout_secs: u64,
    ) -> Request {
        match self {
            Target::Falkor => Request::FalkorSend {
                read_only,
                query,
                server_timeout_ms,
                timeout_secs,
            },
            Target::Ibex => Request::IbexSend { query, timeout_secs },
        }
    }

    /// The action that sends a query.
    fn send_action(
        self,
        read_only: bool,
        query: &String,
        server_timeout_ms: Option<u64>,
        timeout_secs: u64,
    ) -> (action: Action)
        ensures
            action@ == self.send(read_only, query@, server_timeout_ms, timeout_secs),
    {
        match self {
            Target::Falkor => Action::FalkorSend {
                read_only,
                query: query.clone(),
                server_timeout_ms,
                timeout_secs,
            },
            Target::Ibex => Action::IbexSend { query: query.clone(), timeout_secs },
        }
    }
}

/// Where the sending of a prepared query stands.
pub enum SendStage {
    /// The offset from the deadline is noted.
    Noting,
    /// The query is early.
    Waiting,
    /// The query is only simulated.
    Simulating(usize),
    Sending,
    Counting(Answer),
    CountingError(Answer),
    Ended(Answer),
}

/// Sends a prepared query when it is due.
pub struct SendPrepared {
    pub target: Target,
    pub worker_id: String,
    pub q_name: String,
    pub query: String,
    pub read_only: bool,
    pub offset_ms: i64,
    pub simulate: Option<usize>,
    pub stage: SendStage,
}

/// Sends `query` when it is due, in `offset_ms` milliseconds. With `simulate`, a pause of
/// that many milliseconds stands for the query.
pub(crate) fn send_prepared(
    target: Target,
    worker_id: &str,
    query: &PreparedQuery,
    offset_ms: i64,
    simulate: Option<usize>,
) -> (flow: SendPrepared)
    ensures
        flow.target == target,
        flow.worker_id@ == worker_id@,
        flow.q_name == query.q_name,
        flow.query == query.cypher,
        flow.read_only == (query.q_type == QueryType::Read),
        flow.offset_ms == offset_ms,
        flow.simulate == simulate,
        flow.stage == SendStage::Noting,
{
    SendPrepared {
        target,
        worker_id: worker_id.to_string(),
        q_name: query.q_name.clone(),
        query: query.cypher.clone(),
        read_only: query.q_type == QueryType::Read,
        offset_ms,
        simulate,
        stage: SendStage::Noting,
    }
}

impl SendPrepared {
    /// The labels under which the query is counted.
    pub open spec fn labels(&self) -> Seq<Seq<char>> {
        operation_labels(self.target.label(), self.worker_id@, ""@, self.q_name@)
    }

    /// The stage once the query is due.
    pub open spec fn due(&self) -> SendStage {
        match self.simulate {
            Some(delay) => if delay > 0 {
                SendStage::Simulating(delay)
            } else {
                SendStage::Ended(Answer::Rows)
            },
            None => SendStage::Sending,
        }
    }

    /// The stage after a reply.
    pub open spec fn stage_after(&self, reply: Reply) -> SendStage {
        match (self.stage, reply) {
            (SendStage::Noting, Reply::Done) => if self.offset_ms > 0 {
                SendStage::Waiting
            } else {
                self.due()
            },
            (SendStage::Waiting, Reply::Done) => self.due(),
            (SendStage::Simulating(_), Reply::Done) => SendStage::Ended(Answer::Rows),
            (SendStage::Sending, Reply::Done) => SendStage::Counting(Answer::Rows),
            (SendStage::Sending, Reply::QueryFailed { kind, text }) => SendStage::Counting(
                Answer::Failed { kind, text },
            ),
            (SendStage::Sending, Reply::QueryTimedOut { kind, text }) => SendStage::Counting(
                Answer::TimedOut { kind, text },
            ),
            (SendStage::Counting(answer), Reply::Done) => if answer is Rows {
                SendStage::Ended(answer)
            } else {
                SendStage::CountingError(answer)
            },
            (SendStage::CountingError(answer), Reply::Done) => SendStage::Ended(answer),
            (stage, _) => stage,
        }
    }

    fn due_stage(simulate: Option<usize>) -> (stage: SendStage)
        ensures
            stage == match simulate {
                Some(delay) => if delay > 0 {
                    SendStage::Simulating(delay)
                } else {
                    SendStage::Ended(Answer::Rows)
                },
                None => SendStage::Sending,
            },
    {
        match simulate {
            Some(delay) => {
                if delay > 0 {
                    SendStage::Simulating(delay)
                } else {
                    SendStage::Ended(Answer::Rows)
                }
            },
            None => SendStage::Sending,
        }
    }
}

impl Flow for SendPrepared {
    type Output = ();

    open spec fn request(&self) -> Option<Request> {
        match self.stage {
            SendStage::Noting => Some(
                Request::SetGauge { gauge: self.target.offset_gauge(), value: self.offset_ms },
            ),
            SendStage::Waiting => Some(Request::Sleep(self.offset_ms as u64)),
            SendStage::Simulating(delay) => Some(Request::Sleep(delay as u64)),
            SendStage::Sending => Some(self.target.send(self.read_only, self.query@, None, 60)),
            SendStage::Counting(_) => Some(Request::CountOperation(self.labels())),
            SendStage::CountingError(_) => Some(Request::CountOperationError(self.labels())),
            SendStage::Ended(_) => None,
        }
    }

    open spec fn after(self, reply: Reply) -> Self {
        SendPrepared { stage: self.stage_after(reply), ..self }
    }

    open spec fn gives(&self, result: BenchmarkResult<()>) -> bool {
        match self.stage {
            SendStage::Ended(answer) => answer_gives(answer, self.query@, result),
            _ => false,
        }
    }

    proof fn goes_on(self, reply: Reply) {
    }

    fn action(&self) -> (action: Option<Action>) {
        match &self.stage {
            SendStage::Noting => {
                let gauge = match self.target {
                    Target::Falkor => Gauge::FalkorMsgDeadlineOffset,
                    Target::Ibex => Gauge::IbexMsgDeadlineOffset,
                };
                Some(Action::SetGauge { gauge, value: self.offset_ms })
            },
            SendStage::Waiting => Some(Action::Sleep(self.offset_ms as u64)),
            SendStage::Simulating(delay) => Some(Action::Sleep(*delay as u64)),
            SendStage::Sending => Some(
                self.target.send_action(self.read_only, &self.query, None, 60),
            ),
            SendStage::Counting(_) => {
                let vendor = self.target.to_string();
                Some(
                    Action::CountOperation(
                        labels(vendor.as_str(), self.worker_id.as_str(), "", self.q_name.as_str()),
                    ),
                )
            },
            SendStage::CountingError(_) => {
                let vendor = self.target.to_string();
                Some(
                    Action::CountOperationError(
                        labels(vendor.as_str(), self.worker_id.as_str(), "", self.q_name.as_str()),
                    ),
                )
            },
            SendStage::Ended(_) => None,
        }
    }

    fn next(self, reply: Reply) -> (state: Self) {
        let stage = match (self.stage, reply) {
            (SendStage::Noting, Reply::Done) => {
                if self.offset_ms > 0 {
                    SendStage::Waiting
                } else {
                    SendPrepared::due_stage(self.simulate)
                }
            },
            (SendStage::Waiting, Reply::Done) => SendPrepared::due_stage(self.simulate),
            (SendStage::Simulating(_), Reply::Done) => SendStage::Ended(Answer::Rows),
            (SendStage::Sending, Reply::Done) => SendStage::Counting(Answer::Rows),
            (SendStage::Sending, Reply::QueryFailed { kind, text }) => SendStage::Counting(
                Answer::Failed { kind, text },
            ),
            (SendStage::Sending, Reply::QueryTimedOut { kind, text }) => SendStage::Counting(
                Answer::TimedOut { kind, text },
            ),
            (SendStage::Counting(answer), Reply::Done) => {
                let succeeded = match &answer {
                    Answer::Rows => true,
                    _ => false,
                };
                if succeeded {
                    SendStage::Ended(answer)
                } else {
                    SendStage::CountingError(answer)
                }
            },
            (SendStage::CountingError(answer), Reply::Done) => SendStage::Ended(answer),
            (stage, _) => stage,
        };
        SendPrepared { stage, ..self }
    }

    fn finish(self) -> (result: BenchmarkResult<()>) {
        match self.stage {
            SendStage::Ended(answer) => read_reply(self.query.as_str(), answer),
            _ => unreached(),
        }
    }
}

impl SendPrepared {
    /// Whether the query has not been sent and will not be.
    pub open spec fn is_unsent(&self) -> bool {
        match self.stage {
            SendStage::Noting | SendStage::Waiting => self.simulate is Some,
            SendStage::Simulating(_) => true,
            SendStage::Ended(answer) => answer is Rows,
            _ => false,
        }
    }
}

/// A simulated query is never sent and never counted, whatever the replies are; it can
/// only succeed.
pub proof fn simulation_sends_nothing(flow: SendPrepared, replies: Seq<Reply>)
    requires
        flow.is_unsent(),
    ensures
        ({
            let later = flow::run(flow, replies);
            &&& later.is_unsent()
            &&& match later.request() {
                Some(Request::SetGauge { gauge, value }) => true,
                Some(Request::Sleep(_)) => true,
                None => forall|result: BenchmarkResult<()>| later.gives(result) ==> result is Ok,
                _ => false,
            }
        }),
    decreases replies.len(),
{
    if replies.len() > 0 {
        simulation_sends_nothing(flow.after(replies[0]), replies.drop_first());
    }
}

/// A query that is due is sent once and counted once. Where it fails or is not answered in
/// time, it is also counted once as failed, under the same labels, and the error is given.
pub proof fn due_query_is_sent_and_counted(flow: SendPrepared, reply: Reply)
    requires
        flow.stage == SendStage::Sending,
        reply is Done || reply is QueryFailed || reply is QueryTimedOut,
    ensures
        ({
            let replies = seq![reply, Reply::Done, Reply::Done];
            let labels = seq![
                match flow.target {
                    Target::Falkor => "falkor"@,
                    Target::Ibex => "ibex"@,
                },
                flow.worker_id@,
                ""@,
                flow.q_name@,
                ""@,
                ""@,
            ];
            let ended = flow::run(flow, replies);
            &&& flow::requests(flow, replies) == seq![
                Some(
                    match flow.target {
                        Target::Falkor => Request::FalkorSend {
                            read_only: flow.read_only,
                            query: flow.query@,
                            server_timeout_ms: None,
                            timeout_secs: 60,
                        },
                        Target::Ibex => Request::IbexSend {
                            query: flow.query@,
                            timeout_secs: 60,
                        },
                    },
                ),
                Some(Request::CountOperation(labels)),
                if reply is Done {
                    None
                } else {
                    Some(Request::CountOperationError(labels))
                },
                None,
            ]
            &&& forall|result: BenchmarkResult<()>| #[trigger]
                ended.gives(result) ==> (result is Ok <==> reply is Done)
        }),
{
    broadcast use flow::group_flow;

}

/// Before a query is due, the offset from its deadline is noted, and a query that is
/// early waits for as long as it is early.
pub proof fn early_query_waits(flow: SendPrepared)
    requires
        flow.stage == SendStage::Noting,
    ensures
        flow.request() == Some(
            Request::SetGauge {
                gauge: match flow.target {
                    Target::Falkor => Gauge::FalkorMsgDeadlineOffset,
                    Target::Ibex => Gauge::IbexMsgDeadlineOffset,
                },
                value: flow.offset_ms,
            },
        ),
        ({
            let noted = flow.after(Reply::Done);
            let due = if flow.offset_ms > 0 {
                noted.after(Reply::Done)
            } else {
                noted
            };
            &&& flow.offset_ms > 0 ==> noted.request() == Some(
                Request::Sleep(flow.offset_ms as u64),
            )
            &&& match flow.simulate {
                None => due.request() == Some(
                    match flow.target {
                        Target::Falkor => Request::FalkorSend {
                            read_only: flow.read_only,
                            query: flow.query@,
                            server_timeout_ms: None,
                            timeout_secs: 60,
                        },
                        Target::Ibex => Request::IbexSend {
                            query: flow.query@,
                            timeout_secs: 60,
                        },
                    },
                ),
                Some(delay) => due.request() == if delay > 0 {
                    Some(Request::Sleep(delay as u64))
                } else {
                    None
                },
            }
        }),
{
}

// ---------------------------------------------------------------------------
// A query at once

/// Where the sending of a query stands.
pub enum ExecuteStage {
    Counting,
    Sending,
    CountingError(Answer),
    Ended(Answer),
}

/// Counts a query and sends it at once.
pub struct ExecuteQuery {
    pub target: Target,
    pub spawn_id: String,
    pub query_name: String,
    pub query: String,
    pub stage: ExecuteStage,
}

/// Counts the query and sends it at once.
pub(crate) fn execute_query(
    target: Target,
    spawn_id: &str,
    query_name: &str,
    query: &str,
) -> (flow: ExecuteQuery)
    ensures
        flow.target == target,
        flow.spawn_id@ == spawn_id@,
        flow.query_name@ == query_name@,
        flow.query@ == query@,
        flow.stage == ExecuteStage::Counting,
{
    ExecuteQuery {
        target,
        spawn_id: spawn_id.to_string(),
        query_name: query_name.to_string(),
        query: query.to_string(),
        stage: ExecuteStage::Counting,
    }
}

impl ExecuteQuery {
    /// The labels under which the query is counted.
    pub open spec fn labels(&self) -> Seq<Seq<char>> {
        operation_labels(self.target.label(), self.spawn_id@, ""@, self.query_name@)
    }

    /// The stage after a reply.
    pub open spec fn stage_after(&self, reply: Reply) -> ExecuteStage {
        match (self.stage, reply) {
            (ExecuteStage::Counting, Reply::Done) => ExecuteStage::Sending,
            (ExecuteStage::Sending, Reply::Done) => ExecuteStage::Ended(Answer::Rows),
            (ExecuteStage::Sending, Reply::QueryFailed { kind, text }) =>
                ExecuteStage::CountingError(Answer::Failed { kind, text }),
            (ExecuteStage::Sending, Reply::QueryTimedOut { kind, text }) =>
                ExecuteStage::CountingError(Answer::TimedOut { kind, text }),
            (ExecuteStage::CountingError(answer), Reply::Done) => ExecuteStage::Ended(answer),
            (stage, _) => stage,
        }
    }
}

impl Flow for ExecuteQuery {
    type Output = ();

    open spec fn request(&self) -> Option<Request> {
        match self.stage {
            ExecuteStage::Counting => Some(Request::CountOperation(self.labels())),
            ExecuteStage::Sending => Some(self.target.send(false, self.query@, Some(5000), 5)),
            ExecuteStage::CountingError(_) => Some(Request::CountOperationError(self.labels())),
            ExecuteStage::Ended(_) => None,
        }
    }

    open spec fn after(self, reply: Reply) -> Self {
        ExecuteQuery { stage: self.stage_after(reply), ..self }
    }

    open spec fn gives(&self, result: BenchmarkResult<()>) -> bool {
        match self.stage {
            ExecuteStage::Ended(answer) => answer_gives(answer, self.query@, result),
            _ => false,
        }
    }

    proof fn goes_on(self, reply: Reply) {
    }

    fn action(&self) -> (action: Option<Action>) {
        match &self.stage {
            ExecuteStage::Counting => {
                let vendor = self.target.to_string();
                Some(
                    Action::CountOperation(
                        labels(
                            vendor.as_str(),
                            self.spawn_id.as_str(),
                            "",
                            self.query_name.as_str(),
                        ),
                    ),
                )
            },
            ExecuteStage::Sending => Some(
                self.target.send_action(false, &self.query, Some(5000), 5),
            ),
            ExecuteStage::CountingError(_) => {
                let vendor = self.target.to_string();
                Some(
                    Action::CountOperationError(
                        labels(
                            vendor.as_str(),
                            self.spawn_id.as_str(),
                            "",
                            self.query_name.as_str(),
                        ),
                    ),
                )
            },
            ExecuteStage::Ended(_) => None,
        }
    }

    fn next(self, reply: Reply) -> (state: Self) {
        let stage = match (self.stage, reply) {
            (ExecuteStage::Counting, Reply::Done) => ExecuteStage::Sending,
            (ExecuteStage::Sending, Reply::Done) => ExecuteStage::Ended(Answer::Rows),
            (ExecuteStage::Sending, Reply::QueryFailed { kind, text }) =>
                ExecuteStage::CountingError(Answer::Failed { kind, text }),
            (ExecuteStage::Sending, Reply::QueryTimedOut { kind, text }) =>
                ExecuteStage::CountingError(Answer::TimedOut { kind, text }),
            (ExecuteStage::CountingError(answer), Reply::Done) => ExecuteStage::Ended(answer),
            (stage, _) => stage,
        };
        ExecuteQuery { stage, ..self }
    }

    fn finish(self) -> (result: BenchmarkResult<()>) {
        match self.stage {
            ExecuteStage::Ended(answer) => read_reply(self.query.as_str(), answer),
            _ => unreached(),
        }
    }
}

/// A query that is executed at once is counted once and sent once. Where it fails or is not
/// answered in time, it is also counted once as failed, under the same labels, and the
/// error is given.
pub proof fn executed_query_is_counted_and_sent(flow: ExecuteQuery, reply: Reply)
    requires
        flow.stage == ExecuteStage::Counting,
        reply is Done || reply is QueryFailed || reply is QueryTimedOut,
    ensures
        flow::requests(flow, seq![Reply::Done, reply, Reply::Done]) == seq![
            Some(Request::CountOperation(flow.labels())),
            Some(flow.target.send(false, flow.query@, Some(5000), 5)),
            if reply is Done {
                None
            } else {
                Some(Request::CountOperationError(flow.labels()))
            },
            None,
        ],
        ({
            let ended = flow::run(flow, seq![Reply::Done, reply, Reply::Done]);
            forall|result: BenchmarkResult<()>| #[trigger]
                ended.gives(result) ==> (result is Ok <==> reply is Done)
        }),
{
    broadcast use flow::group_flow;

}

// ---------------------------------------------------------------------------
// Many queries

/// Executes one query after the other. A query that fails does not stop the others.
pub struct ExecuteQueries {
    pub target: Target,
    pub spawn_id: String,
    pub queries: Vec<PreparedQuery>,
    pub position: usize,
}

/// Executes the queries one after the other. Queries that someone else still holds are
/// left alone: `queries` is nothing.
pub(crate) fn execute_queries(
    target: Target,
    spawn_id: usize,
    queries: Option<Vec<PreparedQuery>>,
) -> (flow: ExecuteQueries)
    ensures
        flow.target == target,
        flow.spawn_id@ == text::decimal(spawn_id as nat),
        flow.queries@ == match queries {
            Some(all) => all@,
            None => Seq::empty(),
        },
        flow.position == 0,
{
    let queries = match queries {
        Some(all) => all,
        None => Vec::new(),
    };
    ExecuteQueries { target, spawn_id: text::decimal_text(spawn_id as u64), queries, position: 0 }
}

impl ExecuteQueries {
    /// The request that executes the query at `i`.
    pub open spec fn execution(&self, i: int) -> Request {
        Request::ExecuteQuery {
            vendor: self.target.vendor(),
            spawn_id: self.spawn_id@,
            name: self.queries@[i].q_name@,
            query: self.queries@[i].cypher@,
        }
    }
}

impl Flow for ExecuteQueries {
    type Output = ();

    open spec fn request(&self) -> Option<Request> {
        if self.position < self.queries@.len() {
            Some(self.execution(self.position as int))
        } else {
            None
        }
    }

    open spec fn after(self, reply: Reply) -> Self {
        if self.position < self.queries@.len() && (reply is Done || reply is Failed) {
            ExecuteQueries { position: (self.position + 1) as usize, ..self }
        } else {
            self
        }
    }

    open spec fn gives(&self, result: BenchmarkResult<()>) -> bool {
        result == BenchmarkResult::<()>::Ok(())
    }

    proof fn goes_on(self, reply: Reply) {
        assert(self.queries.len() == self.queries@.len());
    }

    fn action(&self) -> (action: Option<Action>) {
        if self.position < self.queries.len() {
            let vendor = match self.target {
                Target::Falkor => Vendor::Falkor,
                Target::Ibex => Vendor::Ibex,
            };
            Some(
                Action::ExecuteQuery {
                    vendor,
                    spawn_id: self.spawn_id.clone(),
                    name: self.queries[self.position].q_name.clone(),
                    query: self.queries[self.position].cypher.clone(),
                },
            )
        } else {
            None
        }
    }

    fn next(self, reply: Reply) -> (state: Self) {
        let answered = match reply {
            Reply::Done => true,
            Reply::Failed(_) => true,
            _ => false,
        };
        if answered && self.position < self.queries.len() {
            ExecuteQueries { position: self.position + 1, ..self }
        } else {
            self
        }
    }

    fn finish(self) -> (result: BenchmarkResult<()>) {
        Ok(())
    }
}

/// Each query is executed once, in order, whether or not those before it failed.
pub proof fn queries_run_in_order(flow: ExecuteQueries, replies: Seq<Reply>)
    requires
        flow.position + replies.len() <= flow.queries@.len(),
        forall|i: int|
            0 <= i < replies.len() ==> #[trigger] replies[i] is Done || replies[i] is Failed,
    ensures
        ({
            let later = flow::run(flow, replies);
            let at = flow.position + replies.len();
            &&& later == ExecuteQueries { position: at as usize, ..flow }
            &&& later.request() == if at < flow.queries@.len() {
                Some(
                    Request::ExecuteQuery {
                        vendor: match flow.target {
                            Target::Falkor => Vendor::Falkor,
                            Target::Ibex => Vendor::Ibex,
                        },
                        spawn_id: flow.spawn_id@,
                        name: flow.queries@[at].q_name@,
                        query: flow.queries@[at].cypher@,
                    },
                )
            } else {
                None
            }
        }),
    decreases replies.len(),
{
    if replies.len() > 0 {
        assert(replies[0] is Done || replies[0] is Failed);
        let rest = replies.drop_first();
        assert forall|i: int| 0 <= i < rest.len() implies #[trigger] rest[i] is Done
            || rest[i] is Failed by {
            assert(rest[i] == replies[i + 1]);
        }
        assert(flow.queries.len() == flow.queries@.len());
        queries_run_in_order(flow.after(replies[0]), rest);
    }
}

} // verus!
