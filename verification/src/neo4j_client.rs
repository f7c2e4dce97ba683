//! Queries and statements for Neo4j.
use histogram::Histogram;
use vstd::pervasive::unreached;
use vstd::prelude::*;
use vstd::string::*;
use crate::action;
use crate::action::{Action, Gauge, Reply, Request};
use crate::durations;
use crate::error::{other_error, BenchmarkError, BenchmarkResult};
use crate::execution;
use crate::flow;
use crate::flow::Flow;
use crate::query::{Bolt, PreparedQuery};
use crate::text;
use crate::utils::files;

verus! {

/// What sends queries to Neo4j.
pub struct Neo4jClient;

impl Neo4jClient {
    /// Sends a prepared query when it is due, in `offset_ms` milliseconds. With
    /// `simulate`, a pause of that many milliseconds stands for the query.
    pub fn execute_prepared_query(
        &self,
        worker_id: &str,
        query: &PreparedQuery,
        offset_ms: i64,
        simulate: Option<usize>,
    ) -> (flow: SendBolt)
        ensures
            flow.worker_id@ == worker_id@,
            flow.q_name == query.q_name,
            flow.bolt@ == query.bolt@,
            flow.offset_ms == offset_ms,
            flow.simulate == simulate,
            flow.stage == BoltStage::Noting,
    {
        SendBolt {
            worker_id: worker_id.to_string(),
            q_name: query.q_name.clone(),
            bolt: query.bolt.copy(),
            offset_ms,
            simulate,
            stage: BoltStage::Noting,
        }
    }

    /// How many nodes and relationships the graph has.
    pub fn graph_size(&self) -> (flow: Neo4jGraphSize)
        ensures
            flow == Neo4jGraphSize::CountingNodes,
    {
        Neo4jGraphSize::CountingNodes
    }

    /// Executes the queries one after the other, up to the first that fails.
    pub fn execute_query_iterator(&self, queries: Vec<PreparedQuery>) -> (flow: ExecuteAll)
        ensures
            flow == (ExecuteAll { queries, position: 0, failure: None }),
    {
        ExecuteAll { queries, position: 0, failure: None }
    }

    /// Executes the open statements one after the other.
    pub fn execute_query_stream(&self) -> (stream: ExecuteStream)
        ensures
            stream == ExecuteStream::Reading,
    {
        ExecuteStream::Reading
    }
}

// ---------------------------------------------------------------------------
// A prepared query

/// What came back for a query.
pub enum BoltAnswer {
    Rows,
    Failed(BenchmarkError),
    TimedOut,
}

/// Where the sending of a prepared query stands.
pub enum BoltStage {
    /// The offset from the deadline is noted.
    Noting,
    /// The query is early.
    Waiting,
    /// The query is only simulated.
    Simulating(usize),
    Sending,
    Counting(BoltAnswer),
    Draining,
    CountingError(BenchmarkError),
    CountingTimeout,
    Succeeded,
    Failed(BenchmarkError),
    TimedOut,
}

/// Sends a prepared query to Neo4j when it is due.
pub struct SendBolt {
    pub worker_id: String,
    pub q_name: String,
    pub bolt: Bolt,
    pub offset_ms: i64,
    pub simulate: Option<usize>,
    pub stage: BoltStage,
}

impl SendBolt {
    /// The labels under which the query is counted.
    pub open spec fn labels(&self, kind: Seq<char>) -> Seq<Seq<char>> {
        execution::operation_labels("neo4j"@, self.worker_id@, kind, self.q_name@)
    }

    fn label_texts(&self, kind: &str) -> (r: Vec<String>)
        ensures
            text::texts(r@) == self.labels(kind@),
    {
        execution::labels("neo4j", self.worker_id.as_str(), kind, self.q_name.as_str())
    }

    /// The stage once the query is due.
    pub open spec fn due(&self) -> BoltStage {
        match self.simulate {
            Some(delay) => if delay > 0 {
                BoltStage::Simulating(delay)
            } else {
                BoltStage::Succeeded
            },
            None => BoltStage::Sending,
        }
    }

    /// The stage after a reply.
    pub open spec fn stage_after(&self, reply: Reply) -> BoltStage {
        match (self.stage, reply) {
            (BoltStage::Noting, Reply::Done) => if self.offset_ms > 0 {
                BoltStage::Waiting
            } else {
                self.due()
            },
            (BoltStage::Waiting, Reply::Done) => self.due(),
            (BoltStage::Simulating(_), Reply::Done) => BoltStage::Succeeded,
            (BoltStage::Sending, Reply::Done) => BoltStage::Counting(BoltAnswer::Rows),
            (BoltStage::Sending, Reply::Failed(e)) => BoltStage::Counting(BoltAnswer::Failed(e)),
            (BoltStage::Sending, Reply::TimedOut) => BoltStage::Counting(BoltAnswer::TimedOut),
            (BoltStage::Counting(answer), Reply::Done) => match answer {
                BoltAnswer::Rows => BoltStage::Draining,
                BoltAnswer::Failed(e) => BoltStage::CountingError(e),
                BoltAnswer::TimedOut => BoltStage::CountingTimeout,
            },
            (BoltStage::Draining, Reply::Done) => BoltStage::Succeeded,
            (BoltStage::CountingError(e), Reply::Done) => BoltStage::Failed(e),
            (BoltStage::CountingTimeout, Reply::Done) => BoltStage::TimedOut,
            (stage, _) => stage,
        }
    }

    fn due_stage(simulate: Option<usize>) -> (stage: BoltStage)
        ensures
            stage == match simulate {
                Some(delay) => if delay > 0 {
                    BoltStage::Simulating(delay)
                } else {
                    BoltStage::Succeeded
                },
                None => BoltStage::Sending,
            },
    {
        match simulate {
            Some(delay) => {
                if delay > 0 {
                    BoltStage::Simulating(delay)
                } else {
                    BoltStage::Succeeded
                }
            },
            None => BoltStage::Sending,
        }
    }
}

impl Flow for SendBolt {
    type Output = ();

    open spec fn request(&self) -> Option<Request> {
        match self.stage {
            BoltStage::Noting => Some(
                Request::SetGauge { gauge: Gauge::Neo4jMsgDeadlineOffset, value: self.offset_ms },
            ),
            BoltStage::Waiting => Some(Request::Sleep(self.offset_ms as u64)),
            BoltStage::Simulating(delay) => Some(Request::Sleep(delay as u64)),
            BoltStage::Sending => Some(
                Request::Neo4jSend { bolt: self.bolt@, timeout_secs: 60 },
            ),
            BoltStage::Counting(_) => Some(Request::CountOperation(self.labels(""@))),
            BoltStage::Draining => Some(Request::Neo4jDrain),
            BoltStage::CountingError(_) => Some(Request::CountOperationError(self.labels("error"@))),
            BoltStage::CountingTimeout => Some(
                Request::CountOperationError(self.labels("timeout"@)),
            ),
            BoltStage::Succeeded | BoltStage::Failed(_) | BoltStage::TimedOut => None,
        }
    }

    open spec fn after(self, reply: Reply) -> Self {
        SendBolt { stage: self.stage_after(reply), ..self }
    }

    open spec fn gives(&self, result: BenchmarkResult<()>) -> bool {
        match self.stage {
            BoltStage::Succeeded => result == BenchmarkResult::<()>::Ok(()),
            BoltStage::Failed(e) => result == BenchmarkResult::<()>::Err(e),
            BoltStage::TimedOut => result matches Err(e) && e.is_other("Timeout"@),
            _ => false,
        }
    }

    proof fn goes_on(self, reply: Reply) {
    }

    fn action(&self) -> (action: Option<Action>) {
        match &self.stage {
            BoltStage::Noting => Some(
                Action::SetGauge { gauge: Gauge::Neo4jMsgDeadlineOffset, value: self.offset_ms },
            ),
            BoltStage::Waiting => Some(Action::Sleep(self.offset_ms as u64)),
            BoltStage::Simulating(delay) => Some(Action::Sleep(*delay as u64)),
            BoltStage::Sending => Some(
                Action::Neo4jSend { bolt: self.bolt.copy(), timeout_secs: 60 },
            ),
            BoltStage::Counting(_) => Some(Action::CountOperation(self.label_texts(""))),
            BoltStage::Draining => Some(Action::Neo4jDrain),
            BoltStage::CountingError(_) => Some(
                Action::CountOperationError(self.label_texts("error")),
            ),
            BoltStage::CountingTimeout => Some(
                Action::CountOperationError(self.label_texts("timeout")),
            ),
            BoltStage::Succeeded | BoltStage::Failed(_) | BoltStage::TimedOut => None,
        }
    }

    fn next(self, reply: Reply) -> (state: Self) {
        let stage = match (self.stage, reply) {
            (BoltStage::Noting, Reply::Done) => {
                if self.offset_ms > 0 {
                    BoltStage::Waiting
                } else {
                    SendBolt::due_stage(self.simulate)
                }
            },
            (BoltStage::Waiting, Reply::Done) => SendBolt::due_stage(self.simulate),
            (BoltStage::Simulating(_), Reply::Done) => BoltStage::Succeeded,
            (BoltStage::Sending, Reply::Done) => BoltStage::Counting(BoltAnswer::Rows),
            (BoltStage::Sending, Reply::Failed(e)) => BoltStage::Counting(BoltAnswer::Failed(e)),
            (BoltStage::Sending, Reply::TimedOut) => BoltStage::Counting(BoltAnswer::TimedOut),
            (BoltStage::Counting(answer), Reply::Done) => match answer {
                BoltAnswer::Rows => BoltStage::Draining,
                BoltAnswer::Failed(e) => BoltStage::CountingError(e),
                BoltAnswer::TimedOut => BoltStage::CountingTimeout,
            },
            (BoltStage::Draining, Reply::Done) => BoltStage::Succeeded,
            (BoltStage::CountingError(e), Reply::Done) => BoltStage::Failed(e),
            (BoltStage::CountingTimeout, Reply::Done) => BoltStage::TimedOut,
            (stage, _) => stage,
        };
        SendBolt { stage, ..self }
    }

    fn finish(self) -> (result: BenchmarkResult<()>) {
        match self.stage {
            BoltStage::Succeeded => Ok(()),
            BoltStage::Failed(e) => Err(e),
            BoltStage::TimedOut => Err(other_error("Timeout")),
            _ => unreached(),
        }
    }
}

impl SendBolt {
    /// Whether the query has not been sent and will not be.
    pub open spec fn is_unsent(&self) -> bool {
        match self.stage {
            BoltStage::Noting | BoltStage::Waiting => self.simulate is Some,
            BoltStage::Simulating(_) | BoltStage::Succeeded => true,
            _ => false,
        }
    }
}

/// A simulated query is never sent and never counted, whatever the replies are; it can
/// only succeed.
pub proof fn simulation_sends_nothing(flow: SendBolt, replies: Seq<Reply>)
    requires
        flow.is_unsent(),
    ensures
        ({
            let later = flow::run(flow, replies);
            &&& later.is_unsent()
            &&& match later.request() {
                Some(Request::SetGauge { gauge, value }) => true,
                Some(Request::Sleep(_)) => true,
                None => forall|result: BenchmarkResult<()>| later.gives(result) ==> result is Ok,
                _ => false,
            }
        }),
    decreases replies.len(),
{
    if replies.len() > 0 {
        simulation_sends_nothing(flow.after(replies[0]), replies.drop_first());
    }
}

/// A query that is due is sent once and counted once. Where it fails or is not answered in
/// time, it is also counted once as failed, under a type of its own, and the error is
/// given. Every count is one of Neo4j.
pub proof fn due_query_is_sent_and_counted(flow: SendBolt, reply: Reply)
    requires
        flow.stage == BoltStage::Sending,
        reply is Done || reply is Failed || reply is TimedOut,
    ensures
        ({
            let replies = seq![reply, Reply::Done, Reply::Done];
            &&& flow::requests(flow, replies) == seq![
                Some(Request::Neo4jSend { bolt: flow.bolt@, timeout_secs: 60 }),
                Some(Request::CountOperation(flow.labels(""@))),
                Some(
                    match reply {
                        Reply::Failed(_) => Request::CountOperationError(flow.labels("error"@)),
                        Reply::TimedOut => Request::CountOperationError(flow.labels("timeout"@)),
                        _ => Request::Neo4jDrain,
                    },
                ),
                None,
            ]
            &&& forall|result: BenchmarkResult<()>| #[trigger]
                flow::run(flow, replies).gives(result) ==> match reply {
                    Reply::Failed(e) => result == BenchmarkResult::<()>::Err(e),
                    Reply::TimedOut => result is Err,
                    _ => result is Ok,
                }
        }),
{
    broadcast use flow::group_flow;

}

// ---------------------------------------------------------------------------
// Size of the graph

/// The count, or zero where there was no row.
pub open spec fn count_or_zero(count: Option<u64>) -> u64 {
    match count {
        Some(n) => n,
        None => 0,
    }
}

/// Asks for the size of the graph.
pub enum Neo4jGraphSize {
    CountingNodes,
    CountingRelations { nodes: u64 },
    Ended(BenchmarkResult<(u64, u64)>),
}

impl Flow for Neo4jGraphSize {
    type Output = (u64, u64);

    open spec fn request(&self) -> Option<Request> {
        match self {
            Neo4jGraphSize::CountingNodes => Some(
                Request::Neo4jCount("MATCH (n) RETURN count(n) as count"@),
            ),
            Neo4jGraphSize::CountingRelations { nodes } => Some(
                Request::Neo4jCount("MATCH ()-[r]->() RETURN count(r) as count"@),
            ),
            Neo4jGraphSize::Ended(_) => None,
        }
    }

    open spec fn after(self, reply: Reply) -> Self {
        match (self, reply) {
            (Neo4jGraphSize::CountingNodes, Reply::Count(n)) => Neo4jGraphSize::CountingRelations {
                nodes: count_or_zero(n),
            },
            (Neo4jGraphSize::CountingRelations { nodes }, Reply::Count(n)) => Neo4jGraphSize::Ended(
                Ok((nodes, count_or_zero(n))),
            ),
            (Neo4jGraphSize::CountingNodes, Reply::Failed(e)) => Neo4jGraphSize::Ended(Err(e)),
            (Neo4jGraphSize::CountingRelations { nodes }, Reply::Failed(e)) =>
                Neo4jGraphSize::Ended(Err(e)),
            (state, _) => state,
        }
    }

    open spec fn gives(&self, result: BenchmarkResult<(u64, u64)>) -> bool {
        *self == Neo4jGraphSize::Ended(result)
    }

    proof fn goes_on(self, reply: Reply) {
    }

    fn action(&self) -> (action: Option<Action>) {
        match self {
            Neo4jGraphSize::CountingNodes => Some(
                Action::Neo4jCount("MATCH (n) RETURN count(n) as count".to_string()),
            ),
            Neo4jGraphSize::CountingRelations { nodes } => Some(
                Action::Neo4jCount("MATCH ()-[r]->() RETURN count(r) as count".to_string()),
            ),
            Neo4jGraphSize::Ended(_) => None,
        }
    }

    fn next(self, reply: Reply) -> (state: Self) {
        match (self, reply) {
            (Neo4jGraphSize::CountingNodes, Reply::Count(n)) => {
                let nodes: u64 = match n {
                    Some(n) => n,
                    None => 0,
                };
                Neo4jGraphSize::CountingRelations { nodes }
            },
            (Neo4jGraphSize::CountingRelations { nodes }, Reply::Count(n)) => {
                let relations: u64 = match n {
                    Some(n) => n,
                    None => 0,
                };
                Neo4jGraphSize::Ended(Ok((nodes, relations)))
            },
            (Neo4jGraphSize::CountingNodes, Reply::Failed(e)) => Neo4jGraphSize::Ended(Err(e)),
            (Neo4jGraphSize::CountingRelations { nodes }, Reply::Failed(e)) =>
                Neo4jGraphSize::Ended(Err(e)),
            (state, _) => state,
        }
    }

    fn finish(self) -> (result: BenchmarkResult<(u64, u64)>) {
        match self {
            Neo4jGraphSize::Ended(r) => r,
            _ => unreached(),
        }
    }
}

// ---------------------------------------------------------------------------
// Many queries

/// Executes queries one after the other, up to the first that fails.
pub struct ExecuteAll {
    pub queries: Vec<PreparedQuery>,
    pub position: usize,
    pub failure: Option<BenchmarkError>,
}

impl Flow for ExecuteAll {
    type Output = ();

    open spec fn request(&self) -> Option<Request> {
        if self.failure is None && self.position < self.queries@.len() {
            Some(Request::Neo4jExecute(self.queries@[self.position as int].bolt@))
        } else {
            None
        }
    }

    open spec fn after(self, reply: Reply) -> Self {
        if self.request() is None {
            self
        } else {
            match reply {
                Reply::Done => ExecuteAll { position: (self.position + 1) as usize, ..self },
                Reply::Failed(e) => ExecuteAll { failure: Some(e), ..self },
                _ => self,
            }
        }
    }

    open spec fn gives(&self, result: BenchmarkResult<()>) -> bool {
        match self.failure {
            Some(e) => result == BenchmarkResult::<()>::Err(e),
            None => result == BenchmarkResult::<()>::Ok(()),
        }
    }

    proof fn goes_on(self, reply: Reply) {
        assert(self.queries.len() == self.queries@.len());
    }

    fn action(&self) -> (action: Option<Action>) {
        if self.failure.is_none() && self.position < self.queries.len() {
            Some(Action::Neo4jExecute(self.queries[self.position].bolt.copy()))
        } else {
            None
        }
    }

    fn next(self, reply: Reply) -> (state: Self) {
        if self.failure.is_some() || self.position >= self.queries.len() {
            return self;
        }
        match reply {
            Reply::Done => ExecuteAll { position: self.position + 1, ..self },
            Reply::Failed(e) => ExecuteAll { failure: Some(e), ..self },
            _ => self,
        }
    }

    fn finish(self) -> (result: BenchmarkResult<()>) {
        match self.failure {
            Some(e) => Err(e),
            None => Ok(()),
        }
    }
}

/// While the queries succeed they are executed in order, and the first that fails is the
/// last.
pub proof fn first_failure_ends(flow: ExecuteAll, done: nat, e: BenchmarkError)
    requires
        flow.failure is None,
        flow.position + done < flow.queries@.len(),
    ensures
        ({
            let later = flow::run(flow, Seq::new(done, |i: int| Reply::Done));
            &&& later.request() == Some(
                Request::Neo4jExecute(flow.queries@[flow.position + done].bolt@),
            )
            &&& later.after(Reply::Failed(e)).request() is None
            &&& later.after(Reply::Failed(e)).gives(Err(e))
        }),
    decreases done,
{
    let replies = Seq::new(done, |i: int| Reply::Done);
    assert(flow.queries.len() == flow.queries@.len());
    if done > 0 {
        let fewer = (done - 1) as nat;
        first_failure_ends(flow.after(Reply::Done), fewer, e);
        assert(replies.drop_first() =~= Seq::new(fewer, |i: int| Reply::Done));
    }
}

// ---------------------------------------------------------------------------
// A stream of statements

/// Executes the open statements one after the other and records how long each takes.
pub enum ExecuteStream {
    Reading,
    Executing { statement: String },
    Ended(BenchmarkResult<()>),
}

impl ExecuteStream {
    /// What is asked for now; nothing once the stream has ended.
    pub open spec fn request(&self) -> Option<Request> {
        match self {
            ExecuteStream::Reading => Some(Request::NextStatement),
            ExecuteStream::Executing { statement } => Some(Request::Neo4jStatement(statement@)),
            ExecuteStream::Ended(_) => None,
        }
    }

    /// What is asked for now; nothing once the stream has ended.
    pub fn action(&self) -> (action: Option<Action>)
        ensures
            action::request_of(action) == self.request(),
    {
        match self {
            ExecuteStream::Reading => Some(Action::NextStatement),
            ExecuteStream::Executing { statement } => Some(
                Action::Neo4jStatement(statement.clone()),
            ),
            ExecuteStream::Ended(_) => None,
        }
    }

    /// The state after a reply where every duration can be recorded. Lines without a
    /// statement and lines that could not be read are passed over; a statement that fails
    /// ends the stream.
    pub open spec fn after(self, reply: Reply) -> ExecuteStream {
        match (self, reply) {
            (ExecuteStream::Reading, Reply::Line(line)) => if files::holds_statement(line@) {
                ExecuteStream::Executing { statement: line }
            } else {
                ExecuteStream::Reading
            },
            (ExecuteStream::Reading, Reply::End) => ExecuteStream::Ended(Ok(())),
            (ExecuteStream::Executing { statement }, Reply::Took(_)) => ExecuteStream::Reading,
            (ExecuteStream::Executing { statement }, Reply::Failed(e)) => ExecuteStream::Ended(
                Err(e),
            ),
            (state, _) => state,
        }
    }

    /// The state after a reply, which may record a duration in the histogram. A duration
    /// that cannot be recorded ends the stream.
    pub fn next(self, reply: Reply, histogram: &mut Histogram) -> (state: Self)
        requires
            durations::is_sound(*old(histogram)),
        ensures
            durations::is_sound(*final(histogram)),
            match (self, reply) {
                (ExecuteStream::Executing { statement }, Reply::Took(micros)) => {
                    exists|r: BenchmarkResult<()>|
                        {
                            &&& #[trigger] durations::recorded(
                                *old(histogram),
                                micros as u64,
                                *final(histogram),
                                r,
                            )
                            &&& state == if r is Ok {
                                ExecuteStream::Reading
                            } else {
                                ExecuteStream::Ended(r)
                            }
                        }
                },
                _ => *final(histogram) == *old(histogram) && state == self.after(reply),
            },
            durations::is_import_histogram(*old(histogram)) ==> state == self.after(reply)
                && durations::is_import_histogram(*final(histogram)),
    {
        match (self, reply) {
            (ExecuteStream::Reading, Reply::Line(line)) => {
                if files::is_statement(line.as_str()) {
                    ExecuteStream::Executing { statement: line }
                } else {
                    ExecuteStream::Reading
                }
            },
            (ExecuteStream::Reading, Reply::End) => ExecuteStream::Ended(Ok(())),
            (ExecuteStream::Executing { statement }, Reply::Took(micros)) => {
                let ghost before = *histogram;
                let recorded = durations::record(histogram, micros as u64);
                proof {
                    if durations::is_import_histogram(before) {
                        durations::every_statement_is_counted(
                            before,
                            micros as u64,
                            *histogram,
                            recorded,
                        );
                    }
                }
                match recorded {
                    Ok(()) => ExecuteStream::Reading,
                    Err(e) => ExecuteStream::Ended(Err(e)),
                }
            },
            (ExecuteStream::Executing { statement }, Reply::Failed(e)) => ExecuteStream::Ended(
                Err(e),
            ),
            (state, _) => state,
        }
    }

    /// The result of the ended stream.
    pub fn finish(self) -> (result: BenchmarkResult<()>)
        requires
            self.request() is None,
        ensures
            self == ExecuteStream::Ended(result),
    {
        match self {
            ExecuteStream::Ended(r) => r,
            _ => unreached(),
        }
    }
}

/// What comes back while lines are read and their statements are executed: after each line
/// that holds a statement, how long it took.
pub open spec fn import_replies(lines: Seq<(String, u128)>) -> Seq<Reply>
    decreases lines.len(),
{
    if lines.len() == 0 {
        Seq::empty()
    } else {
        let (line, micros) = lines.last();
        let read = import_replies(lines.drop_last()).push(Reply::Line(line));
        if files::holds_statement(line@) {
            read.push(Reply::Took(micros))
        } else {
            read
        }
    }
}

/// What is asked for while lines are read and their statements are executed.
pub open spec fn import_requests(lines: Seq<(String, u128)>) -> Seq<Option<Request>>
    decreases lines.len(),
{
    if lines.len() == 0 {
        seq![Some(Request::NextStatement)]
    } else {
        let (line, micros) = lines.last();
        let before = import_requests(lines.drop_last());
        if files::holds_statement(line@) {
            before.push(Some(Request::Neo4jStatement(line@))).push(Some(Request::NextStatement))
        } else {
            before.push(Some(Request::NextStatement))
        }
    }
}

/// The state of a stream after one reply after the other.
pub open spec fn stream_run(stream: ExecuteStream, replies: Seq<Reply>) -> ExecuteStream
    decreases replies.len(),
{
    if replies.len() == 0 {
        stream
    } else {
        stream_run(stream, replies.drop_last()).after(replies.last())
    }
}

/// What a stream asks for while it gets the replies, from its first request on.
pub open spec fn stream_requests(stream: ExecuteStream, replies: Seq<Reply>) -> Seq<Option<Request>>
    decreases replies.len(),
{
    if replies.len() == 0 {
        seq![stream.request()]
    } else {
        stream_requests(stream, replies.drop_last()).push(stream_run(stream, replies).request())
    }
}

/// Each line that holds a statement is executed once, in the order of the lines, and the
/// others are passed over.
pub proof fn statements_are_executed_in_order(lines: Seq<(String, u128)>)
    ensures
        stream_run(ExecuteStream::Reading, import_replies(lines)) == ExecuteStream::Reading,
        stream_requests(ExecuteStream::Reading, import_replies(lines)) == import_requests(lines),
    decreases lines.len(),
{
    if lines.len() > 0 {
        let before = import_replies(lines.drop_last());
        let (line, micros) = lines.last();
        let read = before.push(Reply::Line(line));
        statements_are_executed_in_order(lines.drop_last());
        let executed = read.push(Reply::Took(micros));
        assert(read.drop_last() =~= before);
        assert(executed.drop_last() =~= read);
        let reading = ExecuteStream::Reading;
        assert(stream_run(reading, read) == reading.after(Reply::Line(line)));
        assert(stream_requests(reading, read) == import_requests(lines.drop_last()).push(
            stream_run(reading, read).request(),
        ));
        if files::holds_statement(line@) {
            assert(stream_run(reading, executed) == reading);
        }
    }
}

} // verus!
