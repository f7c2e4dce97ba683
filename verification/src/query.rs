//! The queries that the benchmark sends, and the values that come back.
use vstd::prelude::*;

verus! {

/// Whether a query only reads.
#[derive(Debug, Clone, Copy, PartialEq, Eq, Structural)]
pub enum QueryType {
    Read,
    Write,
}

/// The value of a parameter.
#[derive(Debug, PartialEq, Eq)]
pub enum BoltValue {
    Integer(i64),
    Text(String),
}

/// A [`BoltValue`] with its text taken by its characters.
pub enum BoltValueView {
    Integer(i64),
    Text(Seq<char>),
}

impl View for BoltValue {
    type V = BoltValueView;

    open spec fn view(&self) -> BoltValueView {
        match self {
            BoltValue::Integer(n) => BoltValueView::Integer(*n),
            BoltValue::Text(text) => BoltValueView::Text(text@),
        }
    }
}

impl BoltValue {
    /// The same value once more.
    pub fn copy(&self) -> (value: BoltValue)
        ensures
            value@ == self@,
    {
        match self {
            BoltValue::Integer(n) => BoltValue::Integer(*n),
            BoltValue::Text(text) => BoltValue::Text(text.clone()),
        }
    }
}

/// A query with its parameters by name, as Neo4j takes it.
#[derive(Debug, PartialEq, Eq)]
pub struct Bolt {
    pub query: String,
    pub params: Vec<(String, BoltValue)>,
}

/// A [`Bolt`] with its strings taken by their characters.
pub struct BoltView {
    pub query: Seq<char>,
    pub params: Seq<(Seq<char>, BoltValueView)>,
}

impl View for Bolt {
    type V = BoltView;

    open spec fn view(&self) -> BoltView {
        BoltView {
            query: self.query@,
            params: self.params@.map_values(|p: (String, BoltValue)| (p.0@, p.1@)),
        }
    }
}

impl Bolt {
    /// The same query once more.
    pub fn copy(&self) -> (bolt: Bolt)
        ensures
            bolt@ == self@,
    {
        let mut params: Vec<(String, BoltValue)> = Vec::new();
        let mut i: usize = 0;
        while i < self.params.len()
            invariant
                i <= self.params@.len(),
                params@.len() == i,
                forall|j: int|
                    0 <= j < i ==> (#[trigger] params@[j]).0@ == self.params@[j].0@
                        && params@[j].1@ == self.params@[j].1@,
            decreases self.params@.len() - i,
        {
            params.push((self.params[i].0.clone(), self.params[i].1.copy()));
            i = i + 1;
        }
        let bolt = Bolt { query: self.query.clone(), params };
        proof {
            assert(bolt@.params =~= self@.params);
        }
        bolt
    }
}

/// A query that is ready to be sent.
#[derive(Debug, PartialEq, Eq)]
pub struct PreparedQuery {
    pub q_name: String,
    pub q_type: QueryType,
    pub cypher: String,
    pub bolt: Bolt,
}

/// A [`PreparedQuery`] with its strings taken by their characters.
pub struct PreparedQueryView {
    pub q_name: Seq<char>,
    pub q_type: QueryType,
    pub cypher: Seq<char>,
    pub bolt: BoltView,
}

impl View for PreparedQuery {
    type V = PreparedQueryView;

    open spec fn view(&self) -> PreparedQueryView {
        PreparedQueryView {
            q_name: self.q_name@,
            q_type: self.q_type,
            cypher: self.cypher@,
            bolt: self.bolt@,
        }
    }
}

impl PreparedQuery {
    /// The same query once more.
    pub fn copy(&self) -> (query: PreparedQuery)
        ensures
            query@ == self@,
    {
        PreparedQuery {
            q_name: self.q_name.clone(),
            q_type: self.q_type,
            cypher: self.cypher.clone(),
            bolt: self.bolt.copy(),
        }
    }
}

/// A prepared query on its way to a worker, and when it is due, in milliseconds since the
/// run began.
#[derive(Debug, PartialEq, Eq)]
pub struct Msg {
    pub due_ms: u64,
    pub payload: PreparedQuery,
}

/// A [`Msg`] with its strings taken by their characters.
pub struct MsgView {
    pub due_ms: u64,
    pub payload: PreparedQueryView,
}

impl View for Msg {
    type V = MsgView;

    open spec fn view(&self) -> MsgView {
        MsgView { due_ms: self.due_ms, payload: self.payload@ }
    }
}

impl Msg {
    /// The same message once more.
    pub fn copy(&self) -> (msg: Msg)
        ensures
            msg@ == self@,
    {
        Msg { due_ms: self.due_ms, payload: self.payload.copy() }
    }
}

/// A value in a row that FalkorDB answers. Only signed integers are told apart.
#[derive(Debug, Clone, Copy, PartialEq, Eq, Structural)]
pub enum FalkorValue {
    I64(i64),
    Other,
}

/// A row that FalkorDB answers, and the row as it is written in messages.
#[derive(Debug, PartialEq, Eq)]
pub struct Row {
    pub values: Vec<FalkorValue>,
    pub text: String,
}

/// A value that Redis answers, and the value as it is written in messages.
#[derive(Debug, PartialEq, Eq)]
pub enum RedisValue {
    Array { items: Vec<RedisValue>, text: String },
    Scalar { text: String },
}

impl RedisValue {
    /// The value as it is written in messages.
    pub open spec fn shown(&self) -> Seq<char> {
        match self {
            RedisValue::Array { items, text } => text@,
            RedisValue::Scalar { text } => text@,
        }
    }
}

/// What a process left behind.
#[derive(Debug, PartialEq, Eq)]
pub struct ProcessOutput {
    pub success: bool,
    pub code: Option<i32>,
    pub stdout: Vec<u8>,
    pub stderr: Vec<u8>,
}

} // verus!
