//! Files of prepared queries: a description in the first line, then one query per line.
use vstd::pervasive::unreached;
use vstd::prelude::*;
use vstd::string::*;
use crate::action::{Action, Reply, Request};
use crate::error::{other_error, BenchmarkError, BenchmarkResult};
use crate::flow;
use crate::flow::Flow;
use crate::query::{PreparedQuery, PreparedQueryView};
use crate::scenario::Size;

verus! {

/// The description of a file of prepared queries.
#[derive(Debug, Clone, Copy, PartialEq, Eq, Structural)]
pub struct PrepareQueriesMetadata {
    pub size: usize,
    pub dataset: Size,
}

/// A text as it stands in the file: one line.
pub fn query_record(json: &str) -> (record: String)
    ensures
        record@ == json@.push('\n'),
{
    let mut record = json.to_string();
    record.push('\n');
    record
}

// ---------------------------------------------------------------------------
// Writing

/// Where the preparation of queries stands.
pub enum PrepareStage {
    Generating,
    Creating,
    Describing,
    WritingDescription { json: String },
    Drawing,
    Encoding(PreparedQuery),
    WritingQuery { json: String },
    Flushing,
    Ended(BenchmarkResult<()>),
}

/// Generates queries and writes them to a file.
pub struct PrepareQueries {
    pub metadata: PrepareQueriesMetadata,
    pub file_name: String,
    pub stage: PrepareStage,
}

/// The greatest user id of the small data set.
pub const USERS_VERTICES: i32 = 9998;

/// The number of edges of the small data set.
pub const USERS_EDGES: i32 = 121716;

/// Generates `size` queries for the data set and writes them to the file.
pub fn prepare_queries(dataset: Size, size: usize, file_name: String) -> (flow: PrepareQueries)
    ensures
        flow == (PrepareQueries {
            metadata: PrepareQueriesMetadata { size, dataset },
            file_name,
            stage: PrepareStage::Generating,
        }),
{
    PrepareQueries {
        metadata: PrepareQueriesMetadata { size, dataset },
        file_name,
        stage: PrepareStage::Generating,
    }
}

impl PrepareQueries {
    /// The stage after a reply.
    pub open spec fn stage_after(&self, reply: Reply) -> PrepareStage {
        match (self.stage, reply) {
            (PrepareStage::Generating, Reply::Done) => PrepareStage::Creating,
            (PrepareStage::Creating, Reply::Done) => PrepareStage::Describing,
            (PrepareStage::Creating, Reply::Failed(e)) => PrepareStage::Ended(Err(e)),
            (PrepareStage::Describing, Reply::Text(json)) => PrepareStage::WritingDescription {
                json,
            },
            (PrepareStage::Describing, Reply::Failed(e)) => PrepareStage::Ended(Err(e)),
            (PrepareStage::WritingDescription { json }, Reply::Done) => PrepareStage::Drawing,
            (PrepareStage::WritingDescription { json }, Reply::Failed(e)) => PrepareStage::Ended(
                Err(e),
            ),
            (PrepareStage::Drawing, Reply::Query(query)) => PrepareStage::Encoding(query),
            (PrepareStage::Drawing, Reply::End) => PrepareStage::Flushing,
            (PrepareStage::Encoding(_), Reply::Text(json)) => PrepareStage::WritingQuery { json },
            (PrepareStage::Encoding(_), Reply::Failed(e)) => PrepareStage::Ended(Err(e)),
            (PrepareStage::WritingQuery { json }, Reply::Done) => PrepareStage::Drawing,
            (PrepareStage::WritingQuery { json }, Reply::Failed(e)) => PrepareStage::Ended(Err(e)),
            (PrepareStage::Flushing, Reply::Done) => PrepareStage::Ended(Ok(())),
            (PrepareStage::Flushing, Reply::Failed(e)) => PrepareStage::Ended(Err(e)),
            (stage, _) => stage,
        }
    }
}

impl Flow for PrepareQueries {
    type Output = ();

    open spec fn request(&self) -> Option<Request> {
        match self.stage {
            PrepareStage::Generating => Some(
                Request::GenerateQueries {
                    vertices: USERS_VERTICES,
                    edges: USERS_EDGES,
                    count: self.metadata.size,
                },
            ),
            PrepareStage::Creating => Some(Request::CreateFile(self.file_name@)),
            PrepareStage::Describing => Some(
                Request::DescribeQueries {
                    count: self.metadata.size,
                    dataset: self.metadata.dataset,
                },
            ),
            PrepareStage::WritingDescription { json } => Some(
                Request::WriteText(json@.push('\n')),
            ),
            PrepareStage::Drawing => Some(Request::NextQuery),
            PrepareStage::Encoding(query) => Some(Request::EncodeQuery(query@)),
            PrepareStage::WritingQuery { json } => Some(
                Request::WriteText(json@.push('\n')),
            ),
            PrepareStage::Flushing => Some(Request::FlushFile),
            PrepareStage::Ended(_) => None,
        }
    }

    open spec fn after(self, reply: Reply) -> Self {
        PrepareQueries { stage: self.stage_after(reply), ..self }
    }

    open spec fn gives(&self, result: BenchmarkResult<()>) -> bool {
        self.stage == PrepareStage::Ended(result)
    }

    proof fn goes_on(self, reply: Reply) {
    }

    fn action(&self) -> (action: Option<Action>) {
        match &self.stage {
            PrepareStage::Generating => Some(
                Action::GenerateQueries {
                    vertices: USERS_VERTICES,
                    edges: USERS_EDGES,
                    count: self.metadata.size,
                },
            ),
            PrepareStage::Creating => Some(Action::CreateFile(self.file_name.clone())),
            PrepareStage::Describing => Some(
                Action::DescribeQueries {
                    count: self.metadata.size,
                    dataset: self.metadata.dataset,
                },
            ),
            PrepareStage::WritingDescription { json } => Some(
                Action::WriteText(query_record(json.as_str())),
            ),
            PrepareStage::Drawing => Some(Action::NextQuery),
            PrepareStage::Encoding(query) => Some(Action::EncodeQuery(query.copy())),
            PrepareStage::WritingQuery { json } => Some(
                Action::WriteText(query_record(json.as_str())),
            ),
            PrepareStage::Flushing => Some(Action::FlushFile),
            PrepareStage::Ended(_) => None,
        }
    }

    fn next(self, reply: Reply) -> (state: Self) {
        let stage = match (self.stage, reply) {
            (PrepareStage::Generating, Reply::Done) => PrepareStage::Creating,
            (PrepareStage::Creating, Reply::Done) => PrepareStage::Describing,
            (PrepareStage::Creating, Reply::Failed(e)) => PrepareStage::Ended(Err(e)),
            (PrepareStage::Describing, Reply::Text(json)) => PrepareStage::WritingDescription {
                json,
            },
            (PrepareStage::Describing, Reply::Failed(e)) => PrepareStage::Ended(Err(e)),
            (PrepareStage::WritingDescription { json }, Reply::Done) => PrepareStage::Drawing,
            (PrepareStage::WritingDescription { json }, Reply::Failed(e)) => PrepareStage::Ended(
                Err(e),
            ),
            (PrepareStage::Drawing, Reply::Query(query)) => PrepareStage::Encoding(query),
            (PrepareStage::Drawing, Reply::End) => PrepareStage::Flushing,
            (PrepareStage::Encoding(_), Reply::Text(json)) => PrepareStage::WritingQuery { json },
            (PrepareStage::Encoding(_), Reply::Failed(e)) => PrepareStage::Ended(Err(e)),
            (PrepareStage::WritingQuery { json }, Reply::Done) => PrepareStage::Drawing,
            (PrepareStage::WritingQuery { json }, Reply::Failed(e)) => PrepareStage::Ended(Err(e)),
            (PrepareStage::Flushing, Reply::Done) => PrepareStage::Ended(Ok(())),
            (PrepareStage::Flushing, Reply::Failed(e)) => PrepareStage::Ended(Err(e)),
            (stage, _) => stage,
        };
        PrepareQueries { stage, ..self }
    }

    fn finish(self) -> (result: BenchmarkResult<()>) {
        match self.stage {
            PrepareStage::Ended(r) => r,
            _ => unreached(),
        }
    }
}

/// The description is written, as one line, before any query is taken.
pub proof fn description_comes_first(prepare: PrepareQueries, json: String)
    requires
        prepare.stage is Creating,
    ensures
        ({
            let replies = seq![Reply::Done, Reply::Text(json), Reply::Done];
            &&& flow::requests(prepare, replies) == seq![
                Some(Request::CreateFile(prepare.file_name@)),
                Some(
                    Request::DescribeQueries {
                        count: prepare.metadata.size,
                        dataset: prepare.metadata.dataset,
                    },
                ),
                Some(Request::WriteText(json@.push('\n'))),
                Some(Request::NextQuery),
            ]
            &&& flow::run(prepare, replies) == (PrepareQueries {
                stage: PrepareStage::Drawing,
                ..prepare
            })
        }),
{
    broadcast use flow::group_flow;

}

/// Each query that is taken is written once, as one line; then the next is taken. The file
/// is flushed once there are no more, and only then has the preparation succeeded.
pub proof fn every_query_is_written(prepare: PrepareQueries, query: PreparedQuery, json: String)
    requires
        prepare.stage is Drawing,
    ensures
        ({
            let replies = seq![Reply::Query(query), Reply::Text(json), Reply::Done];
            &&& flow::requests(prepare, replies) == seq![
                Some(Request::NextQuery),
                Some(Request::EncodeQuery(query@)),
                Some(Request::WriteText(json@.push('\n'))),
                Some(Request::NextQuery),
            ]
            &&& flow::run(prepare, replies) == prepare
        }),
        ({
            let replies = seq![Reply::End, Reply::Done];
            &&& flow::requests(prepare, replies) == seq![
                Some(Request::NextQuery),
                Some(Request::FlushFile),
                None,
            ]
            &&& flow::run(prepare, replies).gives(Ok(()))
        }),
{
    broadcast use flow::group_flow;

}

// ---------------------------------------------------------------------------
// Reading

/// What comes back while a file of prepared queries is read.
pub enum ReadReply {
    /// It was done.
    Done,
    /// It failed.
    Failed(BenchmarkError),
    /// A line.
    Line(String),
    /// The description in a line.
    Metadata(PrepareQueriesMetadata),
    /// The line is no description, and why.
    MetadataInvalid(String),
    /// The query in a line.
    Query(PreparedQuery),
    /// There are no more lines.
    End,
}

/// What is asked for while a file of prepared queries is read.
#[derive(Debug, PartialEq, Eq)]
pub enum ReadAction {
    /// Open the file. `Done` or `Failed`.
    OpenFile(String),
    /// Read the first line, with the newline that ends it. `Line` or `Failed`.
    ReadFirstLine,
    /// Take the description out of the JSON. `Metadata` or `MetadataInvalid`.
    ParseMetadata(String),
    /// Read the next line, without what ends it. `Line`, `End` or `Failed`.
    ReadLine,
    /// Take the query out of the JSON. `Query` or `Failed`.
    ParseQuery(String),
}

/// A [`ReadAction`] with its strings taken by their characters.
pub enum ReadRequest {
    OpenFile(Seq<char>),
    ReadFirstLine,
    ParseMetadata(Seq<char>),
    ReadLine,
    ParseQuery(Seq<char>),
}

impl View for ReadAction {
    type V = ReadRequest;

    open spec fn view(&self) -> ReadRequest {
        match self {
            ReadAction::OpenFile(file) => ReadRequest::OpenFile(file@),
            ReadAction::ReadFirstLine => ReadRequest::ReadFirstLine,
            ReadAction::ParseMetadata(line) => ReadRequest::ParseMetadata(line@),
            ReadAction::ReadLine => ReadRequest::ReadLine,
            ReadAction::ParseQuery(line) => ReadRequest::ParseQuery(line@),
        }
    }
}

/// Where the reading of a file stands.
pub enum ReadStage {
    Opening,
    ReadingFirstLine,
    Describing { line: String },
    Reading(PrepareQueriesMetadata),
    Parsing { metadata: PrepareQueriesMetadata, line: String },
    Unclear { reason: String },
    Ended(BenchmarkResult<PrepareQueriesMetadata>),
}

/// Reads a file of prepared queries.
pub struct ReadQueries {
    pub file_name: String,
    pub stage: ReadStage,
    /// The queries that have been read.
    pub queries: Vec<PreparedQuery>,
}

/// The queries with their strings taken by their characters.
pub open spec fn query_views(queries: Seq<PreparedQuery>) -> Seq<PreparedQueryView> {
    queries.map_values(|query: PreparedQuery| query@)
}

/// A [`ReadQueries`] with its name and queries taken by their characters.
pub struct ReadView {
    pub file_name: Seq<char>,
    pub stage: ReadStage,
    pub queries: Seq<PreparedQueryView>,
}

impl View for ReadQueries {
    type V = ReadView;

    open spec fn view(&self) -> ReadView {
        ReadView {
            file_name: self.file_name@,
            stage: self.stage,
            queries: query_views(self.queries@),
        }
    }
}

impl ReadView {
    /// The reading of the file before it has begun.
    pub open spec fn begun(file_name: Seq<char>) -> ReadView {
        ReadView { file_name, stage: ReadStage::Opening, queries: Seq::empty() }
    }

    /// What is asked for now; nothing once the file is read.
    pub open spec fn request(self) -> Option<ReadRequest> {
        match self.stage {
            ReadStage::Opening => Some(ReadRequest::OpenFile(self.file_name)),
            ReadStage::ReadingFirstLine => Some(ReadRequest::ReadFirstLine),
            ReadStage::Describing { line } => Some(ReadRequest::ParseMetadata(line@)),
            ReadStage::Reading(_) => Some(ReadRequest::ReadLine),
            ReadStage::Parsing { metadata, line } => Some(ReadRequest::ParseQuery(line@)),
            ReadStage::Unclear { reason } => None,
            ReadStage::Ended(_) => None,
        }
    }

    /// The stage after a reply.
    pub open spec fn stage_after(self, reply: ReadReply) -> ReadStage {
        match (self.stage, reply) {
            (ReadStage::Opening, ReadReply::Done) => ReadStage::ReadingFirstLine,
            (ReadStage::Opening, ReadReply::Failed(e)) => ReadStage::Ended(Err(e)),
            (ReadStage::ReadingFirstLine, ReadReply::Line(line)) => ReadStage::Describing { line },
            (ReadStage::ReadingFirstLine, ReadReply::Failed(e)) => ReadStage::Ended(Err(e)),
            (ReadStage::Describing { line }, ReadReply::Metadata(metadata)) => ReadStage::Reading(
                metadata,
            ),
            (ReadStage::Describing { line }, ReadReply::MetadataInvalid(reason)) =>
                ReadStage::Unclear { reason },
            (ReadStage::Reading(metadata), ReadReply::Line(line)) => ReadStage::Parsing {
                metadata,
                line,
            },
            (ReadStage::Reading(metadata), ReadReply::End) => ReadStage::Ended(Ok(metadata)),
            (ReadStage::Reading(metadata), ReadReply::Failed(e)) => ReadStage::Ended(Err(e)),
            (ReadStage::Parsing { metadata, line }, ReadReply::Query(query)) => ReadStage::Reading(
                metadata,
            ),
            (ReadStage::Parsing { metadata, line }, ReadReply::Failed(e)) => ReadStage::Ended(
                Err(e),
            ),
            (stage, _) => stage,
        }
    }

    /// The state after a reply. A reply that does not answer what was asked for leaves the
    /// state as it is.
    pub open spec fn after(self, reply: ReadReply) -> ReadView {
        ReadView {
            file_name: self.file_name,
            stage: self.stage_after(reply),
            queries: match (self.stage, reply) {
                (ReadStage::Parsing { metadata, line }, ReadReply::Query(query)) =>
                    self.queries.push(query@),
                _ => self.queries,
            },
        }
    }
}

/// Reads the prepared queries in the file.
pub fn read_queries(file_name: String) -> (reader: ReadQueries)
    ensures
        reader@ == ReadView::begun(file_name@),
{
    let reader = ReadQueries { file_name, stage: ReadStage::Opening, queries: Vec::new() };
    proof {
        assert(reader@.queries =~= Seq::empty());
    }
    reader
}

impl ReadQueries {
    /// What is asked for now; nothing once the file is read.
    pub fn action(&self) -> (action: Option<ReadAction>)
        ensures
            match action {
                Some(a) => self@.request() == Some(a@),
                None => self@.request() is None,
            },
    {
        match &self.stage {
            ReadStage::Opening => Some(ReadAction::OpenFile(self.file_name.clone())),
            ReadStage::ReadingFirstLine => Some(ReadAction::ReadFirstLine),
            ReadStage::Describing { line } => Some(ReadAction::ParseMetadata(line.clone())),
            ReadStage::Reading(_) => Some(ReadAction::ReadLine),
            ReadStage::Parsing { metadata, line } => Some(ReadAction::ParseQuery(line.clone())),
            ReadStage::Unclear { reason } => None,
            ReadStage::Ended(_) => None,
        }
    }

    /// The state after a reply. A reply that does not answer what was asked for leaves the
    /// state as it is.
    pub fn next(self, reply: ReadReply) -> (state: Self)
        ensures
            state@ == self@.after(reply),
    {
        let ghost before = self@;
        let mut queries = self.queries;
        let stage = match (self.stage, reply) {
            (ReadStage::Opening, ReadReply::Done) => ReadStage::ReadingFirstLine,
            (ReadStage::Opening, ReadReply::Failed(e)) => ReadStage::Ended(Err(e)),
            (ReadStage::ReadingFirstLine, ReadReply::Line(line)) => ReadStage::Describing { line },
            (ReadStage::ReadingFirstLine, ReadReply::Failed(e)) => ReadStage::Ended(Err(e)),
            (ReadStage::Describing { line }, ReadReply::Metadata(metadata)) => ReadStage::Reading(
                metadata,
            ),
            (ReadStage::Describing { line }, ReadReply::MetadataInvalid(reason)) =>
                ReadStage::Unclear { reason },
            (ReadStage::Reading(metadata), ReadReply::Line(line)) => ReadStage::Parsing {
                metadata,
                line,
            },
            (ReadStage::Reading(metadata), ReadReply::End) => ReadStage::Ended(Ok(metadata)),
            (ReadStage::Reading(metadata), ReadReply::Failed(e)) => ReadStage::Ended(Err(e)),
            (ReadStage::Parsing { metadata, line }, ReadReply::Query(query)) => {
                queries.push(query);
                ReadStage::Reading(metadata)
            },
            (ReadStage::Parsing { metadata, line }, ReadReply::Failed(e)) => ReadStage::Ended(
                Err(e),
            ),
            (stage, _) => stage,
        };
        let state = ReadQueries { file_name: self.file_name, stage, queries };
        proof {
            assert(state@.queries =~= before.after(reply).queries);
        }
        state
    }

    /// The description and the queries, or the first error.
    pub fn finish(self) -> (result: BenchmarkResult<(PrepareQueriesMetadata, Vec<PreparedQuery>)>)
        requires
            self@.request() is None,
        ensures
            match self.stage {
                ReadStage::Ended(Ok(metadata)) => result matches Ok(r) && r.0 == metadata
                    && query_views(r.1@) == self@.queries,
                ReadStage::Ended(Err(e)) => result == BenchmarkResult::<
                    (PrepareQueriesMetadata, Vec<PreparedQuery>),
                >::Err(e),
                ReadStage::Unclear { reason } => result matches Err(e) && e.is_other(
                    "Error parsing metadata: "@ + reason@,
                ),
                _ => false,
            },
    {
        match self.stage {
            ReadStage::Ended(Ok(metadata)) => Ok((metadata, self.queries)),
            ReadStage::Ended(Err(e)) => Err(e),
            ReadStage::Unclear { reason } => {
                let said = "Error parsing metadata: ".to_string().concat(reason.as_str());
                Err(other_error(said.as_str()))
            },
            _ => unreached(),
        }
    }
}

/// The reply to whoever asked for the queries, and the queries.
pub fn reading_reply(result: BenchmarkResult<(PrepareQueriesMetadata, Vec<PreparedQuery>)>) -> (r: (
    Reply,
    Vec<PreparedQuery>,
))
    ensures
        match result {
            Ok(read) => r.0 == (Reply::Queries { size: read.0.size, dataset: read.0.dataset }) && r.1
                == read.1,
            Err(e) => r.0 == Reply::Failed(e) && r.1@ == Seq::<PreparedQuery>::empty(),
        },
{
    match result {
        Ok((metadata, queries)) => (
            Reply::Queries { size: metadata.size, dataset: metadata.dataset },
            queries,
        ),
        Err(e) => (Reply::Failed(e), Vec::new()),
    }
}

} // verus!
