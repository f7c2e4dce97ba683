//! Data sets: their names and places, their statements, and the queries that are prepared
//! for them.
use vstd::prelude::*;
use crate::action::{Reply, Request};
use crate::error::{BenchmarkError, BenchmarkResult};
use crate::flow;
use crate::flow::Flow;
use crate::laws::loading;
use crate::neo4j_client::ExecuteStream;
use crate::query::PreparedQuery;
use crate::runner::load::{DryRun, DryStage};
use crate::runner::queries::{
    PrepareQueries, PrepareQueriesMetadata, PrepareStage, ReadReply, ReadRequest, ReadStage,
    ReadView,
};
use crate::scenario;
use crate::scenario::{Cache, CacheStage, Name, OpenStatements, Size, Vendor};
use crate::utils::files;

verus! {

// ---------------------------------------------------------------------------
// Names and places

/// The database as it stands in a path.
pub open spec fn vendor_in_path(vendor: Vendor) -> Seq<char> {
    match vendor {
        Vendor::Neo4j => "neo4j"@,
        Vendor::Falkor => "falkor"@,
        Vendor::Ibex => "ibex"@,
    }
}

/// A data set has a directory by its database, its name and its size, and each of these
/// stands in the path under its own name.
pub proof fn data_set_has_its_directory(root: Seq<char>, vendor: Vendor, name: Name, size: Size)
    ensures
        vendor.label() == vendor_in_path(vendor),
        name.label() == "users"@,
        size.label() == loading::size_in_path(size),
        scenario::data_set_dir(root, vendor, name, size) == root + "/"@ + vendor_in_path(vendor)
            + "/"@ + "users"@ + "/"@ + loading::size_in_path(size),
{
}

/// Where the statements are published: the data by its size, the indexes for all sizes.
pub proof fn statements_are_published(size: Size)
    ensures
        scenario::users_data_url(size) == match size {
            Size::Small =>
                "https://s3.eu-west-1.amazonaws.com/deps.memgraph.io/dataset/pokec/benchmark/pokec_small_import.cypher"@,
            Size::Medium =>
                "https://s3.eu-west-1.amazonaws.com/deps.memgraph.io/dataset/pokec/benchmark/pokec_medium_import.cypher"@,
            Size::Large =>
                "https://s3.eu-west-1.amazonaws.com/deps.memgraph.io/dataset/pokec/benchmark/pokec_large.setup.cypher.gz"@,
        },
        scenario::users_index_url()
            == "https://s3.eu-west-1.amazonaws.com/deps.memgraph.io/dataset/pokec/benchmark/neo4j.cypher"@,
{
}

/// Whether the operation can give nothing but the path.
pub open spec fn gives_path(cache: Cache, path: Seq<char>) -> bool {
    forall|r: BenchmarkResult<String>| #[trigger]
        cache.gives(r) <==> (r matches Ok(file) && file@ == path)
}

/// What a URL points to is cached in the directory under the last part of the URL. It is
/// downloaded where it is missing and only there, and the same file is given either way.
pub proof fn url_is_cached_under_its_last_part(cache: Cache, e: BenchmarkError)
    requires
        cache.stage == CacheStage::EnsuringDirectory,
    ensures
        ({
            let file = cache.dir@ + "/"@ + files::after_last_slash(cache.url@);
            let ensure = Request::EnsureDirectory(cache.dir@);
            let probe = Request::FileExists(file);
            let download = Request::Download { url: cache.url@, file };
            let ensured = (ensure, Reply::Done);
            let there = seq![ensured, (probe, Reply::Flag(true))];
            let fetched = seq![ensured, (probe, Reply::Flag(false)), (download, Reply::Done)];
            &&& flow::follows_from(cache, there, 0)
            &&& flow::played_from(cache, there, 0).request() is None
            &&& gives_path(flow::played_from(cache, there, 0), file)
            &&& flow::follows_from(cache, fetched, 0)
            &&& flow::played_from(cache, fetched, 0).request() is None
            &&& gives_path(flow::played_from(cache, fetched, 0), file)
            &&& flow::ends(cache, seq![(ensure, Reply::Failed(e))], Err(e))
            &&& flow::ends(
                cache,
                seq![ensured, (probe, Reply::Flag(false)), (download, Reply::Failed(e))],
                Err(e),
            )
        }),
{
    reveal_with_fuel(flow::follows_from, 5);
    reveal_with_fuel(flow::played_from, 5);
}

/// The file that is opened is the one that was cached.
pub proof fn cached_file_is_opened(cache: Cache, e: BenchmarkError)
    requires
        cache.stage == CacheStage::EnsuringDirectory,
    ensures
        ({
            let open = OpenStatements::Caching(cache);
            let file = cache.dir@ + "/"@ + files::after_last_slash(cache.url@);
            let ensure = Request::EnsureDirectory(cache.dir@);
            let probe = Request::FileExists(file);
            let download = Request::Download { url: cache.url@, file };
            let statements = Request::OpenStatements(file);
            let ensured = (ensure, Reply::Done);
            let there = (probe, Reply::Flag(true));
            let missing = (probe, Reply::Flag(false));
            &&& flow::ends(open, seq![ensured, there, (statements, Reply::Done)], Ok(()))
            &&& flow::ends(open, seq![ensured, there, (statements, Reply::Failed(e))], Err(e))
            &&& flow::ends(
                open,
                seq![ensured, missing, (download, Reply::Done), (statements, Reply::Done)],
                Ok(()),
            )
            &&& flow::ends(
                open,
                seq![ensured, missing, (download, Reply::Done), (statements, Reply::Failed(e))],
                Err(e),
            )
            &&& flow::ends(open, seq![(ensure, Reply::Failed(e))], Err(e))
            &&& flow::ends(open, seq![ensured, missing, (download, Reply::Failed(e))], Err(e))
        }),
{
    reveal_with_fuel(flow::follows_from, 6);
    reveal_with_fuel(flow::played_from, 6);
}

// ---------------------------------------------------------------------------
// Statements

/// An import takes the statements one by one. A line that holds one is run just as it is,
/// one that holds none or could not be read is passed over, a statement that fails ends
/// the import with its error, and the last one ends it with success.
pub proof fn import_runs_each_statement(line: String, micros: u128, e: BenchmarkError)
    ensures
        ({
            let reading = ExecuteStream::Reading;
            let taken = reading.after(Reply::Line(line));
            &&& reading.request() == Some(Request::NextStatement)
            &&& files::holds_statement(line@) ==> {
                &&& taken.request() == Some(Request::Neo4jStatement(line@))
                &&& taken.after(Reply::Took(micros)) == reading
                &&& taken.after(Reply::Failed(e)) == ExecuteStream::Ended(Err(e))
            }
            &&& !files::holds_statement(line@) ==> taken == reading
            &&& reading.after(Reply::LineFailed(e)) == reading
            &&& reading.after(Reply::End) == ExecuteStream::Ended(Ok(()))
            &&& ExecuteStream::Ended(Ok(())).request() is None
            &&& ExecuteStream::Ended(Err(e)).request() is None
        }),
{
}

/// A dry run opens the data of the size that it was asked for, takes every statement and
/// counts those that could be read apart from those that could not.
pub proof fn dry_run_opens_and_counts(
    size: Size,
    success: i32,
    error: i32,
    line: String,
    e: BenchmarkError,
)
    requires
        0 <= success < i32::MAX,
        0 <= error < i32::MAX,
    ensures
        ({
            let opening = DryRun { size, stage: DryStage::Opening, success, error };
            let reading = DryRun { size, stage: DryStage::Reading, success, error };
            &&& opening.request() == Some(Request::OpenData { vendor: Vendor::Neo4j, size })
            &&& opening.after(Reply::Done) == reading
            &&& opening.after(Reply::Failed(e)) == (DryRun {
                stage: DryStage::Ended(Err(e)),
                ..opening
            })
            &&& reading.request() == Some(Request::NextStatement)
            &&& reading.after(Reply::Line(line)).success == success + 1
            &&& reading.after(Reply::Line(line)).error == error
            &&& reading.after(Reply::LineFailed(e)).success == success
            &&& reading.after(Reply::LineFailed(e)).error == error + 1
            &&& reading.after(Reply::Line(line)).stage == DryStage::Reading
            &&& reading.after(Reply::LineFailed(e)).stage == DryStage::Reading
            &&& reading.after(Reply::End) == (DryRun { stage: DryStage::Ended(Ok(())), ..reading })
            &&& reading.after(Reply::End).request() is None
        }),
{
}

// ---------------------------------------------------------------------------
// Prepared queries

/// The queries, each put into JSON and written as one line.
pub open spec fn queries_are_written(
    queries: Seq<PreparedQuery>,
    json: Seq<String>,
) -> Seq<(Request, Reply)>
    decreases queries.len(),
{
    if queries.len() == 0 {
        Seq::empty()
    } else {
        queries_are_written(queries.drop_last(), json.drop_last()) + seq![
            (Request::NextQuery, Reply::Query(queries.last())),
            (Request::EncodeQuery(queries.last()@), Reply::Text(json.last())),
            (Request::WriteText(json.last()@.push('\n')), Reply::Done),
        ]
    }
}

proof fn lemma_queries_are_written(
    prepare: PrepareQueries,
    queries: Seq<PreparedQuery>,
    json: Seq<String>,
)
    requires
        prepare.stage is Drawing,
        queries.len() == json.len(),
    ensures
        flow::arrives(prepare, queries_are_written(queries, json), prepare),
    decreases queries.len(),
{
    if queries.len() > 0 {
        let last = seq![
            (Request::NextQuery, Reply::Query(queries.last())),
            (Request::EncodeQuery(queries.last()@), Reply::Text(json.last())),
            (Request::WriteText(json.last()@.push('\n')), Reply::Done),
        ];
        lemma_queries_are_written(prepare, queries.drop_last(), json.drop_last());
        assert(flow::arrives(prepare, last, prepare)) by {
            reveal_with_fuel(flow::follows_from, 5);
            reveal_with_fuel(flow::played_from, 5);
        }
        flow::script_in_parts(
            prepare,
            queries_are_written(queries.drop_last(), json.drop_last()),
            last,
        );
    }
}

/// The preparation draws as many queries as it was asked for on the 9998 users and the
/// 121716 edges of the small data set, and writes a description of as many queries for the
/// given data set and then every query, in order and one to a line, to the given file.
pub proof fn preparation_writes_description_and_queries(
    dataset: Size,
    size: usize,
    file_name: String,
    description: String,
    queries: Seq<PreparedQuery>,
    json: Seq<String>,
)
    requires
        queries.len() == json.len(),
    ensures
        flow::ends(
            PrepareQueries {
                metadata: PrepareQueriesMetadata { size, dataset },
                file_name,
                stage: PrepareStage::Generating,
            },
            seq![
                (
                    Request::GenerateQueries { vertices: 9998, edges: 121716, count: size },
                    Reply::Done,
                ),
                (Request::CreateFile(file_name@), Reply::Done),
                (Request::DescribeQueries { count: size, dataset }, Reply::Text(description)),
                (Request::WriteText(description@.push('\n')), Reply::Done),
            ] + queries_are_written(queries, json) + seq![
                (Request::NextQuery, Reply::End),
                (Request::FlushFile, Reply::Done),
            ],
            Ok(()),
        ),
{
    let prepare = PrepareQueries {
        metadata: PrepareQueriesMetadata { size, dataset },
        file_name,
        stage: PrepareStage::Generating,
    };
    let drawing = PrepareQueries { stage: PrepareStage::Drawing, ..prepare };
    let first = seq![
        (Request::GenerateQueries { vertices: 9998, edges: 121716, count: size }, Reply::Done),
        (Request::CreateFile(file_name@), Reply::Done),
        (Request::DescribeQueries { count: size, dataset }, Reply::Text(description)),
        (Request::WriteText(description@.push('\n')), Reply::Done),
    ];
    let second = queries_are_written(queries, json);
    let third = seq![(Request::NextQuery, Reply::End), (Request::FlushFile, Reply::Done)];
    assert(flow::arrives(prepare, first, drawing)) by {
        reveal_with_fuel(flow::follows_from, 6);
        reveal_with_fuel(flow::played_from, 6);
    }
    lemma_queries_are_written(drawing, queries, json);
    assert(flow::ends(drawing, third, Ok(()))) by {
        reveal_with_fuel(flow::follows_from, 4);
        reveal_with_fuel(flow::played_from, 4);
    }
    flow::script_in_parts(prepare, first, second);
    flow::script_in_parts(prepare, first + second, third);
}

/// The first step of the preparation that fails is the last, and its error is given.
pub proof fn failed_preparation_gives_its_error(prepare: PrepareQueries, e: BenchmarkError)
    requires
        !(prepare.stage is Generating) && !(prepare.stage is Drawing) && !(prepare.stage is Ended),
    ensures
        ({
            let failed = prepare.after(Reply::Failed(e));
            &&& failed.request() is None
            &&& flow::gives_only(failed, Err(e))
        }),
{
}

/// A file of prepared queries is opened under the name that was given; its first line is
/// taken for the description and each later line for a query, which is kept after those
/// before it. The first step that fails is the last.
pub proof fn file_is_read_line_by_line(
    read: ReadView,
    line: String,
    metadata: PrepareQueriesMetadata,
    query: PreparedQuery,
    reason: String,
    e: BenchmarkError,
)
    ensures
        read.stage is Opening ==> {
            &&& read.request() == Some(ReadRequest::OpenFile(read.file_name))
            &&& read.after(ReadReply::Done) == (ReadView {
                stage: ReadStage::ReadingFirstLine,
                ..read
            })
        },
        read.stage is ReadingFirstLine ==> {
            &&& read.request() == Some(ReadRequest::ReadFirstLine)
            &&& read.after(ReadReply::Line(line)) == (ReadView {
                stage: ReadStage::Describing { line },
                ..read
            })
        },
        read.stage == (ReadStage::Describing { line }) ==> {
            &&& read.request() == Some(ReadRequest::ParseMetadata(line@))
            &&& read.after(ReadReply::Metadata(metadata)) == (ReadView {
                stage: ReadStage::Reading(metadata),
                ..read
            })
            &&& read.after(ReadReply::MetadataInvalid(reason)).stage == (ReadStage::Unclear {
                reason,
            })
        },
        read.stage == ReadStage::Reading(metadata) ==> {
            &&& read.request() == Some(ReadRequest::ReadLine)
            &&& read.after(ReadReply::Line(line)) == (ReadView {
                stage: ReadStage::Parsing { metadata, line },
                ..read
            })
            &&& read.after(ReadReply::End) == (ReadView {
                stage: ReadStage::Ended(Ok(metadata)),
                ..read
            })
        },
        read.stage == (ReadStage::Parsing { metadata, line }) ==> {
            &&& read.request() == Some(ReadRequest::ParseQuery(line@))
            &&& read.after(ReadReply::Query(query)) == (ReadView {
                stage: ReadStage::Reading(metadata),
                queries: read.queries.push(query@),
                ..read
            })
        },
        read.request() is Some && !(read.stage is Describing) ==> read.after(
            ReadReply::Failed(e),
        ).stage == ReadStage::Ended(Err(e)),
        read.stage is Ended || read.stage is Unclear ==> read.request() is None,
        ReadView::begun(read.file_name) == (ReadView {
            file_name: read.file_name,
            stage: ReadStage::Opening,
            queries: Seq::empty(),
        }),
{
}

} // verus!
