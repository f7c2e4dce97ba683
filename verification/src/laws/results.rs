//! What the plain functions of the library give.
use histogram::Histogram;
use vstd::prelude::*;
use crate::action;
use crate::action::{Action, Gauge, Reply};
use crate::calls;
use crate::calls::{Call, Surroundings};
use crate::durations;
use crate::durations::import_histogram;
use crate::error::{other_error, BenchmarkError, BenchmarkResult};
use crate::execution;
use crate::execution::{read_reply, Answer, Target};
use crate::falkor::falkor_driver::{Falkor, Started};
use crate::falkor::falkor_metrics::{
    get_falkor_server_pid, redis_to_query_info, redis_value_as_vec,
};
use crate::falkor::falkor_process::{FalkorProcess, TerminateFalkor};
use crate::falkor::falkor_server;
use crate::falkor::falkor_server::{server_call, FalkorServer, ServerCall};
use crate::ibex::ibex_process::{get_ibex_server_pid, IbexProcess, TerminateIbex};
use crate::jobs;
use crate::jobs::Job;
use crate::laws::datasets;
use crate::laws::loading;
use crate::laws::texts;
use crate::neo4j_client::ExecuteStream;
use crate::query::{
    Bolt, BoltValue, FalkorValue, Msg, PreparedQuery, ProcessOutput, RedisValue, Row,
};
use crate::runner::load::{DryRun, DryStage};
use crate::runner::queries::{
    query_record, reading_reply, PrepareQueriesMetadata, ReadAction, ReadQueries, ReadReply,
    ReadStage,
};
use crate::scenario::{
    open_data, open_indexes, Cache, CacheStage, Name, OpenStatements, Size, Spec, Vendor,
};
use crate::text;
use crate::usage::{find_named, usage_gauges, ProcessUsage, Usage};
use crate::utils::files;
use crate::utils::files::{
    falkor_logs_path, falkor_shared_lib_path, get_falkor_log_path, is_statement, read_lines,
    url_file_name,
};
use crate::utils::numbers;
use crate::utils::numbers::format_number;
use crate::utils::processes;
use crate::utils::processes::find_process;

verus! {

// ---------------------------------------------------------------------------
// Texts

/// The parts of a text are found and put together as they stand: a text is searched,
/// trimmed and split without a change to what is left of it.
pub proof fn texts_are_taken_apart_as_they_stand(
    a: &str,
    b: &str,
    v: Vec<char>,
    w: Vec<char>,
    parts: Vec<String>,
    from: usize,
    to: usize,
    yes: bool,
    s: String,
    all: Vec<Vec<char>>,
)
    ensures
        call_ensures(text::chars_of, (a,), v) ==> v@ == a@,
        from <= to <= v@.len() && call_ensures(text::string_of, (&v, from, to), s) ==> s@
            == v@.subrange(from as int, to as int),
        call_ensures(text::same_text, (a, b), yes) ==> yes == (a@ == b@),
        call_ensures(text::contains, (&v, &w), yes) ==> yes == (exists|x: Seq<char>, y: Seq<char>|
            v@ == #[trigger] (x + w@ + y)),
        call_ensures(text::starts_with, (&v, &w), yes) ==> yes == (exists|y: Seq<char>|
            v@ == #[trigger] (w@ + y)),
        call_ensures(text::trimmed, (a,), s) ==> s@ == text::trim(a@),
        call_ensures(text::split_whitespace, (&v,), all) ==> all@.map_values(|x: Vec<char>| x@)
            == text::words(v@),
        call_ensures(text::split_lines, (&v,), all) ==> all@.map_values(|x: Vec<char>| x@)
            == text::lines(v@),
        call_ensures(text::join, (&parts, a), s) ==> s@ == text::joined(
            parts@.map_values(|p: String| p@),
            a@,
        ),
{
    texts::text_occurs_where_it_stands(w@, v@);
    assert(text::texts(parts@) =~= parts@.map_values(|p: String| p@));
    assert(text::char_seqs(all@) =~= all@.map_values(|x: Vec<char>| x@));
}

/// Numbers are written in the usual decimal notation, and those for people with a comma
/// before every third digit from the end.
pub proof fn numbers_are_written_as_usual(n: u64, m: i32, s: String)
    ensures
        call_ensures(text::decimal_text, (n,), s) ==> s@ == text::decimal(n as nat),
        call_ensures(text::signed_decimal_text, (m,), s) ==> s@ == if m < 0 {
            seq!['-'] + text::decimal((-m) as nat)
        } else {
            text::decimal(m as nat)
        },
        call_ensures(format_number, (n,), s) ==> {
            &&& numbers::without_commas(s@) == text::decimal(n as nat)
            &&& forall|i: int|
                0 <= i < s@.len() ==> (#[trigger] s@[i] == ',' <==> (s@.len() - i) % 4 == 0)
        },
{
    numbers::formatting_only_adds_commas(n as nat);
    numbers::commas_part_groups_of_three(n as nat);
}

/// An error of the harness has the text that it was given, and an error is shown by its
/// message.
pub proof fn error_says_what_it_was_given(said: &str, error: BenchmarkError, s: String)
    ensures
        call_ensures(other_error, (said,), error) ==> (error matches BenchmarkError::OtherError(e)
            && e@ == said@),
        call_ensures(BenchmarkError::to_string, (&error,), s) ==> s@ == error.message(),
{
}

/// The names of sizes, data sets and databases are in lower case.
pub proof fn names_are_in_lower_case(
    size: Size,
    name: Name,
    vendor: Vendor,
    target: Target,
    s: String,
)
    ensures
        call_ensures(Size::to_string, (&size,), s) ==> s@ == loading::size_in_path(size),
        call_ensures(Name::to_string, (&name,), s) ==> s@ == "users"@,
        call_ensures(Vendor::to_string, (&vendor,), s) ==> s@ == datasets::vendor_in_path(vendor),
        call_ensures(Target::to_string, (&target,), s) ==> s@ == if target == Target::Falkor {
            "falkor"@
        } else {
            "ibex"@
        },
{
}

// ---------------------------------------------------------------------------
// Files and data sets

/// The files of FalkorDB are in the current directory, which must be known; the log is
/// where the environment says.
pub proof fn falkor_files_are_found(
    dir: &str,
    log: &str,
    result: BenchmarkResult<String>,
)
    ensures
        call_ensures(falkor_shared_lib_path, (Some(dir),), result) ==> (result matches Ok(path)
            && path@ == dir@ + "/falkordb.so"@),
        call_ensures(falkor_logs_path, (Some(dir),), result) ==> (result matches Ok(path) && path@
            == dir@ + "/falkordb.log"@),
        call_ensures(get_falkor_log_path, (Some(dir), Some(log)), result) ==> (result matches Ok(
            path,
        ) && path@ == log@),
        call_ensures(get_falkor_log_path, (Some(dir), None), result) ==> (result matches Ok(path)
            && path@ == dir@ + "/falkordb.log"@),
        call_ensures(falkor_shared_lib_path, (None,), result) || call_ensures(
            falkor_logs_path,
            (None,),
            result,
        ) || call_ensures(get_falkor_log_path, (None, Some(log)), result) || call_ensures(
            get_falkor_log_path,
            (None, None),
            result,
        ) ==> (result matches Err(BenchmarkError::OtherError(said)) && said@
            == "Failed to get current directory"@),
{
}

/// The name of a file is the last part of its URL, and a record of a file is one line.
pub proof fn file_name_and_record(url: &str, json: &str, s: String)
    ensures
        call_ensures(url_file_name, (url,), s) ==> {
            &&& s@.len() <= url@.len()
            &&& url@.skip(url@.len() - s@.len()) == s@
            &&& !s@.contains('/')
            &&& s@.len() < url@.len() ==> url@[url@.len() - s@.len() - 1] == '/'
        },
        call_ensures(query_record, (json,), s) ==> s@ == json@ + seq!['\n'],
{
    files::file_name_is_last_segment(url@);
    if call_ensures(query_record, (json,), s) {
        assert(s@ =~= json@ + seq!['\n']);
    }
}

/// Of the lines of a file those are kept, in their order, that hold a statement or could not
/// be read.
pub proof fn lines_are_kept_in_order(
    line: &str,
    yes: bool,
    lines: Vec<BenchmarkResult<String>>,
    kept: Vec<BenchmarkResult<String>>,
)
    ensures
        call_ensures(is_statement, (line,), yes) ==> yes == files::holds_statement(
            line@,
        ),
        call_ensures(read_lines, (lines,), kept) ==> kept@ == lines@.filter(
            |l: BenchmarkResult<String>|
                match l {
                    Ok(text) => files::holds_statement(text@),
                    Err(_) => true,
                },
        ),
{
    assert((|l: BenchmarkResult<String>| files::stays(l)) =~= (|
        l: BenchmarkResult<String>,
    |
        match l {
            Ok(text) => files::holds_statement(text@),
            Err(_) => true,
        }));
}

/// A data set is of the name, the size and the database that were given, as large as it is
/// published, and its statements are those that are published for it.
pub proof fn data_set_is_as_published<'a>(name: Name, size: Size, vendor: Vendor, spec: Spec<'a>)
    requires
        call_ensures(Spec::<'a>::new, (name, size, vendor), spec),
    ensures
        spec.name == name,
        spec.size == size,
        spec.vendor == vendor,
        size == Size::Small ==> spec.vertices == 10000 && spec.edges == 121716,
        size == Size::Medium ==> spec.vertices == 100000 && spec.edges == 1768515,
        size == Size::Large ==> spec.vertices == 1632803 && spec.edges == 30622564,
        spec.data_url@ == match size {
            Size::Small =>
                "https://s3.eu-west-1.amazonaws.com/deps.memgraph.io/dataset/pokec/benchmark/pokec_small_import.cypher"@,
            Size::Medium =>
                "https://s3.eu-west-1.amazonaws.com/deps.memgraph.io/dataset/pokec/benchmark/pokec_medium_import.cypher"@,
            Size::Large =>
                "https://s3.eu-west-1.amazonaws.com/deps.memgraph.io/dataset/pokec/benchmark/pokec_large.setup.cypher.gz"@,
        },
        spec.index_url@
            == "https://s3.eu-west-1.amazonaws.com/deps.memgraph.io/dataset/pokec/benchmark/neo4j.cypher"@,
{
}

/// The files of a data set are cached and backed up in its own directories.
pub proof fn data_set_has_its_own_places<'a>(
    spec: Spec<'a>,
    url: &str,
    cache: Cache,
    path: String,
)
    ensures
        ({
            let own = "/"@ + datasets::vendor_in_path(spec.vendor) + "/"@ + "users"@ + "/"@
                + loading::size_in_path(spec.size);
            &&& call_ensures(Spec::<'a>::cache, (&spec, url), cache) ==> cache.url@ == url@
                && cache.dir@ == "./cache"@ + own && cache.stage == CacheStage::EnsuringDirectory
            &&& call_ensures(Spec::<'a>::init_data_iterator, (&spec,), cache) ==> cache.url@
                == spec.data_url@ && cache.dir@ == "./cache"@ + own && cache.stage
                == CacheStage::EnsuringDirectory
            &&& call_ensures(Spec::<'a>::init_index_iterator, (&spec,), cache) ==> cache.url@
                == spec.index_url@ && cache.dir@ == "./cache"@ + own && cache.stage
                == CacheStage::EnsuringDirectory
            &&& call_ensures(Spec::<'a>::backup_path, (&spec,), path) ==> path@ == "./backups"@
                + own
        }),
{
    let own = "/"@ + datasets::vendor_in_path(spec.vendor) + "/"@ + "users"@ + "/"@
        + loading::size_in_path(spec.size);
    datasets::data_set_has_its_directory("./cache"@, spec.vendor, spec.name, spec.size);
    datasets::data_set_has_its_directory("./backups"@, spec.vendor, spec.name, spec.size);
    assert("./cache"@ + own =~= "./cache"@ + "/"@ + datasets::vendor_in_path(spec.vendor) + "/"@
        + "users"@ + "/"@ + loading::size_in_path(spec.size));
    assert("./backups"@ + own =~= "./backups"@ + "/"@ + datasets::vendor_in_path(spec.vendor) + "/"@
        + "users"@ + "/"@ + loading::size_in_path(spec.size));
}

/// The statements of a data set are opened from its own cache.
pub proof fn statements_are_opened_from_the_cache(vendor: Vendor, size: Size, flow: OpenStatements)
    ensures
        ({
            let dir = "./cache"@ + "/"@ + datasets::vendor_in_path(vendor) + "/"@ + "users"@ + "/"@
                + loading::size_in_path(size);
            &&& call_ensures(open_data, (vendor, size), flow) ==> (flow matches
                OpenStatements::Caching(cache) && cache.dir@ == dir && cache.url@
                == crate::scenario::users_data_url(size) && cache.stage
                == CacheStage::EnsuringDirectory)
            &&& call_ensures(open_indexes, (vendor, size), flow) ==> (flow matches
                OpenStatements::Caching(cache) && cache.dir@ == dir && cache.url@
                == crate::scenario::users_index_url() && cache.stage
                == CacheStage::EnsuringDirectory)
        }),
{
}

// ---------------------------------------------------------------------------
// Answers

/// The answer to a query succeeds where rows came back, and else names the kind of the
/// error, the query and the error.
pub proof fn answer_succeeds_with_rows(
    query: &str,
    kind: String,
    said: String,
    result: BenchmarkResult<()>,
)
    ensures
        call_ensures(read_reply, (query, Answer::Rows), result) ==> result is Ok,
        call_ensures(read_reply, (query, Answer::Failed { kind, text: said }), result)
            || call_ensures(read_reply, (query, Answer::TimedOut { kind, text: said }), result)
            ==> (result matches Err(BenchmarkError::OtherError(e)) && e@ == "Error (type "@ + kind@
            + ") executing query: "@ + query@ + ", the error is: "@ + said@),
{
}

/// An operation is counted by its database, who executes it, its type and its name.
pub proof fn operation_has_six_labels(
    vendor: &str,
    spawn_id: &str,
    kind: &str,
    name: &str,
    labels: Vec<String>,
)
    requires
        call_ensures(execution::labels, (vendor, spawn_id, kind, name), labels),
    ensures
        labels@.map_values(|s: String| s@) == seq![vendor@, spawn_id@, kind@, name@, ""@, ""@],
{
    assert(text::texts(labels@) =~= labels@.map_values(|s: String| s@));
}

/// A row of one number gives that number, as an unsigned one, and another row none.
pub proof fn row_gives_its_number(
    falkor: Falkor<Started>,
    row: Row,
    n: i64,
    result: BenchmarkResult<u64>,
)
    requires
        call_ensures(Falkor::<Started>::extract_u64_value, (&falkor, &Some(row)), result),
    ensures
        row.values@ == seq![FalkorValue::I64(n)] ==> result == BenchmarkResult::<u64>::Ok(n as u64),
        row.values@.len() != 1 || row.values@[0] is Other ==> (result matches Err(
            BenchmarkError::OtherError(said),
        ) && said@ == "Value not found or not of expected type"@),
{
}

/// The running and the waiting queries are counted as they are listed.
pub proof fn listed_queries_are_counted(
    items: Vec<RedisValue>,
    said: String,
    running: Vec<RedisValue>,
    running_text: String,
    waiting: Vec<RedisValue>,
    waiting_text: String,
    result: BenchmarkResult<(usize, usize)>,
)
    requires
        items@.len() >= 4,
        items@[1] == (RedisValue::Array { items: running, text: running_text }),
        items@[3] == (RedisValue::Array { items: waiting, text: waiting_text }),
        call_ensures(redis_to_query_info, (&RedisValue::Array { items, text: said },), result),
    ensures
        result == BenchmarkResult::<(usize, usize)>::Ok((running.len(), waiting.len())),
{
}

/// An array gives its items, and another value is named.
pub proof fn array_gives_its_items(
    items: Vec<RedisValue>,
    said: String,
    result: BenchmarkResult<&Vec<RedisValue>>,
)
    ensures
        call_ensures(redis_value_as_vec, (&RedisValue::Array { items, text: said },), result) ==> (
        result matches Ok(r) && r@ == items@),
        call_ensures(redis_value_as_vec, (&RedisValue::Scalar { text: said },), result) ==> (
        result matches Err(BenchmarkError::OtherError(e)) && e@ == "parsing array failed: "@
            + said@),
{
}

/// A process is found by what the table says of it.
pub proof fn process_is_found_in_the_table(
    cmd: &str,
    table: ProcessOutput,
    result: BenchmarkResult<u32>,
)
    requires
        call_ensures(find_process, (cmd, &table), result),
    ensures
        processes::process_found(cmd@, table, result),
{
}

/// A server is found among the processes by the name of its program.
pub proof fn server_is_found_by_its_name(
    processes: Vec<(u32, Option<String>)>,
    name: &str,
    k: int,
    pid: Option<u32>,
)
    requires
        0 <= k < processes@.len(),
        processes@[k].1 matches Some(n) && n@ == name@,
        forall|j: int|
            0 <= j < k ==> !((#[trigger] processes@[j]).1 matches Some(n) && n@ == name@),
        call_ensures(find_named, (&processes, name), pid) || (call_ensures(
            get_falkor_server_pid,
            (&processes,),
            pid,
        ) && name@ == "redis-server"@) || (call_ensures(get_ibex_server_pid, (&processes,), pid)
            && name@ == "ibexdb"@),
    ensures
        pid == Some(processes@[k].0),
{
    texts::first_process_with_the_name_is_given(processes@, name@, k);
}

/// Whether the gauges show the usage: the share of each CPU, and the memory.
pub open spec fn shows(
    cpu: (Gauge, i64),
    memory: (Gauge, i64),
    used: ProcessUsage,
    cpus: usize,
) -> bool {
    &&& used.cpu >= 0 ==> cpu.1 * cpus <= used.cpu < (cpu.1 + 1) * cpus
    &&& used.cpu < 0 ==> (cpu.1 - 1) * cpus < used.cpu <= cpu.1 * cpus
    &&& memory.1 == used.memory as i64
}

/// The gauges of the machine are set first, and those of the server after them where it was
/// found.
pub proof fn gauges_show_machine_and_server(
    target: Target,
    usage: Usage,
    gauges: Vec<(Gauge, i64)>,
)
    requires
        0 < usage.cpus <= i64::MAX,
        call_ensures(usage_gauges, (target, usage), gauges),
    ensures
        gauges@.len() == if usage.server is Some {
            4nat
        } else {
            2nat
        },
        gauges@[0].0 == Gauge::CpuUsage,
        gauges@[1].0 == Gauge::MemUsage,
        shows(gauges@[0], gauges@[1], usage.machine, usage.cpus),
        usage.server is Some ==> {
            &&& gauges@[2].0 == if target == Target::Falkor {
                Gauge::FalkorCpuUsage
            } else {
                Gauge::IbexCpuUsage
            }
            &&& gauges@[3].0 == if target == Target::Falkor {
                Gauge::FalkorMemUsage
            } else {
                Gauge::IbexMemUsage
            }
            &&& shows(gauges@[2], gauges@[3], usage.server->0, usage.cpus)
        },
{
    texts::usage_is_shared_among_the_cpus(
        Gauge::CpuUsage,
        Gauge::MemUsage,
        usage.machine,
        usage.cpus,
    );
    if usage.server is Some {
        texts::usage_is_shared_among_the_cpus(
            crate::usage::server_gauges(target).0,
            crate::usage::server_gauges(target).1,
            usage.server->0,
            usage.cpus,
        );
    }
}

// ---------------------------------------------------------------------------
// Queries

/// A copy of a query says all that the query says.
pub proof fn copy_says_the_same(
    value: BoltValue,
    value_copy: BoltValue,
    bolt: Bolt,
    bolt_copy: Bolt,
    query: PreparedQuery,
    query_copy: PreparedQuery,
    msg: Msg,
    msg_copy: Msg,
)
    ensures
        call_ensures(BoltValue::copy, (&value,), value_copy) ==> value_copy@ == value@,
        call_ensures(Bolt::copy, (&bolt,), bolt_copy) ==> bolt_copy@ == bolt@,
        call_ensures(PreparedQuery::copy, (&query,), query_copy) ==> query_copy@ == query@,
        call_ensures(Msg::copy, (&msg,), msg_copy) ==> msg_copy@ == msg@,
{
}

/// A file that was read gives its description and every query that was read, in order, and
/// one that could not be read its error.
pub proof fn file_gives_what_was_read(
    read: ReadQueries,
    metadata: PrepareQueriesMetadata,
    reason: String,
    e: BenchmarkError,
    result: BenchmarkResult<(PrepareQueriesMetadata, Vec<PreparedQuery>)>,
)
    requires
        call_ensures(ReadQueries::finish, (read,), result),
    ensures
        read.stage == ReadStage::Ended(Ok(metadata)) ==> (result matches Ok(r) && r.0 == metadata
            && r.1@.map_values(|q: PreparedQuery| q@) == read.queries@.map_values(
            |q: PreparedQuery| q@,
        )),
        read.stage == ReadStage::Ended(Err(e)) ==> result == BenchmarkResult::<
            (PrepareQueriesMetadata, Vec<PreparedQuery>),
        >::Err(e),
        read.stage == (ReadStage::Unclear { reason }) ==> (result matches Err(
            BenchmarkError::OtherError(said),
        ) && said@ == "Error parsing metadata: "@ + reason@),
{
}

/// While a file is read, it asks and goes on as the view of the reading says.
pub proof fn reading_leads_on(
    read: ReadQueries,
    reply: ReadReply,
    later: ReadQueries,
    action: Option<ReadAction>,
)
    ensures
        call_ensures(ReadQueries::next, (read, reply), later) ==> later@ == read@.after(reply),
        call_ensures(ReadQueries::action, (&read,), action) ==> match action {
            Some(a) => read@.request() == Some(a@),
            None => read@.request() is None,
        },
{
}

/// Whoever asked for the queries of a file is told how many are described and for which
/// data set, and is handed those that were read; or is told why not.
pub proof fn reader_is_told_what_was_read(
    metadata: PrepareQueriesMetadata,
    queries: Vec<PreparedQuery>,
    e: BenchmarkError,
    r: (Reply, Vec<PreparedQuery>),
)
    ensures
        call_ensures(reading_reply, (Ok((metadata, queries)),), r) ==> r.0 == (Reply::Queries {
            size: metadata.size,
            dataset: metadata.dataset,
        }) && r.1@ == queries@,
        call_ensures(reading_reply, (Err(e),), r) ==> r.0 == Reply::Failed(e) && r.1@.len() == 0,
{
}

/// A dry run leads on as its replies say, and gives both counts once it has ended.
pub proof fn dry_run_gives_both_counts(
    run: DryRun,
    reply: Reply,
    later: DryRun,
    action: Option<Action>,
    e: BenchmarkError,
    result: BenchmarkResult<(i32, i32)>,
)
    requires
        run.success < i32::MAX,
        run.error < i32::MAX,
    ensures
        call_ensures(DryRun::action, (&run,), action) ==> action::request_of(action)
            == run.request(),
        call_ensures(DryRun::next, (run, reply), later) ==> later == run.after(reply),
        run.stage == DryStage::Ended(Ok(())) && call_ensures(DryRun::finish, (run,), result)
            ==> result == BenchmarkResult::<(i32, i32)>::Ok((run.success, run.error)),
        run.stage == DryStage::Ended(Err(e)) && call_ensures(DryRun::finish, (run,), result)
            ==> result == BenchmarkResult::<(i32, i32)>::Err(e),
{
}

/// An import asks for what its state says and gives what it has ended with.
pub proof fn import_gives_its_end(
    stream: ExecuteStream,
    action: Option<Action>,
    result: BenchmarkResult<()>,
)
    ensures
        call_ensures(ExecuteStream::action, (&stream,), action) ==> action::request_of(action)
            == stream.request(),
        stream.request() is None && call_ensures(ExecuteStream::finish, (stream,), result)
            ==> stream == ExecuteStream::Ended(result),
{
}

/// The histogram of an import begins with nothing counted.
pub proof fn import_histogram_begins_empty(r: BenchmarkResult<Histogram>)
    requires
        call_ensures(import_histogram, (), r),
    ensures
        r is Ok,
        ({
            let counts = durations::histogram_counts(r->Ok_0);
            &&& durations::histogram_powers(r->Ok_0) == (7u8, 64u8)
            &&& counts.len() == durations::bucket_count(7, 64)
            &&& forall|i: int| 0 <= i < counts.len() ==> #[trigger] counts[i] == 0
        }),
{
}

/// A duration is recorded in the histogram as it is.
pub proof fn duration_is_recorded_as_it_is(
    h: &mut Histogram,
    micros: u64,
    r: BenchmarkResult<()>,
)
    requires
        durations::is_sound(*old(h)),
        call_ensures(durations::record, (h, micros), r),
    ensures
        durations::recorded(*old(h), micros, *final(h), r),
{
}

/// An import records how long each statement took, and records nothing else. A duration
/// that cannot be recorded ends it.
pub proof fn import_records_each_duration(
    stream: ExecuteStream,
    h: &mut Histogram,
    statement: String,
    micros: u128,
    reply: Reply,
    later: ExecuteStream,
)
    requires
        durations::is_sound(*old(h)),
        call_ensures(ExecuteStream::next, (stream, reply, h), later),
    ensures
        stream == (ExecuteStream::Executing { statement }) && reply == Reply::Took(micros)
            ==> exists|r: BenchmarkResult<()>| #[trigger]
            durations::recorded(*old(h), micros as u64, *final(h), r) && later == if r is Ok {
                ExecuteStream::Reading
            } else {
                ExecuteStream::Ended(r)
            },
        !(stream is Executing && reply is Took) ==> *final(h) == *old(h) && later == stream.after(
            reply,
        ),
{
}

/// Taking a server process apart hands all its running parts over to be stopped and leaves
/// none; once taken apart, it hands nothing over again.
pub proof fn process_is_taken_apart_once(
    falkor: &mut FalkorProcess,
    falkor_stop: Option<TerminateFalkor>,
    ibex: &mut IbexProcess,
    ibex_stop: Option<TerminateIbex>,
)
    requires
        call_ensures(FalkorProcess::drop, (falkor,), falkor_stop),
        call_ensures(IbexProcess::drop, (ibex,), ibex_stop),
    ensures
        old(falkor).dropped ==> falkor_stop is None && *final(falkor) == *old(falkor),
        !old(falkor).dropped ==> {
            &&& falkor_stop is Some
            &&& falkor_stop->0.process.monitor == old(falkor).monitor
            &&& falkor_stop->0.process.reporter == old(falkor).reporter
            &&& falkor_stop->0.process.ping_server == old(falkor).ping_server
            &&& falkor_stop->0.process.dropped
            &&& !final(falkor).monitor && !final(falkor).reporter && !final(falkor).ping_server
        },
        old(ibex).dropped ==> ibex_stop is None && *final(ibex) == *old(ibex),
        !old(ibex).dropped ==> {
            &&& ibex_stop is Some
            &&& ibex_stop->0.process.monitor == old(ibex).monitor
            &&& ibex_stop->0.process.reporter == old(ibex).reporter
            &&& ibex_stop->0.process.dropped
            &&& !final(ibex).monitor && !final(ibex).reporter
        },
{
}

// ---------------------------------------------------------------------------
// Dispatch

/// An action is handed to the operation that carries it out, and is given back where there
/// is none.
pub proof fn action_is_handed_on_or_given_back(
    action: Action,
    around: Surroundings,
    result: Result<Call, Action>,
)
    requires
        action matches Action::WaitForRedis { max_attempts, delay_ms } ==> max_attempts >= 1,
        call_ensures(calls::call, (action, around), result),
    ensures
        result is Ok <==> calls::is_called(action@),
        result matches Ok(call) ==> calls::carries_out(call, action, around),
        result matches Err(a) ==> a == action,
{
}

/// An action that stands for work of its own gives that work, and is given back where it
/// stands for none.
pub proof fn job_is_given_or_the_action_back<'a>(
    action: Action,
    endpoint: &str,
    result: Result<Job<'a>, Action>,
)
    requires
        call_ensures(jobs::job, (action, endpoint), result),
    ensures
        result is Ok <==> jobs::is_job(action@),
        result matches Ok(job) ==> jobs::is_for(job, action@, endpoint@),
        result matches Err(a) ==> a == action,
{
}

/// An action on the server in hand is handed to the operation that carries it out; another
/// action is given back with the server.
pub proof fn server_action_is_handed_on_or_given_back(
    action: Action,
    server: FalkorServer,
    result: Result<ServerCall, (Action, FalkorServer)>,
)
    requires
        falkor_server::is_ready_for(server, action@),
        call_ensures(server_call, (action, server), result),
    ensures
        result is Ok <==> falkor_server::is_on_server(action@),
        result matches Ok(call) ==> falkor_server::carries_out(call, action@, server),
        result matches Err(unchanged) ==> unchanged == (action, server),
{
}

} // verus!
