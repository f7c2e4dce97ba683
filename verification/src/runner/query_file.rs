//! What a file of prepared queries gives back: the queries that were written to it.
use vstd::prelude::*;
use crate::action::{Reply, Request};
use crate::flow;
use crate::flow::Flow;
use crate::query::PreparedQueryView;
use crate::runner::queries::{
    PrepareQueries, PrepareQueriesMetadata, PrepareStage, ReadReply, ReadRequest, ReadStage, ReadView,
};
use crate::text;

verus! {

// ---------------------------------------------------------------------------
// Lines

/// A file with each text in a line of its own.
pub open spec fn file_of(texts: Seq<Seq<char>>) -> Seq<char>
    decreases texts.len(),
{
    if texts.len() == 0 {
        Seq::empty()
    } else {
        texts[0].push('\n') + file_of(texts.drop_first())
    }
}

/// Whether a text fits in one line and can be told from its end.
pub open spec fn fits_in_a_line(s: Seq<char>) -> bool {
    !s.contains('\n') && !(s.len() > 0 && s.last() == '\r')
}

proof fn lemma_line_len(line: Seq<char>, rest: Seq<char>)
    requires
        !line.contains('\n'),
    ensures
        text::line_len(line.push('\n') + rest) == line.len(),
    decreases line.len(),
{
    let all = line.push('\n') + rest;
    if line.len() == 0 {
        assert(all[0] == '\n');
    } else {
        assert(all[0] == line[0]);
        assert(line.contains(line[0]));
        let shorter = line.drop_first();
        assert(all.drop_first() =~= shorter.push('\n') + rest);
        assert forall|c: char| shorter.contains(c) implies line.contains(c) by {
            let i = choose|i: int| 0 <= i < shorter.len() && shorter[i] == c;
            assert(line[i + 1] == c);
        }
        lemma_line_len(shorter, rest);
    }
}

/// What was written one text per line is read back, line by line, as it was: the same
/// texts in the same order.
pub proof fn written_lines_read_back(texts: Seq<Seq<char>>)
    requires
        forall|i: int| 0 <= i < texts.len() ==> fits_in_a_line(#[trigger] texts[i]),
    ensures
        text::lines(file_of(texts)) == texts,
    decreases texts.len(),
{
    let file = file_of(texts);
    if texts.len() == 0 {
        assert(text::lines(file) =~= texts);
    } else {
        let first = texts[0];
        let others = texts.drop_first();
        assert(fits_in_a_line(texts[0]));
        assert forall|i: int| 0 <= i < others.len() implies fits_in_a_line(#[trigger] others[i]) by {
            assert(others[i] == texts[i + 1]);
        }
        written_lines_read_back(others);
        lemma_line_len(first, file_of(others));
        assert(file.take(first.len() as int) =~= first);
        assert(file.skip(first.len() as int + 1) =~= file_of(others));
        assert(text::lines(file) =~= texts);
    }
}

proof fn lemma_file_of_push(texts: Seq<Seq<char>>, last: Seq<char>)
    ensures
        file_of(texts.push(last)) == file_of(texts) + last.push('\n'),
    decreases texts.len(),
{
    let all = texts.push(last);
    if texts.len() == 0 {
        assert(all.drop_first() =~= Seq::empty());
        assert(file_of(all.drop_first()) =~= Seq::empty());
        assert(file_of(all) =~= file_of(texts) + last.push('\n'));
    } else {
        lemma_file_of_push(texts.drop_first(), last);
        assert(all.drop_first() =~= texts.drop_first().push(last));
        assert(file_of(all) =~= file_of(texts) + last.push('\n'));
    }
}

// ---------------------------------------------------------------------------
// JSON

/// How descriptions and queries are put into JSON, and how they are taken out of it.
///
/// The JSON is made and read by whoever drives the operations. That it gives back what was
/// put into it is a premise of the laws below, and not proved.
pub struct Codec {
    pub describe: spec_fn(PrepareQueriesMetadata) -> Seq<char>,
    pub parse_description: spec_fn(Seq<char>) -> Option<PrepareQueriesMetadata>,
    pub encode: spec_fn(PreparedQueryView) -> Seq<char>,
    pub parse_query: spec_fn(Seq<char>) -> Option<PreparedQueryView>,
}

impl Codec {
    /// Whether JSON stands in one line and gives back what was put into it; a newline after
    /// a description does not matter.
    pub open spec fn gives_back(self) -> bool {
        &&& forall|m: PrepareQueriesMetadata|
            fits_in_a_line(#[trigger] (self.describe)(m)) && (self.parse_description)(
                (self.describe)(m).push('\n'),
            ) == Some(m)
        &&& forall|q: PreparedQueryView|
            fits_in_a_line(#[trigger] (self.encode)(q)) && (self.parse_query)((self.encode)(q))
                == Some(q)
    }

    /// The queries in JSON.
    pub open spec fn encoded(self, queries: Seq<PreparedQueryView>) -> Seq<Seq<char>> {
        queries.map_values(self.encode)
    }

    /// The texts in a file of prepared queries: the description and then the queries.
    pub open spec fn texts(
        self,
        metadata: PrepareQueriesMetadata,
        queries: Seq<PreparedQueryView>,
    ) -> Seq<Seq<char>> {
        seq![(self.describe)(metadata)] + self.encoded(queries)
    }
}

// ---------------------------------------------------------------------------
// Writing

/// What the preparation of queries finds around it: what is in the file, and which
/// generated queries are left.
pub struct Desk {
    pub file: Seq<char>,
    pub left: Seq<PreparedQueryView>,
}

/// Whether the reply is true: JSON comes from the codec, the queries come in their order,
/// and there are as many as were asked for. What can fail may fail.
pub open spec fn answers_truly(codec: Codec, desk: Desk, request: Request, reply: Reply) -> bool {
    match request {
        Request::GenerateQueries { vertices, edges, count } => reply is Done && desk.left.len()
            == count,
        Request::DescribeQueries { count, dataset } => reply is Failed || (reply matches Reply::Text(
            json,
        ) && json@ == (codec.describe)(PrepareQueriesMetadata { size: count, dataset })),
        Request::NextQuery => if desk.left.len() == 0 {
            reply is End
        } else {
            reply matches Reply::Query(query) && query@ == desk.left[0]
        },
        Request::EncodeQuery(query) => reply is Failed || (reply matches Reply::Text(json) && json@
            == (codec.encode)(query)),
        _ => reply is Done || reply is Failed,
    }
}

/// The desk after a request got its reply: a file that is created is empty, a text that is
/// written comes behind what is there, and a query that is taken is gone.
pub open spec fn desk_after(desk: Desk, request: Request, reply: Reply) -> Desk {
    match (request, reply) {
        (Request::CreateFile(_), Reply::Done) => Desk { file: Seq::empty(), ..desk },
        (Request::WriteText(text), Reply::Done) => Desk { file: desk.file + text, ..desk },
        (Request::NextQuery, Reply::Query(_)) => Desk { left: desk.left.drop_first(), ..desk },
        _ => desk,
    }
}

/// Whether every reply is true at its time.
pub open spec fn all_answer_truly(
    prepare: PrepareQueries,
    codec: Codec,
    desk: Desk,
    replies: Seq<Reply>,
) -> bool
    decreases replies.len(),
{
    replies.len() == 0 || match prepare.request() {
        Some(request) => {
            &&& answers_truly(codec, desk, request, replies[0])
            &&& all_answer_truly(
                prepare.after(replies[0]),
                codec,
                desk_after(desk, request, replies[0]),
                replies.drop_first(),
            )
        },
        None => false,
    }
}

/// The desk after one reply after the other.
pub open spec fn desk_run(prepare: PrepareQueries, desk: Desk, replies: Seq<Reply>) -> Desk
    decreases replies.len(),
{
    if replies.len() == 0 {
        desk
    } else {
        match prepare.request() {
            Some(request) => desk_run(
                prepare.after(replies[0]),
                desk_after(desk, request, replies[0]),
                replies.drop_first(),
            ),
            None => desk,
        }
    }
}

/// What holds between the preparation and its desk until the preparation has failed.
spec fn on_course(
    prepare: PrepareQueries,
    codec: Codec,
    generated: Seq<PreparedQueryView>,
    desk: Desk,
) -> bool {
    let metadata = prepare.metadata;
    let n = generated.len() - desk.left.len();
    &&& 0 <= n <= generated.len()
    &&& desk.left == generated.skip(n)
    &&& !(prepare.stage is Generating) ==> generated.len() == metadata.size
    &&& match prepare.stage {
        PrepareStage::Generating | PrepareStage::Creating => n == 0,
        PrepareStage::Describing => n == 0 && desk.file == Seq::<char>::empty(),
        PrepareStage::WritingDescription { json } => n == 0 && desk.file == Seq::<char>::empty()
            && json@ == (codec.describe)(metadata),
        PrepareStage::Drawing => desk.file == file_of(codec.texts(metadata, generated.take(n))),
        PrepareStage::Encoding(query) => n >= 1 && query@ == generated[n - 1] && desk.file
            == file_of(codec.texts(metadata, generated.take(n - 1))),
        PrepareStage::WritingQuery { json } => n >= 1 && json@ == (codec.encode)(generated[n - 1])
            && desk.file == file_of(codec.texts(metadata, generated.take(n - 1))),
        PrepareStage::Flushing | PrepareStage::Ended(Ok(_)) => desk.file == file_of(
            codec.texts(metadata, generated),
        ),
        PrepareStage::Ended(Err(_)) => true,
    }
}

proof fn lemma_stays_on_course(
    prepare: PrepareQueries,
    codec: Codec,
    generated: Seq<PreparedQueryView>,
    desk: Desk,
    reply: Reply,
)
    requires
        on_course(prepare, codec, generated, desk),
        prepare.request() is Some,
        answers_truly(codec, desk, prepare.request()->0, reply),
    ensures
        on_course(
            prepare.after(reply),
            codec,
            generated,
            desk_after(desk, prepare.request()->0, reply),
        ),
{
    let metadata = prepare.metadata;
    let after = desk_after(desk, prepare.request()->0, reply);
    let n = generated.len() - desk.left.len();
    match prepare.stage {
        PrepareStage::WritingDescription { json } => {
            if reply is Done {
                let none = Seq::<Seq<char>>::empty();
                lemma_file_of_push(none, json@);
                assert(codec.texts(metadata, generated.take(0)) =~= none.push(json@));
                assert(after.file =~= file_of(none) + json@.push('\n'));
            }
        },
        PrepareStage::Drawing => {
            if desk.left.len() == 0 {
                assert(generated.take(n) =~= generated);
            } else {
                assert(after.left =~= generated.skip(n + 1));
                assert(desk.left[0] == generated[n]);
            }
        },
        PrepareStage::WritingQuery { json } => {
            if reply is Done {
                let before = codec.texts(metadata, generated.take(n - 1));
                lemma_file_of_push(before, json@);
                assert(codec.texts(metadata, generated.take(n)) =~= before.push(json@));
            }
        },
        _ => {},
    }
}

proof fn lemma_run_stays_on_course(
    prepare: PrepareQueries,
    codec: Codec,
    generated: Seq<PreparedQueryView>,
    desk: Desk,
    replies: Seq<Reply>,
)
    requires
        on_course(prepare, codec, generated, desk),
        all_answer_truly(prepare, codec, desk, replies),
    ensures
        on_course(
            flow::run(prepare, replies),
            codec,
            generated,
            desk_run(prepare, desk, replies),
        ),
        flow::run(prepare, replies).metadata == prepare.metadata,
    decreases replies.len(),
{
    if replies.len() > 0 {
        lemma_stays_on_course(prepare, codec, generated, desk, replies[0]);
        lemma_run_stays_on_course(
            prepare.after(replies[0]),
            codec,
            generated,
            desk_after(desk, prepare.request()->0, replies[0]),
            replies.drop_first(),
        );
    }
}

/// A preparation that succeeds has filled the file with the description and then with every
/// generated query, in their order and each in a line of its own, and there are as many as
/// the description says.
pub proof fn prepared_file_holds_the_queries(
    prepare: PrepareQueries,
    codec: Codec,
    desk: Desk,
    replies: Seq<Reply>,
)
    requires
        prepare.stage is Generating,
        all_answer_truly(prepare, codec, desk, replies),
        flow::run(prepare, replies).gives(Ok(())),
    ensures
        desk_run(prepare, desk, replies).file == file_of(codec.texts(prepare.metadata, desk.left)),
        desk.left.len() == prepare.metadata.size,
{
    assert(desk.left.skip(0) =~= desk.left);
    lemma_run_stays_on_course(prepare, codec, desk.left, desk, replies);
}

// ---------------------------------------------------------------------------
// Reading

/// The first line with the newline that ends it, if one does.
pub open spec fn first_line(rest: Seq<char>) -> Seq<char> {
    if text::line_len(rest) < rest.len() {
        rest.take(text::line_len(rest) as int + 1)
    } else {
        rest
    }
}

/// What is left behind the first line.
pub open spec fn behind_first_line(rest: Seq<char>) -> Seq<char> {
    rest.skip(first_line(rest).len() as int)
}

/// Whether the reply is true of a file of which `rest` has not been read.
pub open spec fn reads_truly(
    codec: Codec,
    rest: Seq<char>,
    request: ReadRequest,
    reply: ReadReply,
) -> bool {
    match request {
        ReadRequest::OpenFile(_) => reply is Done,
        ReadRequest::ReadFirstLine => reply matches ReadReply::Line(line) && line@ == first_line(
            rest,
        ),
        ReadRequest::ParseMetadata(line) => match (codec.parse_description)(line) {
            Some(metadata) => reply == ReadReply::Metadata(metadata),
            None => reply is MetadataInvalid,
        },
        ReadRequest::ReadLine => if text::lines(rest).len() == 0 {
            reply is End
        } else {
            reply matches ReadReply::Line(line) && line@ == text::lines(rest)[0]
        },
        ReadRequest::ParseQuery(line) => match (codec.parse_query)(line) {
            Some(query) => reply matches ReadReply::Query(q) && q@ == query,
            None => reply is Failed,
        },
    }
}

/// What is left to read after a request got its reply.
pub open spec fn rest_after(rest: Seq<char>, request: ReadRequest) -> Seq<char> {
    match request {
        ReadRequest::ReadFirstLine | ReadRequest::ReadLine => behind_first_line(rest),
        _ => rest,
    }
}

/// Whether every reply is true at its time.
pub open spec fn all_read_truly(
    reader: ReadView,
    codec: Codec,
    rest: Seq<char>,
    replies: Seq<ReadReply>,
) -> bool
    decreases replies.len(),
{
    replies.len() == 0 || match reader.request() {
        Some(request) => {
            &&& reads_truly(codec, rest, request, replies[0])
            &&& all_read_truly(
                reader.after(replies[0]),
                codec,
                rest_after(rest, request),
                replies.drop_first(),
            )
        },
        None => false,
    }
}

/// The reader after one reply after the other.
pub open spec fn read_run(reader: ReadView, replies: Seq<ReadReply>) -> ReadView
    decreases replies.len(),
{
    if replies.len() == 0 {
        reader
    } else {
        read_run(reader.after(replies[0]), replies.drop_first())
    }
}

/// What holds between the reader of a file of these queries and what it has not read.
spec fn reads_back(
    reader: ReadView,
    codec: Codec,
    metadata: PrepareQueriesMetadata,
    queries: Seq<PreparedQueryView>,
    rest: Seq<char>,
) -> bool {
    let n = reader.queries.len() as int;
    &&& n <= queries.len()
    &&& reader.queries == queries.take(n)
    &&& match reader.stage {
        ReadStage::Opening | ReadStage::ReadingFirstLine => n == 0 && rest == file_of(
            codec.texts(metadata, queries),
        ),
        ReadStage::Describing { line } => n == 0 && line@ == (codec.describe)(metadata).push('\n')
            && rest == file_of(codec.encoded(queries)),
        ReadStage::Reading(m) => m == metadata && rest == file_of(codec.encoded(queries.skip(n))),
        ReadStage::Parsing { metadata: m, line } => m == metadata && n < queries.len() && line@ == (
        codec.encode)(queries[n]) && rest == file_of(codec.encoded(queries.skip(n + 1))),
        ReadStage::Unclear { reason } => false,
        ReadStage::Ended(result) => (result matches Ok(m) && m == metadata) && n
            == queries.len(),
    }
}

/// How many replies are left until the reader of so many queries has ended.
spec fn replies_left(reader: ReadView, count: int) -> int {
    let n = reader.queries.len();
    match reader.stage {
        ReadStage::Opening => 2 * count + 4,
        ReadStage::ReadingFirstLine => 2 * count + 3,
        ReadStage::Describing { line } => 2 * count + 2,
        ReadStage::Reading(_) => 2 * (count - n) + 1,
        ReadStage::Parsing { metadata, line } => 2 * (count - n),
        _ => 0,
    }
}

proof fn lemma_first_line(texts: Seq<Seq<char>>)
    requires
        texts.len() > 0,
        fits_in_a_line(texts[0]),
    ensures
        first_line(file_of(texts)) == texts[0].push('\n'),
        behind_first_line(file_of(texts)) == file_of(texts.drop_first()),
        text::lines(file_of(texts)).len() > 0,
        text::lines(file_of(texts))[0] == texts[0],
{
    let file = file_of(texts);
    let others = file_of(texts.drop_first());
    lemma_line_len(texts[0], others);
    assert(file.take(texts[0].len() as int + 1) =~= texts[0].push('\n'));
    assert(file.skip(texts[0].len() as int + 1) =~= others);
    assert(file.take(texts[0].len() as int) =~= texts[0]);
}

proof fn lemma_goes_on_reading_back(
    reader: ReadView,
    codec: Codec,
    metadata: PrepareQueriesMetadata,
    queries: Seq<PreparedQueryView>,
    rest: Seq<char>,
    reply: ReadReply,
)
    requires
        codec.gives_back(),
        reads_back(reader, codec, metadata, queries, rest),
        reader.request() is Some,
        reads_truly(codec, rest, reader.request()->0, reply),
    ensures
        reads_back(
            reader.after(reply),
            codec,
            metadata,
            queries,
            rest_after(rest, reader.request()->0),
        ),
        replies_left(reader.after(reply), queries.len() as int) == replies_left(reader, queries.len() as int) - 1,
{
    let n = reader.queries.len() as int;
    let after = reader.after(reply);
    match reader.stage {
        ReadStage::ReadingFirstLine => {
            let texts = codec.texts(metadata, queries);
            assert(texts[0] == (codec.describe)(metadata));
            lemma_first_line(texts);
            assert(texts.drop_first() =~= codec.encoded(queries));
        },
        ReadStage::Describing { line } => {
            assert(fits_in_a_line((codec.describe)(metadata)));
            assert(queries.skip(0) =~= queries);
        },
        ReadStage::Reading(m) => {
            let texts = codec.encoded(queries.skip(n));
            if n == queries.len() {
                assert(texts =~= Seq::empty());
                assert(rest =~= Seq::empty());
            } else {
                assert(texts[0] == (codec.encode)(queries[n]));
                lemma_first_line(texts);
                assert(texts.drop_first() =~= codec.encoded(queries.skip(n + 1)));
            }
        },
        ReadStage::Parsing { metadata: m, line } => {
            assert(fits_in_a_line((codec.encode)(queries[n])));
            assert(after.queries =~= queries.take(n + 1));
        },
        _ => {},
    }
}

proof fn lemma_run_reads_back(
    reader: ReadView,
    codec: Codec,
    metadata: PrepareQueriesMetadata,
    queries: Seq<PreparedQueryView>,
    rest: Seq<char>,
    replies: Seq<ReadReply>,
)
    requires
        codec.gives_back(),
        reads_back(reader, codec, metadata, queries, rest),
        all_read_truly(reader, codec, rest, replies),
    ensures
        ({
            let ended = read_run(reader, replies);
            &&& replies.len() < replies_left(reader, queries.len() as int) ==> ended.request() is Some
            &&& replies.len() >= replies_left(reader, queries.len() as int) ==> {
                &&& ended.stage == ReadStage::Ended(Ok(metadata))
                &&& ended.queries == queries
            }
        }),
    decreases replies.len(),
{
    if replies.len() > 0 {
        lemma_goes_on_reading_back(reader, codec, metadata, queries, rest, replies[0]);
        lemma_run_reads_back(
            reader.after(replies[0]),
            codec,
            metadata,
            queries,
            rest_after(rest, reader.request()->0),
            replies.drop_first(),
        );
    } else if replies_left(reader, queries.len() as int) <= 0 {
        assert(reader.queries =~= queries);
    }
}

/// The reading of a file with a description and queries, as long as the file can be read,
/// ends after two replies for each query and four more, and gives the description and all
/// the queries in their order.
pub proof fn file_reads_back(
    file_name: Seq<char>,
    codec: Codec,
    metadata: PrepareQueriesMetadata,
    queries: Seq<PreparedQueryView>,
    replies: Seq<ReadReply>,
)
    requires
        codec.gives_back(),
        all_read_truly(
            ReadView::begun(file_name),
            codec,
            file_of(codec.texts(metadata, queries)),
            replies,
        ),
    ensures
        ({
            let ended = read_run(ReadView::begun(file_name), replies);
            &&& ended.request() is None <==> replies.len() >= 2 * queries.len() + 4
            &&& ended.request() is None ==> {
                &&& ended.stage == ReadStage::Ended(Ok(metadata))
                &&& ended.queries == queries
            }
        }),
{
    let reader = ReadView::begun(file_name);
    assert(reader.queries =~= queries.take(0));
    lemma_run_reads_back(
        reader,
        codec,
        metadata,
        queries,
        file_of(codec.texts(metadata, queries)),
        replies,
    );
}

/// What is read is what was prepared: the description with its number of queries and its
/// data set, and exactly the queries that were generated, as many as were asked for.
pub proof fn read_queries_are_the_prepared_ones(
    prepare: PrepareQueries,
    codec: Codec,
    desk: Desk,
    writing: Seq<Reply>,
    reading: Seq<ReadReply>,
)
    requires
        codec.gives_back(),
        prepare.stage is Generating,
        all_answer_truly(prepare, codec, desk, writing),
        flow::run(prepare, writing).gives(Ok(())),
        all_read_truly(
            ReadView::begun(prepare.file_name@),
            codec,
            desk_run(prepare, desk, writing).file,
            reading,
        ),
        read_run(ReadView::begun(prepare.file_name@), reading).request() is None,
    ensures
        ({
            let ended = read_run(ReadView::begun(prepare.file_name@), reading);
            &&& ended.stage == ReadStage::Ended(Ok(prepare.metadata))
            &&& ended.queries == desk.left
            &&& ended.queries.len() == prepare.metadata.size
        }),
{
    prepared_file_holds_the_queries(prepare, codec, desk, writing);
    file_reads_back(prepare.file_name@, codec, prepare.metadata, desk.left, reading);
}

} // verus!
