//! Texts, numbers, errors and gauges.
use histogram::Histogram;
use vstd::prelude::*;
use crate::action::Gauge;
use crate::durations;
use crate::error::{BenchmarkError, BenchmarkResult};
use crate::execution::Target;
use crate::query::RedisValue;
use crate::text;
use crate::usage;
use crate::usage::ProcessUsage;
use crate::utils::files;

verus! {

// ---------------------------------------------------------------------------
// White space, words, lines

/// Whether there is nothing but white space.
pub open spec fn is_blank(s: Seq<char>) -> bool {
    forall|i: int| 0 <= i < s.len() ==> text::is_white_space(#[trigger] s[i])
}

/// Whether there is no white space.
pub open spec fn is_solid(s: Seq<char>) -> bool {
    forall|i: int| 0 <= i < s.len() ==> !text::is_white_space(#[trigger] s[i])
}

/// Whether there is no white space at either end.
pub open spec fn is_tight(s: Seq<char>) -> bool {
    s.len() > 0 ==> !text::is_white_space(s[0]) && !text::is_white_space(s.last())
}

/// White space is the tab and the four characters after it, the space, and the other
/// characters that Unicode counts as such.
pub proof fn white_space_is_as_unicode_has_it(c: char)
    ensures
        text::is_white_space(c) <==> {
            let n = c as int;
            ||| 9 <= n <= 13
            ||| n == 32
            ||| n == 133
            ||| n == 160
            ||| n == 5760
            ||| 8192 <= n <= 8202
            ||| n == 8232
            ||| n == 8233
            ||| n == 8239
            ||| n == 8287
            ||| n == 12288
        },
{
}

proof fn lemma_trim_start(a: Seq<char>, s: Seq<char>)
    requires
        is_blank(a),
        s.len() > 0 ==> !text::is_white_space(s[0]),
    ensures
        text::trim_start(a + s) == s,
    decreases a.len(),
{
    if a.len() > 0 {
        assert((a + s)[0] == a[0]);
        assert((a + s).drop_first() =~= a.drop_first() + s);
        lemma_trim_start(a.drop_first(), s);
    } else {
        assert(a + s =~= s);
    }
}

proof fn lemma_trim_end(s: Seq<char>, b: Seq<char>)
    requires
        is_blank(b),
        s.len() > 0 ==> !text::is_white_space(s.last()),
    ensures
        text::trim_end(s + b) == s,
    decreases b.len(),
{
    if b.len() > 0 {
        assert((s + b).last() == b.last());
        assert((s + b).drop_last() =~= s + b.drop_last());
        lemma_trim_end(s, b.drop_last());
    } else {
        assert(s + b =~= s);
    }
}

/// Trimming takes the white space away from both ends and leaves all the rest.
pub proof fn trimming_takes_white_space_only(a: Seq<char>, s: Seq<char>, b: Seq<char>)
    requires
        is_blank(a),
        is_tight(s),
        is_blank(b),
    ensures
        text::trim(a + s + b) == s,
{
    if s.len() > 0 {
        assert((s + b)[0] == s[0]);
        assert(a + s + b =~= a + (s + b));
        lemma_trim_start(a, s + b);
        lemma_trim_end(s, b);
    } else {
        assert(a + s + b =~= (a + b) + s);
        assert forall|i: int| 0 <= i < (a + b).len() implies text::is_white_space(
            #[trigger] (a + b)[i],
        ) by {
            if i < a.len() {
                assert((a + b)[i] == a[i]);
            } else {
                assert((a + b)[i] == b[i - a.len()]);
            }
        }
        lemma_trim_start(a + b, s);
    }
}

/// A line holds a statement unless there is nothing in it, or nothing but one semicolon,
/// besides white space.
pub proof fn statement_is_more_than_a_semicolon(a: Seq<char>, s: Seq<char>, b: Seq<char>)
    requires
        is_blank(a),
        is_tight(s),
        is_blank(b),
    ensures
        files::holds_statement(a + s + b) <==> s.len() > 0 && s != seq![';'],
{
    trimming_takes_white_space_only(a, s, b);
    reveal_strlit(";");
    assert(";"@ =~= seq![';']);
}

/// Of the lines of a file those stay that hold a statement, and those that could not be
/// read.
pub proof fn unreadable_lines_stay(line: String, e: BenchmarkError)
    ensures
        files::stays(Err(e)),
        files::stays(Ok(line)) == files::holds_statement(line@),
{
}

proof fn lemma_word_len(w: Seq<char>, rest: Seq<char>)
    requires
        is_solid(w),
        rest.len() > 0 ==> text::is_white_space(rest[0]),
    ensures
        text::word_len(w + rest) == w.len(),
    decreases w.len(),
{
    if w.len() > 0 {
        assert((w + rest)[0] == w[0]);
        assert((w + rest).drop_first() =~= w.drop_first() + rest);
        lemma_word_len(w.drop_first(), rest);
    } else {
        assert(w + rest =~= rest);
    }
}

/// A text begins with a word up to the first white space; white space between words makes
/// no difference.
pub proof fn words_end_at_white_space(w: Seq<char>, c: char, rest: Seq<char>)
    requires
        w.len() > 0,
        is_solid(w),
        text::is_white_space(c),
    ensures
        text::words(Seq::empty()) == Seq::<Seq<char>>::empty(),
        text::words(w) == seq![w],
        text::words(seq![c] + rest) == text::words(rest),
        text::words(w + (seq![c] + rest)) == seq![w] + text::words(rest),
{
    let tail = seq![c] + rest;
    assert(tail.drop_first() =~= rest);
    assert(text::words(tail) == text::words(rest));
    lemma_word_len(w, tail);
    let s = w + tail;
    assert(s[0] == w[0]);
    assert(s.take(w.len() as int) =~= w);
    assert(s.skip(w.len() as int) =~= tail);
    lemma_word_len(w, Seq::empty());
    assert(w + Seq::<char>::empty() =~= w);
    assert(w.take(w.len() as int) =~= w);
    assert(text::words(w.skip(w.len() as int)) =~= Seq::<Seq<char>>::empty());
    assert(text::words(w) =~= seq![w]);
}

proof fn lemma_line_len(l: Seq<char>, rest: Seq<char>)
    requires
        !l.contains('\n'),
        rest.len() > 0 ==> rest[0] == '\n',
    ensures
        text::line_len(l + rest) == l.len(),
    decreases l.len(),
{
    if l.len() > 0 {
        assert((l + rest)[0] == l[0]);
        assert(l.contains(l[0]));
        assert((l + rest).drop_first() =~= l.drop_first() + rest);
        assert forall|i: int| 0 <= i < l.drop_first().len() implies l.drop_first()[i] != '\n' by {
            assert(l.drop_first()[i] == l[i + 1]);
            assert(l.contains(l[i + 1]));
        }
        lemma_line_len(l.drop_first(), rest);
    } else {
        assert(l + rest =~= rest);
    }
}

/// A newline ends a line, and a carriage return before it belongs to it; what comes after
/// the last newline is a line where there is something.
pub proof fn lines_end_at_newlines(l: Seq<char>, rest: Seq<char>)
    requires
        !l.contains('\n'),
    ensures
        text::lines(Seq::empty()) == Seq::<Seq<char>>::empty(),
        l.len() > 0 ==> text::lines(l) == seq![l],
        text::lines(l + (seq!['\n'] + rest)) == seq![
            if l.len() > 0 && l.last() == '\r' {
                l.drop_last()
            } else {
                l
            },
        ] + text::lines(rest),
{
    let tail = seq!['\n'] + rest;
    lemma_line_len(l, tail);
    let s = l + tail;
    assert(s.take(l.len() as int) =~= l);
    assert(s.skip(l.len() as int + 1) =~= rest);
    lemma_line_len(l, Seq::empty());
    assert(l + Seq::<char>::empty() =~= l);
}

/// A text occurs in another where that is made of the first and what stands around it.
pub proof fn text_occurs_where_it_stands(needle: Seq<char>, hay: Seq<char>)
    ensures
        text::occurs_in(needle, hay) <==> exists|a: Seq<char>, b: Seq<char>|
            hay == #[trigger] (a + needle + b),
        text::begins_with(hay, needle) <==> exists|b: Seq<char>| hay == #[trigger] (needle + b),
{
    let n = needle.len() as int;
    if text::occurs_in(needle, hay) {
        let k = choose|k: int|
            0 <= k <= hay.len() - n && #[trigger] hay.subrange(k, k + n) == needle;
        let (a, b) = (hay.take(k), hay.skip(k + n));
        assert forall|i: int| 0 <= i < hay.len() implies hay[i] == (a + needle + b)[i] by {
            if k <= i < k + n {
                assert(hay.subrange(k, k + n)[i - k] == hay[i]);
            }
        }
        assert(hay =~= a + needle + b);
    }
    if exists|a: Seq<char>, b: Seq<char>| hay == #[trigger] (a + needle + b) {
        let (a, b) = choose|a: Seq<char>, b: Seq<char>| hay == #[trigger] (a + needle + b);
        let k = a.len() as int;
        assert(hay.subrange(k, k + n) =~= needle);
    }
    if text::begins_with(hay, needle) {
        let b = hay.skip(n);
        assert forall|i: int| 0 <= i < hay.len() implies hay[i] == (needle + b)[i] by {
            if i < n {
                assert(hay.subrange(0, n)[i] == hay[i]);
            }
        }
        assert(hay =~= needle + b);
    }
    if exists|b: Seq<char>| hay == #[trigger] (needle + b) {
        let b = choose|b: Seq<char>| hay == #[trigger] (needle + b);
        assert(hay.subrange(0, n) =~= needle);
    }
}

/// Texts are joined in their order, with the separator between each two and nowhere else.
pub proof fn texts_are_joined_in_order(
    parts: Seq<Seq<char>>,
    last: Seq<char>,
    separator: Seq<char>,
)
    ensures
        text::joined(Seq::empty(), separator) == Seq::<char>::empty(),
        text::joined(seq![last], separator) == last,
        parts.len() > 0 ==> text::joined(parts.push(last), separator) == text::joined(
            parts,
            separator,
        ) + separator + last,
{
    assert(parts.push(last).drop_last() =~= parts);
}

// ---------------------------------------------------------------------------
// Numbers

/// The decimal notation of a number has one digit below ten; else its last digit follows
/// the notation of the number without it, and the first is not zero.
pub proof fn decimal_notation_is_usual(n: nat)
    ensures
        n < 10 ==> text::decimal(n).len() == 1 && text::decimal(n)[0] as int == 48 + n,
        n >= 10 ==> text::decimal(n).drop_last() == text::decimal(n / 10) && text::decimal(
            n,
        ).last() as int == 48 + n % 10,
        n > 0 ==> text::decimal(n)[0] != '0',
        text::signed_decimal(n as int) == text::decimal(n),
        n > 0 ==> text::signed_decimal(-n) == seq!['-'] + text::decimal(n),
    decreases n,
{
    if n >= 10 {
        decimal_notation_is_usual(n / 10);
        assert(text::decimal(n).drop_last() =~= text::decimal(n / 10));
        text::lemma_decimal_digits(n / 10);
        assert(text::decimal(n)[0] == text::decimal(n / 10)[0]);
    }
}

// ---------------------------------------------------------------------------
// Errors

/// The message of an error is that of its kind, with what is said of it.
pub proof fn message_names_the_error(error: BenchmarkError)
    ensures
        match error {
            BenchmarkError::IoError(e) => error.message() == "IO error: "@ + e@,
            BenchmarkError::FailedToSpawnProcessError(e, context) => error.message()
                == "Failed to start Neo4j: "@ + e@ + " "@ + context@,
            BenchmarkError::Neo4rsError(e) => error.message() == "Neo4j client error: "@ + e@,
            BenchmarkError::Neo4rsDeError(e) => error.message()
                == "Neo4j de serialization error: "@ + e@,
            BenchmarkError::HistogramError(e) => error.message() == "histogram error: "@ + e@,
            BenchmarkError::ReqwestError(e) => error.message() == "Reqwest client error: "@ + e@,
            BenchmarkError::FailedToDownloadFileError(e) => error.message()
                == "Failed to download a file error: "@ + e@,
            BenchmarkError::FalkorDBError(e) => error.message() == "FalkorDB error: "@ + e@,
            BenchmarkError::IbexDBError(e) => error.message() == "IbexDB error: "@ + e@,
            BenchmarkError::RedisError(e) => error.message() == "Redis error: "@ + e@,
            BenchmarkError::SerdeError(e) => error.message() == "Serde error: "@ + e@,
            BenchmarkError::ProcessNofFoundError(name) => error.message()
                == "Process with name "@ + name@ + " not found"@,
            BenchmarkError::TokioSendError(e) => error.message() == "Tokio send error: "@ + e@,
            BenchmarkError::TokioElapsed(e) => error.message() == "Tokio elapsed error: "@ + e@,
            BenchmarkError::OtherError(e) => error.message() == "Other error: "@ + e@,
        },
        forall|said: Seq<char>| #[trigger]
            error.is_other(said) <==> (error matches BenchmarkError::OtherError(e) && e@ == said),
{
}

/// A value of Redis is written in messages as Redis wrote it, and a list of values in
/// brackets with commas between them.
pub proof fn redis_value_is_written_as_it_came(items: Vec<RedisValue>, said: String)
    ensures
        (RedisValue::Array { items, text: said }).shown() == said@,
        (RedisValue::Scalar { text: said }).shown() == said@,
        crate::falkor::falkor_metrics::list_shown(items@) == "["@ + text::joined(
            Seq::new(items@.len(), |i: int| items@[i].shown()),
            ", "@,
        ) + "]"@,
{
    assert(items@.map_values(|v: RedisValue| v.shown()) =~= Seq::new(
        items@.len(),
        |i: int| items@[i].shown(),
    ));
}

// ---------------------------------------------------------------------------
// Gauges and durations

/// The share of each CPU is the largest number of percent that, taken once for each CPU,
/// does not go beyond the usage; below zero it is the same with the sign turned. The
/// memory is shown as it is, and each of the two in its own gauge.
pub proof fn usage_is_shared_among_the_cpus(
    cpu: Gauge,
    memory: Gauge,
    used: ProcessUsage,
    cpus: usize,
)
    requires
        0 < cpus <= i64::MAX,
    ensures
        ({
            let shown = usage::shown(cpu, memory, used, cpus);
            let share = shown[0].1 as int;
            &&& shown.len() == 2
            &&& shown[0].0 == cpu
            &&& shown[1] == (memory, used.memory as i64)
            &&& used.cpu >= 0 ==> share * cpus <= used.cpu < (share + 1) * cpus
            &&& used.cpu < 0 ==> (share - 1) * cpus < used.cpu <= share * cpus
        }),
        usage::server_gauges(Target::Falkor) == (Gauge::FalkorCpuUsage, Gauge::FalkorMemUsage),
        usage::server_gauges(Target::Ibex) == (Gauge::IbexCpuUsage, Gauge::IbexMemUsage),
{
    let n = cpus as int;
    let a = if used.cpu >= 0 {
        used.cpu as int
    } else {
        -(used.cpu as int)
    };
    let q = a / n;
    assert(q * n <= a < (q + 1) * n && 0 <= q <= a) by (nonlinear_arith)
        requires
            n > 0,
            a >= 0,
            q == a / n,
    ;
    assert((-q) * n == -(q * n) && (-q - 1) * n == -((q + 1) * n)) by (nonlinear_arith);
}

/// The id that is given is that of the first process with the name.
pub proof fn first_process_with_the_name_is_given(
    processes: Seq<(u32, Option<String>)>,
    name: Seq<char>,
    k: int,
)
    requires
        0 <= k <= processes.len(),
        forall|j: int|
            0 <= j < k ==> !((#[trigger] processes[j]).1 matches Some(n) && n@ == name),
        k < processes.len() ==> (processes[k].1 matches Some(n) && n@ == name),
    ensures
        usage::first_named(processes, name) == if k < processes.len() {
            Some(processes[k].0)
        } else {
            None
        },
    decreases k,
{
    if k > 0 {
        let rest = processes.drop_first();
        assert(!(processes[0].1 matches Some(n) && n@ == name));
        assert forall|j: int| 0 <= j < k - 1 implies !((#[trigger] rest[j]).1 matches Some(n) && n@
            == name) by {
            assert(rest[j] == processes[j + 1]);
        }
        first_process_with_the_name_is_given(rest, name, k - 1);
    }
}

/// The histogram of an import has the powers 7 and 64. Recording a duration adds one to the
/// bucket of that very duration, leaves the others as they are, and always works.
pub proof fn duration_is_counted_in_its_bucket(
    before: Histogram,
    micros: u64,
    after: Histogram,
    r: BenchmarkResult<()>,
)
    requires
        durations::histogram_powers(before) == (7u8, 64u8),
        durations::histogram_counts(before).len() == durations::bucket_count(7, 64),
        durations::recorded(before, micros, after, r),
    ensures
        durations::is_import_histogram(before),
        r == BenchmarkResult::<()>::Ok(()),
        durations::histogram_powers(after) == (7u8, 64u8),
        ({
            let (counts, later) = (
                durations::histogram_counts(before),
                durations::histogram_counts(after),
            );
            let bucket = durations::bucket_of(7, micros as nat) as int;
            &&& later.len() == counts.len()
            &&& 0 <= bucket < counts.len()
            &&& counts[bucket] < u64::MAX ==> later[bucket] == counts[bucket] + 1
            &&& forall|i: int|
                0 <= i < counts.len() && i != bucket ==> #[trigger] later[i] == counts[i]
        }),
{
    durations::every_statement_is_counted(before, micros, after, r);
    vstd::arithmetic::power2::lemma2_to64_rest();
    durations::buckets_cover_the_range(7, 64, micros as nat);
}

/// What is taken for the histogram of an import is one.
pub proof fn import_histogram_has_its_powers(h: Histogram)
    ensures
        durations::is_import_histogram(h) <==> durations::histogram_powers(h) == (7u8, 64u8)
            && durations::histogram_counts(h).len() == durations::bucket_count(7, 64),
{
}

} // verus!
