//! The histogram that collects how long statements take.
use histogram::Histogram;
use vstd::arithmetic::{logarithm, power2};
use vstd::prelude::*;
use vstd::string::*;
use crate::error::{BenchmarkError, BenchmarkResult};

verus! {

#[verifier::external_type_specification]
#[verifier::external_body]
pub struct ExHistogram(histogram::Histogram);

/// How many values each bucket of a histogram has counted.
pub uninterp spec fn histogram_counts(h: Histogram) -> Seq<u64>;

/// The grouping power and the maximum value power that a histogram was made with.
pub uninterp spec fn histogram_powers(h: Histogram) -> (u8, u8);

/// How many buckets a histogram with these powers has: one for each value below
/// `2^(g + 1)`, and `2^g` for each later power of two below `2^n`.
pub open spec fn bucket_count(g: nat, n: nat) -> nat {
    (power2::pow2(g) * (n - g + 1)) as nat
}

/// The bucket of a value: up to `2^(g + 1)` each value has its own, and from there on
/// each power of two `2^p` is split into `2^g` buckets of the width `2^(p - g)`.
pub open spec fn bucket_of(g: nat, value: nat) -> nat {
    if value < power2::pow2(g) {
        value
    } else {
        let p = logarithm::log(2, value as int);
        (power2::pow2(g) * (p - g) + value as int / power2::pow2((p - g) as nat) as int) as nat
    }
}

/// Whether a histogram is one that can be made here: its powers are in range, and it has a
/// count for each of its buckets.
pub open spec fn is_sound(h: Histogram) -> bool {
    let (g, n) = histogram_powers(h);
    &&& g <= 12
    &&& g < n <= 64
    &&& histogram_counts(h).len() == bucket_count(g as nat, n as nat)
}

/// The counts with one more in bucket `i`. A count beyond the range starts again at zero.
pub open spec fn counted(counts: Seq<u64>, i: int) -> Seq<u64> {
    counts.update(
        i,
        if counts[i] == u64::MAX {
            0
        } else {
            (counts[i] + 1) as u64
        },
    )
}

/// `Histogram::new` of the crate `histogram` accepts a maximum value power of at most 64
/// that is greater than the grouping power, and gives a histogram that has counted
/// nothing. Larger grouping powers than the contract admits overflow or take up too much
/// memory.
#[verifier::external_body]
fn new_histogram(grouping_power: u8, max_value_power: u8) -> (r: Result<Histogram, String>)
    requires
        grouping_power <= 12,
    ensures
        match r {
            Ok(h) => {
                &&& grouping_power < max_value_power <= 64
                &&& histogram_powers(h) == (grouping_power, max_value_power)
                &&& histogram_counts(h) == Seq::new(
                    bucket_count(grouping_power as nat, max_value_power as nat),
                    |i: int| 0u64,
                )
            },
            Err(e) => {
                &&& !(grouping_power < max_value_power <= 64)
                &&& e@ == if max_value_power > 64 {
                    "max power is too high, check that n <= 64"@
                } else {
                    "max power is too low, check that a + b < n"@
                }
            },
        },
{
    Histogram::new(grouping_power, max_value_power).map_err(|e| e.to_string())
}

/// `Histogram::increment` of the crate `histogram` adds one to the bucket of the value,
/// wrapping around at the end of the range. A value of `2^n` or more, where `n` is the
/// maximum value power, is refused and nothing changes.
#[verifier::external_body]
fn increment(h: &mut Histogram, value: u64) -> (r: Result<(), String>)
    requires
        is_sound(*old(h)),
    ensures
        histogram_powers(*final(h)) == histogram_powers(*old(h)),
        match r {
            Ok(()) => {
                &&& (value as nat) < power2::pow2(histogram_powers(*old(h)).1 as nat)
                &&& histogram_counts(*final(h)) == counted(
                    histogram_counts(*old(h)),
                    bucket_of(histogram_powers(*old(h)).0 as nat, value as nat) as int,
                )
            },
            Err(e) => {
                &&& value as nat >= power2::pow2(histogram_powers(*old(h)).1 as nat)
                &&& histogram_counts(*final(h)) == histogram_counts(*old(h))
                &&& e@ == "the value is outside of the storable range"@
            },
        },
{
    h.increment(value).map_err(|e| e.to_string())
}

/// The histogram for the durations of an import, in microseconds.
pub fn import_histogram() -> (r: BenchmarkResult<Histogram>)
    ensures
        r matches Ok(h) && is_import_histogram(h) && histogram_counts(h) == Seq::new(
            bucket_count(7, 64),
            |i: int| 0u64,
        ),
{
    match new_histogram(7, 64) {
        Ok(h) => Ok(h),
        Err(e) => Err(BenchmarkError::HistogramError(e)),
    }
}

/// What becomes of a histogram when a duration is recorded.
pub open spec fn recorded(
    before: Histogram,
    micros: u64,
    after: Histogram,
    r: BenchmarkResult<()>,
) -> bool {
    let powers = histogram_powers(before);
    &&& histogram_powers(after) == powers
    &&& if (micros as nat) < power2::pow2(powers.1 as nat) {
        &&& r == BenchmarkResult::<()>::Ok(())
        &&& histogram_counts(after) == counted(
            histogram_counts(before),
            bucket_of(powers.0 as nat, micros as nat) as int,
        )
    } else {
        &&& r matches Err(BenchmarkError::HistogramError(e))
        &&& e@ == "the value is outside of the storable range"@
        &&& histogram_counts(after) == histogram_counts(before)
    }
}

/// Records a duration in the histogram.
pub fn record(h: &mut Histogram, micros: u64) -> (r: BenchmarkResult<()>)
    requires
        is_sound(*old(h)),
    ensures
        recorded(*old(h), micros, *final(h), r),
        is_sound(*final(h)),
{
    proof {
        let (g, n) = histogram_powers(*h);
        if (micros as nat) < power2::pow2(n as nat) {
            buckets_cover_the_range(g as nat, n as nat, micros as nat);
        }
    }
    match increment(h, micros) {
        Ok(()) => Ok(()),
        Err(e) => Err(BenchmarkError::HistogramError(e)),
    }
}

proof fn lemma_log_bounds(v: nat)
    requires
        v >= 1,
    ensures
        logarithm::log(2, v as int) >= 0,
        power2::pow2(logarithm::log(2, v as int) as nat) <= v < power2::pow2(
            (logarithm::log(2, v as int) + 1) as nat,
        ),
    decreases v,
{
    power2::lemma2_to64();
    if v < 2 {
        logarithm::lemma_log0(2, v as int);
    } else {
        lemma_log_bounds(v / 2);
        logarithm::lemma_log_s(2, v as int);
        let p = logarithm::log(2, v as int);
        power2::lemma_pow2_unfold(p as nat);
        power2::lemma_pow2_unfold((p + 1) as nat);
    }
}

/// Every value that a histogram can hold has a bucket.
pub proof fn buckets_cover_the_range(g: nat, n: nat, value: nat)
    requires
        g < n,
        value < power2::pow2(n),
    ensures
        bucket_of(g, value) < bucket_count(g, n),
{
    power2::lemma_pow2_pos(g);
    let w = power2::pow2(g) as int;
    if value < w {
        assert(w * (n - g + 1) >= w * 2) by (nonlinear_arith)
            requires
                w > 0,
                n - g + 1 >= 2,
        ;
    } else {
        lemma_log_bounds(value);
        let p = logarithm::log(2, value as int);
        if p < g {
            if p + 1 < g {
                power2::lemma_pow2_strictly_increases((p + 1) as nat, g);
            }
            assert(false);
        }
        if p >= n {
            if p > n {
                power2::lemma_pow2_strictly_increases(n, p as nat);
            }
            assert(false);
        }
        let d = power2::pow2((p - g) as nat) as int;
        power2::lemma_pow2_pos((p - g) as nat);
        power2::lemma_pow2_adds((p - g) as nat, (g + 1) as nat);
        power2::lemma_pow2_unfold((g + 1) as nat);
        assert(power2::pow2((p + 1) as nat) as int == d * (2 * w));
        let q = value as int / d;
        assert(0 <= q < 2 * w) by (nonlinear_arith)
            requires
                d > 0,
                0 <= value < d * (2 * w),
                q == value as int / d,
        ;
        assert(w * (p - g) + q < w * (n - g + 1)) by (nonlinear_arith)
            requires
                q < 2 * w,
                w > 0,
                p + 1 <= n,
        ;
        assert(w * (p - g) >= 0) by (nonlinear_arith)
            requires
                w > 0,
                p >= g,
        ;
    }
}

/// How many values the buckets have counted in all.
pub open spec fn total(counts: Seq<u64>) -> int
    decreases counts.len(),
{
    if counts.len() == 0 {
        0
    } else {
        total(counts.drop_last()) + counts.last()
    }
}

/// Recording a duration adds one to what was counted in all, unless the count of its
/// bucket is at the end of its range.
pub proof fn recording_counts_one(counts: Seq<u64>, i: int)
    requires
        0 <= i < counts.len(),
        counts[i] < u64::MAX,
    ensures
        total(counted(counts, i)) == total(counts) + 1,
    decreases counts.len(),
{
    let after = counted(counts, i);
    if i == counts.len() - 1 {
        assert(after.drop_last() =~= counts.drop_last());
    } else {
        recording_counts_one(counts.drop_last(), i);
        assert(after.drop_last() =~= counted(counts.drop_last(), i));
    }
}

/// Whether this is a histogram as an import uses it.
pub open spec fn is_import_histogram(h: Histogram) -> bool {
    histogram_powers(h) == (7u8, 64u8) && histogram_counts(h).len() == bucket_count(7, 64)
}

/// The histogram of an import takes every duration and counts each one once, unless a
/// count is at the end of its range.
pub proof fn every_statement_is_counted(
    before: Histogram,
    micros: u64,
    after: Histogram,
    r: BenchmarkResult<()>,
)
    requires
        is_import_histogram(before),
        recorded(before, micros, after, r),
    ensures
        r == BenchmarkResult::<()>::Ok(()),
        is_import_histogram(after),
        histogram_counts(before)[bucket_of(7, micros as nat) as int] < u64::MAX ==> total(
            histogram_counts(after),
        ) == total(histogram_counts(before)) + 1,
{
    power2::lemma2_to64_rest();
    buckets_cover_the_range(7, 64, micros as nat);
    let counts = histogram_counts(before);
    let i = bucket_of(7, micros as nat) as int;
    if counts[i] < u64::MAX {
        recording_counts_one(counts, i);
    }
}

} // verus!
