use benchmark::durations::{import_histogram, record};
use benchmark::error::BenchmarkError;
use histogram::Histogram;

fn counts_after(values: &[u64]) -> Vec<(usize, u64)> {
    let mut h = import_histogram().unwrap();
    for v in values {
        assert_eq!(record(&mut h, *v), Ok(()));
    }
    h.as_slice().iter().copied().enumerate().filter(|(_, n)| *n > 0).collect()
}

#[test]
fn a_new_histogram_has_counted_nothing() {
    let h = import_histogram().unwrap();
    assert_eq!(h.as_slice().len(), 128 * 58);
    assert!(h.as_slice().iter().all(|n| *n == 0));
    assert_eq!(h.config().grouping_power(), 7);
    assert_eq!(h.config().max_value_power(), 64);
}

#[test]
fn small_values_have_buckets_of_their_own() {
    assert_eq!(counts_after(&[0]), vec![(0, 1)]);
    assert_eq!(counts_after(&[127]), vec![(127, 1)]);
    assert_eq!(counts_after(&[200]), vec![(200, 1)]);
    assert_eq!(counts_after(&[255]), vec![(255, 1)]);
}

#[test]
fn large_values_share_buckets() {
    assert_eq!(counts_after(&[256, 257, 258]), vec![(256, 2), (257, 1)]);
    assert_eq!(counts_after(&[512, 515, 516]), vec![(384, 2), (385, 1)]);
    assert_eq!(counts_after(&[u64::MAX]), vec![(128 * 58 - 1, 1)]);
}

#[test]
fn every_recorded_duration_is_counted_once() {
    let values: Vec<u64> = (0..1000u64).map(|i| i * i * i).collect();
    let total: u64 = counts_after(&values).iter().map(|(_, n)| n).sum();
    assert_eq!(total, 1000);
}

#[test]
fn values_out_of_range_are_refused() {
    let mut h = Histogram::new(7, 10).unwrap();
    assert_eq!(record(&mut h, 1023), Ok(()));
    let before: Vec<u64> = h.as_slice().to_vec();
    assert_eq!(
        record(&mut h, 1024),
        Err(BenchmarkError::HistogramError(
            "the value is outside of the storable range".to_string()
        ))
    );
    assert_eq!(h.as_slice(), &before[..]);
}
