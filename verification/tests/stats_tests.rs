use rt_bench::stats::{mean_latency, percentile, sort_latencies, total_latency};

#[test]
fn sort_orders_and_keeps_duplicates() {
    let v = vec![5u64, 3, 9, 1, 3];
    let s = sort_latencies(&v);
    assert_eq!(s, vec![1, 3, 3, 5, 9]);
    assert_eq!(v, vec![5, 3, 9, 1, 3]);
}

#[test]
fn sort_empty_and_single() {
    assert_eq!(sort_latencies(&vec![]), Vec::<u64>::new());
    assert_eq!(sort_latencies(&vec![42]), vec![42]);
}

#[test]
fn sort_large_reversed() {
    let v: Vec<u64> = (0..100_000u64).rev().collect();
    let s = sort_latencies(&v);
    let expected: Vec<u64> = (0..100_000u64).collect();
    assert_eq!(s, expected);
}

#[test]
fn sort_is_idempotent() {
    let v = vec![8u64, 1, 7, 7, 2, 0, u64::MAX];
    let once = sort_latencies(&v);
    let twice = sort_latencies(&once);
    assert_eq!(once, twice);
}

#[test]
fn total_of_latencies() {
    assert_eq!(total_latency(&vec![]), 0);
    assert_eq!(total_latency(&vec![1, 2, 3]), 6);
    let big = vec![u64::MAX, u64::MAX];
    assert_eq!(total_latency(&big), 2 * (u64::MAX as u128));
}

#[test]
fn mean_rounds_down() {
    assert_eq!(mean_latency(&vec![1, 2, 4]), 2);
    assert_eq!(mean_latency(&vec![10]), 10);
    assert_eq!(mean_latency(&vec![u64::MAX, u64::MAX]), u64::MAX as u128);
}

#[test]
fn mean_is_between_extremes() {
    let v = vec![3u64, 100, 7, 250, 1];
    let m = mean_latency(&v);
    assert!(m >= 1 && m <= 250);
    assert_eq!(m, 72);
}

#[test]
fn percentile_index_is_floor() {
    let s = vec![10u64, 20, 30, 40, 50];
    assert_eq!(percentile(&s, 50, 100), 30);
    assert_eq!(percentile(&s, 90, 100), 50);
    assert_eq!(percentile(&s, 0, 100), 10);
    assert_eq!(percentile(&s, 999, 1000), 50);
    assert_eq!(percentile(&vec![7], 99, 100), 7);
}
