use rt_bench::file_bench::{FileBench, Runtime};
use rt_bench::metrics::{summary_error, ClientResults, FileMetrics, PerformanceMetrics, SummaryError};
use rt_bench::network::PingPong;

fn thousand_reversed() -> Vec<u64> {
    (0..1000u64).rev().collect()
}

#[test]
fn file_metrics_of_four() {
    let m = FileMetrics::new(vec![40, 10, 30, 20], 1000);
    assert_eq!(m.total_operations, 4);
    assert_eq!(m.avg_latency, 25);
    assert_eq!(m.p50_latency, 30);
    assert_eq!(m.p90_latency, 40);
    assert_eq!(m.p99_latency, 40);
    assert_eq!(m.p999_latency, 40);
    assert_eq!(m.total_time, 1000);
}

#[test]
fn file_metrics_of_thousand() {
    let m = FileMetrics::new(thousand_reversed(), 5);
    assert_eq!(m.total_operations, 1000);
    assert_eq!(m.avg_latency, 499);
    assert_eq!(m.p50_latency, 500);
    assert_eq!(m.p90_latency, 900);
    assert_eq!(m.p99_latency, 990);
    assert_eq!(m.p999_latency, 999);
}

#[test]
fn file_metrics_single_latency() {
    let m = FileMetrics::new(vec![77], 77);
    assert_eq!(m.total_operations, 1);
    assert_eq!(m.avg_latency, 77);
    assert_eq!(m.p50_latency, 77);
    assert_eq!(m.p999_latency, 77);
}

#[test]
fn reported_percentiles_are_ordered() {
    let v: Vec<u64> = (0..257u64).map(|i| (i * 7919) % 1000).collect();
    let m = FileMetrics::new(v, 1);
    assert!(m.p50_latency <= m.p90_latency);
    assert!(m.p90_latency <= m.p99_latency);
    assert!(m.p99_latency <= m.p999_latency);
}

#[test]
fn percentiles_are_recorded_latencies() {
    let v = vec![13u64, 2, 99, 41, 41, 8];
    let m = FileMetrics::new(v.clone(), 1);
    for p in [m.p50_latency, m.p90_latency, m.p99_latency, m.p999_latency] {
        assert!(v.contains(&p));
    }
}

#[test]
fn summary_error_checks_count() {
    assert_eq!(summary_error(&vec![]), Some(SummaryError::DivisionByZero));
    assert_eq!(summary_error(&vec![1]), None);
    assert_eq!(summary_error(&vec![u64::MAX, u64::MAX]), None);
}

#[test]
fn file_metrics_are_monotone() {
    let a = vec![5u64, 1, 9, 3, 7];
    let b = vec![6u64, 1, 20, 3, 8];
    let x = FileMetrics::new(a, 10);
    let y = FileMetrics::new(b, 10);
    assert_eq!(x.total_operations, y.total_operations);
    assert!(x.avg_latency <= y.avg_latency);
    assert!(x.p50_latency <= y.p50_latency);
    assert!(x.p90_latency <= y.p90_latency);
    assert!(x.p99_latency <= y.p99_latency);
    assert!(x.p999_latency <= y.p999_latency);
    assert_eq!((x.avg_latency, y.avg_latency), (5, 7));
    assert_eq!((x.p50_latency, y.p50_latency), (5, 6));
}

#[test]
fn client_results_from_runs() {
    let mut client = PingPong::new(2);
    client.record_round_trip(11);
    client.record_round_trip(22);
    let mut bench = FileBench::new(Runtime::Compio, 1);
    for k in 0..4u64 {
        bench.next_iteration_ops();
        bench.record_iteration(k + 1, 512);
        bench.finish_phase(100 + k);
    }
    let r = ClientResults::from_runs(client, 77, &bench);
    assert_eq!(r.latencies, vec![11, 22]);
    assert_eq!(r.network_time, 77);
    assert_eq!(r.sequential_write_metrics.avg_latency, 1);
    assert_eq!(r.sequential_read_metrics.avg_latency, 2);
    assert_eq!(r.random_read_metrics.avg_latency, 3);
    assert_eq!(r.write_then_read_metrics.avg_latency, 4);
    assert_eq!(r.write_then_read_metrics.total_time, 103);
    for m in [r.sequential_write_metrics, r.sequential_read_metrics, r.random_read_metrics, r.write_then_read_metrics] {
        assert_eq!(m.total_operations, 1);
    }
}

fn results_with(latencies: Vec<u64>) -> ClientResults {
    let f = FileMetrics::new(vec![1, 2, 3], 6);
    ClientResults::new(latencies, 123_456, (f, f, f, f))
}

#[test]
fn client_results_keep_their_parts() {
    let f1 = FileMetrics::new(vec![1], 1);
    let f2 = FileMetrics::new(vec![2], 2);
    let f3 = FileMetrics::new(vec![3], 3);
    let f4 = FileMetrics::new(vec![4], 4);
    let r = ClientResults::new(vec![9, 8], 17, (f1, f2, f3, f4));
    assert_eq!(r.latencies, vec![9, 8]);
    assert_eq!(r.network_time, 17);
    assert_eq!(r.sequential_write_metrics, f1);
    assert_eq!(r.sequential_read_metrics, f2);
    assert_eq!(r.random_read_metrics, f3);
    assert_eq!(r.write_then_read_metrics, f4);
}

#[test]
fn performance_metrics_of_thousand() {
    let m = PerformanceMetrics::new(results_with(thousand_reversed()));
    assert_eq!(m.total_requests, 1000);
    assert_eq!(m.total_time, 123_456);
    assert_eq!(m.avg_latency, 499);
    assert_eq!(m.p50_latency, 500);
    assert_eq!(m.p90_latency, 900);
    assert_eq!(m.p99_latency, 990);
    assert_eq!(m.p999_latency, 999);
}

#[test]
fn network_and_file_summaries_agree() {
    let v = vec![5u64, 900, 31, 31, 2, 64, 1000, 7];
    let f = FileMetrics::new(v.clone(), 1);
    let p = PerformanceMetrics::new(results_with(v));
    assert_eq!(p.total_requests, f.total_operations);
    assert_eq!(p.avg_latency, f.avg_latency);
    assert_eq!(p.p50_latency, f.p50_latency);
    assert_eq!(p.p90_latency, f.p90_latency);
    assert_eq!(p.p99_latency, f.p99_latency);
    assert_eq!(p.p999_latency, f.p999_latency);
}
