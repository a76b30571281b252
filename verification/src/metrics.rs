//! Summaries of a benchmark phase: the file metrics of one file phase, the
//! results a client gathers, and the network performance summary.
//!
//! All latencies and times are nanoseconds.

use vstd::prelude::*;
use crate::file_bench::{FileBench, Phase};
use crate::network::PingPong;
use crate::stats::{
    duration_max_nanos, latency_sum, mean_divisor, mean_latency, mean_latency_of, percentile,
    percentile_index, sort_latencies, sorted_latencies, lemma_sorted_latencies,
    lemma_percentiles_monotone,
};

verus! {

/// The latencies can be summarised as the benchmark does without a panic:
/// their sum fits a `Duration`, the count taken as a `u32` is not zero and
/// `count * 999` does not overflow.
pub open spec fn summarizable(latencies: Seq<u64>) -> bool {
    &&& mean_divisor(latencies.len()) != 0
    &&& latency_sum(latencies) <= duration_max_nanos()
    &&& latencies.len() * 999 <= usize::MAX
}

/// The latency at the `numer/denom` percentile of `latencies`.
pub open spec fn percentile_of(latencies: Seq<u64>, numer: int, denom: int) -> u64 {
    sorted_latencies(latencies)[percentile_index(latencies.len() as int, numer, denom)]
}

/// The metrics of a file phase whose operations took `latencies` and which
/// took `total_time` in all.
pub open spec fn file_metrics_of(latencies: Seq<u64>, total_time: u64) -> FileMetrics {
    FileMetrics {
        total_operations: latencies.len() as usize,
        avg_latency: mean_latency_of(latencies) as u128,
        p50_latency: percentile_of(latencies, 50, 100),
        p90_latency: percentile_of(latencies, 90, 100),
        p99_latency: percentile_of(latencies, 99, 100),
        p999_latency: percentile_of(latencies, 999, 1000),
        total_time,
    }
}

/// Statistics of one file-I/O phase.
#[derive(Clone, Copy, Debug, PartialEq, Eq)]
pub struct FileMetrics {
    pub total_operations: usize,
    pub avg_latency: u128,
    pub p50_latency: u64,
    pub p90_latency: u64,
    pub p99_latency: u64,
    pub p999_latency: u64,
    /// Duration of the whole phase; the throughput is
    /// `total_operations / total_time`.
    pub total_time: u64,
}

impl FileMetrics {
    /// Summarises the latencies of a phase that took `total_time`.
    pub fn new(latencies: Vec<u64>, total_time: u64) -> (m: Self)
        requires
            summarizable(latencies@),
        ensures
            m.total_operations == latencies@.len(),
            m.avg_latency == mean_latency_of(latencies@),
            m.p50_latency == percentile_of(latencies@, 50, 100),
            m.p90_latency == percentile_of(latencies@, 90, 100),
            m.p99_latency == percentile_of(latencies@, 99, 100),
            m.p999_latency == percentile_of(latencies@, 999, 1000),
            m.total_time == total_time,
            m == file_metrics_of(latencies@, total_time),
    {
        let sorted = sort_latencies(&latencies);
        proof {
            lemma_sorted_latencies(latencies@);
        }
        let total_operations = sorted.len();
        let avg_latency = mean_latency(&latencies);
        let p50_latency = percentile(&sorted, 50, 100);
        let p90_latency = percentile(&sorted, 90, 100);
        let p99_latency = percentile(&sorted, 99, 100);
        let p999_latency = percentile(&sorted, 999, 1000);
        FileMetrics {
            total_operations,
            avg_latency,
            p50_latency,
            p90_latency,
            p99_latency,
            p999_latency,
            total_time,
        }
    }
}

/// What a client run gathers: the round-trip latencies of the network
/// phase, its duration, and the metrics of the four file phases.
#[derive(Clone, Debug)]
pub struct ClientResults {
    pub latencies: Vec<u64>,
    /// Duration of the network phase; the throughput is
    /// `latencies.len() / network_time`.
    pub network_time: u64,
    pub sequential_write_metrics: FileMetrics,
    pub sequential_read_metrics: FileMetrics,
    pub random_read_metrics: FileMetrics,
    pub write_then_read_metrics: FileMetrics,
}

impl ClientResults {
    /// Gathers the network results and the four file metrics, in the order
    /// sequential write, sequential read, random read, write-then-read.
    pub fn new(
        latencies: Vec<u64>,
        network_time: u64,
        file_metrics: (FileMetrics, FileMetrics, FileMetrics, FileMetrics),
    ) -> (r: Self)
        ensures
            r.latencies@ == latencies@,
            r.network_time == network_time,
            r.sequential_write_metrics == file_metrics.0,
            r.sequential_read_metrics == file_metrics.1,
            r.random_read_metrics == file_metrics.2,
            r.write_then_read_metrics == file_metrics.3,
    {
        let (
            sequential_write_metrics,
            sequential_read_metrics,
            random_read_metrics,
            write_then_read_metrics,
        ) = file_metrics;
        ClientResults {
            latencies,
            network_time,
            sequential_write_metrics,
            sequential_read_metrics,
            random_read_metrics,
            write_then_read_metrics,
        }
    }
}

/// The network summary of round trips that took `latencies`, the exchange
/// taking `total_time`: the mean is taken over the sorted latencies.
pub open spec fn performance_metrics_of(latencies: Seq<u64>, total_time: u64) -> PerformanceMetrics {
    PerformanceMetrics {
        total_requests: latencies.len() as usize,
        total_time,
        avg_latency: mean_latency_of(sorted_latencies(latencies)) as u128,
        p50_latency: percentile_of(latencies, 50, 100),
        p90_latency: percentile_of(latencies, 90, 100),
        p99_latency: percentile_of(latencies, 99, 100),
        p999_latency: percentile_of(latencies, 999, 1000),
    }
}

impl ClientResults {
    /// The results of a client run: the round trips of a finished
    /// ping-pong client, taking `network_time`, and the four phase metrics
    /// of a finished file benchmark.
    pub fn from_runs(client: PingPong, network_time: u64, bench: &FileBench) -> (r: Self)
        requires
            client.inv(),
            client@.latencies.len() == client@.num_requests,
            bench.inv(),
            bench@.phase == Phase::Finished,
        ensures
            r.latencies@ == client@.latencies,
            r.latencies@.len() == client@.num_requests,
            r.network_time == network_time,
            r.sequential_write_metrics == bench@.results[0],
            r.sequential_read_metrics == bench@.results[1],
            r.random_read_metrics == bench@.results[2],
            r.write_then_read_metrics == bench@.results[3],
            r.sequential_write_metrics.total_operations == bench@.n_operations,
            r.sequential_read_metrics.total_operations == bench@.n_operations,
            r.random_read_metrics.total_operations == bench@.n_operations,
            r.write_then_read_metrics.total_operations == bench@.n_operations,
    {
        let (latencies, network_time) = client.finish(network_time);
        let file_metrics = bench.results().unwrap();
        ClientResults::new(latencies, network_time, file_metrics)
    }
}

/// Summary of the network phase.
#[derive(Clone, Copy, Debug, PartialEq, Eq)]
pub struct PerformanceMetrics {
    pub total_requests: usize,
    pub total_time: u64,
    pub avg_latency: u128,
    pub p50_latency: u64,
    pub p90_latency: u64,
    pub p99_latency: u64,
    pub p999_latency: u64,
}

impl PerformanceMetrics {
    /// Summarises the network phase of a client run: the latencies are
    /// sorted, then averaged and their percentiles taken.
    pub fn new(client_results: ClientResults) -> (m: Self)
        requires
            summarizable(client_results.latencies@),
        ensures
            m.total_requests == client_results.latencies@.len(),
            m.total_time == client_results.network_time,
            m.avg_latency == mean_latency_of(sorted_latencies(client_results.latencies@)),
            m.avg_latency == mean_latency_of(client_results.latencies@),
            m.p50_latency == percentile_of(client_results.latencies@, 50, 100),
            m.p90_latency == percentile_of(client_results.latencies@, 90, 100),
            m.p99_latency == percentile_of(client_results.latencies@, 99, 100),
            m.p999_latency == percentile_of(client_results.latencies@, 999, 1000),
            m == performance_metrics_of(client_results.latencies@, client_results.network_time),
    {
        let latencies = sort_latencies(&client_results.latencies);
        proof {
            lemma_sorted_latencies(client_results.latencies@);
            crate::stats::lemma_latency_sum_permutation(
                client_results.latencies@,
                latencies@,
            );
        }
        let total_requests = latencies.len();
        let avg_latency = mean_latency(&latencies);
        let p50_latency = percentile(&latencies, 50, 100);
        let p90_latency = percentile(&latencies, 90, 100);
        let p99_latency = percentile(&latencies, 99, 100);
        let p999_latency = percentile(&latencies, 999, 1000);
        PerformanceMetrics {
            total_requests,
            total_time: client_results.network_time,
            avg_latency,
            p50_latency,
            p90_latency,
            p99_latency,
            p999_latency,
        }
    }
}

/// The four percentiles a summary reports are in ascending order.
pub proof fn lemma_reported_percentiles_ordered(s: Seq<u64>)
    requires
        s.len() > 0,
    ensures
        percentile_of(s, 50, 100) <= percentile_of(s, 90, 100),
        percentile_of(s, 90, 100) <= percentile_of(s, 99, 100),
        percentile_of(s, 99, 100) <= percentile_of(s, 999, 1000),
{
    lemma_percentiles_monotone(s, 50, 100, 90, 100);
    lemma_percentiles_monotone(s, 90, 100, 99, 100);
    lemma_percentiles_monotone(s, 99, 100, 999, 1000);
}

/// Network and file summaries agree: for the same latencies, the network
/// summary reports the same count, mean and percentiles as the file metrics.
pub proof fn lemma_summaries_agree(s: Seq<u64>, network_time: u64, file_time: u64)
    ensures
        ({
            let f = file_metrics_of(s, file_time);
            let p = performance_metrics_of(s, network_time);
            &&& p.total_requests == f.total_operations
            &&& p.avg_latency == f.avg_latency
            &&& p.p50_latency == f.p50_latency
            &&& p.p90_latency == f.p90_latency
            &&& p.p99_latency == f.p99_latency
            &&& p.p999_latency == f.p999_latency
        }),
{
    crate::stats::lemma_mean_order_independent(s);
}

/// Why latencies cannot be summarised, in the order the summary meets the
/// problem.
#[derive(Clone, Copy, Debug, PartialEq, Eq, Structural)]
pub enum SummaryError {
    /// The latencies sum to more than a `Duration` holds.
    SumOverflow,
    /// The count taken as a `u32` is zero.
    DivisionByZero,
    /// A percentile index computation (`count * 999`) overflows a `usize`.
    IndexOverflow,
}

/// The first reason why `latencies` cannot be summarised: the sum is met
/// first, then the division by the count, then the percentile indices.
pub open spec fn spec_summary_error(latencies: Seq<u64>) -> Option<SummaryError> {
    if latency_sum(latencies) > duration_max_nanos() {
        Some(SummaryError::SumOverflow)
    } else if mean_divisor(latencies.len()) == 0 {
        Some(SummaryError::DivisionByZero)
    } else if latencies.len() * 999 > usize::MAX {
        Some(SummaryError::IndexOverflow)
    } else {
        None
    }
}

/// The first reason why the latencies cannot be summarised, or `None` when
/// they can.
pub fn summary_error(latencies: &Vec<u64>) -> (e: Option<SummaryError>)
    ensures
        e == spec_summary_error(latencies@),
        e is None <==> summarizable(latencies@),
        e == Some(SummaryError::SumOverflow) <==> latency_sum(latencies@) > duration_max_nanos(),
        e == Some(SummaryError::DivisionByZero) <==> latency_sum(latencies@)
            <= duration_max_nanos() && mean_divisor(latencies@.len()) == 0,
        e == Some(SummaryError::IndexOverflow) <==> latency_sum(latencies@)
            <= duration_max_nanos() && mean_divisor(latencies@.len()) != 0 && latencies@.len()
            * 999 > usize::MAX,
{
    let total = crate::stats::total_latency(latencies);
    if total > 18_446_744_073_709_551_615_999_999_999u128 {
        Some(SummaryError::SumOverflow)
    } else if latencies.len() as u32 == 0 {
        Some(SummaryError::DivisionByZero)
    } else if latencies.len() > usize::MAX / 999 {
        Some(SummaryError::IndexOverflow)
    } else {
        None
    }
}

/// File metrics are monotone in the latencies: when every latency of `a`
/// is at most the corresponding latency of `b`, each reported figure of
/// `a` is at most that of `b`, and both count the same operations. (A
/// count that is a multiple of 2^32 is left out: the mean then divides by
/// zero.)
pub proof fn lemma_file_metrics_monotone(a: Seq<u64>, b: Seq<u64>, total_time: u64)
    requires
        a.len() == b.len(),
        1 <= a.len() <= usize::MAX,
        mean_divisor(a.len()) != 0,
        forall|i: int| 0 <= i < a.len() ==> a[i] <= b[i],
    ensures
        ({
            let x = file_metrics_of(a, total_time);
            let y = file_metrics_of(b, total_time);
            &&& x.total_operations == y.total_operations
            &&& x.total_time == y.total_time
            &&& x.avg_latency <= y.avg_latency
            &&& x.p50_latency <= y.p50_latency
            &&& x.p90_latency <= y.p90_latency
            &&& x.p99_latency <= y.p99_latency
            &&& x.p999_latency <= y.p999_latency
        }),
{
    let n = a.len() as int;
    crate::stats::lemma_mean_pointwise_monotone(a, b);
    crate::stats::lemma_mean_at_most_sum(a);
    crate::stats::lemma_mean_at_most_sum(b);
    crate::stats::lemma_latency_sum_bound(b);
    assert(n * u64::MAX <= usize::MAX * u64::MAX) by (nonlinear_arith)
        requires
            0 <= n <= usize::MAX,
    ;
    crate::stats::lemma_percentile_index_bound(n, 50, 100);
    crate::stats::lemma_percentile_index_bound(n, 90, 100);
    crate::stats::lemma_percentile_index_bound(n, 99, 100);
    crate::stats::lemma_percentile_index_bound(n, 999, 1000);
    crate::stats::lemma_sorted_pointwise_monotone(a, b, percentile_index(n, 50, 100));
    crate::stats::lemma_sorted_pointwise_monotone(a, b, percentile_index(n, 90, 100));
    crate::stats::lemma_sorted_pointwise_monotone(a, b, percentile_index(n, 99, 100));
    crate::stats::lemma_sorted_pointwise_monotone(a, b, percentile_index(n, 999, 1000));
}

/// File metrics do not depend on the order of the latencies: two
/// permutations of the same latencies give equal metrics in every field.
pub proof fn lemma_file_metrics_permutation(l1: Seq<u64>, l2: Seq<u64>, total_time: u64)
    requires
        l2.to_multiset() == l1.to_multiset(),
    ensures
        file_metrics_of(l1, total_time) == file_metrics_of(l2, total_time),
{
    crate::stats::lemma_sorted_latencies(l1);
    crate::stats::lemma_ascending_permutation_is_sorted(l2, sorted_latencies(l1));
    crate::stats::lemma_latency_sum_permutation(l1, l2);
    crate::stats::lemma_sorted_latencies(l2);
    assert(sorted_latencies(l1).len() == l1.len());
    assert(sorted_latencies(l2).len() == l2.len());
}

} // verus!
