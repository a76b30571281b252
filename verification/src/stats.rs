//! Latency statistics: sorting, total, mean and percentiles.
//!
//! A latency is a number of nanoseconds held in a `u64`.

use vstd::prelude::*;
use vstd::relations::{sorted_by, total_ordering};
use vstd::seq_lib::{lemma_multiset_commutative, lemma_sorted_unique, group_to_multiset_ensures, to_multiset_build};

verus! {

/// The order in which latencies are sorted: ascending.
pub open spec fn latency_le() -> spec_fn(u64, u64) -> bool {
    |a: u64, b: u64| a <= b
}

/// `s` is in ascending order.
pub open spec fn is_ascending(s: Seq<u64>) -> bool {
    forall|i: int, j: int| 0 <= i <= j < s.len() ==> s[i] <= s[j]
}

/// The latencies of `s` in ascending order.
pub open spec fn sorted_latencies(s: Seq<u64>) -> Seq<u64> {
    s.sort_by(latency_le())
}

proof fn lemma_latency_le_total()
    ensures
        total_ordering(latency_le()),
{
}

/// An ascending sequence with the same elements as `s` is the sorted `s`.
pub proof fn lemma_ascending_permutation_is_sorted(s: Seq<u64>, t: Seq<u64>)
    requires
        is_ascending(t),
        t.to_multiset() == s.to_multiset(),
    ensures
        t == sorted_latencies(s),
{
    lemma_latency_le_total();
    s.lemma_sort_by_ensures(latency_le());
    assert(sorted_by(t, latency_le())) by {
        assert forall|i: int, j: int| 0 <= i < j < t.len() implies #[trigger] (latency_le())(
            t[i],
            t[j],
        ) by {}
    }
    lemma_sorted_unique(t, sorted_latencies(s), latency_le());
}

/// The sorted `s` is ascending and holds the elements of `s`.
pub proof fn lemma_sorted_latencies(s: Seq<u64>)
    ensures
        is_ascending(sorted_latencies(s)),
        sorted_latencies(s).to_multiset() == s.to_multiset(),
        sorted_latencies(s).len() == s.len(),
{
    lemma_latency_le_total();
    s.lemma_sort_by_ensures(latency_le());
    let t = sorted_latencies(s);
    assert forall|i: int, j: int| 0 <= i <= j < t.len() implies t[i] <= t[j] by {
        if i < j {
            assert((latency_le())(t[i], t[j]));
        }
    }
    broadcast use group_to_multiset_ensures;
    assert(t.len() == t.to_multiset().len());
    assert(s.len() == s.to_multiset().len());
}

/// Merges two ascending vectors into one ascending vector holding the
/// elements of both.
fn merge(left: &Vec<u64>, right: &Vec<u64>) -> (out: Vec<u64>)
    requires
        is_ascending(left@),
        is_ascending(right@),
    ensures
        is_ascending(out@),
        out@.to_multiset() == left@.to_multiset().add(right@.to_multiset()),
        out@.len() == left@.len() + right@.len(),
{
    broadcast use group_to_multiset_ensures;
    broadcast use vstd::multiset::group_multiset_axioms;

    let mut out: Vec<u64> = Vec::new();
    let mut i: usize = 0;
    let mut j: usize = 0;
    while i < left.len() || j < right.len()
        invariant
            i <= left.len(),
            j <= right.len(),
            is_ascending(left@),
            is_ascending(right@),
            out@.len() == i + j,
            is_ascending(out@),
            out@.to_multiset() == left@.take(i as int).to_multiset().add(
                right@.take(j as int).to_multiset(),
            ),
            forall|k: int|
                0 <= k < out@.len() ==> (i < left@.len() ==> out@[k] <= left@[i as int]) && (j
                    < right@.len() ==> out@[k] <= right@[j as int]),
        decreases left.len() + right.len() - i - j,
    {
        let ghost out_before = out@;
        let ghost taken_left = left@.take(i as int);
        let ghost taken_right = right@.take(j as int);
        if j >= right.len() || (i < left.len() && left[i] <= right[j]) {
            let x = left[i];
            assert(left@.take(i + 1) =~= taken_left.push(x));
            out.push(x);
            assert(out@ =~= out_before.push(x));
            proof {
                to_multiset_build(out_before, x);
                to_multiset_build(taken_left, x);
            }
            assert(out@.to_multiset() =~= taken_left.to_multiset().insert(x).add(
                taken_right.to_multiset(),
            ));
            i = i + 1;
        } else {
            let x = right[j];
            assert(right@.take(j + 1) =~= taken_right.push(x));
            out.push(x);
            assert(out@ =~= out_before.push(x));
            proof {
                to_multiset_build(out_before, x);
                to_multiset_build(taken_right, x);
            }
            assert(out@.to_multiset() =~= taken_left.to_multiset().add(
                taken_right.to_multiset().insert(x),
            ));
            j = j + 1;
        }
    }
    assert(left@.take(i as int) =~= left@);
    assert(right@.take(j as int) =~= right@);
    out
}

/// A copy of `v[lo..hi]`.
fn copy_range(v: &Vec<u64>, lo: usize, hi: usize) -> (out: Vec<u64>)
    requires
        lo <= hi <= v.len(),
    ensures
        out@ == v@.subrange(lo as int, hi as int),
{
    let mut out: Vec<u64> = Vec::new();
    let mut k: usize = lo;
    while k < hi
        invariant
            lo <= k <= hi <= v.len(),
            out@ == v@.subrange(lo as int, k as int),
        decreases hi - k,
    {
        out.push(v[k]);
        k = k + 1;
        assert(out@ =~= v@.subrange(lo as int, k as int));
    }
    out
}

/// Merge sort: an ascending vector holding the elements of `v`.
fn merge_sort(v: &Vec<u64>) -> (out: Vec<u64>)
    ensures
        is_ascending(out@),
        out@.to_multiset() == v@.to_multiset(),
    decreases v.len(),
{
    let len = v.len();
    if len <= 1 {
        let out = copy_range(v, 0, len);
        assert(out@ =~= v@);
        return out;
    }
    let mid = len / 2;
    let left = copy_range(v, 0, mid);
    let right = copy_range(v, mid, len);
    let left_sorted = merge_sort(&left);
    let right_sorted = merge_sort(&right);
    let out = merge(&left_sorted, &right_sorted);
    proof {
        assert(v@ =~= left@ + right@);
        lemma_multiset_commutative(left@, right@);
    }
    out
}

/// Sorts a copy of the latencies in ascending order; the input is left as it
/// was.
pub fn sort_latencies(latencies: &Vec<u64>) -> (sorted: Vec<u64>)
    ensures
        sorted@ == sorted_latencies(latencies@),
{
    let sorted = merge_sort(latencies);
    proof {
        lemma_ascending_permutation_is_sorted(latencies@, sorted@);
    }
    sorted
}

/// The sum of the latencies in `s`.
pub open spec fn latency_sum(s: Seq<u64>) -> int
    decreases s.len(),
{
    if s.len() == 0 {
        0
    } else {
        latency_sum(s.drop_last()) + s.last()
    }
}

/// The largest number of nanoseconds a `std::time::Duration` can hold
/// (`u64::MAX` seconds and 999_999_999 nanoseconds).
pub open spec fn duration_max_nanos() -> int {
    u64::MAX * 1_000_000_000 + 999_999_999
}

/// The divisor the mean is taken with: the count of latencies truncated to
/// 32 bits, as `Duration / u32` takes it.
pub open spec fn mean_divisor(count: nat) -> int {
    (count as u32) as int
}

/// The mean latency: the sum divided by the (truncated) count, rounded down.
pub open spec fn mean_latency_of(s: Seq<u64>) -> int {
    latency_sum(s) / mean_divisor(s.len())
}

/// The index of the `numer/denom` percentile in a sorted sequence of
/// `count` latencies.
pub open spec fn percentile_index(count: int, numer: int, denom: int) -> int {
    count * numer / denom
}

/// The sum of latencies is at most their count times `u64::MAX`.
pub proof fn lemma_latency_sum_bound(s: Seq<u64>)
    ensures
        0 <= latency_sum(s) <= s.len() * u64::MAX,
    decreases s.len(),
{
    if s.len() > 0 {
        lemma_latency_sum_bound(s.drop_last());
        let n = s.len() as int;
        assert((n - 1) * u64::MAX + u64::MAX == n * u64::MAX) by (nonlinear_arith);
    }
}

/// The total of the latencies, in nanoseconds.
pub fn total_latency(latencies: &Vec<u64>) -> (total: u128)
    ensures
        total == latency_sum(latencies@),
{
    let mut total: u128 = 0;
    let mut i: usize = 0;
    while i < latencies.len()
        invariant
            i <= latencies@.len(),
            total == latency_sum(latencies@.take(i as int)),
            total <= i * u64::MAX,
        decreases latencies.len() - i,
    {
        proof {
            assert(latencies@.take(i + 1).drop_last() =~= latencies@.take(i as int));
            assert((i + 1) * u64::MAX == i * u64::MAX + u64::MAX) by (nonlinear_arith);
            assert(i * u64::MAX <= usize::MAX * u64::MAX) by (nonlinear_arith)
                requires
                    i <= usize::MAX,
            ;
        }
        total = total + latencies[i] as u128;
        i = i + 1;
    }
    assert(latencies@.take(i as int) =~= latencies@);
    total
}

/// The mean latency in nanoseconds, as the benchmark computes it: the
/// latencies summed as durations, then divided by the count taken as a `u32`.
pub fn mean_latency(latencies: &Vec<u64>) -> (avg: u128)
    requires
        mean_divisor(latencies@.len()) != 0,
        latency_sum(latencies@) <= duration_max_nanos(),
    ensures
        avg == mean_latency_of(latencies@),
{
    let total = total_latency(latencies);
    let divisor = latencies.len() as u32;
    total / (divisor as u128)
}

/// A percentile index of `count` latencies is a valid index.
pub proof fn lemma_percentile_index_bound(count: int, numer: int, denom: int)
    requires
        count > 0,
        0 <= numer < denom,
    ensures
        0 <= percentile_index(count, numer, denom) < count,
{
    assert(0 <= count * numer) by (nonlinear_arith)
        requires
            count > 0,
            numer >= 0,
    ;
    assert(count * numer < count * denom) by (nonlinear_arith)
        requires
            count > 0,
            numer < denom,
    ;
    assert(count * numer / denom < count) by (nonlinear_arith)
        requires
            count * numer < count * denom,
            denom > 0,
            count * numer >= 0,
    ;
    assert(count * numer / denom >= 0) by (nonlinear_arith)
        requires
            denom > 0,
            count * numer >= 0,
    ;
}

/// The latency at the `numer/denom` percentile of an ascending vector: the
/// element at index `len * numer / denom`.
pub fn percentile(sorted: &Vec<u64>, numer: usize, denom: usize) -> (p: u64)
    requires
        sorted@.len() > 0,
        numer < denom,
        sorted@.len() * numer <= usize::MAX,
    ensures
        p == sorted@[percentile_index(sorted@.len() as int, numer as int, denom as int)],
{
    proof {
        lemma_percentile_index_bound(sorted@.len() as int, numer as int, denom as int);
    }
    let index = sorted.len() * numer / denom;
    sorted[index]
}

proof fn lemma_latency_sum_remove(s: Seq<u64>, i: int)
    requires
        0 <= i < s.len(),
    ensures
        latency_sum(s) == latency_sum(s.remove(i)) + s[i],
    decreases s.len(),
{
    if i == s.len() - 1 {
        assert(s.remove(i) =~= s.drop_last());
    } else {
        lemma_latency_sum_remove(s.drop_last(), i);
        assert(s.remove(i).drop_last() =~= s.drop_last().remove(i));
        assert(s.remove(i).last() == s.last());
    }
}

/// The sum of latencies does not depend on their order: two sequences with
/// the same elements have the same sum.
pub proof fn lemma_latency_sum_permutation(s: Seq<u64>, t: Seq<u64>)
    requires
        t.to_multiset() == s.to_multiset(),
    ensures
        latency_sum(t) == latency_sum(s),
    decreases s.len(),
{
    broadcast use group_to_multiset_ensures;
    broadcast use vstd::multiset::group_multiset_axioms;

    assert(s.len() == s.to_multiset().len());
    assert(t.len() == t.to_multiset().len());
    if s.len() > 0 {
        let x = s.last();
        let rest = s.drop_last();
        assert(s =~= rest.push(x));
        assert(s.to_multiset().count(x) > 0);
        assert(t.contains(x));
        let i = choose|i: int| 0 <= i < t.len() && t[i] == x;
        assert(t.remove(i).to_multiset() == t.to_multiset().remove(x));
        assert(rest.push(x).to_multiset() == rest.to_multiset().insert(x));
        assert(t.remove(i).to_multiset() =~= rest.to_multiset());
        lemma_latency_sum_permutation(rest, t.remove(i));
        lemma_latency_sum_remove(t, i);
    }
}

/// Sorting is idempotent: the sorted latencies, sorted again, are unchanged.
pub proof fn lemma_sort_idempotent(s: Seq<u64>)
    ensures
        sorted_latencies(sorted_latencies(s)) == sorted_latencies(s),
{
    lemma_sorted_latencies(s);
    lemma_ascending_permutation_is_sorted(sorted_latencies(s), sorted_latencies(s));
}

/// The mean never exceeds the total of the latencies, so it fits a
/// `Duration`.
pub proof fn lemma_mean_at_most_sum(s: Seq<u64>)
    requires
        mean_divisor(s.len()) != 0,
    ensures
        0 <= mean_latency_of(s) <= latency_sum(s),
{
    lemma_latency_sum_bound(s);
    let d = mean_divisor(s.len());
    let total = latency_sum(s);
    assert(0 <= total / d <= total) by (nonlinear_arith)
        requires
            d >= 1,
            total >= 0,
    ;
}

/// The mean does not depend on the order of the latencies: the mean of the
/// sorted latencies is the mean of the latencies.
pub proof fn lemma_mean_order_independent(s: Seq<u64>)
    ensures
        mean_latency_of(sorted_latencies(s)) == mean_latency_of(s),
{
    lemma_sorted_latencies(s);
    lemma_latency_sum_permutation(s, sorted_latencies(s));
}

proof fn lemma_percentile_index_monotone(count: int, n1: int, d1: int, n2: int, d2: int)
    requires
        count >= 0,
        n1 >= 0,
        d1 > 0,
        d2 > 0,
        n1 * d2 <= n2 * d1,
    ensures
        percentile_index(count, n1, d1) <= percentile_index(count, n2, d2),
{
    let q = count * n1 / d1;
    assert(q * d1 <= count * n1) by (nonlinear_arith)
        requires
            q == count * n1 / d1,
            d1 > 0,
    ;
    assert(q * d1 * d2 <= count * n1 * d2) by (nonlinear_arith)
        requires
            q * d1 <= count * n1,
            d2 > 0,
    ;
    assert(count * n1 * d2 <= count * n2 * d1) by (nonlinear_arith)
        requires
            n1 * d2 <= n2 * d1,
            count >= 0,
    ;
    assert(q * d2 <= count * n2) by (nonlinear_arith)
        requires
            q * d1 * d2 <= count * n2 * d1,
            d1 > 0,
    ;
    assert(q <= count * n2 / d2) by (nonlinear_arith)
        requires
            q * d2 <= count * n2,
            d2 > 0,
    ;
}

/// Percentiles of sorted latencies are ordered as their fractions are:
/// when `n1/d1 <= n2/d2 < 1`, the `n1/d1` percentile is at most the
/// `n2/d2` percentile.
pub proof fn lemma_percentiles_monotone(s: Seq<u64>, n1: int, d1: int, n2: int, d2: int)
    requires
        s.len() > 0,
        0 <= n1,
        0 < d1,
        0 <= n2 < d2,
        n1 * d2 <= n2 * d1,
    ensures
        sorted_latencies(s)[percentile_index(s.len() as int, n1, d1)] <= sorted_latencies(
            s,
        )[percentile_index(s.len() as int, n2, d2)],
{
    lemma_sorted_latencies(s);
    assert(n2 * d1 < d2 * d1) by (nonlinear_arith)
        requires
            n2 < d2,
            d1 > 0,
    ;
    assert(n1 < d1) by (nonlinear_arith)
        requires
            n1 * d2 < d2 * d1,
            d2 > 0,
    ;
    lemma_percentile_index_bound(s.len() as int, n1, d1);
    lemma_percentile_index_bound(s.len() as int, n2, d2);
    lemma_percentile_index_monotone(s.len() as int, n1, d1, n2, d2);
}

/// A percentile is one of the recorded latencies.
pub proof fn lemma_percentile_is_recorded(s: Seq<u64>, numer: int, denom: int)
    requires
        s.len() > 0,
        0 <= numer < denom,
    ensures
        s.contains(sorted_latencies(s)[percentile_index(s.len() as int, numer, denom)]),
{
    broadcast use group_to_multiset_ensures;

    lemma_sorted_latencies(s);
    lemma_percentile_index_bound(s.len() as int, numer, denom);
    let t = sorted_latencies(s);
    let k = percentile_index(s.len() as int, numer, denom);
    assert(t.contains(t[k]));
    assert(t.to_multiset().count(t[k]) > 0);
    assert(s.to_multiset().count(t[k]) > 0);
}

proof fn lemma_latency_sum_between(s: Seq<u64>, lo: int, hi: int)
    requires
        forall|i: int| 0 <= i < s.len() ==> lo <= #[trigger] s[i] <= hi,
    ensures
        s.len() * lo <= latency_sum(s) <= s.len() * hi,
    decreases s.len(),
{
    if s.len() > 0 {
        lemma_latency_sum_between(s.drop_last(), lo, hi);
        let n = s.len() as int;
        assert((n - 1) * lo + lo == n * lo) by (nonlinear_arith);
        assert((n - 1) * hi + hi == n * hi) by (nonlinear_arith);
    }
}

/// When the count fits a `u32` (so that the mean divides by the count), the
/// mean lies between the smallest and the largest latency.
pub proof fn lemma_mean_between_extremes(s: Seq<u64>)
    requires
        0 < s.len() <= u32::MAX,
    ensures
        mean_divisor(s.len()) == s.len(),
        sorted_latencies(s)[0] <= mean_latency_of(s) <= sorted_latencies(s)[s.len() - 1],
{
    lemma_sorted_latencies(s);
    lemma_latency_sum_permutation(s, sorted_latencies(s));
    let t = sorted_latencies(s);
    let n = s.len() as int;
    let lo = t[0] as int;
    let hi = t[n - 1] as int;
    lemma_latency_sum_between(t, lo, hi);
    let total = latency_sum(s);
    assert(mean_divisor(s.len()) == n);
    assert(lo <= total / n <= hi) by (nonlinear_arith)
        requires
            n * lo <= total <= n * hi,
            n > 0,
    ;
}

/// How many latencies of `s` are at most `v`.
pub open spec fn count_at_most(s: Seq<u64>, v: u64) -> nat
    decreases s.len(),
{
    if s.len() == 0 {
        0
    } else {
        count_at_most(s.drop_last(), v) + if s.last() <= v {
            1nat
        } else {
            0nat
        }
    }
}

proof fn lemma_count_at_most_remove(s: Seq<u64>, i: int, v: u64)
    requires
        0 <= i < s.len(),
    ensures
        count_at_most(s, v) == count_at_most(s.remove(i), v) + if s[i] <= v {
            1nat
        } else {
            0nat
        },
    decreases s.len(),
{
    if i == s.len() - 1 {
        assert(s.remove(i) =~= s.drop_last());
    } else {
        lemma_count_at_most_remove(s.drop_last(), i, v);
        assert(s.remove(i).drop_last() =~= s.drop_last().remove(i));
        assert(s.remove(i).last() == s.last());
    }
}

proof fn lemma_count_at_most_permutation(s: Seq<u64>, t: Seq<u64>, v: u64)
    requires
        t.to_multiset() == s.to_multiset(),
    ensures
        count_at_most(t, v) == count_at_most(s, v),
    decreases s.len(),
{
    broadcast use group_to_multiset_ensures;
    broadcast use vstd::multiset::group_multiset_axioms;

    assert(s.len() == s.to_multiset().len());
    assert(t.len() == t.to_multiset().len());
    if s.len() > 0 {
        let x = s.last();
        let rest = s.drop_last();
        assert(s =~= rest.push(x));
        assert(s.to_multiset().count(x) > 0);
        assert(t.contains(x));
        let i = choose|i: int| 0 <= i < t.len() && t[i] == x;
        assert(t.remove(i).to_multiset() == t.to_multiset().remove(x));
        assert(rest.push(x).to_multiset() == rest.to_multiset().insert(x));
        assert(t.remove(i).to_multiset() =~= rest.to_multiset());
        lemma_count_at_most_permutation(rest, t.remove(i), v);
        lemma_count_at_most_remove(t, i, v);
    }
}

proof fn lemma_count_at_most_prefix(s: Seq<u64>, m: int, v: u64)
    requires
        0 <= m <= s.len(),
        forall|j: int| 0 <= j < m ==> #[trigger] s[j] <= v,
    ensures
        count_at_most(s, v) >= m,
    decreases s.len(),
{
    if s.len() > 0 {
        if s.len() > m {
            lemma_count_at_most_prefix(s.drop_last(), m, v);
        } else {
            lemma_count_at_most_prefix(s.drop_last(), m - 1, v);
        }
    }
}

proof fn lemma_count_at_most_above(t: Seq<u64>, k: int, v: u64)
    requires
        is_ascending(t),
        0 <= k < t.len(),
        t[k] > v,
    ensures
        count_at_most(t, v) <= k,
    decreases t.len(),
{
    let n = t.len() as int;
    assert(t[n - 1] >= t[k]);
    if n - 1 > k {
        lemma_count_at_most_above(t.drop_last(), k, v);
    } else {
        assert(count_at_most(t.drop_last(), v) <= t.drop_last().len()) by {
            lemma_count_at_most_len(t.drop_last(), v);
        }
    }
}

proof fn lemma_count_at_most_len(s: Seq<u64>, v: u64)
    ensures
        count_at_most(s, v) <= s.len(),
    decreases s.len(),
{
    if s.len() > 0 {
        lemma_count_at_most_len(s.drop_last(), v);
    }
}

proof fn lemma_count_at_most_pointwise(a: Seq<u64>, b: Seq<u64>, v: u64)
    requires
        a.len() == b.len(),
        forall|i: int| 0 <= i < a.len() ==> a[i] <= b[i],
    ensures
        count_at_most(a, v) >= count_at_most(b, v),
    decreases a.len(),
{
    if a.len() > 0 {
        lemma_count_at_most_pointwise(a.drop_last(), b.drop_last(), v);
    }
}

proof fn lemma_latency_sum_pointwise(a: Seq<u64>, b: Seq<u64>)
    requires
        a.len() == b.len(),
        forall|i: int| 0 <= i < a.len() ==> a[i] <= b[i],
    ensures
        latency_sum(a) <= latency_sum(b),
    decreases a.len(),
{
    if a.len() > 0 {
        lemma_latency_sum_pointwise(a.drop_last(), b.drop_last());
    }
}

/// Sorting is monotone: when every latency of `a` is at most the
/// corresponding latency of `b`, every position of the sorted `a` is at
/// most the same position of the sorted `b`.
pub proof fn lemma_sorted_pointwise_monotone(a: Seq<u64>, b: Seq<u64>, k: int)
    requires
        a.len() == b.len(),
        forall|i: int| 0 <= i < a.len() ==> a[i] <= b[i],
        0 <= k < a.len(),
    ensures
        sorted_latencies(a)[k] <= sorted_latencies(b)[k],
{
    lemma_sorted_latencies(a);
    lemma_sorted_latencies(b);
    let ta = sorted_latencies(a);
    let tb = sorted_latencies(b);
    let v = tb[k];
    lemma_count_at_most_prefix(tb, k + 1, v);
    lemma_count_at_most_permutation(b, tb, v);
    lemma_count_at_most_pointwise(a, b, v);
    lemma_count_at_most_permutation(a, ta, v);
    if ta[k] > v {
        lemma_count_at_most_above(ta, k, v);
    }
}

/// The mean is monotone: when every latency of `a` is at most the
/// corresponding latency of `b` (same count, not a multiple of 2^32), the
/// mean of `a` is at most the mean of `b`.
pub proof fn lemma_mean_pointwise_monotone(a: Seq<u64>, b: Seq<u64>)
    requires
        a.len() == b.len(),
        mean_divisor(a.len()) != 0,
        forall|i: int| 0 <= i < a.len() ==> a[i] <= b[i],
    ensures
        mean_latency_of(a) <= mean_latency_of(b),
{
    lemma_latency_sum_pointwise(a, b);
    lemma_latency_sum_bound(a);
    let d = mean_divisor(a.len());
    let x = latency_sum(a);
    let y = latency_sum(b);
    assert(x / d <= y / d) by (nonlinear_arith)
        requires
            0 <= x <= y,
            d > 0,
    ;
}

} // verus!
