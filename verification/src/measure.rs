//! Aggregation of the latency samples gathered during one concurrency step.
//!
//! The load itself is driven elsewhere; what the tasks of a step hand back
//! (per-call latencies of the successful calls and an error count, or nothing
//! for a task that could not be joined) is turned here into the step's totals
//! and latency percentiles. Latencies are whole nanoseconds.
use vstd::prelude::*;

verus! {

/// What one load task measured during a step.
pub struct TaskSamples {
    /// Latency of each successful call, in nanoseconds, in the order observed.
    pub durations_ns: Vec<u128>,
    /// Number of calls that returned an error.
    pub errors: u64,
}

/// Integer summary of one concurrency step.
pub struct StepStats {
    /// Number of concurrent tasks during this step.
    pub concurrency: usize,
    /// Number of successful calls over the measurement window.
    pub completed: usize,
    /// Number of calls that returned an error.
    pub error_count: u64,
    /// Median latency, in nanoseconds.
    pub p50_ns: u128,
    /// 95th-percentile latency, in nanoseconds.
    pub p95_ns: u128,
    /// 99th-percentile latency, in nanoseconds.
    pub p99_ns: u128,
    /// 99.9th-percentile latency, in nanoseconds.
    pub p99_9_ns: u128,
}

/// Per-mille ranks of the four reported percentiles.
pub const P50_PER_MILLE: u64 = 500;
/// Rank of the 95th percentile, per mille.
pub const P95_PER_MILLE: u64 = 950;
/// Rank of the 99th percentile, per mille.
pub const P99_PER_MILLE: u64 = 990;
/// Rank of the 99.9th percentile, per mille.
pub const P99_9_PER_MILLE: u64 = 999;

/// The latencies of a task outcome: none for a task that could not be joined.
pub open spec fn task_durations(t: Option<TaskSamples>) -> Seq<u128> {
    match t {
        Some(s) => s.durations_ns@,
        None => Seq::empty(),
    }
}

/// The error count of a task outcome: zero for a task that could not be joined.
pub open spec fn task_errors(t: Option<TaskSamples>) -> int {
    match t {
        Some(s) => s.errors as int,
        None => 0,
    }
}

/// All successful-call latencies of a step, task after task.
pub open spec fn joined_durations(tasks: Seq<Option<TaskSamples>>) -> Seq<u128>
    decreases tasks.len(),
{
    if tasks.len() == 0 {
        Seq::empty()
    } else {
        task_durations(tasks[0]) + joined_durations(tasks.drop_first())
    }
}

/// Total number of errors over all joined tasks of a step.
pub open spec fn joined_errors(tasks: Seq<Option<TaskSamples>>) -> int
    decreases tasks.len(),
{
    if tasks.len() == 0 {
        0
    } else {
        task_errors(tasks[0]) + joined_errors(tasks.drop_first())
    }
}

/// Ascending order.
pub open spec fn samples_sorted(s: Seq<u128>) -> bool {
    forall|i: int, j: int| 0 <= i <= j < s.len() ==> s[i] <= s[j]
}

/// `s` holds exactly the samples of `samples`, in ascending order.
pub open spec fn is_sorted_arrangement(s: Seq<u128>, samples: Seq<u128>) -> bool {
    samples_sorted(s) && s.to_multiset() == samples.to_multiset()
}

/// Index of the sample of rank `per_mille / 1000` among `n` sorted samples:
/// `floor(n * per_mille / 1000)`, clamped to the last sample.
pub open spec fn rank_index(n: int, per_mille: int) -> int {
    let raw = n * per_mille / 1000;
    if raw < n - 1 {
        raw
    } else {
        n - 1
    }
}

/// The percentile value read off sorted samples; zero when there are none.
pub open spec fn rank_value(sorted: Seq<u128>, per_mille: int) -> u128 {
    if sorted.len() == 0 {
        0
    } else {
        sorted[rank_index(sorted.len() as int, per_mille)]
    }
}

/// The four percentiles of `stats` are read off the sorted samples `s`.
pub open spec fn percentiles_read_from(stats: StepStats, s: Seq<u128>) -> bool {
    &&& stats.p50_ns == rank_value(s, P50_PER_MILLE as int)
    &&& stats.p95_ns == rank_value(s, P95_PER_MILLE as int)
    &&& stats.p99_ns == rank_value(s, P99_PER_MILLE as int)
    &&& stats.p99_9_ns == rank_value(s, P99_9_PER_MILLE as int)
}

proof fn lemma_joined_errors_nonneg(tasks: Seq<Option<TaskSamples>>)
    ensures
        joined_errors(tasks) >= 0,
    decreases tasks.len(),
{
    if tasks.len() > 0 {
        lemma_joined_errors_nonneg(tasks.drop_first());
    }
}

proof fn lemma_rank_index_bounds(n: int, per_mille: int)
    requires
        n > 0,
        0 <= per_mille <= 1000,
    ensures
        0 <= rank_index(n, per_mille) < n,
        n * per_mille / 1000 <= n,
{
    assert(0 <= n * per_mille) by (nonlinear_arith)
        requires
            n > 0,
            0 <= per_mille,
    ;
    assert(n * per_mille <= n * 1000) by (nonlinear_arith)
        requires
            n > 0,
            per_mille <= 1000,
    ;
    assert(n * per_mille / 1000 <= n) by (nonlinear_arith)
        requires
            n * per_mille <= n * 1000,
            n > 0,
    ;
    assert(0 <= n * per_mille / 1000) by (nonlinear_arith)
        requires
            0 <= n * per_mille,
    ;
}

/// A higher rank never reads an earlier sample.
pub proof fn lemma_rank_index_monotone(n: int, lo: int, hi: int)
    requires
        n > 0,
        0 <= lo <= hi <= 1000,
    ensures
        rank_index(n, lo) <= rank_index(n, hi),
{
    assert(n * lo <= n * hi) by (nonlinear_arith)
        requires
            n > 0,
            lo <= hi,
    ;
    assert(n * lo / 1000 <= n * hi / 1000) by (nonlinear_arith)
        requires
            n * lo <= n * hi,
    ;
}

/// Percentiles read off sorted samples never decrease with the rank.
pub proof fn lemma_rank_value_monotone(sorted: Seq<u128>, lo: int, hi: int)
    requires
        samples_sorted(sorted),
        0 <= lo <= hi <= 1000,
    ensures
        rank_value(sorted, lo) <= rank_value(sorted, hi),
{
    if sorted.len() > 0 {
        let n = sorted.len() as int;
        lemma_rank_index_bounds(n, lo);
        lemma_rank_index_bounds(n, hi);
        lemma_rank_index_monotone(n, lo, hi);
    }
}

/// Two ascending arrangements of the same samples are the same sequence.
pub proof fn lemma_sorted_arrangement_unique(a: Seq<u128>, b: Seq<u128>)
    requires
        samples_sorted(a),
        samples_sorted(b),
        a.to_multiset() == b.to_multiset(),
    ensures
        a == b,
    decreases a.len(),
{
    broadcast use vstd::seq_lib::group_to_multiset_ensures;

    assert(a.len() == a.to_multiset().len());
    assert(b.len() == b.to_multiset().len());
    if a.len() == 0 {
        assert(a =~= b);
    } else {
        let x = a[0];
        let y = b[0];
        assert(a.contains(x));
        assert(b.to_multiset().count(x) > 0);
        assert(b.contains(x));
        let j = choose|j: int| 0 <= j < b.len() && b[j] == x;
        assert(y <= b[j]);
        assert(b.contains(y));
        assert(a.to_multiset().count(y) > 0);
        assert(a.contains(y));
        let i = choose|i: int| 0 <= i < a.len() && a[i] == y;
        assert(x <= a[i]);
        assert(x == y);
        let ra = a.remove(0);
        let rb = b.remove(0);
        assert(ra =~= a.drop_first());
        assert(rb =~= b.drop_first());
        assert(ra.to_multiset() =~= a.to_multiset().remove(x));
        assert(rb.to_multiset() =~= b.to_multiset().remove(y));
        assert(samples_sorted(ra)) by {
            assert forall|p: int, q: int| 0 <= p <= q < ra.len() implies ra[p] <= ra[q] by {
                assert(ra[p] == a[p + 1] && ra[q] == a[q + 1]);
            }
        }
        assert(samples_sorted(rb)) by {
            assert forall|p: int, q: int| 0 <= p <= q < rb.len() implies rb[p] <= rb[q] by {
                assert(rb[p] == b[p + 1] && rb[q] == b[q + 1]);
            }
        }
        lemma_sorted_arrangement_unique(ra, rb);
        assert(a =~= b) by {
            assert forall|k: int| 0 <= k < a.len() implies a[k] == b[k] by {
                if k > 0 {
                    assert(a[k] == ra[k - 1] && b[k] == rb[k - 1]);
                }
            }
        }
    }
}

/// The percentiles of a step depend only on which latencies were observed, not
/// on the order in which the tasks reported them: two sample sets holding the
/// same latencies yield the same four percentiles.
pub proof fn lemma_percentiles_order_free(
    samples1: Seq<u128>,
    samples2: Seq<u128>,
    s1: Seq<u128>,
    s2: Seq<u128>,
    x1: StepStats,
    x2: StepStats,
)
    requires
        samples1.to_multiset() == samples2.to_multiset(),
        is_sorted_arrangement(s1, samples1),
        is_sorted_arrangement(s2, samples2),
        percentiles_read_from(x1, s1),
        percentiles_read_from(x2, s2),
    ensures
        x1.p50_ns == x2.p50_ns,
        x1.p95_ns == x2.p95_ns,
        x1.p99_ns == x2.p99_ns,
        x1.p99_9_ns == x2.p99_9_ns,
{
    lemma_sorted_arrangement_unique(s1, s2);
}

/// The rank index is the floor of `n * per_mille / 1000`, clamped to the last
/// sample: it never lies above the exact rank, it reaches the exact rank unless
/// clamped, and it is clamped only to the last sample.
pub proof fn lemma_rank_index_is_floor(n: int, per_mille: int)
    requires
        n > 0,
        0 <= per_mille <= 1000,
    ensures
        0 <= rank_index(n, per_mille) < n,
        rank_index(n, per_mille) * 1000 <= n * per_mille,
        rank_index(n, per_mille) == n - 1 || n * per_mille < (rank_index(n, per_mille) + 1) * 1000,
{
    lemma_rank_index_bounds(n, per_mille);
    let q = n * per_mille / 1000;
    let r = n * per_mille % 1000;
    assert(n * per_mille == q * 1000 + r && 0 <= r < 1000) by (nonlinear_arith)
        requires
            q == n * per_mille / 1000,
            r == n * per_mille % 1000,
    ;
    let i = rank_index(n, per_mille);
    if q < n - 1 {
        assert(i == q);
    } else {
        assert(i == n - 1);
        assert(i <= q);
        assert(i * 1000 <= q * 1000) by (nonlinear_arith)
            requires
                i <= q,
        ;
    }
}

/// A percentile read off non-empty sorted samples is the sample at the floor
/// rank (clamped to the last sample): some index `i` with
/// `i * 1000 <= n * per_mille`, below the next rank unless it is the last.
pub proof fn lemma_rank_value_at_floor_rank(sorted: Seq<u128>, per_mille: int)
    requires
        sorted.len() > 0,
        0 <= per_mille <= 1000,
    ensures
        exists|i: int|
            0 <= i < sorted.len() && i * 1000 <= sorted.len() * per_mille && (i == sorted.len() - 1
                || sorted.len() * per_mille < (i + 1) * 1000) && rank_value(sorted, per_mille)
                == #[trigger] sorted[i],
{
    let n = sorted.len() as int;
    lemma_rank_index_is_floor(n, per_mille);
    let i = rank_index(n, per_mille);
    assert(rank_value(sorted, per_mille) == sorted[i]);
}

/// A single joined task contributes all of its latencies and its whole error
/// count; a task that could not be joined contributes nothing.
pub proof fn lemma_joined_single_task(t: TaskSamples)
    ensures
        joined_durations(seq![Some(t)]) == t.durations_ns@,
        joined_errors(seq![Some(t)]) == t.errors,
        joined_durations(seq![None::<TaskSamples>]) == Seq::<u128>::empty(),
        joined_errors(seq![None::<TaskSamples>]) == 0,
{
    let one = seq![Some(t)];
    assert(one.drop_first() =~= Seq::<Option<TaskSamples>>::empty());
    assert(one[0] == Some(t));
    assert(joined_durations(one.drop_first()) == Seq::<u128>::empty());
    assert(joined_errors(one.drop_first()) == 0);
    assert(task_durations(one[0]) == t.durations_ns@);
    assert(joined_durations(one) =~= t.durations_ns@);
    assert(joined_errors(one) == t.errors);
    let none = seq![None::<TaskSamples>];
    assert(none.drop_first() =~= Seq::<Option<TaskSamples>>::empty());
    assert(none[0] == None::<TaskSamples>);
    assert(joined_durations(none.drop_first()) == Seq::<u128>::empty());
    assert(joined_errors(none.drop_first()) == 0);
    assert(joined_durations(none) =~= Seq::<u128>::empty());
}

/// Joining two groups of tasks gives the latencies of the first group followed
/// by those of the second, and the sum of their error counts.
pub proof fn lemma_joined_append(a: Seq<Option<TaskSamples>>, b: Seq<Option<TaskSamples>>)
    ensures
        joined_durations(a + b) == joined_durations(a) + joined_durations(b),
        joined_errors(a + b) == joined_errors(a) + joined_errors(b),
    decreases a.len(),
{
    if a.len() == 0 {
        assert(a + b =~= b);
        assert(joined_durations(a) + joined_durations(b) =~= joined_durations(b));
    } else {
        assert((a + b).drop_first() =~= a.drop_first() + b);
        assert((a + b)[0] == a[0]);
        lemma_joined_append(a.drop_first(), b);
        assert(joined_durations(a + b) =~= joined_durations(a) + joined_durations(b));
    }
}

/// The number of joined latencies is the total number of latencies over the
/// joined tasks: every sample of every joined task is kept.
pub proof fn lemma_joined_count(tasks: Seq<Option<TaskSamples>>, t: TaskSamples)
    ensures
        joined_durations(tasks.push(Some(t))).len() == joined_durations(tasks).len()
            + t.durations_ns@.len(),
        joined_durations(tasks.push(None)).len() == joined_durations(tasks).len(),
{
    lemma_joined_append(tasks, seq![Some(t)]);
    lemma_joined_append(tasks, seq![None::<TaskSamples>]);
    lemma_joined_single_task(t);
    assert(tasks.push(Some(t)) =~= tasks + seq![Some(t)]);
    assert(tasks.push(None) =~= tasks + seq![None::<TaskSamples>]);
}

/// Sorts the samples in place with std's `slice::sort_unstable`.
///
/// Trusted: std documents that the slice comes out in ascending order, as a
/// rearrangement of the same elements; the contract states exactly that.
#[verifier::external_body]
fn sort_ascending(samples: &mut Vec<u128>)
    ensures
        samples_sorted(final(samples)@),
        final(samples)@.to_multiset() == old(samples)@.to_multiset(),
{
    samples.sort_unstable();
}

proof fn lemma_joined_errors_suffix_bound(tasks: Seq<Option<TaskSamples>>, i: int)
    requires
        0 <= i <= tasks.len(),
    ensures
        0 <= joined_errors(tasks.skip(i)) <= joined_errors(tasks),
    decreases i,
{
    lemma_joined_errors_nonneg(tasks.skip(i));
    if i > 0 {
        lemma_joined_errors_suffix_bound(tasks, i - 1);
        assert(tasks.skip(i - 1).drop_first() =~= tasks.skip(i));
        lemma_joined_errors_nonneg(tasks.skip(i));
        assert(task_errors(tasks.skip(i - 1)[0]) >= 0);
    } else {
        assert(tasks.skip(0) =~= tasks);
    }
}

/// Whether the error counts of all joined tasks add up to a total that fits
/// in a `u64` (the precondition of [`summarize_step`]).
pub fn joined_error_total_fits(tasks: &Vec<Option<TaskSamples>>) -> (fits: bool)
    ensures
        fits == (joined_errors(tasks@) <= u64::MAX),
{
    let n = tasks.len();
    let mut i: usize = n;
    let mut total: u64 = 0;
    assert(tasks@.skip(n as int) =~= Seq::<Option<TaskSamples>>::empty());
    while i > 0
        invariant
            n == tasks@.len(),
            i <= n,
            total == joined_errors(tasks@.skip(i as int)),
        decreases i,
    {
        let e: u64 = match &tasks[i - 1] {
            Some(t) => t.errors,
            None => 0,
        };
        assert(tasks@.skip(i - 1).drop_first() =~= tasks@.skip(i as int));
        assert(tasks@.skip(i - 1)[0] == tasks@[i - 1]);
        match total.checked_add(e) {
            Some(sum) => {
                total = sum;
            },
            None => {
                proof {
                    lemma_joined_errors_suffix_bound(tasks@, i - 1);
                }
                return false;
            },
        }
        i = i - 1;
    }
    assert(tasks@.skip(0) =~= tasks@);
    true
}

/// Collects the latencies of every joined task, task after task, and adds up
/// their error counts. A task that could not be joined (`None`) contributes
/// neither latencies nor errors.
pub fn join_task_samples(tasks: Vec<Option<TaskSamples>>) -> (res: (Vec<u128>, u64))
    requires
        joined_errors(tasks@) <= u64::MAX,
    ensures
        res.0@ == joined_durations(tasks@),
        res.1 == joined_errors(tasks@),
        tasks@.len() == 1 && tasks@[0] is Some ==> res.0@ == tasks@[0]->0.durations_ns@ && res.1
            == tasks@[0]->0.errors,
{
    let ghost all_tasks = tasks@;
    proof {
        if all_tasks.len() == 1 && all_tasks[0] is Some {
            assert(all_tasks =~= seq![all_tasks[0]]);
            lemma_joined_single_task(all_tasks[0]->0);
        }
    }
    let mut rest = tasks;
    let mut durations: Vec<u128> = Vec::new();
    let mut errors: u64 = 0;
    while rest.len() > 0
        invariant
            joined_durations(all_tasks) == durations@ + joined_durations(rest@),
            joined_errors(all_tasks) == errors + joined_errors(rest@),
            joined_errors(all_tasks) <= u64::MAX,
        decreases rest.len(),
    {
        let ghost before = rest@;
        let entry = rest.remove(0);
        assert(rest@ =~= before.drop_first());
        proof {
            lemma_joined_errors_nonneg(rest@);
        }
        match entry {
            Some(task) => {
                let mut batch = task.durations_ns;
                assert(durations@ + (batch@ + joined_durations(rest@)) =~= (durations@ + batch@)
                    + joined_durations(rest@));
                durations.append(&mut batch);
                errors = errors + task.errors;
            },
            None => {
                assert(durations@ + (Seq::<u128>::empty() + joined_durations(rest@))
                    =~= durations@ + joined_durations(rest@));
            },
        }
    }
    assert(durations@ + Seq::<u128>::empty() =~= durations@);
    (durations, errors)
}

/// Reads the sample of rank `per_mille / 1000` off sorted samples:
/// the one at `floor(n * per_mille / 1000)`, clamped to the last one,
/// or zero when there are no samples.
pub fn percentile_ns(sorted: &Vec<u128>, per_mille: u64) -> (v: u128)
    requires
        samples_sorted(sorted@),
        per_mille <= 1000,
    ensures
        v == rank_value(sorted@, per_mille as int),
        sorted@.len() > 0 ==> sorted@.contains(v),
        sorted@.len() > 0 ==> exists|i: int|
            0 <= i < sorted@.len() && i * 1000 <= sorted@.len() * per_mille && (i == sorted@.len()
                - 1 || sorted@.len() * per_mille < (i + 1) * 1000) && v == #[trigger] sorted@[i],
        sorted@.len() == 0 ==> v == 0,
{
    let n = sorted.len();
    if n == 0 {
        return 0;
    }
    proof {
        lemma_rank_index_bounds(n as int, per_mille as int);
    }
    let raw = (n as u128) * (per_mille as u128) / 1000;
    let idx: usize = if raw < (n - 1) as u128 {
        raw as usize
    } else {
        n - 1
    };
    assert(idx as int == rank_index(n as int, per_mille as int));
    proof {
        lemma_rank_index_is_floor(n as int, per_mille as int);
    }
    sorted[idx]
}

/// Summarises one concurrency step from what its tasks measured: the number of
/// successful calls, the total error count, and the p50/p95/p99/p99.9
/// latencies read off the sorted successful-call latencies.
pub fn summarize_step(concurrency: usize, tasks: Vec<Option<TaskSamples>>) -> (stats: StepStats)
    requires
        joined_errors(tasks@) <= u64::MAX,
    ensures
        stats.concurrency == concurrency,
        stats.completed == joined_durations(tasks@).len(),
        stats.error_count == joined_errors(tasks@),
        exists|s: Seq<u128>|
            #[trigger] is_sorted_arrangement(s, joined_durations(tasks@)) && percentiles_read_from(
                stats,
                s,
            ),
        stats.p50_ns <= stats.p95_ns <= stats.p99_ns <= stats.p99_9_ns,
        stats.completed > 0 ==> {
            &&& joined_durations(tasks@).contains(stats.p50_ns)
            &&& joined_durations(tasks@).contains(stats.p95_ns)
            &&& joined_durations(tasks@).contains(stats.p99_ns)
            &&& joined_durations(tasks@).contains(stats.p99_9_ns)
        },
{
    let ghost joined = joined_durations(tasks@);
    let (mut samples, error_count) = join_task_samples(tasks);
    sort_ascending(&mut samples);
    let p50_ns = percentile_ns(&samples, P50_PER_MILLE);
    let p95_ns = percentile_ns(&samples, P95_PER_MILLE);
    let p99_ns = percentile_ns(&samples, P99_PER_MILLE);
    let p99_9_ns = percentile_ns(&samples, P99_9_PER_MILLE);
    let stats = StepStats {
        concurrency,
        completed: samples.len(),
        error_count,
        p50_ns,
        p95_ns,
        p99_ns,
        p99_9_ns,
    };
    proof {
        broadcast use vstd::seq_lib::group_to_multiset_ensures;

        let s = samples@;
        assert(s.len() == s.to_multiset().len());
        assert(joined.len() == joined.to_multiset().len());
        lemma_rank_value_monotone(s, P50_PER_MILLE as int, P95_PER_MILLE as int);
        lemma_rank_value_monotone(s, P95_PER_MILLE as int, P99_PER_MILLE as int);
        lemma_rank_value_monotone(s, P99_PER_MILLE as int, P99_9_PER_MILLE as int);
        if s.len() > 0 {
            assert(s.contains(p50_ns));
            assert(s.to_multiset().count(p50_ns) > 0);
            assert(s.contains(p95_ns));
            assert(s.to_multiset().count(p95_ns) > 0);
            assert(s.contains(p99_ns));
            assert(s.to_multiset().count(p99_ns) > 0);
            assert(s.contains(p99_9_ns));
            assert(s.to_multiset().count(p99_9_ns) > 0);
        }
        assert(is_sorted_arrangement(s, joined));
        assert(percentiles_read_from(stats, s));
    }
    stats
}

} // verus!
