use swe_edge_autoscale_bench::measure::{
    join_task_samples, joined_error_total_fits, percentile_ns, summarize_step, TaskSamples, P50_PER_MILLE,
    P99_9_PER_MILLE, P99_PER_MILLE,
};

fn task(durations: Vec<u128>, errors: u64) -> Option<TaskSamples> {
    Some(TaskSamples { durations_ns: durations, errors })
}

#[test]
fn summary_of_empty_step_is_all_zero() {
    let s = summarize_step(4, vec![]);
    assert_eq!(s.concurrency, 4);
    assert_eq!(s.completed, 0);
    assert_eq!(s.error_count, 0);
    assert_eq!((s.p50_ns, s.p95_ns, s.p99_ns, s.p99_9_ns), (0, 0, 0, 0));
}

#[test]
fn summary_counts_calls_and_errors_across_tasks() {
    let s = summarize_step(2, vec![task(vec![5, 3, 9], 2), None, task(vec![1], 4)]);
    assert_eq!(s.concurrency, 2);
    assert_eq!(s.completed, 4);
    assert_eq!(s.error_count, 6);
}

#[test]
fn unjoined_tasks_contribute_nothing() {
    let s = summarize_step(3, vec![None, None]);
    assert_eq!(s.completed, 0);
    assert_eq!(s.error_count, 0);
}

#[test]
fn percentiles_read_the_sorted_samples() {
    // 10 samples: 10, 20, ..., 100 (given out of order)
    let s = summarize_step(
        1,
        vec![task(vec![100, 30, 50, 70, 90], 0), task(vec![20, 40, 60, 80, 10], 0)],
    );
    // p50: index floor(10 * 0.5) = 5 -> 60
    assert_eq!(s.p50_ns, 60);
    // p95: floor(9.5) = 9 -> 100; p99, p99.9 clamp to the last sample
    assert_eq!(s.p95_ns, 100);
    assert_eq!(s.p99_ns, 100);
    assert_eq!(s.p99_9_ns, 100);
}

#[test]
fn percentiles_on_a_thousand_samples() {
    let durations: Vec<u128> = (1..=1000u128).rev().collect();
    let s = summarize_step(8, vec![task(durations, 0)]);
    assert_eq!(s.p50_ns, 501);
    assert_eq!(s.p95_ns, 951);
    assert_eq!(s.p99_ns, 991);
    assert_eq!(s.p99_9_ns, 1000);
    assert!(s.p50_ns <= s.p95_ns && s.p95_ns <= s.p99_ns && s.p99_ns <= s.p99_9_ns);
}

#[test]
fn single_sample_is_every_percentile() {
    let s = summarize_step(1, vec![task(vec![42], 1)]);
    assert_eq!((s.p50_ns, s.p95_ns, s.p99_ns, s.p99_9_ns), (42, 42, 42, 42));
    assert_eq!(s.error_count, 1);
}

#[test]
fn percentiles_do_not_depend_on_arrival_order() {
    let a = summarize_step(2, vec![task(vec![7, 1, 4], 0), task(vec![9, 2], 0)]);
    let b = summarize_step(2, vec![task(vec![2, 9, 4], 0), task(vec![1, 7], 0)]);
    assert_eq!((a.p50_ns, a.p95_ns, a.p99_ns, a.p99_9_ns), (b.p50_ns, b.p95_ns, b.p99_ns, b.p99_9_ns));
}

#[test]
fn join_keeps_task_order_and_sums_errors() {
    let (d, e) = join_task_samples(vec![task(vec![3, 1], 1), None, task(vec![2], 5)]);
    assert_eq!(d, vec![3, 1, 2]);
    assert_eq!(e, 6);
}

#[test]
fn percentile_index_rounds_down_and_clamps() {
    let sorted: Vec<u128> = vec![1, 2, 3];
    assert_eq!(percentile_ns(&sorted, P50_PER_MILLE), 2); // floor(1.5) = 1
    assert_eq!(percentile_ns(&sorted, P99_PER_MILLE), 3); // floor(2.97) = 2
    assert_eq!(percentile_ns(&sorted, 1000), 3); // index 3 clamps to 2
    assert_eq!(percentile_ns(&vec![], P99_9_PER_MILLE), 0);
}

#[test]
fn error_total_fits_check() {
    assert!(joined_error_total_fits(&vec![task(vec![], u64::MAX), None]));
    assert!(!joined_error_total_fits(&vec![task(vec![], u64::MAX), task(vec![], 1)]));
    assert!(joined_error_total_fits(&vec![]));
}
