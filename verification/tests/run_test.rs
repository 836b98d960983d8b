use swe_edge_autoscale_bench::config::{BenchConfig, KneeDetectionConfig};
use swe_edge_autoscale_bench::error::BenchError;
use swe_edge_autoscale_bench::run::RunSchedule;

fn config_with_steps(steps: Vec<usize>) -> BenchConfig<f64> {
    let mut cfg = BenchConfig::default_with(KneeDetectionConfig::with_default_algorithm(5.0, 2.0));
    cfg.concurrency_steps = steps;
    cfg
}

#[test]
fn run_refuses_empty_concurrency_steps() {
    let r = RunSchedule::<u32>::start(&config_with_steps(vec![]));
    assert!(matches!(r, Err(BenchError::NoSteps)));
}

#[test]
fn run_drives_each_step_once_in_order() {
    let mut run = RunSchedule::<usize>::start(&config_with_steps(vec![1, 4, 16])).unwrap();
    let mut driven = Vec::new();
    while let Some(c) = run.next_concurrency() {
        driven.push(c);
        run.record(c * 10);
    }
    assert!(run.is_finished());
    assert_eq!(driven, vec![1, 4, 16]);
    assert_eq!(run.finish(), vec![10, 40, 160]);
}

#[test]
fn fresh_run_is_not_finished() {
    let run = RunSchedule::<u8>::start(&config_with_steps(vec![2])).unwrap();
    assert!(!run.is_finished());
    assert_eq!(run.next_concurrency(), Some(2));
}
