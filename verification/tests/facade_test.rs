use swe_edge_autoscale_bench::config::{BenchConfig, KneeDetectionConfig};
use swe_edge_autoscale_bench::error::BenchError;
use swe_edge_autoscale_bench::facade::{BenchFacade, DefaultProcessor, DefaultValidator};
use swe_edge_autoscale_bench::knee::KneeDetectorChoice;

fn config_with_steps(steps: Vec<usize>) -> BenchConfig<f64> {
    let mut cfg = BenchConfig::default_with(KneeDetectionConfig::with_default_algorithm(5.0, 2.0));
    cfg.concurrency_steps = steps;
    cfg
}

#[test]
fn test_validate_returns_ok_for_non_empty_steps() {
    let v = DefaultValidator;
    let config = config_with_steps(vec![1, 2]);
    assert!(v.validate(&config).is_ok());
}

#[test]
fn test_validate_returns_error_for_empty_steps() {
    let v = DefaultValidator;
    let config = config_with_steps(vec![]);
    assert!(v.validate(&config).is_err());
}

#[test]
fn validate_config_reports_no_steps() {
    let r = BenchFacade::validate_config(&config_with_steps(vec![]));
    assert!(matches!(r, Err(BenchError::NoSteps)));
    assert!(BenchFacade::validate_config(&config_with_steps(vec![8])).is_ok());
}

#[test]
fn test_new_creates_processor_without_panicking() {
    let runner = config_with_steps(vec![1]);
    let _processor = DefaultProcessor::new(runner, "handler");
}

#[test]
fn processor_hands_back_its_runner_and_handler() {
    let p = DefaultProcessor::new(7u32, "h");
    assert_eq!(*p.runner(), 7);
    assert_eq!(*p.handler(), "h");
}

fn knee_cfg(name: &str) -> KneeDetectionConfig<f64> {
    KneeDetectionConfig {
        algorithm: name.to_string(),
        plateau_rps_growth_pct: 10.0,
        inflection_delta_ratio: 3.0,
    }
}

#[test]
fn plateau_name_selects_plateau_detector() {
    match BenchFacade::select_knee_detector(&knee_cfg("plateau")) {
        KneeDetectorChoice::Plateau { rps_growth_pct } => assert_eq!(rps_growth_pct, 10.0),
        KneeDetectorChoice::Inflection { .. } => panic!("expected plateau"),
    }
}

#[test]
fn other_names_select_inflection_detector() {
    for name in ["inflection", "Plateau", "", "custom"] {
        match BenchFacade::select_knee_detector(&knee_cfg(name)) {
            KneeDetectorChoice::Inflection { delta_ratio } => assert_eq!(delta_ratio, 3.0),
            KneeDetectorChoice::Plateau { .. } => panic!("expected inflection for {}", name),
        }
    }
}
