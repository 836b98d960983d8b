use swe_edge_autoscale_bench::error::BenchError;

#[test]
fn test_config_parse_failed_display_names_crate() {
    let e = BenchError::ConfigParseFailed("bad toml".into());
    assert!(e.to_string().contains("swe_edge_autoscale_bench"));
    assert!(e.to_string().contains("bad toml"));
}

#[test]
fn test_step_failed_display_includes_message() {
    let e = BenchError::StepFailed("timeout".into());
    assert!(e.to_string().contains("timeout"));
}

#[test]
fn test_no_steps_display_mentions_concurrency_steps() {
    let e = BenchError::NoSteps;
    assert!(e.to_string().contains("concurrency_steps"));
}

#[test]
fn test_bench_error_step_failed_display_contains_message() {
    let err = BenchError::StepFailed("timeout".into());
    assert!(err.to_string().contains("timeout"));
}

#[test]
fn test_bench_error_no_steps_display_mentions_concurrency_steps() {
    let err = BenchError::NoSteps;
    assert!(err.to_string().contains("concurrency_steps"));
}

#[test]
fn messages_render_exactly() {
    assert_eq!(
        BenchError::ConfigParseFailed("bad toml".into()).to_string(),
        "swe_edge_autoscale_bench: config parse failed — bad toml"
    );
    assert_eq!(
        BenchError::StepFailed("timeout after 30s".into()).to_string(),
        "swe_edge_autoscale_bench: handler call failed — timeout after 30s"
    );
    assert_eq!(
        BenchError::NoSteps.to_string(),
        "swe_edge_autoscale_bench: concurrency_steps must contain at least one entry"
    );
}

#[test]
fn step_failed_message_mentions_handler_call_failed() {
    let err = BenchError::StepFailed("timeout after 30s".to_string());
    assert!(err.to_string().contains("handler call failed"));
}

#[test]
fn every_message_starts_with_crate_prefix_and_ends_with_inner_text() {
    for e in [
        BenchError::ConfigParseFailed("x".into()),
        BenchError::StepFailed("y".into()),
        BenchError::NoSteps,
    ] {
        assert!(e.to_string().starts_with("swe_edge_autoscale_bench: "));
    }
    assert!(BenchError::StepFailed("inner".into()).to_string().ends_with("inner"));
    assert!(BenchError::ConfigParseFailed("inner".into()).to_string().ends_with("inner"));
}
