use swe_edge_autoscale_bench::architecture::ArchitectureConfigBuilder;

#[test]
fn builder_test_architecture_config_builder_constructs() {
    let _b = ArchitectureConfigBuilder::new("swe-edge-autoscale");
}

#[test]
fn architecture_config_builder_test_architecture_config_builder_constructs() {
    let _b = ArchitectureConfigBuilder::default();
}

#[test]
fn project_name_returns_the_given_name() {
    let b = ArchitectureConfigBuilder::new("swe-edge-autoscale");
    assert_eq!(b.project_name(), "swe-edge-autoscale");
    assert_eq!(ArchitectureConfigBuilder::default().project_name(), "");
}
