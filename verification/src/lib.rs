//! Saturation-knee calibration for autoscale thresholds: the verified core.
//!
//! Configuration and its builder, validation, the order of a run, the
//! aggregation of latency samples into percentiles, the knee scan, the choice
//! of the step the autoscale policy derives from, and the crate's errors.
pub mod advisor;
pub mod architecture;
pub mod config;
pub mod error;
pub mod facade;
pub mod knee;
pub mod measure;
pub mod run;

pub use architecture::ArchitectureConfigBuilder;
pub use config::{BenchConfig, BenchConfigBuilder, KneeDetectionConfig};
pub use error::BenchError;
pub use facade::BenchFacade;
