//! Public facade: configuration validation, detector selection, and the
//! processor that pairs a runner with the handler under test.
use vstd::prelude::*;

use crate::config::{BenchConfig, KneeDetectionConfig};
use crate::error::BenchError;
use crate::knee::KneeDetectorChoice;

verus! {

/// The outcome of validating a configuration: it is usable exactly when it
/// names at least one concurrency step.
pub open spec fn validation_result<T>(config: BenchConfig<T>) -> Result<(), BenchError> {
    if config.concurrency_steps@.len() == 0 {
        Err(BenchError::NoSteps)
    } else {
        Ok(())
    }
}

/// The detector a knee detection configuration selects: the plateau detector
/// for the algorithm name `"plateau"`, the inflection detector for any other.
pub open spec fn selected_detector<T>(cfg: KneeDetectionConfig<T>) -> KneeDetectorChoice<T> {
    if cfg.algorithm@ == "plateau"@ {
        KneeDetectorChoice::Plateau { rps_growth_pct: cfg.plateau_rps_growth_pct }
    } else {
        KneeDetectorChoice::Inflection { delta_ratio: cfg.inflection_delta_ratio }
    }
}

/// A configuration is accepted exactly when it names a concurrency step,
/// whatever its durations, margin or knee settings; the only refusal is
/// `NoSteps`.
pub proof fn lemma_validation_depends_only_on_steps<T>(config: BenchConfig<T>)
    ensures
        validation_result(config) is Ok <==> config.concurrency_steps@.len() > 0,
        config.concurrency_steps@.len() > 0 ==> validation_result(config) == Ok::<(), BenchError>(()),
        config.concurrency_steps@.len() == 0 ==> validation_result(config) == Err::<(), BenchError>(
            BenchError::NoSteps,
        ),
{
}

/// Two configurations with the same steps validate alike, whatever else differs.
pub proof fn lemma_validation_same_steps_same_answer<T>(a: BenchConfig<T>, b: BenchConfig<T>)
    requires
        a.concurrency_steps@ == b.concurrency_steps@,
    ensures
        validation_result(a) == validation_result(b),
{
}

/// Validates that a [`BenchConfig`] meets minimum viability requirements:
/// `concurrency_steps` must contain at least one entry.
pub struct DefaultValidator;

impl DefaultValidator {
    /// Validates `config`; `Err(BenchError::NoSteps)` exactly when it has no
    /// concurrency step.
    pub fn validate<T>(&self, config: &BenchConfig<T>) -> (r: Result<(), BenchError>)
        ensures
            r == validation_result(*config),
            r is Ok <==> config.concurrency_steps@.len() > 0,
            r is Err ==> r == Err::<(), BenchError>(BenchError::NoSteps),
    {
        if config.concurrency_steps.len() == 0 {
            return Err(BenchError::NoSteps);
        }
        Ok(())
    }
}

/// Public facade for the autoscale-bench crate.
pub struct BenchFacade;

impl BenchFacade {
    /// Validates a [`BenchConfig`] using the default validator.
    pub fn validate_config<T>(config: &BenchConfig<T>) -> (r: Result<(), BenchError>)
        ensures
            r == validation_result(*config),
            r is Ok <==> config.concurrency_steps@.len() > 0,
            r is Err ==> r == Err::<(), BenchError>(BenchError::NoSteps),
    {
        DefaultValidator.validate(config)
    }

    /// Chooses the knee detector from `cfg.algorithm`: `"plateau"` selects the
    /// plateau detector with `plateau_rps_growth_pct`; anything else selects
    /// the inflection detector with `inflection_delta_ratio`.
    pub fn select_knee_detector<T: Copy>(cfg: &KneeDetectionConfig<T>) -> (choice:
        KneeDetectorChoice<T>)
        ensures
            choice == selected_detector(*cfg),
            cfg.algorithm@ == "plateau"@ ==> choice == (KneeDetectorChoice::Plateau {
                rps_growth_pct: cfg.plateau_rps_growth_pct,
            }),
            cfg.algorithm@ != "plateau"@ ==> choice == (KneeDetectorChoice::Inflection {
                delta_ratio: cfg.inflection_delta_ratio,
            }),
    {
        let plateau = String::from_str("plateau");
        if cfg.algorithm == plateau {
            KneeDetectorChoice::Plateau { rps_growth_pct: cfg.plateau_rps_growth_pct }
        } else {
            KneeDetectorChoice::Inflection { delta_ratio: cfg.inflection_delta_ratio }
        }
    }
}

/// Drives a full bench run: holds the runner pre-configured for a handler,
/// together with that handler.
pub struct DefaultProcessor<R, H> {
    runner: R,
    handler: H,
}

impl<R, H> DefaultProcessor<R, H> {
    /// The runner held by this processor.
    pub closed spec fn runner_spec(&self) -> R {
        self.runner
    }

    /// The handler held by this processor.
    pub closed spec fn handler_spec(&self) -> H {
        self.handler
    }

    /// Creates a new processor from a runner and handler.
    pub fn new(runner: R, handler: H) -> (p: Self)
        ensures
            p.runner_spec() == runner,
            p.handler_spec() == handler,
    {
        DefaultProcessor { runner, handler }
    }

    /// The runner this processor drives.
    pub fn runner(&self) -> (r: &R)
        ensures
            *r == self.runner_spec(),
    {
        &self.runner
    }

    /// The handler this processor benchmarks.
    pub fn handler(&self) -> (h: &H)
        ensures
            *h == self.handler_spec(),
    {
        &self.handler
    }
}

} // verus!
