//! Configuration of a bench run, its defaults, and a fluent builder.
//!
//! The two knee-detection sensitivities are carried as an opaque parameter `T`:
//! nothing here computes with them, it only stores them and hands them to the
//! chosen detector.
use vstd::prelude::*;

verus! {

/// The concurrency levels probed by default, in ascending order.
pub open spec fn default_steps_spec() -> Seq<usize> {
    seq![1usize, 2, 4, 8, 16, 32, 64, 128]
}

/// Default measurement window per concurrency step, in seconds.
pub open spec fn default_step_duration_spec() -> u64 {
    10
}

/// Default warm-up period at the start of each step, in seconds.
pub open spec fn default_warmup_spec() -> u64 {
    2
}

/// Default safety margin, in percent.
pub open spec fn default_safety_margin_spec() -> u8 {
    70
}

/// Concurrency levels to probe when none are configured.
pub fn default_concurrency_steps() -> (steps: Vec<usize>)
    ensures
        steps@ == default_steps_spec(),
{
    let mut steps: Vec<usize> = Vec::new();
    steps.push(1);
    steps.push(2);
    steps.push(4);
    steps.push(8);
    steps.push(16);
    steps.push(32);
    steps.push(64);
    steps.push(128);
    assert(steps@ =~= default_steps_spec());
    steps
}

/// Measurement window per concurrency step when none is configured (seconds).
pub fn default_step_duration_secs() -> (secs: u64)
    ensures
        secs == default_step_duration_spec(),
{
    10
}

/// Warm-up period when none is configured (seconds).
pub fn default_warmup_secs() -> (secs: u64)
    ensures
        secs == default_warmup_spec(),
{
    2
}

/// Safety margin when none is configured (percent).
pub fn default_safety_margin_pct() -> (pct: u8)
    ensures
        pct == default_safety_margin_spec(),
{
    70
}

/// Knee detection algorithm used when none is configured.
pub fn default_algorithm() -> (name: String)
    ensures
        name@ == "inflection"@,
{
    String::from_str("inflection")
}

/// The default concurrency steps are strictly ascending and all positive.
pub proof fn lemma_default_steps_ascending()
    ensures
        forall|i: int, j: int|
            0 <= i < j < default_steps_spec().len() ==> 0 < #[trigger] default_steps_spec()[i]
                < #[trigger] default_steps_spec()[j],
{
    let s = default_steps_spec();
    assert(s.len() == 8);
    assert(s[0] == 1 && s[1] == 2 && s[2] == 4 && s[3] == 8 && s[4] == 16 && s[5] == 32 && s[6] == 64 && s[7] == 128);
}

/// Knee detection algorithm and sensitivity parameters.
pub struct KneeDetectionConfig<T> {
    /// `"plateau"` or `"inflection"`.
    pub algorithm: String,
    /// Plateau algorithm: RPS growth below this % between steps triggers the knee.
    pub plateau_rps_growth_pct: T,
    /// Inflection algorithm: Δp99ms / ΔRPS_normalised above this triggers the knee.
    pub inflection_delta_ratio: T,
}

impl<T> KneeDetectionConfig<T> {
    /// The default algorithm with the given sensitivities.
    pub fn with_default_algorithm(plateau_rps_growth_pct: T, inflection_delta_ratio: T) -> (cfg:
        Self)
        ensures
            cfg.algorithm@ == "inflection"@,
            cfg.plateau_rps_growth_pct == plateau_rps_growth_pct,
            cfg.inflection_delta_ratio == inflection_delta_ratio,
    {
        KneeDetectionConfig {
            algorithm: default_algorithm(),
            plateau_rps_growth_pct,
            inflection_delta_ratio,
        }
    }
}

/// Top-level bench configuration.
pub struct BenchConfig<T> {
    /// Concurrency levels to probe, in ascending order.
    pub concurrency_steps: Vec<usize>,
    /// Measurement window per concurrency step (seconds), after warmup.
    pub step_duration_secs: u64,
    /// Warm-up period at the start of each step (seconds). Results discarded.
    pub warmup_secs: u64,
    /// Recommended threshold = knee_value × (safety_margin_pct / 100).
    pub safety_margin_pct: u8,
    /// Knee detection sub-configuration.
    pub knee_detection: KneeDetectionConfig<T>,
}

/// `cfg` holds the default value of every setting but the knee detection.
pub open spec fn has_default_settings<T>(cfg: BenchConfig<T>) -> bool {
    &&& cfg.concurrency_steps@ == default_steps_spec()
    &&& cfg.step_duration_secs == default_step_duration_spec()
    &&& cfg.warmup_secs == default_warmup_spec()
    &&& cfg.safety_margin_pct == default_safety_margin_spec()
}

impl<T> BenchConfig<T> {
    /// The default configuration, with the given knee detection settings.
    pub fn default_with(knee_detection: KneeDetectionConfig<T>) -> (cfg: Self)
        ensures
            has_default_settings(cfg),
            cfg.knee_detection == knee_detection,
    {
        BenchConfig {
            concurrency_steps: default_concurrency_steps(),
            step_duration_secs: default_step_duration_secs(),
            warmup_secs: default_warmup_secs(),
            safety_margin_pct: default_safety_margin_pct(),
            knee_detection,
        }
    }
}

/// Fluent builder for [`BenchConfig`]: every setting left unset takes its
/// default value.
pub struct BenchConfigBuilder<T> {
    concurrency_steps: Option<Vec<usize>>,
    step_duration_secs: Option<u64>,
    warmup_secs: Option<u64>,
    safety_margin_pct: Option<u8>,
    knee_detection: Option<KneeDetectionConfig<T>>,
}

impl<T> BenchConfigBuilder<T> {
    /// The concurrency steps set so far, if any.
    pub closed spec fn steps_set(&self) -> Option<Seq<usize>> {
        match self.concurrency_steps {
            Some(v) => Some(v@),
            None => None,
        }
    }

    /// The step duration set so far, if any.
    pub closed spec fn step_duration_set(&self) -> Option<u64> {
        self.step_duration_secs
    }

    /// The warm-up period set so far, if any.
    pub closed spec fn warmup_set(&self) -> Option<u64> {
        self.warmup_secs
    }

    /// The safety margin set so far, if any.
    pub closed spec fn safety_margin_set(&self) -> Option<u8> {
        self.safety_margin_pct
    }

    /// The knee detection settings set so far, if any.
    pub closed spec fn knee_detection_set(&self) -> Option<KneeDetectionConfig<T>> {
        self.knee_detection
    }

    /// A builder with no setting overridden.
    pub fn new() -> (b: Self)
        ensures
            b.steps_set() is None,
            b.step_duration_set() is None,
            b.warmup_set() is None,
            b.safety_margin_set() is None,
            b.knee_detection_set() is None,
    {
        BenchConfigBuilder {
            concurrency_steps: None,
            step_duration_secs: None,
            warmup_secs: None,
            safety_margin_pct: None,
            knee_detection: None,
        }
    }

    /// Overrides the concurrency steps to probe.
    pub fn with_concurrency_steps(self, steps: Vec<usize>) -> (b: Self)
        ensures
            b.steps_set() == Some(steps@),
            b.step_duration_set() == self.step_duration_set(),
            b.warmup_set() == self.warmup_set(),
            b.safety_margin_set() == self.safety_margin_set(),
            b.knee_detection_set() == self.knee_detection_set(),
    {
        BenchConfigBuilder { concurrency_steps: Some(steps), ..self }
    }

    /// Overrides the measurement window per concurrency step (seconds).
    pub fn with_step_duration_secs(self, secs: u64) -> (b: Self)
        ensures
            b.steps_set() == self.steps_set(),
            b.step_duration_set() == Some(secs),
            b.warmup_set() == self.warmup_set(),
            b.safety_margin_set() == self.safety_margin_set(),
            b.knee_detection_set() == self.knee_detection_set(),
    {
        BenchConfigBuilder { step_duration_secs: Some(secs), ..self }
    }

    /// Overrides the warm-up period (seconds).
    pub fn with_warmup_secs(self, secs: u64) -> (b: Self)
        ensures
            b.steps_set() == self.steps_set(),
            b.step_duration_set() == self.step_duration_set(),
            b.warmup_set() == Some(secs),
            b.safety_margin_set() == self.safety_margin_set(),
            b.knee_detection_set() == self.knee_detection_set(),
    {
        BenchConfigBuilder { warmup_secs: Some(secs), ..self }
    }

    /// Overrides the safety margin percentage.
    pub fn with_safety_margin_pct(self, pct: u8) -> (b: Self)
        ensures
            b.steps_set() == self.steps_set(),
            b.step_duration_set() == self.step_duration_set(),
            b.warmup_set() == self.warmup_set(),
            b.safety_margin_set() == Some(pct),
            b.knee_detection_set() == self.knee_detection_set(),
    {
        BenchConfigBuilder { safety_margin_pct: Some(pct), ..self }
    }

    /// Overrides the knee detection configuration.
    pub fn with_knee_detection(self, cfg: KneeDetectionConfig<T>) -> (b: Self)
        ensures
            b.steps_set() == self.steps_set(),
            b.step_duration_set() == self.step_duration_set(),
            b.warmup_set() == self.warmup_set(),
            b.safety_margin_set() == self.safety_margin_set(),
            b.knee_detection_set() == Some(cfg),
    {
        BenchConfigBuilder { knee_detection: Some(cfg), ..self }
    }

    /// Builds the final configuration: each overridden setting as set, every
    /// other one at its default, the knee detection at `default_knee` unless set.
    pub fn build(self, default_knee: KneeDetectionConfig<T>) -> (cfg: BenchConfig<T>)
        ensures
            built_from(self, default_knee, cfg),
            self.knee_detection_set() matches Some(k) ==> cfg.knee_detection == k,
            self.knee_detection_set() is None ==> cfg.knee_detection == default_knee,
            self.steps_set() matches Some(st) ==> cfg.concurrency_steps@ == st,
            self.step_duration_set() matches Some(d) ==> cfg.step_duration_secs == d,
            self.warmup_set() matches Some(w) ==> cfg.warmup_secs == w,
            self.safety_margin_set() matches Some(m) ==> cfg.safety_margin_pct == m,
    {
        let concurrency_steps = match self.concurrency_steps {
            Some(steps) => steps,
            None => default_concurrency_steps(),
        };
        let step_duration_secs = match self.step_duration_secs {
            Some(s) => s,
            None => default_step_duration_secs(),
        };
        let warmup_secs = match self.warmup_secs {
            Some(s) => s,
            None => default_warmup_secs(),
        };
        let safety_margin_pct = match self.safety_margin_pct {
            Some(p) => p,
            None => default_safety_margin_pct(),
        };
        let knee_detection = match self.knee_detection {
            Some(k) => k,
            None => default_knee,
        };
        BenchConfig {
            concurrency_steps,
            step_duration_secs,
            warmup_secs,
            safety_margin_pct,
            knee_detection,
        }
    }
}

/// `cfg` is what `b` builds: each overridden setting as set, every other one
/// at its default, the knee detection at `default_knee` unless set.
pub open spec fn built_from<T>(
    b: BenchConfigBuilder<T>,
    default_knee: KneeDetectionConfig<T>,
    cfg: BenchConfig<T>,
) -> bool {
    &&& cfg.concurrency_steps@ == match b.steps_set() {
        Some(s) => s,
        None => default_steps_spec(),
    }
    &&& cfg.step_duration_secs == match b.step_duration_set() {
        Some(s) => s,
        None => default_step_duration_spec(),
    }
    &&& cfg.warmup_secs == match b.warmup_set() {
        Some(s) => s,
        None => default_warmup_spec(),
    }
    &&& cfg.safety_margin_pct == match b.safety_margin_set() {
        Some(p) => p,
        None => default_safety_margin_spec(),
    }
    &&& cfg.knee_detection == match b.knee_detection_set() {
        Some(k) => k,
        None => default_knee,
    }
}

/// A builder with nothing overridden builds the same configuration as
/// [`BenchConfig::default_with`].
pub proof fn lemma_untouched_builder_builds_defaults<T>(
    b: BenchConfigBuilder<T>,
    default_knee: KneeDetectionConfig<T>,
    cfg: BenchConfig<T>,
)
    requires
        b.steps_set() is None,
        b.step_duration_set() is None,
        b.warmup_set() is None,
        b.safety_margin_set() is None,
        b.knee_detection_set() is None,
        built_from(b, default_knee, cfg),
    ensures
        has_default_settings(cfg),
        cfg.knee_detection == default_knee,
{
}

/// An override set on the builder is kept whole in the built configuration,
/// whatever defaults `build` is given: the knee detection settings, the steps,
/// the durations and the margin come out exactly as they were set.
pub proof fn lemma_overrides_kept_whole<T>(
    b: BenchConfigBuilder<T>,
    default_knee: KneeDetectionConfig<T>,
    cfg: BenchConfig<T>,
)
    requires
        built_from(b, default_knee, cfg),
    ensures
        b.knee_detection_set() matches Some(k) ==> cfg.knee_detection == k,
        b.knee_detection_set() matches Some(k) ==> cfg.knee_detection.inflection_delta_ratio
            == k.inflection_delta_ratio && cfg.knee_detection.plateau_rps_growth_pct
            == k.plateau_rps_growth_pct && cfg.knee_detection.algorithm == k.algorithm,
        b.steps_set() matches Some(st) ==> cfg.concurrency_steps@ == st,
        b.step_duration_set() matches Some(d) ==> cfg.step_duration_secs == d,
        b.warmup_set() matches Some(w) ==> cfg.warmup_secs == w,
        b.safety_margin_set() matches Some(m) ==> cfg.safety_margin_pct == m,
{
}

/// Two builds of the same builder that both carry a knee detection override
/// agree on it, however different the defaults given to `build`.
pub proof fn lemma_knee_override_independent_of_default<T>(
    b: BenchConfigBuilder<T>,
    d1: KneeDetectionConfig<T>,
    d2: KneeDetectionConfig<T>,
    c1: BenchConfig<T>,
    c2: BenchConfig<T>,
)
    requires
        b.knee_detection_set() is Some,
        built_from(b, d1, c1),
        built_from(b, d2, c2),
    ensures
        c1.knee_detection == c2.knee_detection,
{
}

} // verus!
