//! Locating the saturation knee among the completed steps.
//!
//! Both built-in detectors scan the steps in probe order, from the second step
//! on, and declare the knee at the first step whose saturation signal fires
//! (RPS growth below the plateau threshold, or latency growing faster than
//! throughput). The signal of each step is computed by the caller; the scan
//! and its result are decided here.
use vstd::prelude::*;

verus! {

/// Which built-in detector a configuration selects, with its sensitivity.
pub enum KneeDetectorChoice<T> {
    /// First step whose RPS growth over the previous step falls below
    /// `rps_growth_pct` percent.
    Plateau { rps_growth_pct: T },
    /// First step where Δp99ms / ΔRPS_normalised exceeds `delta_ratio`.
    Inflection { delta_ratio: T },
}

/// `k` is the first step from the second on whose signal fires, if any.
pub open spec fn is_first_knee(signals: Seq<bool>, k: Option<usize>) -> bool {
    match k {
        Some(i) => {
            &&& 1 <= i < signals.len()
            &&& signals[i as int]
            &&& forall|j: int| 1 <= j < i ==> !#[trigger] signals[j]
        },
        None => forall|j: int| 1 <= j < signals.len() ==> !#[trigger] signals[j],
    }
}

/// Scans the steps in order from the second one and returns the index of the
/// first step whose saturation signal fires; `None` when none does, which
/// includes every run of fewer than two steps.
pub fn first_knee(signals: &Vec<bool>) -> (k: Option<usize>)
    ensures
        is_first_knee(signals@, k),
        k matches Some(i) ==> 1 <= i < signals@.len() && signals@[i as int],
        k matches Some(i) ==> forall|j: int| 1 <= j < i ==> !#[trigger] signals@[j],
        k is None <==> forall|j: int| 1 <= j < signals@.len() ==> !#[trigger] signals@[j],
{
    let n = signals.len();
    let mut i: usize = 1;
    while i < n
        invariant
            n == signals@.len(),
            1 <= i,
            forall|j: int| 1 <= j < i && j < n ==> !#[trigger] signals@[j],
        decreases n - i,
    {
        if signals[i] {
            return Some(i);
        }
        i = i + 1;
    }
    None
}

/// The knee is unique: any two scans of the same signals agree, and a step
/// after the knee never displaces it.
pub proof fn lemma_first_knee_unique(signals: Seq<bool>, a: Option<usize>, b: Option<usize>)
    requires
        is_first_knee(signals, a),
        is_first_knee(signals, b),
    ensures
        a == b,
{
    match (a, b) {
        (Some(i), Some(j)) => {
            if i < j {
                assert(!signals[i as int]);
            } else if j < i {
                assert(!signals[j as int]);
            }
        },
        (Some(i), None) => {
            assert(!signals[i as int]);
        },
        (None, Some(j)) => {
            assert(!signals[j as int]);
        },
        (None, None) => {},
    }
}

/// Appending further steps after a detected knee leaves the knee where it was.
pub proof fn lemma_knee_stable_under_extension(signals: Seq<bool>, more: Seq<bool>, k: usize)
    requires
        is_first_knee(signals, Some(k)),
    ensures
        is_first_knee(signals + more, Some(k)),
{
    let all = signals + more;
    assert forall|j: int| 1 <= j < k implies !#[trigger] all[j] by {
        assert(all[j] == signals[j]);
    }
}

} // verus!
