//! Choosing the step whose measurements the autoscale thresholds derive from.
use vstd::prelude::*;

verus! {

/// The step the policy is derived from: the knee when one was detected,
/// otherwise the final step; none when there are no steps at all (the policy
/// is then all zeros).
pub open spec fn policy_step_spec(step_count: nat, knee_index: Option<usize>) -> Option<usize> {
    match knee_index {
        Some(k) => Some(k),
        None => if step_count == 0 {
            None
        } else {
            Some((step_count - 1) as usize)
        },
    }
}

/// Picks the step to derive the autoscale thresholds from: the knee step if a
/// knee was detected, else the final step as fallback, else none.
pub fn policy_step(step_count: usize, knee_index: Option<usize>) -> (step: Option<usize>)
    requires
        knee_index matches Some(k) ==> k < step_count,
    ensures
        step == policy_step_spec(step_count as nat, knee_index),
        step matches Some(i) ==> i < step_count,
        knee_index matches Some(k) ==> step == Some(k),
        knee_index is None && step_count > 0 ==> step == Some((step_count - 1) as usize),
        knee_index is None && step_count == 0 ==> step is None,
{
    match knee_index {
        Some(k) => Some(k),
        None => if step_count == 0 {
            None
        } else {
            Some(step_count - 1)
        },
    }
}

/// A detected knee is used as it is: the policy step is exactly the knee step.
/// Without a knee it is the final step, and there is none only when there are
/// no steps.
pub proof fn lemma_policy_step_is_knee_or_last(step_count: nat, knee_index: Option<usize>)
    requires
        knee_index matches Some(k) ==> k < step_count,
    ensures
        knee_index matches Some(k) ==> policy_step_spec(step_count, knee_index) == Some(k),
        knee_index is None && step_count > 0 ==> policy_step_spec(step_count, knee_index)
            == Some((step_count - 1) as usize),
        knee_index is None ==> (policy_step_spec(step_count, knee_index) is None <==> step_count
            == 0),
        policy_step_spec(step_count, knee_index) matches Some(i) ==> i < step_count,
{
}

} // verus!
