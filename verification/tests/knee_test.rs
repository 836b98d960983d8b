use swe_edge_autoscale_bench::advisor::policy_step;
use swe_edge_autoscale_bench::knee::first_knee;

#[test]
fn no_knee_for_empty_or_single_step() {
    assert_eq!(first_knee(&vec![]), None);
    assert_eq!(first_knee(&vec![true]), None);
}

#[test]
fn knee_is_first_firing_step_not_a_later_one() {
    // steps 2 and 3 both plateau; the knee is the first of them
    assert_eq!(first_knee(&vec![false, false, true, true]), Some(2));
}

#[test]
fn signal_of_first_step_is_ignored() {
    assert_eq!(first_knee(&vec![true, false, false]), None);
    assert_eq!(first_knee(&vec![true, true]), Some(1));
}

#[test]
fn no_knee_when_no_signal_fires() {
    assert_eq!(first_knee(&vec![false, false, false]), None);
}

#[test]
fn appended_steps_do_not_move_the_knee() {
    assert_eq!(first_knee(&vec![false, true]), Some(1));
    assert_eq!(first_knee(&vec![false, true, true, false]), Some(1));
}

#[test]
fn policy_uses_knee_step_when_detected() {
    assert_eq!(policy_step(3, Some(1)), Some(1));
    assert_eq!(policy_step(1, Some(0)), Some(0));
}

#[test]
fn policy_falls_back_to_last_step() {
    assert_eq!(policy_step(2, None), Some(1));
    assert_eq!(policy_step(5, None), Some(4));
}

#[test]
fn policy_has_no_step_when_there_are_none() {
    assert_eq!(policy_step(0, None), None);
}
