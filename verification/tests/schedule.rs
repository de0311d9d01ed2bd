//! The acceleration schedule: which step each algorithm takes after the k-th
//! iterate of its run.
use fixed_point_acceleration::schedule::{plan_step, Step};
use fixed_point_acceleration::{Algorithm, Schedule, TerminationStatus};

#[test]
fn simple_always_substitutes() {
    for k in 1..40 {
        assert_eq!(plan_step(Algorithm::Simple, k, 10, 7), Step::Substitute);
    }
}

#[test]
fn aitken_and_newton_fire_every_third_iterate() {
    for k in 1..20usize {
        let expected_aitken = if k % 3 == 0 { Step::Aitken } else { Step::Substitute };
        let expected_newton = if k % 3 == 0 { Step::Newton } else { Step::Substitute };
        assert_eq!(plan_step(Algorithm::Aitken, k, 10, 7), expected_aitken);
        assert_eq!(plan_step(Algorithm::Newton, k, 10, 7), expected_newton);
    }
}

#[test]
fn anderson_needs_two_iterates_and_caps_the_window() {
    assert_eq!(plan_step(Algorithm::Anderson, 1, 10, 7), Step::Substitute);
    assert_eq!(plan_step(Algorithm::Anderson, 2, 10, 7), Step::Anderson { window: 2 });
    assert_eq!(plan_step(Algorithm::Anderson, 7, 10, 7), Step::Anderson { window: 7 });
    assert_eq!(plan_step(Algorithm::Anderson, 15, 10, 7), Step::Anderson { window: 10 });
    // A window cap below two never lets Anderson fire.
    assert_eq!(plan_step(Algorithm::Anderson, 15, 1, 7), Step::Substitute);
}

#[test]
fn mpe_fires_on_the_extrapolation_period() {
    assert_eq!(plan_step(Algorithm::MPE, 6, 10, 7), Step::Substitute);
    assert_eq!(plan_step(Algorithm::MPE, 7, 10, 7), Step::Mpe { window: 7 });
    assert_eq!(plan_step(Algorithm::MPE, 8, 10, 7), Step::Substitute);
    assert_eq!(plan_step(Algorithm::MPE, 14, 10, 7), Step::Mpe { window: 10 });
    // Fewer than three iterates in the window: plain substitution.
    assert_eq!(plan_step(Algorithm::MPE, 2, 10, 2), Step::Substitute);
    assert_eq!(plan_step(Algorithm::MPE, 4, 10, 2), Step::Mpe { window: 4 });
}

#[test]
fn rre_needs_four_iterates() {
    assert_eq!(plan_step(Algorithm::RRE, 3, 10, 3), Step::Substitute);
    assert_eq!(plan_step(Algorithm::RRE, 6, 10, 3), Step::Rre { window: 6 });
    assert_eq!(plan_step(Algorithm::RRE, 7, 10, 7), Step::Rre { window: 7 });
    assert_eq!(plan_step(Algorithm::RRE, 21, 10, 7), Step::Rre { window: 10 });
}

#[test]
fn epsilon_methods_use_an_odd_window() {
    assert_eq!(plan_step(Algorithm::SEA, 7, 10, 7), Step::Epsilon { window: 7, scalar: true });
    assert_eq!(plan_step(Algorithm::SEA, 14, 10, 7), Step::Epsilon { window: 9, scalar: true });
    assert_eq!(plan_step(Algorithm::VEA, 7, 10, 7), Step::Epsilon { window: 7, scalar: false });
    assert_eq!(plan_step(Algorithm::VEA, 14, 10, 7), Step::Epsilon { window: 9, scalar: false });
    assert_eq!(plan_step(Algorithm::VEA, 4, 10, 4), Step::Epsilon { window: 3, scalar: false });
    assert_eq!(plan_step(Algorithm::SEA, 13, 10, 7), Step::Substitute);
}

#[test]
fn period_zero_never_fires() {
    for k in 1..30 {
        assert_eq!(plan_step(Algorithm::MPE, k, 10, 0), Step::Substitute);
        assert_eq!(plan_step(Algorithm::RRE, k, 10, 0), Step::Substitute);
        assert_eq!(plan_step(Algorithm::SEA, k, 10, 0), Step::Substitute);
        assert_eq!(plan_step(Algorithm::VEA, k, 10, 0), Step::Substitute);
    }
}

#[test]
fn default_schedule_matches_documented_options() {
    let s = Schedule::default();
    assert_eq!(s.algorithm, Algorithm::Anderson);
    assert_eq!(s.max_iter, 1000);
    assert_eq!(s.max_m, 10);
    assert_eq!(s.extrapolation_period, 7);
}

#[test]
fn status_names() {
    assert_eq!(TerminationStatus::Converged.name(), "Converged");
    assert_eq!(TerminationStatus::MaxIterationsReached.name(), "MaxIterationsReached");
    assert_eq!(TerminationStatus::NumericalFailure.name(), "NumericalFailure");
    assert_eq!(TerminationStatus::FunctionFailure.name(), "FunctionFailure");
}
