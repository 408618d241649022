use minuit2::application::max_fcn_or_default;
use minuit2::contours::contour_point_count;
use minuit2::minos::CrossStatus;
use minuit2::minimize::{
    classify_termination, combined_next, CombinedAction, CombinedStage, Termination,
    FALLBACK_STRATEGY,
};
use minuit2::scan::clamp_scan_steps;

#[test]
fn combined_driver_table() {
    assert_eq!(combined_next(CombinedStage::FirstMigrad, true), CombinedAction::ReturnLast);
    assert_eq!(combined_next(CombinedStage::FirstMigrad, false), CombinedAction::RunSimplex);
    assert_eq!(combined_next(CombinedStage::Simplex, true), CombinedAction::RunSecondMigrad);
    assert_eq!(combined_next(CombinedStage::Simplex, false), CombinedAction::ReturnLast);
    assert_eq!(combined_next(CombinedStage::SecondMigrad, true), CombinedAction::ReturnLast);
    assert_eq!(combined_next(CombinedStage::SecondMigrad, false), CombinedAction::ReturnSimplex);
    assert_eq!(FALLBACK_STRATEGY, 2);
}

#[test]
fn call_budget_prefers_request() {
    assert_eq!(max_fcn_or_default(Some(17), 3), 17);
    assert_eq!(max_fcn_or_default(None, 3), 200 + 300 + 45);
    assert_eq!(max_fcn_or_default(Some(0), 0), 0);
}

#[test]
fn scan_steps_are_clamped() {
    assert_eq!(clamp_scan_steps(0), 2);
    assert_eq!(clamp_scan_steps(2), 2);
    assert_eq!(clamp_scan_steps(41), 41);
    assert_eq!(clamp_scan_steps(101), 101);
    assert_eq!(clamp_scan_steps(500), 101);
}

#[test]
fn contour_has_at_least_cardinal_points() {
    assert_eq!(contour_point_count(0), 4);
    assert_eq!(contour_point_count(3), 4);
    assert_eq!(contour_point_count(8), 8);
}

#[test]
fn cross_status_has_one_outcome() {
    let all = [
        CrossStatus::Valid,
        CrossStatus::AtLimit,
        CrossStatus::AtMaxFcn,
        CrossStatus::NewMinimum,
        CrossStatus::Invalid,
    ];
    for s in all {
        let flags = [s.is_valid(), s.at_limit(), s.at_max_fcn(), s.new_minimum()];
        let set = flags.iter().filter(|f| **f).count();
        assert_eq!(set, if s == CrossStatus::Invalid { 0 } else { 1 });
    }
    assert!(CrossStatus::Valid.is_valid());
    assert!(CrossStatus::AtLimit.at_limit());
    assert!(!CrossStatus::AtLimit.is_valid());
}

#[test]
fn termination_classification() {
    assert_eq!(classify_termination(10, 100, false), Termination::Converged);
    assert_eq!(classify_termination(10, 100, true), Termination::AboveMaxEdm);
    assert_eq!(classify_termination(100, 100, false), Termination::CallLimit);
    assert_eq!(classify_termination(150, 100, true), Termination::CallLimit);
}
