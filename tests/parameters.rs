use minuit2::error_matrix::{ErrorMatrixFlags, ErrorMatrixStatus};
use minuit2::gradient::{InitialGradientCalculator, Numerical2PGradientCalculator};
use minuit2::names::ParameterNames;
use minuit2::parameter::ParameterStatus;
use minuit2::strategy::MnStrategy;
use minuit2::transformation::IndexTables;

#[test]
fn fix_release() {
    let mut p = ParameterStatus::free(false, false);
    p.fix();
    assert!(p.is_fixed());
    p.release();
    assert!(!p.is_fixed());
}

#[test]
fn const_cannot_release() {
    let mut p = ParameterStatus::constant();
    assert!(p.is_const());
    assert!(p.is_fixed());
    p.release();
    assert!(p.is_fixed()); // still fixed
}

#[test]
fn limits_flags() {
    let mut p = ParameterStatus::free(false, false);
    assert!(!p.has_limits());
    p.set_lower_limit();
    assert!(p.has_lower_limit() && !p.has_limits());
    p.set_upper_limit();
    assert!(p.has_limits());
    p.remove_limits();
    assert!(!p.has_lower_limit() && !p.has_upper_limit());
    p.set_limits();
    assert!(p.has_limits());
}

#[test]
fn variable_count() {
    let t = IndexTables::from_fixed(&vec![false, false]);
    assert_eq!(t.variable_parameters(), 2);
    assert_eq!(t.len(), 2);
}

#[test]
fn fix_reduces_variable_count() {
    let mut t = IndexTables::from_fixed(&vec![false, false]);
    t.set_fixed(0, true);
    assert_eq!(t.variable_parameters(), 1);
    assert_eq!(t.ext_of_int(0), 1); // internal 0 → external 1 (y)
    assert_eq!(t.int_of_ext(0), None);
    assert_eq!(t.int_of_ext(1), Some(0));
}

#[test]
fn fix_reduces_variable() {
    let mut t = IndexTables::new();
    t.push(false);
    t.push(false);
    assert_eq!(t.variable_parameters(), 2);
    t.set_fixed(0, true);
    assert_eq!(t.variable_parameters(), 1);
    t.set_fixed(0, false);
    assert_eq!(t.variable_parameters(), 2);
}

#[test]
fn index_tables_skip_fixed_entries() {
    let mut t = IndexTables::new();
    assert_eq!(t.push(false), 0);
    assert_eq!(t.push(true), 1);
    assert_eq!(t.push(false), 2);
    assert_eq!(t.push(true), 3);
    assert_eq!(t.push(false), 4);
    assert_eq!(t.variable_parameters(), 3);
    assert_eq!(t.ext_of_int(0), 0);
    assert_eq!(t.ext_of_int(1), 2);
    assert_eq!(t.ext_of_int(2), 4);
    assert_eq!(t.int_of_ext(2), Some(1));
    assert_eq!(t.int_of_ext(3), None);
    assert!(t.is_fixed(1));
}

#[test]
fn find_index_by_name() {
    let mut names = ParameterNames::new();
    names.push("x".to_string());
    names.push("y".to_string());
    assert_eq!(names.index(&"x".to_string()), Some(0));
    assert_eq!(names.index(&"y".to_string()), Some(1));
    assert_eq!(names.index(&"z".to_string()), None);
}

#[test]
fn set_name_updates_lookup_map() {
    let mut names = ParameterNames::new();
    names.push("x".to_string());
    names.set_name(0, "alpha".to_string());
    assert_eq!(names.index(&"x".to_string()), None);
    assert_eq!(names.index(&"alpha".to_string()), Some(0));
    assert_eq!(names.name(0), "alpha");
    assert_eq!(names.len(), 1);
}

#[test]
fn error_flags_invalidate() {
    let mut f = ErrorMatrixFlags::approximate();
    assert_eq!(f.status(), ErrorMatrixStatus::ApproximateFromSteps);
    assert!(f.is_valid());
    f.set_made_pos_def(true);
    assert_eq!(f.status(), ErrorMatrixStatus::MadePositiveDefinite);
    assert!(f.made_pos_def());
    assert!(f.is_valid());
    f.set_invert_failed(true);
    assert!(f.invert_failed());
    assert!(!f.is_valid());
    f.set_invert_failed(false);
    assert!(!f.is_valid());

    let mut g = ErrorMatrixFlags::accurate();
    assert!(g.is_accurate());
    g.set_hesse_failed(true);
    assert!(g.hesse_failed() && !g.is_valid());

    let mut h = ErrorMatrixFlags::accurate();
    h.set_reached_call_limit(true);
    assert!(h.reached_call_limit() && !h.is_valid());
    h.set_status(ErrorMatrixStatus::NotAvailable);
    assert!(!h.is_accurate());
}

#[test]
fn gradient_calculators_keep_strategy() {
    let s = MnStrategy::new(2);
    assert_eq!(InitialGradientCalculator::new(s).strategy(), s);
    assert_eq!(Numerical2PGradientCalculator::new(s).strategy().grad_ncycles(), 5);
}

#[test]
fn duplicate_name_resolves_to_first() {
    let mut names = ParameterNames::new();
    assert_eq!(names.push("a".to_string()), 0);
    assert_eq!(names.push("b".to_string()), 1);
    assert_eq!(names.push("a".to_string()), 2);
    assert_eq!(names.index(&"a".to_string()), Some(0));
    assert_eq!(names.index(&"b".to_string()), Some(1));
}
