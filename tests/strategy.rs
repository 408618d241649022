use minuit2::hesse::MnHesse;
use minuit2::minos::crossing_strategy;
use minuit2::strategy::MnStrategy;

fn tenths(v: u32) -> f64 {
    v as f64 / 10.0
}

fn hundredths(v: u32) -> f64 {
    v as f64 / 100.0
}

#[test]
fn low_strategy() {
    let s = MnStrategy::new(0);
    assert!(s.is_low());
    assert_eq!(s.grad_ncycles(), 2);
    assert!((tenths(s.gradient_step_tolerance_tenths()) - 0.5).abs() < 1e-15);
    assert!((hundredths(s.gradient_tolerance_hundredths()) - 0.1).abs() < 1e-15);
    assert_eq!(s.hess_ncycles(), 3);
    assert_eq!(s.hess_grad_ncycles(), 1);
}

#[test]
fn medium_strategy() {
    let s = MnStrategy::new(1);
    assert!(s.is_medium());
    assert_eq!(s.grad_ncycles(), 3);
    assert!((tenths(s.gradient_step_tolerance_tenths()) - 0.3).abs() < 1e-15);
    assert!((hundredths(s.gradient_tolerance_hundredths()) - 0.05).abs() < 1e-15);
    assert_eq!(s.hess_ncycles(), 5);
    assert_eq!(s.hess_grad_ncycles(), 2);
}

#[test]
fn high_strategy() {
    let s = MnStrategy::new(2);
    assert!(s.is_high());
    assert_eq!(s.grad_ncycles(), 5);
    assert!((tenths(s.gradient_step_tolerance_tenths()) - 0.1).abs() < 1e-15);
    assert!((hundredths(s.gradient_tolerance_hundredths()) - 0.02).abs() < 1e-15);
    assert_eq!(s.hess_ncycles(), 7);
    assert_eq!(s.hess_grad_ncycles(), 6);
}

#[test]
fn default_is_medium() {
    let s = MnStrategy::default();
    assert!(s.is_medium());
}

#[test]
fn strategy_alias_getters_match_core_getters() {
    let s = MnStrategy::new(1);
    assert_eq!(s.gradient_ncycles(), s.grad_ncycles());
    assert_eq!(s.hessian_ncycles(), s.hess_ncycles());
    assert_eq!(s.hessian_gradient_ncycles(), s.hess_grad_ncycles());
    assert_eq!(s.hessian_step_tolerance_tenths(), 3);
    assert_eq!(s.hessian_g2_tolerance_hundredths(), 5);
    assert_eq!(s.storage_level(), 1);
}

#[test]
fn strategy_setters_override_values() {
    let mut s = MnStrategy::new(1);
    s.set_gradient_ncycles(9);
    s.set_gradient_step_tolerance_tenths(7);
    s.set_gradient_tolerance_hundredths(9);
    s.set_hessian_ncycles(11);
    s.set_hessian_step_tolerance_tenths(8);
    s.set_hessian_g2_tolerance_hundredths(11);
    s.set_hessian_gradient_ncycles(12);
    s.set_hessian_central_fd_mixed_derivatives(1);
    s.set_hessian_force_pos_def(0);
    s.set_storage_level(3);

    assert_eq!(s.gradient_ncycles(), 9);
    assert!((tenths(s.gradient_step_tolerance_tenths()) - 0.7).abs() < 1e-15);
    assert!((hundredths(s.gradient_tolerance_hundredths()) - 0.09).abs() < 1e-15);
    assert_eq!(s.hessian_ncycles(), 11);
    assert!((tenths(s.hessian_step_tolerance_tenths()) - 0.8).abs() < 1e-15);
    assert!((hundredths(s.hessian_g2_tolerance_hundredths()) - 0.11).abs() < 1e-15);
    assert_eq!(s.hessian_gradient_ncycles(), 12);
    assert_eq!(s.hessian_central_fd_mixed_derivatives(), 1);
    assert_eq!(s.hessian_force_pos_def(), 0);
    assert_eq!(s.storage_level(), 3);
}

#[test]
fn very_high_strategy() {
    let mut s = MnStrategy::new(1);
    assert!(!s.is_very_high());
    s.set_very_high_strategy();
    assert!(s.is_very_high());
    assert!(s.is_high());
}

#[test]
fn unknown_level_falls_back_to_medium() {
    let s = MnStrategy::new(7);
    assert_eq!(s.strategy(), 1);
    assert_eq!(s, MnStrategy::new(1));
}

#[test]
fn very_high_keeps_high_settings() {
    let mut s = MnStrategy::new(0);
    s.set_very_high_strategy();
    assert_eq!(s.strategy(), 3);
    assert_eq!(s.grad_ncycles(), 5);
    assert_eq!(s.hess_grad_ncycles(), 6);
}

#[test]
fn hesse_defaults_and_builders() {
    let h = MnHesse::new();
    assert_eq!(h.ncycles(), 5);
    assert_eq!(h.max_calls(), None);
    assert_eq!(h.call_limit(2), 420);
    let h = h.with_strategy(2).with_max_calls(1000);
    assert_eq!(h.ncycles(), 7);
    assert_eq!(h.strategy().strategy(), 2);
    assert_eq!(h.call_limit(2), 1000);
    let d = MnHesse::default();
    assert_eq!(d.ncycles(), 3 + 2);
}

#[test]
fn crossing_strategy_is_one_level_lower() {
    assert_eq!(crossing_strategy(&MnStrategy::new(2)).strategy(), 1);
    assert_eq!(crossing_strategy(&MnStrategy::new(1)).strategy(), 0);
    assert_eq!(crossing_strategy(&MnStrategy::new(0)).strategy(), 0);
    let mut v = MnStrategy::new(1);
    v.set_very_high_strategy();
    assert_eq!(crossing_strategy(&v), MnStrategy::new(2));
}
