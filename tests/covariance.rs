use minuit2::covariance::MnUserCovariance;

#[test]
fn symmetric_access() {
    let mut cov = MnUserCovariance::new(3, 0.0f64);
    cov.set(0, 1, 0.5);
    assert!((cov.get(0, 1) - 0.5).abs() < 1e-15);
    assert!((cov.get(1, 0) - 0.5).abs() < 1e-15);
}

#[test]
fn diagonal() {
    let mut cov = MnUserCovariance::new(2, 0.0f64);
    cov.set(0, 0, 1.0);
    cov.set(1, 1, 4.0);
    assert!((cov.get(0, 0) - 1.0).abs() < 1e-15);
    assert!((cov.get(1, 1) - 4.0).abs() < 1e-15);
}

#[test]
fn data_length() {
    let cov = MnUserCovariance::new(4, 0.0f64);
    assert_eq!(cov.data().len(), 10); // 4*5/2
}

#[test]
fn packed_layout_is_column_after_column() {
    let cov = MnUserCovariance::from_vec(vec![1, 2, 3, 4, 5, 6], 3);
    assert_eq!(cov.nrow(), 3);
    assert_eq!(cov.get(0, 0), 1);
    assert_eq!(cov.get(0, 1), 2);
    assert_eq!(cov.get(1, 1), 3);
    assert_eq!(cov.get(0, 2), 4);
    assert_eq!(cov.get(2, 1), 5);
    assert_eq!(cov.get(2, 2), 6);
}

#[test]
fn set_leaves_other_entries() {
    let mut cov = MnUserCovariance::new(3, 7u32);
    cov.set(2, 0, 9);
    assert_eq!(cov.get(0, 2), 9);
    assert_eq!(cov.get(2, 0), 9);
    assert_eq!(cov.get(1, 2), 7);
    assert_eq!(cov.get(0, 0), 7);
    assert_eq!(cov.data(), &vec![7, 7, 7, 9, 7, 7]);
}

#[test]
fn empty_covariance() {
    let cov: MnUserCovariance<u8> = MnUserCovariance::new(0, 0);
    assert_eq!(cov.nrow(), 0);
    assert!(cov.data().is_empty());
}

#[test]
fn retained_diagonal_drops_one_parameter() {
    let cov = MnUserCovariance::from_vec(vec![1, 2, 3, 4, 5, 6], 3);
    let d = cov.retained_diagonal(1, 0);
    assert_eq!(d.nrow(), 2);
    assert_eq!(d.get(0, 0), 1);
    assert_eq!(d.get(1, 1), 6);
    assert_eq!(d.get(0, 1), 0);
    let d0 = cov.retained_diagonal(0, 0);
    assert_eq!(d0.data(), &vec![3, 0, 6]);
    let single = MnUserCovariance::from_vec(vec![9], 1).retained_diagonal(0, 0);
    assert_eq!(single.nrow(), 0);
}
