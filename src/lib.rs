//! Bookkeeping of a function minimizer, verified: strategy presets, call
//! budgets, the external/internal parameter index tables, parameter flags
//! and names, packed symmetric covariance storage, error-matrix status, and
//! the decisions of the combined Migrad/Simplex driver.

pub mod application;
pub mod contours;
pub mod covariance;
pub mod error_matrix;
pub mod gradient;
pub mod hesse;
pub mod minimize;
pub mod minos;
pub mod names;
pub mod parameter;
pub mod scan;
pub mod strategy;
pub mod transformation;
