//! Binary logistic-regression support library.
//!
//! The crate verifies the structural and decision logic of a logistic
//! regression pipeline: configuration, design-matrix layout, label
//! validation, accuracy counting, and the control flow of an L-BFGS
//! optimizer with a backtracking line search.  Scalar observations are
//! carried as opaque 64-bit words; the numeric interpretation of those
//! words belongs to the caller.

pub mod auc_score;
pub mod configurations;
pub mod errors;
pub mod matrix;
pub mod matrix_csv;
pub mod models;
pub mod optimizer;
