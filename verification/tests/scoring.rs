use propensity_score::auc_score::{auc_score, LabelClass};
use propensity_score::errors::Error;

#[test]
fn all_correct_scores_every_row() {
    let y_true = vec![LabelClass::Zero, LabelClass::One, LabelClass::One, LabelClass::Zero];
    let y_hat: Vec<u8> = vec![0, 1, 1, 0];
    let s = auc_score(&y_true, &y_hat).unwrap();
    assert_eq!(s.matches, 4);
    assert_eq!(s.total, 4);
    assert_eq!(s.matches as f64 / s.total as f64, 1.0);
    assert_eq!(s.pos, 2);
    assert_eq!(s.neg, 2);
    assert!(!s.warned);
}

#[test]
fn all_wrong_scores_nothing() {
    let y_true = vec![LabelClass::Zero, LabelClass::One, LabelClass::One];
    let y_hat: Vec<u8> = vec![1, 0, 0];
    let s = auc_score(&y_true, &y_hat).unwrap();
    assert_eq!(s.matches, 0);
    assert_eq!(s.total, 3);
    assert_eq!(s.matches as f64 / s.total as f64, 0.0);
}

#[test]
fn invalid_label_reports_first_offending_row() {
    let y_true = vec![LabelClass::One, LabelClass::Zero, LabelClass::Invalid, LabelClass::Invalid];
    let y_hat: Vec<u8> = vec![1, 0, 0, 0];
    let r = auc_score(&y_true, &y_hat);
    assert!(matches!(r, Err(Error::InputLabel { index: 2 })));
}

#[test]
fn label_above_one_counts_positive_and_warns() {
    let y_true = vec![LabelClass::AboveOne, LabelClass::One, LabelClass::Zero];
    let y_hat: Vec<u8> = vec![1, 1, 0];
    let s = auc_score(&y_true, &y_hat).unwrap();
    assert!(s.warned);
    assert_eq!(s.pos, 2);
    assert_eq!(s.neg, 1);
    // A coerced label agrees with no binary prediction, as comparing
    // the raw values would have it.
    assert_eq!(s.matches, 2);
}

#[test]
fn empty_inputs_score_zero_of_zero() {
    let y_true: Vec<LabelClass> = vec![];
    let y_hat: Vec<u8> = vec![];
    let s = auc_score(&y_true, &y_hat).unwrap();
    assert_eq!(s.matches, 0);
    assert_eq!(s.total, 0);
    assert!(!s.warned);
}
