//! End-to-end fits on synthetic data: the numeric evaluation lives in
//! this test, every decision (loop control, line search bookkeeping,
//! dimension gates, scoring) is the library's.

use propensity_score::auc_score::{auc_score, LabelClass};
use propensity_score::errors::Error;
use propensity_score::models::{Findings, Objective};
use propensity_score::optimizer::{Backtrack, Directive, Driver, SearchStep, StepEvent};

fn w(v: f64) -> u64 {
    v.to_bits()
}

fn sigmoid(z: f64) -> f64 {
    if z < -40.0 {
        0.0
    } else if z > 40.0 {
        1.0
    } else {
        1.0 / (1.0 + (-z).exp())
    }
}

fn row_score(o: &Objective, i: usize, params: &[f64]) -> f64 {
    let mut z = 0.0;
    for j in 0..o.feature_count() {
        z += f64::from_bits(o.x.entry(i, j)) * params[j];
    }
    z
}

fn cost(o: &Objective, params: &[f64]) -> f64 {
    let mut c = 0.0;
    for i in 0..o.records() {
        let p = sigmoid(row_score(o, i, params));
        let yi = f64::from_bits(o.y[i]);
        c += yi * p.ln() + (1.0 - yi) * (1.0 - p).ln();
    }
    -c
}

fn gradient(o: &Objective, params: &[f64]) -> Vec<f64> {
    let n = o.feature_count();
    let mut g = vec![0.0; n];
    for i in 0..o.records() {
        let d = sigmoid(row_score(o, i, params)) - f64::from_bits(o.y[i]);
        for j in 0..n {
            g[j] += f64::from_bits(o.x.entry(i, j)) * d;
        }
    }
    g
}

/// Gradient descent with an Armijo backtracking line search, every
/// control decision taken by the library's driver and search state.
fn fit(o: &Objective, max_iters: u64) -> Result<Vec<f64>, Error> {
    let fc = o.feature_count();
    let mut params = vec![0.0; fc];
    let mut best = params.clone();
    let mut best_cost = cost(o, &params);
    let mut driver = Driver::new(max_iters);
    loop {
        let g = gradient(o, &params);
        let gnorm = g.iter().map(|v| v * v).sum::<f64>().sqrt();
        let event = if gnorm < 1e-8 {
            StepEvent::GradSmall
        } else {
            let c0 = cost(o, &params);
            let slope: f64 = -(gnorm * gnorm);
            let mut search = Backtrack::new(200);
            let mut alpha = 1.0;
            let mut accepted = false;
            loop {
                let cand: Vec<f64> =
                    params.iter().zip(g.iter()).map(|(p, gi)| p - alpha * gi).collect();
                let cc = cost(o, &cand);
                let armijo_ok = cc.is_finite() && cc <= c0 + 0.5 * alpha * slope;
                match search.step(armijo_ok) {
                    SearchStep::Accept { .. } => {
                        params = cand;
                        accepted = true;
                        break;
                    },
                    SearchStep::Shrink { .. } => alpha *= 0.9,
                    SearchStep::Exhausted => break,
                }
            }
            if accepted {
                let c = cost(o, &params);
                let improved = c < best_cost;
                if improved {
                    best_cost = c;
                    best = params.clone();
                }
                StepEvent::Stepped { improved_best: improved }
            } else {
                StepEvent::LineSearchFailed
            }
        };
        match driver.advance(event)? {
            Directive::Continue => continue,
            Directive::Finish(_) => break,
        }
    }
    Ok(best)
}

fn predict_binary(o: &Objective, params: &[f64]) -> Vec<u8> {
    (0..o.records())
        .map(|i| if sigmoid(row_score(o, i, params)) > 0.5 { 1u8 } else { 0u8 })
        .collect()
}

fn classify(v: f64) -> LabelClass {
    if v == 0.0 {
        LabelClass::Zero
    } else if v == 1.0 {
        LabelClass::One
    } else if v > 1.0 {
        LabelClass::AboveOne
    } else {
        LabelClass::Invalid
    }
}

#[test]
fn separable_data_reaches_full_accuracy() {
    // 100 rows: the label is decided by the sign of the one feature.
    let mut records: Vec<Vec<u64>> = Vec::new();
    for i in 0..100 {
        let x = (i as f64 - 49.5) / 10.0;
        let label = if x > 0.0 { 1.0 } else { 0.0 };
        records.push(vec![w(label), w(x)]);
    }
    let o = Objective::from_records(&records, 2, w(1.0)).unwrap();
    let params = fit(&o, 100).unwrap();
    // The fitted coefficient points along the separating direction.
    assert!(params[0] > 0.0);
    let y_hat = predict_binary(&o, &params);
    let classes: Vec<LabelClass> =
        o.y.iter().map(|word| classify(f64::from_bits(*word))).collect();
    let s = auc_score(&classes, &y_hat).unwrap();
    assert_eq!(s.matches, 100);
    assert_eq!(s.total, 100);
    assert_eq!(s.matches as f64 / s.total as f64, 1.0);
}

#[test]
fn constant_labels_terminate_and_predict_the_constant() {
    // Every row carries the same label; the run must end within its
    // budget and predict that label everywhere.
    let mut records: Vec<Vec<u64>> = Vec::new();
    for i in 0..40 {
        let x = (i as f64 - 20.0) / 7.0;
        records.push(vec![w(1.0), w(x)]);
    }
    let o = Objective::from_records(&records, 2, w(1.0)).unwrap();
    let params = fit(&o, 100).unwrap();
    let y_hat = predict_binary(&o, &params);
    assert!(y_hat.iter().all(|p| *p == 1));
    let classes: Vec<LabelClass> =
        o.y.iter().map(|word| classify(f64::from_bits(*word))).collect();
    let s = auc_score(&classes, &y_hat).unwrap();
    assert_eq!(s.matches, s.total);
}

#[test]
fn wrong_parameter_length_is_a_dimension_error() {
    let records = vec![vec![w(1.0), w(2.0)], vec![w(0.0), w(-2.0)]];
    let o = Objective::from_records(&records, 2, w(1.0)).unwrap();
    assert_eq!(o.feature_count(), 2);
    assert!(o.check_params(2).is_ok());
    let r = o.check_params(3);
    assert!(matches!(r, Err(Error::Dimension { expected: 2, got: 3 })));
    let r = o.check_params(0);
    assert!(matches!(r, Err(Error::Dimension { expected: 2, got: 0 })));
}

#[test]
fn findings_split_and_report() {
    let records = vec![vec![w(1.0), w(2.0)], vec![w(0.0), w(-2.0)]];
    let o = Objective::from_records(&records, 2, w(1.0)).unwrap();
    let f = Findings::new(vec![w(0.25), w(-0.5)], &o).unwrap();
    assert_eq!(f.coefficients, vec![w(0.25)]);
    assert_eq!(f.intercept, w(-0.5));
    let report = f.report();
    assert_eq!(report.features, 2);
    assert_eq!(report.records, 2);
    assert_eq!(report.coefficients, vec![w(0.25)]);
    assert_eq!(report.intercept, w(-0.5));
}

#[test]
fn findings_wrong_length_is_a_dimension_error() {
    let records = vec![vec![w(1.0), w(2.0)], vec![w(0.0), w(-2.0)]];
    let o = Objective::from_records(&records, 2, w(1.0)).unwrap();
    let r = Findings::new(vec![w(0.25)], &o);
    assert!(matches!(r, Err(Error::Dimension { expected: 2, got: 1 })));
}
