use propensity_score::configurations::{Cfg, CfgBuilder, CfgPredict};

#[test]
fn builder_defaults() {
    let cfg = CfgBuilder::new().build();
    assert_eq!(cfg.max_iters, 100);
    assert!(!cfg.logging);
    assert!(cfg.cfg_predict.is_none());
}

#[test]
fn builder_sets_every_field() {
    let cfg = CfgBuilder::new()
        .max_iters(7)
        .logging(true)
        .with_predict(CfgPredict { binary_output: true })
        .build();
    assert_eq!(cfg.max_iters, 7);
    assert!(cfg.logging);
    assert!(cfg.cfg_predict.unwrap().binary_output);
}

#[test]
fn cfg_default_matches_builder() {
    let cfg = Cfg::default();
    assert_eq!(cfg.max_iters, 100);
    assert!(!cfg.logging);
    assert!(cfg.cfg_predict.is_none());
}

#[test]
fn cfg_predict_default_is_probabilities() {
    let p = CfgPredict::default();
    assert!(!p.binary_output);
}
