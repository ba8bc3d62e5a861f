//! Configuration for the optimization process.

use vstd::prelude::*;

verus! {

/// Options for deriving predictions from a fitted model.
#[derive(Clone, Copy, Debug)]
pub struct CfgPredict {
    /// When set, predictions are thresholded to exactly zero or one;
    /// otherwise they are left as probabilities.
    pub binary_output: bool,
}

impl Default for CfgPredict {
    fn default() -> (r: Self)
        ensures
            !r.binary_output,
    {
        CfgPredict { binary_output: false }
    }
}

/// Hyperparameters of one optimization run.
#[derive(Clone, Copy, Debug)]
pub struct Cfg {
    /// Iteration budget of the optimizer; the loop never runs more
    /// than this many iterations.
    pub max_iters: u64,
    /// Whether per-iteration diagnostics are emitted.  Has no effect
    /// on the numeric result.
    pub logging: bool,
    /// Optional prediction options.
    pub cfg_predict: Option<CfgPredict>,
}

impl Default for Cfg {
    fn default() -> (r: Self)
        ensures
            r.max_iters == 100,
            !r.logging,
            r.cfg_predict is None,
    {
        CfgBuilder::new().build()
    }
}

/// Builder for [`Cfg`], starting from the default settings.
#[derive(Clone, Copy, Debug)]
pub struct CfgBuilder {
    max_iters: u64,
    logging: bool,
    cfg_predict: Option<CfgPredict>,
}

impl CfgBuilder {
    /// Iteration budget currently held by the builder.
    pub closed spec fn spec_max_iters(self) -> u64 {
        self.max_iters
    }

    /// Logging flag currently held by the builder.
    pub closed spec fn spec_logging(self) -> bool {
        self.logging
    }

    /// Prediction options currently held by the builder.
    pub closed spec fn spec_cfg_predict(self) -> Option<CfgPredict> {
        self.cfg_predict
    }

    /// Starts from the defaults: a budget of 100 iterations, no
    /// logging, no prediction options.
    pub fn new() -> (r: CfgBuilder)
        ensures
            r.spec_max_iters() == 100,
            !r.spec_logging(),
            r.spec_cfg_predict() is None,
    {
        CfgBuilder { max_iters: 100, logging: false, cfg_predict: None }
    }

    /// Replaces the iteration budget.
    pub fn max_iters(self, max_iters: u64) -> (r: Self)
        ensures
            r.spec_max_iters() == max_iters,
            r.spec_logging() == self.spec_logging(),
            r.spec_cfg_predict() == self.spec_cfg_predict(),
    {
        CfgBuilder { max_iters, ..self }
    }

    /// Replaces the logging flag.
    pub fn logging(self, logging: bool) -> (r: Self)
        ensures
            r.spec_logging() == logging,
            r.spec_max_iters() == self.spec_max_iters(),
            r.spec_cfg_predict() == self.spec_cfg_predict(),
    {
        CfgBuilder { logging, ..self }
    }

    /// Installs prediction options.
    pub fn with_predict(self, cfg_predict: CfgPredict) -> (r: Self)
        ensures
            r.spec_cfg_predict() == Some(cfg_predict),
            r.spec_max_iters() == self.spec_max_iters(),
            r.spec_logging() == self.spec_logging(),
    {
        CfgBuilder { cfg_predict: Some(cfg_predict), ..self }
    }

    /// Freezes the builder into a configuration with exactly the
    /// settings accumulated so far.
    pub fn build(self) -> (r: Cfg)
        ensures
            r.max_iters == self.spec_max_iters(),
            r.logging == self.spec_logging(),
            r.cfg_predict == self.spec_cfg_predict(),
    {
        Cfg {
            max_iters: self.max_iters,
            logging: self.logging,
            cfg_predict: self.cfg_predict,
        }
    }
}

} // verus!
