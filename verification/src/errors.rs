//! Failure taxonomy of the pipeline.
//!
//! Every fatal condition carries enough context (offending value,
//! expected vs. actual dimension) to diagnose it without re-running.

use vstd::prelude::*;

verus! {

/// The errors a load, an evaluation, or an optimization run can report.
#[derive(Debug)]
pub enum Error {
    /// A field could not be decoded or parsed as a number; holds a
    /// description of the offending value.
    Parse { value: String },
    /// Row/column bookkeeping does not add up (a ragged record, or a
    /// flat buffer whose length is not a multiple of the row count).
    Shape { expected: usize, got: usize },
    /// A parameter vector's length does not match the feature count.
    Dimension { expected: usize, got: usize },
    /// A target label is negative, or otherwise outside the binary
    /// domain in a way that cannot be coerced; holds the row index of
    /// the first such label.
    InputLabel { index: usize },
    /// The line search could not produce any improving step on the
    /// very first iteration, so no progress is possible.
    Optimization,
}

} // verus!
