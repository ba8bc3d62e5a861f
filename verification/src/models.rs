//! The objective's data and the findings of a fit.
//!
//! The objective owns the feature matrix and the target vector and is
//! immutable after construction; the optimizer and the evaluator both
//! read it.  Findings pair fitted parameters with the exact objective
//! they were derived from: coefficients and intercept are meaningless
//! against any other dataset's feature ordering, so the pairing is a
//! borrow, never two independently passable values.

use vstd::prelude::*;

verus! {

use crate::errors::Error;
use crate::matrix::Matrix;
use crate::matrix::row_slice;

/// Copies the first `upto` words of a vector.
fn copy_words(v: &Vec<u64>, upto: usize) -> (r: Vec<u64>)
    requires
        upto <= v@.len(),
    ensures
        r@ == v@.subrange(0, upto as int),
{
    let mut r: Vec<u64> = Vec::new();
    let mut i: usize = 0;
    while i < upto
        invariant
            i <= upto,
            upto <= v@.len(),
            r@ == v@.subrange(0, i as int),
        decreases upto - i,
    {
        r.push(v[i]);
        proof {
            assert(r@ =~= v@.subrange(0, i + 1 as int));
        }
        i += 1;
    }
    r
}

/// The data an optimization run minimizes over: feature matrix `x`
/// (one row per observation, the bias column last) and target vector
/// `y` (one scalar word per observation).
pub struct Objective {
    /// Feature matrix, rows x features, bias column last.
    pub x: Matrix,
    /// Target vector, one word per row of `x`.
    pub y: Vec<u64>,
}

impl Objective {
    /// One target word per matrix row.
    pub open spec fn wf(self) -> bool {
        self.y@.len() == self.x.spec_rows()
    }

    /// Features per observation, the bias column included.
    pub open spec fn spec_feature_count(self) -> usize {
        self.x.spec_cols()
    }

    /// Wraps a feature matrix and a matching target vector.
    pub fn new(x: Matrix, y: Vec<u64>) -> (r: Objective)
        requires
            y@.len() == x.spec_rows(),
        ensures
            r.wf(),
            r.x == x,
            r.y == y,
    {
        Objective { x, y }
    }

    /// Splits a combined matrix — target in column zero, features
    /// (bias last) in the remaining columns — into an objective.
    /// Fails when there is no feature column to split off.
    pub fn from_matrix(matrix: Matrix) -> (r: Result<Objective, Error>)
        ensures
            match r {
                Ok(o) => {
                    &&& matrix.spec_cols() >= 2
                    &&& o.wf()
                    &&& matrix@.len() == matrix.spec_rows()
                    &&& o.x.spec_rows() == matrix.spec_rows()
                    &&& o.x@.len() == matrix@.len()
                    &&& o.spec_feature_count() == matrix.spec_cols() - 1
                    &&& o.y@.len() == matrix.spec_rows()
                    &&& forall|i: int|
                        0 <= i < matrix@.len() ==> o.y@[i] == (#[trigger] matrix@[i])[0]
                    &&& forall|i: int|
                        0 <= i < matrix@.len() ==> #[trigger] o.x@[i] == matrix@[i].subrange(
                            1,
                            matrix.spec_cols() as int,
                        )
                },
                Err(e) => {
                    &&& e matches Error::Shape { .. }
                    &&& matrix.spec_cols() < 2
                },
            },
    {
        let c = matrix.cols();
        if c < 2 {
            return Err(Error::Shape { expected: 2, got: c });
        }
        let _rows: usize = matrix.rows();
        let (y, x) = matrix.split_first_column();
        Ok(Objective { x, y })
    }

    /// Builds the objective from a flat row-major buffer whose rows
    /// hold the target first and the bias slot last.  The column count
    /// is the exact quotient of the length by the row count.
    pub fn from_vec(data: Vec<u64>, rows: usize) -> (r: Result<Objective, Error>)
        ensures
            match r {
                Ok(o) => {
                    &&& rows > 0
                    &&& data@.len() as int % (rows as int) == 0
                    &&& data@.len() as int / (rows as int) >= 2
                    &&& o.wf()
                    &&& o.x.spec_rows() == rows
                    &&& o.x@.len() == rows
                    &&& o.spec_feature_count() == data@.len() as int / (rows as int) - 1
                    &&& forall|i: int|
                        0 <= i < rows ==> o.y@[i] == (#[trigger] row_slice(
                            data@,
                            data@.len() as int / rows as int,
                            i,
                        ))[0]
                    &&& forall|i: int|
                        0 <= i < rows ==> #[trigger] o.x@[i] == row_slice(
                            data@,
                            data@.len() as int / rows as int,
                            i,
                        ).subrange(1, data@.len() as int / rows as int)
                },
                Err(e) => {
                    &&& e matches Error::Shape { .. }
                    &&& (rows == 0 || data@.len() as int % (rows as int) != 0 || data@.len() as int
                        / (rows as int) < 2)
                },
            },
    {
        let m = match Matrix::from_flat(&data, rows) {
            Ok(m) => m,
            Err(e) => {
                return Err(e);
            },
        };
        let ghost gm = m@;
        let ghost gcols = m.spec_cols();
        let o = match Objective::from_matrix(m) {
            Ok(o) => o,
            Err(e) => {
                return Err(e);
            },
        };
        proof {
            let c = data@.len() as int / rows as int;
            assert forall|i: int|
                0 <= i < rows implies o.y@[i] == (row_slice(data@, c, i))[0] && o.x@[i]
                == row_slice(data@, c, i).subrange(1, c) by {
                assert(gm[i] == row_slice(data@, c, i));
                assert(o.y@[i] == gm[i][0]);
                assert(o.x@[i] == gm[i].subrange(1, gcols as int));
            }
        }
        Ok(o)
    }

    /// Builds the objective from a feature buffer and a separate
    /// target vector; the feature buffer is taken as it stands, with
    /// its bias slot already in place.
    pub fn from_vecs(x: Vec<u64>, y: Vec<u64>, rows: usize) -> (r: Result<Objective, Error>)
        ensures
            match r {
                Ok(o) => {
                    &&& rows > 0
                    &&& x@.len() as int % (rows as int) == 0
                    &&& y@.len() == rows
                    &&& o.wf()
                    &&& o.x.spec_rows() == rows
                    &&& o.x@.len() == rows
                    &&& o.spec_feature_count() == x@.len() as int / (rows as int)
                    &&& o.y@ == y@
                    &&& forall|i: int|
                        0 <= i < rows ==> #[trigger] o.x@[i] == row_slice(
                            x@,
                            x@.len() as int / rows as int,
                            i,
                        )
                },
                Err(e) => {
                    &&& e matches Error::Shape { .. }
                    &&& (rows == 0 || x@.len() as int % (rows as int) != 0 || y@.len() != rows)
                },
            },
    {
        let m = match Matrix::from_flat(&x, rows) {
            Ok(m) => m,
            Err(e) => {
                return Err(e);
            },
        };
        if y.len() != rows {
            return Err(Error::Shape { expected: rows, got: y.len() });
        }
        Ok(Objective::new(m, y))
    }

    /// Builds the objective from parsed records of uniform `width`:
    /// the constant `bias` word is appended to every record, then the
    /// target column is split off.  The feature count of the result is
    /// exactly `width` (the record's features plus the bias, minus the
    /// target).
    pub fn from_records(records: &Vec<Vec<u64>>, width: usize, bias: u64) -> (r: Result<
        Objective,
        Error,
    >)
        requires
            width < usize::MAX,
        ensures
            match r {
                Ok(o) => {
                    &&& width >= 1
                    &&& forall|i: int|
                        0 <= i < records@.len() ==> (#[trigger] records@[i])@.len() == width
                    &&& o.wf()
                    &&& o.x.spec_rows() == records@.len()
                    &&& o.x@.len() == records@.len()
                    &&& o.spec_feature_count() == width
                    &&& forall|i: int|
                        0 <= i < records@.len() ==> o.y@[i] == (#[trigger] records@[i])@[0]
                    &&& forall|i: int|
                        0 <= i < records@.len() ==> #[trigger] o.x@[i] == records@[i]@.skip(
                            1,
                        ).push(bias)
                },
                Err(e) => {
                    &&& e matches Error::Shape { .. }
                    &&& (width < 1 || exists|i: int|
                        0 <= i < records@.len() && (#[trigger] records@[i])@.len() != width)
                },
            },
    {
        if width < 1 {
            return Err(Error::Shape { expected: 1, got: width });
        }
        let m = match Matrix::from_rows(records, width, bias) {
            Ok(m) => m,
            Err(e) => {
                return Err(e);
            },
        };
        let ghost gm = m@;
        let ghost gcols = m.spec_cols();
        let o = match Objective::from_matrix(m) {
            Ok(o) => o,
            Err(e) => {
                return Err(e);
            },
        };
        proof {
            assert forall|i: int|
                0 <= i < records@.len() implies o.y@[i] == (#[trigger] records@[i])@[0]
                && o.x@[i] == records@[i]@.skip(1).push(bias) by {
                assert(gm[i] == records@[i]@.push(bias));
                assert(o.y@[i] == gm[i][0]);
                assert(o.x@[i] == gm[i].subrange(1, gcols as int));
                assert(o.x@[i] =~= records@[i]@.skip(1).push(bias));
            }
        }
        Ok(o)
    }

    /// Features per observation, the bias column included.
    pub fn feature_count(&self) -> (r: usize)
        ensures
            r == self.spec_feature_count(),
    {
        self.x.cols()
    }

    /// Number of observations.
    pub fn records(&self) -> (r: usize)
        ensures
            r == self.x.spec_rows(),
    {
        self.x.rows()
    }

    /// Dimension gate for cost and gradient evaluation: a parameter
    /// vector is usable exactly when its length equals the feature
    /// count; any other length is the dimension error, never a crash.
    pub fn check_params(&self, params_len: usize) -> (r: Result<(), Error>)
        ensures
            r is Ok <==> params_len == self.spec_feature_count(),
            r matches Err(e) ==> (e matches Error::Dimension { expected, got } && expected
                == self.spec_feature_count() && got == params_len),
    {
        let fc = self.feature_count();
        if params_len == fc {
            Ok(())
        } else {
            Err(Error::Dimension { expected: fc, got: params_len })
        }
    }
}

/// The packaged outcome of a fit: counts from the objective and the
/// fitted parameters split into coefficients and intercept.
pub struct Report {
    /// Features per observation, the bias column included.
    pub features: usize,
    /// Number of observations fitted.
    pub records: usize,
    /// Fitted coefficients, ordered to match the feature columns.
    pub coefficients: Vec<u64>,
    /// Fitted intercept (the weight paired with the bias column).
    pub intercept: u64,
}

/// Findings from an optimization run: the fitted parameter vector and
/// a borrow of the objective it was derived from.  The borrow keeps
/// the parameters and their feature ordering together for the rest of
/// their life.
pub struct Findings<'a> {
    /// The full fitted parameter vector, intercept weight last.
    pub all_betas: Vec<u64>,
    /// The fitted parameters save the last: one weight per feature.
    pub coefficients: Vec<u64>,
    /// The last fitted parameter: the weight of the bias column.
    pub intercept: u64,
    /// The objective the parameters were fitted against.
    pub objective: &'a Objective,
}

impl<'a> Findings<'a> {
    /// The parameter vector matches the objective's feature count, and
    /// coefficients and intercept are exactly its split.
    pub open spec fn wf(self) -> bool {
        &&& self.all_betas@.len() == self.objective.spec_feature_count()
        &&& self.all_betas@.len() >= 1
        &&& self.coefficients@ == self.all_betas@.drop_last()
        &&& self.intercept == self.all_betas@.last()
    }

    /// Pairs a fitted parameter vector with its objective.  A vector
    /// of the wrong length is the dimension error; an objective with
    /// no features at all leaves no slot for the intercept and is a
    /// shape error.
    pub fn new(all_betas: Vec<u64>, objective: &'a Objective) -> (r: Result<Findings<'a>, Error>)
        ensures
            match r {
                Ok(f) => {
                    &&& all_betas@.len() == objective.spec_feature_count()
                    &&& all_betas@.len() >= 1
                    &&& f.wf()
                    &&& f.all_betas@ == all_betas@
                    &&& f.objective == objective
                },
                Err(e) => {
                    match e {
                        Error::Dimension { expected, got } => {
                            &&& all_betas@.len() != objective.spec_feature_count()
                            &&& expected == objective.spec_feature_count()
                            &&& got == all_betas@.len()
                        },
                        Error::Shape { .. } => {
                            &&& all_betas@.len() == objective.spec_feature_count()
                            &&& all_betas@.len() < 1
                        },
                        _ => false,
                    }
                },
            },
    {
        let fc = objective.feature_count();
        let n = all_betas.len();
        if n != fc {
            return Err(Error::Dimension { expected: fc, got: n });
        }
        if n < 1 {
            return Err(Error::Shape { expected: 1, got: 0 });
        }
        let coefficients = copy_words(&all_betas, n - 1);
        let intercept = all_betas[n - 1];
        proof {
            assert(all_betas@.subrange(0, n - 1 as int) =~= all_betas@.drop_last());
        }
        Ok(Findings { all_betas, coefficients, intercept, objective })
    }

    /// Packages the fitted outcome.  The accuracy score over
    /// predictions is the numeric caller's, computed from the score
    /// counts; everything counted here comes verified from the data.
    pub fn report(&self) -> (r: Report)
        requires
            self.wf(),
        ensures
            r.features == self.objective.spec_feature_count(),
            r.records == self.objective.x.spec_rows(),
            r.coefficients@ == self.all_betas@.drop_last(),
            r.intercept == self.all_betas@.last(),
    {
        let features = self.objective.feature_count();
        let records = self.objective.records();
        let coefficients = copy_words(&self.coefficients, self.coefficients.len());
        proof {
            assert(self.coefficients@.subrange(0, self.coefficients@.len() as int)
                =~= self.coefficients@);
        }
        Report { features, records, coefficients, intercept: self.intercept }
    }
}

} // verus!
