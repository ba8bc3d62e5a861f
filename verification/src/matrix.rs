//! Dense row-major design matrix.
//!
//! Entries are opaque 64-bit scalar words; their numeric meaning is
//! assigned by the caller.  This module verifies layout: every row has
//! the same column count, the bias column is appended to every row,
//! and the target column is split off without disturbing the rest.

use vstd::prelude::*;

verus! {

use crate::errors::Error;
use vstd::arithmetic::div_mod::lemma_fundamental_div_mod;
use vstd::arithmetic::mul::lemma_mul_inequality;

/// The rows of a vector of record vectors, as mathematical sequences.
pub open spec fn rows_view(rs: Seq<Vec<u64>>) -> Seq<Seq<u64>> {
    Seq::new(rs.len(), |i: int| rs[i]@)
}

/// Row `t` of a flat row-major buffer with `cols` columns.
pub open spec fn row_slice(data: Seq<u64>, cols: int, t: int) -> Seq<u64> {
    data.subrange(t * cols, t * cols + cols)
}

/// A rectangular table of scalar words, stored row-major.
pub struct Matrix {
    rows: usize,
    cols: usize,
    data: Vec<Vec<u64>>,
}

impl View for Matrix {
    type V = Seq<Seq<u64>>;

    closed spec fn view(&self) -> Seq<Seq<u64>> {
        rows_view(self.data@)
    }
}

impl Matrix {
    #[verifier::type_invariant]
    closed spec fn inv(self) -> bool {
        &&& self.data@.len() == self.rows
        &&& forall|i: int|
            0 <= i < self.data@.len() ==> (#[trigger] self.data@[i])@.len() == self.cols
    }

    /// Number of rows.
    pub closed spec fn spec_rows(self) -> usize {
        self.rows
    }

    /// Number of columns; every row has exactly this many entries.
    pub closed spec fn spec_cols(self) -> usize {
        self.cols
    }

    /// Number of rows.
    pub fn rows(&self) -> (r: usize)
        ensures
            r == self.spec_rows(),
            r == self@.len(),
    {
        proof {
            use_type_invariant(self);
        }
        self.rows
    }

    /// Number of columns; every row of the abstract table has exactly
    /// this many entries.
    pub fn cols(&self) -> (r: usize)
        ensures
            r == self.spec_cols(),
            forall|i: int| 0 <= i < self@.len() ==> (#[trigger] self@[i]).len() == r,
    {
        proof {
            use_type_invariant(self);
        }
        self.cols
    }

    /// Borrows row `i`.
    pub fn row(&self, i: usize) -> (r: &Vec<u64>)
        requires
            i < self.spec_rows(),
        ensures
            r@ == self@[i as int],
    {
        proof {
            use_type_invariant(self);
        }
        &self.data[i]
    }

    /// Reads the entry in row `i`, column `j`.
    pub fn entry(&self, i: usize, j: usize) -> (r: u64)
        requires
            i < self.spec_rows(),
            j < self.spec_cols(),
        ensures
            r == self@[i as int][j as int],
    {
        proof {
            use_type_invariant(self);
        }
        self.data[i][j]
    }

    /// Builds a matrix from parsed records, appending the constant
    /// `bias` word to every row.  Succeeds exactly when every record
    /// has `width` fields; a ragged record aborts the whole load.
    pub fn from_rows(records: &Vec<Vec<u64>>, width: usize, bias: u64) -> (r: Result<
        Matrix,
        Error,
    >)
        requires
            width < usize::MAX,
        ensures
            match r {
                Ok(m) => {
                    &&& forall|i: int|
                        0 <= i < records@.len() ==> (#[trigger] records@[i])@.len() == width
                    &&& m.spec_rows() == records@.len()
                    &&& m@.len() == records@.len()
                    &&& m.spec_cols() == width + 1
                    &&& forall|i: int|
                        0 <= i < records@.len() ==> #[trigger] m@[i] == records@[i]@.push(bias)
                },
                Err(e) => {
                    &&& e matches Error::Shape { expected, got } && expected == width && got
                        != width
                    &&& exists|i: int|
                        0 <= i < records@.len() && (#[trigger] records@[i])@.len() != width
                },
            },
    {
        let n = records.len();
        let mut data: Vec<Vec<u64>> = Vec::new();
        let mut i: usize = 0;
        while i < n
            invariant
                i <= n,
                n == records@.len(),
                width < usize::MAX,
                data@.len() == i,
                forall|k: int| 0 <= k < i ==> (#[trigger] records@[k])@.len() == width,
                forall|k: int| 0 <= k < i ==> (#[trigger] data@[k])@ == records@[k]@.push(bias),
            decreases n - i,
        {
            let rec = &records[i];
            let w = rec.len();
            if w != width {
                return Err(Error::Shape { expected: width, got: w });
            }
            let mut row: Vec<u64> = Vec::new();
            let mut j: usize = 0;
            while j < width
                invariant
                    j <= width,
                    rec@.len() == width,
                    row@ == rec@.subrange(0, j as int),
                decreases width - j,
            {
                row.push(rec[j]);
                proof {
                    assert(row@ =~= rec@.subrange(0, j + 1 as int));
                }
                j += 1;
            }
            proof {
                assert(row@ =~= rec@);
            }
            row.push(bias);
            data.push(row);
            i += 1;
        }
        let m = Matrix { rows: n, cols: width + 1, data };
        proof {
            assert(forall|k: int| 0 <= k < n ==> (#[trigger] m@[k]) == m.data@[k]@);
        }
        Ok(m)
    }

    /// Builds a matrix from a flat row-major buffer and a row count.
    /// The column count is the exact quotient; a remainder or a zero
    /// row count is a shape error.
    pub fn from_flat(data: &Vec<u64>, rows: usize) -> (r: Result<Matrix, Error>)
        ensures
            match r {
                Ok(m) => {
                    &&& rows > 0
                    &&& data@.len() as int % (rows as int) == 0
                    &&& m.spec_rows() == rows
                    &&& m@.len() == rows
                    &&& m.spec_cols() == data@.len() as int / rows as int
                    &&& m@.flatten() == data@
                    &&& forall|t: int|
                        0 <= t < rows ==> #[trigger] m@[t] == row_slice(
                            data@,
                            data@.len() as int / rows as int,
                            t,
                        )
                },
                Err(e) => {
                    &&& e matches Error::Shape { .. }
                    &&& (rows == 0 || data@.len() as int % (rows as int) != 0)
                },
            },
    {
        let len = data.len();
        if rows == 0 || len % rows != 0 {
            return Err(Error::Shape { expected: rows, got: len });
        }
        let cols = len / rows;
        proof {
            lemma_fundamental_div_mod(len as int, rows as int);
        }
        let mut built: Vec<Vec<u64>> = Vec::new();
        let mut i: usize = 0;
        let mut k: usize = 0;
        while i < rows
            invariant
                i <= rows,
                k == i * cols,
                len == data@.len(),
                len == rows * cols,
                built@.len() == i,
                forall|t: int| 0 <= t < i ==> (#[trigger] built@[t])@.len() == cols,
                forall|t: int|
                    0 <= t < i ==> (#[trigger] built@[t])@ == row_slice(data@, cols as int, t),
                rows_view(built@).flatten() == data@.subrange(0, k as int),
            decreases rows - i,
        {
            proof {
                lemma_mul_inequality(i + 1 as int, rows as int, cols as int);
                assert((i + 1) * cols == i * cols + cols) by (nonlinear_arith);
            }
            let mut row: Vec<u64> = Vec::new();
            let mut j: usize = 0;
            while j < cols
                invariant
                    j <= cols,
                    k + cols <= len,
                    len == data@.len(),
                    row@ == data@.subrange(k as int, k + j as int),
                decreases cols - j,
            {
                row.push(data[k + j]);
                proof {
                    assert(row@ =~= data@.subrange(k as int, k + j + 1 as int));
                }
                j += 1;
            }
            proof {
                assert(row@ == row_slice(data@, cols as int, i as int));
                let ghost old_rows = rows_view(built@);
                assert(rows_view(built@.push(row)) =~= old_rows.push(row@));
                Seq::lemma_flatten_push(old_rows, row@);
                assert(old_rows.push(row@).flatten() =~= data@.subrange(0, k + cols as int));
            }
            built.push(row);
            i += 1;
            k += cols;
        }
        let m = Matrix { rows, cols, data: built };
        proof {
            assert(m@.flatten() =~= data@);
        }
        Ok(m)
    }

    /// Splits off the first column (the target) from the remaining
    /// columns (the features).  Neither side is reordered.
    pub fn split_first_column(&self) -> (r: (Vec<u64>, Matrix))
        requires
            self.spec_cols() >= 1,
        ensures
            r.0@.len() == self.spec_rows(),
            forall|i: int| 0 <= i < self@.len() ==> r.0@[i] == self@[i][0],
            r.1.spec_rows() == self.spec_rows(),
            r.1@.len() == self@.len(),
            r.1.spec_cols() == self.spec_cols() - 1,
            forall|i: int|
                0 <= i < self@.len() ==> #[trigger] r.1@[i] == self@[i].subrange(
                    1,
                    self.spec_cols() as int,
                ),
    {
        proof {
            use_type_invariant(self);
        }
        let n = self.rows;
        let w = self.cols;
        let mut target: Vec<u64> = Vec::new();
        let mut feats: Vec<Vec<u64>> = Vec::new();
        let mut i: usize = 0;
        while i < n
            invariant
                i <= n,
                n == self.spec_rows(),
                w == self.spec_cols(),
                1 <= w,
                self@.len() == n,
                forall|t: int| 0 <= t < n ==> (#[trigger] self@[t]).len() == w,
                target@.len() == i,
                forall|t: int| 0 <= t < i ==> target@[t] == self@[t][0],
                feats@.len() == i,
                forall|t: int| 0 <= t < i ==> (#[trigger] feats@[t])@.len() == w - 1,
                forall|t: int|
                    0 <= t < i ==> (#[trigger] feats@[t])@ == self@[t].subrange(1, w as int),
            decreases n - i,
        {
            let row = self.row(i);
            target.push(row[0]);
            let mut frow: Vec<u64> = Vec::new();
            let mut j: usize = 1;
            while j < w
                invariant
                    1 <= j <= w,
                    row@.len() == w,
                    frow@ == row@.subrange(1, j as int),
                decreases w - j,
            {
                frow.push(row[j]);
                proof {
                    assert(frow@ =~= row@.subrange(1, j + 1 as int));
                }
                j += 1;
            }
            feats.push(frow);
            i += 1;
        }
        let m = Matrix { rows: n, cols: w - 1, data: feats };
        (target, m)
    }
}

} // verus!
