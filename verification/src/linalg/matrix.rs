//! Host-side matrix values.
//!
//! A matrix is a flat, row-major vector of 32-bit element words together with
//! its row and column counts.  The engine never interprets an element word:
//! arithmetic on elements is the compute device's job (device kernels read the
//! words as IEEE-754 single-precision values), while everything the engine
//! itself decides — lengths, shapes, indexing — is over the counts alone and
//! is verified here.

use vstd::prelude::*;

use crate::linalg::err::LAError;

verus! {

/// Mathematical model of a [`Matrix`]: the element words in row-major order
/// plus the two dimension counts.
#[verifier::ext_equal]
pub ghost struct MatrixView {
    pub data: Seq<u32>,
    pub rows: nat,
    pub cols: nat,
}

impl MatrixView {
    /// A well-formed matrix stores exactly one word per cell, and its
    /// element count is addressable on the host.
    pub open spec fn wf(self) -> bool {
        &&& self.data.len() == self.rows * self.cols
        &&& self.data.len() <= usize::MAX
    }

    /// The element word at row `r`, column `c`.
    pub open spec fn ent(self, r: int, c: int) -> u32 {
        self.data[r * self.cols + c]
    }
}

/// Row-major matrix of 32-bit element words with fixed dimensions.
///
/// The element count always equals `rows * cols`; every constructor and
/// mutator checks this before touching the data.
#[derive(Debug)]
pub struct Matrix {
    data: Vec<u32>,
    rows: usize,
    cols: usize,
}

impl View for Matrix {
    type V = MatrixView;

    closed spec fn view(&self) -> MatrixView {
        MatrixView { data: self.data@, rows: self.rows as nat, cols: self.cols as nat }
    }
}

/// In a row-major layout of an `nrows` by `ncols` matrix, a cell's linear
/// index lies strictly below the element count.
pub proof fn lemma_row_major_index(r: int, c: int, nrows: int, ncols: int)
    requires
        0 <= r < nrows,
        0 <= c < ncols,
    ensures
        0 <= r * ncols + c < nrows * ncols,
{
    assert(0 <= r * ncols + c < nrows * ncols) by (nonlinear_arith)
        requires
            0 <= r < nrows,
            0 <= c < ncols,
    ;
}

impl Clone for Matrix {
    /// Clones the words and keeps the dimensions.
    fn clone(&self) -> (res: Self)
        ensures
            res@ == self@,
    {
        let res = Matrix { data: self.data.clone(), rows: self.rows, cols: self.cols };
        proof {
            assert(res.data@ =~= self.data@);
        }
        res
    }
}

impl Matrix {
    /// Creates a matrix from row-major data, checking that the element count
    /// matches the requested dimensions.
    pub fn new(input_data: Vec<u32>, rows: usize, cols: usize) -> (r: Result<Matrix, LAError>)
        ensures
            match r {
                Ok(m) => {
                    &&& input_data@.len() == rows * cols
                    &&& m@ == (MatrixView { data: input_data@, rows: rows as nat, cols: cols as nat })
                    &&& m@.wf()
                },
                Err(e) => {
                    &&& e == LAError::SizeError
                    &&& input_data@.len() != rows * cols
                },
            },
    {
        let vec_len = input_data.len();
        match rows.checked_mul(cols) {
            Some(comp_len) => {
                if vec_len == comp_len {
                    Ok(Matrix { data: input_data, rows, cols })
                } else {
                    Err(LAError::SizeError)
                }
            },
            None => Err(LAError::SizeError),
        }
    }

    /// A zero-filled matrix of the given dimensions, as a device buffer is
    /// first allocated.
    pub fn zeros(rows: usize, cols: usize) -> (r: Result<Matrix, LAError>)
        ensures
            match r {
                Ok(m) => {
                    &&& rows * cols <= usize::MAX
                    &&& m@ == (MatrixView {
                        data: Seq::new((rows * cols) as nat, |i: int| 0u32),
                        rows: rows as nat,
                        cols: cols as nat,
                    })
                    &&& m@.wf()
                },
                Err(e) => {
                    &&& e == LAError::SizeError
                    &&& rows * cols > usize::MAX
                },
            },
    {
        match rows.checked_mul(cols) {
            Some(comp_len) => {
                let mut data: Vec<u32> = Vec::new();
                let mut i: usize = 0;
                while i < comp_len
                    invariant
                        i <= comp_len,
                        data@.len() == i,
                        forall|k: int| 0 <= k < i ==> data@[k] == 0u32,
                    decreases comp_len - i,
                {
                    data.push(0u32);
                    i += 1;
                }
                proof {
                    assert(data@ =~= Seq::new((rows * cols) as nat, |k: int| 0u32));
                }
                Ok(Matrix { data, rows, cols })
            },
            None => Err(LAError::SizeError),
        }
    }

    /// The number of rows.
    pub fn get_rows(&self) -> (r: usize)
        ensures
            r == self@.rows,
    {
        self.rows
    }

    /// The number of columns.
    pub fn get_cols(&self) -> (r: usize)
        ensures
            r == self@.cols,
    {
        self.cols
    }

    /// Reinterprets the stored words under new dimensions with the same
    /// element count; the data itself is untouched.
    pub fn resize(&mut self, new_rows: usize, new_cols: usize) -> (r: Result<(), LAError>)
        ensures
            match r {
                Ok(()) => {
                    &&& old(self)@.data.len() == new_rows * new_cols
                    &&& final(self)@ == (MatrixView {
                        data: old(self)@.data,
                        rows: new_rows as nat,
                        cols: new_cols as nat,
                    })
                },
                Err(e) => {
                    &&& e == LAError::ResizeError
                    &&& old(self)@.data.len() != new_rows * new_cols
                    &&& final(self)@ == old(self)@
                },
            },
    {
        let vec_len = self.data.len();
        match new_rows.checked_mul(new_cols) {
            Some(comp_len) => {
                if vec_len == comp_len {
                    self.rows = new_rows;
                    self.cols = new_cols;
                    Ok(())
                } else {
                    Err(LAError::ResizeError)
                }
            },
            None => Err(LAError::ResizeError),
        }
    }

    /// A copy of the element words in row-major order.
    pub fn get_data(&self) -> (r: Vec<u32>)
        ensures
            r@ == self@.data,
    {
        let r = self.data.clone();
        proof {
            assert(r@ =~= self.data@);
        }
        r
    }

    /// Replaces the element words, checking that the new data has one word
    /// per cell of the current dimensions.
    pub fn update_data(&mut self, new_data: Vec<u32>) -> (r: Result<(), LAError>)
        requires
            old(self)@.wf(),
        ensures
            final(self)@.wf(),
            match r {
                Ok(()) => {
                    &&& new_data@.len() == old(self)@.rows * old(self)@.cols
                    &&& final(self)@ == (MatrixView {
                        data: new_data@,
                        rows: old(self)@.rows,
                        cols: old(self)@.cols,
                    })
                },
                Err(e) => {
                    &&& e == LAError::DataUpdateError
                    &&& new_data@.len() != old(self)@.rows * old(self)@.cols
                    &&& final(self)@ == old(self)@
                },
            },
    {
        if new_data.len() == self.data.len() {
            self.data = new_data;
            Ok(())
        } else {
            Err(LAError::DataUpdateError)
        }
    }

    /// The element word at `(row_idx, col_idx)`.
    pub fn at(&self, row_idx: usize, col_idx: usize) -> (r: u32)
        requires
            self@.wf(),
            row_idx < self@.rows,
            col_idx < self@.cols,
        ensures
            r == self@.ent(row_idx as int, col_idx as int),
    {
        let len = self.data.len();
        proof {
            lemma_row_major_index(
                row_idx as int,
                col_idx as int,
                self@.rows as int,
                self@.cols as int,
            );
            assert(row_idx * self@.cols + col_idx < len);
        }
        self.data[row_idx * self.cols + col_idx]
    }

    /// The selected row as a vector of `cols` words.
    pub fn row(&self, row_idx: usize) -> (r: Result<Vec<u32>, LAError>)
        requires
            self@.wf(),
        ensures
            match r {
                Ok(v) => {
                    &&& row_idx < self@.rows
                    &&& v@.len() == self@.cols
                    &&& forall|j: int|
                        0 <= j < self@.cols ==> v@[j] == self@.ent(row_idx as int, j)
                },
                Err(e) => {
                    &&& e == LAError::IndexError
                    &&& row_idx >= self@.rows
                },
            },
    {
        if row_idx >= self.rows {
            return Err(LAError::IndexError);
        }

        let mut output_row: Vec<u32> = Vec::new();
        let mut j: usize = 0;
        while j < self.cols
            invariant
                self@.wf(),
                row_idx < self@.rows,
                j <= self@.cols,
                output_row@.len() == j,
                forall|k: int| 0 <= k < j ==> output_row@[k] == self@.ent(row_idx as int, k),
            decreases self@.cols - j,
        {
            let word = self.at(row_idx, j);
            output_row.push(word);
            j += 1;
        }
        Ok(output_row)
    }

    /// The selected column as a vector of `rows` words.
    pub fn col(&self, col_idx: usize) -> (r: Result<Vec<u32>, LAError>)
        requires
            self@.wf(),
        ensures
            match r {
                Ok(v) => {
                    &&& col_idx < self@.cols
                    &&& v@.len() == self@.rows
                    &&& forall|i: int|
                        0 <= i < self@.rows ==> v@[i] == self@.ent(i, col_idx as int)
                },
                Err(e) => {
                    &&& e == LAError::IndexError
                    &&& col_idx >= self@.cols
                },
            },
    {
        if col_idx >= self.cols {
            return Err(LAError::IndexError);
        }

        let mut output_col: Vec<u32> = Vec::new();
        let mut i: usize = 0;
        while i < self.rows
            invariant
                self@.wf(),
                col_idx < self@.cols,
                i <= self@.rows,
                output_col@.len() == i,
                forall|k: int| 0 <= k < i ==> output_col@[k] == self@.ent(k, col_idx as int),
            decreases self@.rows - i,
        {
            let word = self.at(i, col_idx);
            output_col.push(word);
            i += 1;
        }
        Ok(output_col)
    }

    /// The transpose: a `cols` by `rows` matrix with the axes swapped.
    pub fn transpose(&self) -> (t: Matrix)
        requires
            self@.wf(),
        ensures
            t@.wf(),
            t@.rows == self@.cols,
            t@.cols == self@.rows,
            forall|i: int, j: int|
                0 <= i < self@.cols && 0 <= j < self@.rows ==> t@.ent(i, j) == self@.ent(j, i),
    {
        let mut transpose_data: Vec<u32> = Vec::new();
        let mut tr: usize = 0;
        while tr < self.cols
            invariant
                self@.wf(),
                tr <= self@.cols,
                transpose_data@.len() == tr * self@.rows,
                forall|i: int, j: int|
                    0 <= i < tr && 0 <= j < self@.rows ==> transpose_data@[i * self@.rows + j]
                        == self@.ent(j, i),
            decreases self@.cols - tr,
        {
            let mut tc: usize = 0;
            while tc < self.rows
                invariant
                    self@.wf(),
                    tr < self@.cols,
                    tc <= self@.rows,
                    transpose_data@.len() == tr * self@.rows + tc,
                    forall|i: int, j: int|
                        0 <= i < tr && 0 <= j < self@.rows ==> transpose_data@[i * self@.rows + j]
                            == self@.ent(j, i),
                    forall|j: int|
                        0 <= j < tc ==> transpose_data@[tr * self@.rows + j] == self@.ent(j, tr as int),
                decreases self@.rows - tc,
            {
                let word = self.at(tc, tr);
                transpose_data.push(word);
                proof {
                    assert forall|i: int, j: int|
                        0 <= i < tr && 0 <= j < self@.rows implies #[trigger] transpose_data@[i
                        * self@.rows + j] == self@.ent(j, i) by {
                        lemma_row_major_index(i, j, tr as int, self@.rows as int);
                    };
                }
                tc += 1;
            }
            proof {
                assert((tr + 1) * self@.rows == tr * self@.rows + self@.rows) by (nonlinear_arith);
            }
            tr += 1;
        }
        proof {
            assert(transpose_data@.len() == self@.cols * self@.rows);
            assert(self@.cols * self@.rows == (self@.cols as int) * (self@.rows as int))
                by (nonlinear_arith);
        }
        let data_len = transpose_data.len();
        let t = Matrix { data: transpose_data, rows: self.cols, cols: self.rows };
        proof {
            assert(t@.wf()) by {
                assert(t@.data.len() == data_len);
                assert((self@.cols as int) * (self@.rows as int) == t@.rows * t@.cols)
                    by (nonlinear_arith)
                    requires
                        t@.rows == self@.cols,
                        t@.cols == self@.rows,
                ;
            }
        }
        t
    }
}

} // verus!
