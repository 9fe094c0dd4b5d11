//! Row frames and column matrices of trace evaluations.

use vstd::prelude::*;
use crate::felt::Felt;

verus! {

/// A pair of adjacent trace rows (the current row and the next row), either
/// read from the trace or evaluated out of domain.
pub struct EvaluationFrame {
    current: Vec<Felt>,
    next: Vec<Felt>,
}

impl EvaluationFrame {
    /// The current row.
    pub closed spec fn curr(&self) -> Seq<Felt> {
        self.current@
    }

    /// The next row.
    pub closed spec fn nxt(&self) -> Seq<Felt> {
        self.next@
    }

    /// Builds a frame from its two rows.
    pub fn from_rows(current: Vec<Felt>, next: Vec<Felt>) -> (r: EvaluationFrame)
        requires
            current@.len() == next@.len(),
        ensures
            r.curr() == current@,
            r.nxt() == next@,
    {
        EvaluationFrame { current, next }
    }

    #[verifier::type_invariant]
    spec fn type_inv(self) -> bool {
        self.current@.len() == self.next@.len()
    }

    /// The number of columns in each row.
    pub fn num_columns(&self) -> (r: usize)
        ensures
            r == self.curr().len(),
            self.curr().len() == self.nxt().len(),
    {
        proof {
            use_type_invariant(self);
        }
        self.current.len()
    }

    /// The current row's values.
    pub fn current(&self) -> (r: &Vec<Felt>)
        ensures
            r@ == self.curr(),
    {
        &self.current
    }

    /// The next row's values.
    pub fn next(&self) -> (r: &Vec<Felt>)
        ensures
            r@ == self.nxt(),
    {
        &self.next
    }
}

/// A matrix of field elements stored column by column; the main trace
/// segment and auxiliary trace segments are held in this form.
pub struct ColMatrix {
    columns: Vec<Vec<Felt>>,
}

impl ColMatrix {
    /// The columns.
    pub closed spec fn cols(&self) -> Seq<Seq<Felt>> {
        self.columns@.map_values(|c: Vec<Felt>| c@)
    }

    #[verifier::type_invariant]
    spec fn type_inv(self) -> bool {
        forall|i: int|
            0 <= i < self.columns@.len() ==> (#[trigger] self.columns@[i])@.len()
                == self.columns@[0]@.len()
    }

    /// Builds a matrix from equally long columns.
    pub fn new(columns: Vec<Vec<Felt>>) -> (r: ColMatrix)
        requires
            forall|i: int|
                0 <= i < columns@.len() ==> (#[trigger] columns@[i])@.len()
                    == columns@[0]@.len(),
        ensures
            r.cols() == columns@.map_values(|c: Vec<Felt>| c@),
    {
        ColMatrix { columns }
    }

    /// The number of columns.
    pub fn num_cols(&self) -> (r: usize)
        ensures
            r == self.cols().len(),
    {
        self.columns.len()
    }

    /// The number of rows (zero when the matrix has no columns).
    pub fn num_rows(&self) -> (r: usize)
        ensures
            self.cols().len() == 0 ==> r == 0,
            self.cols().len() > 0 ==> r == self.cols()[0].len(),
    {
        if self.columns.len() == 0 {
            0
        } else {
            self.columns[0].len()
        }
    }

    /// One column's values.
    pub fn get_column(&self, idx: usize) -> (r: &Vec<Felt>)
        requires
            idx < self.cols().len(),
        ensures
            r@ == self.cols()[idx as int],
    {
        &self.columns[idx]
    }

    /// One row, read across all columns.
    pub fn read_row(&self, row_idx: usize) -> (r: Vec<Felt>)
        requires
            self.cols().len() > 0,
            row_idx < self.cols()[0].len(),
        ensures
            r@.len() == self.cols().len(),
            forall|c: int| 0 <= c < r@.len() ==> r@[c] == self.cols()[c][row_idx as int],
    {
        proof {
            use_type_invariant(self);
        }
        let mut row: Vec<Felt> = Vec::new();
        let mut c: usize = 0;
        while c < self.columns.len()
            invariant
                c <= self.columns@.len(),
                row@.len() == c,
                row_idx < self.columns@[0]@.len(),
                forall|i: int|
                    0 <= i < self.columns@.len() ==> (#[trigger] self.columns@[i])@.len()
                        == self.columns@[0]@.len(),
                forall|i: int| 0 <= i < c ==> row@[i] == self.cols()[i][row_idx as int],
            decreases self.columns@.len() - c,
        {
            row.push(self.columns[c][row_idx]);
            c = c + 1;
        }
        row
    }
}

} // verus!
