//! The shape of a work item's numbers: vectors, and a matrix as a run of
//! rows. What the numbers are is left to the caller.

use vstd::prelude::*;

verus! {

/// A run of values.
#[derive(Clone, Debug)]
pub struct Vector<T> {
    pub values: Vec<T>,
}

/// A run of rows, which need not be of one length.
#[derive(Clone, Debug)]
pub struct Matrix<T> {
    pub rows: Vec<Vector<T>>,
}

impl<T> Matrix<T> {
    /// The value at `row` and `column`, or `fill` where the row is too short
    /// to hold one.
    pub open spec fn at_or(&self, row: int, column: int, fill: T) -> T {
        if 0 <= column < self.rows@[row].values@.len() {
            self.rows@[row].values@[column]
        } else {
            fill
        }
    }

    /// `other` is this matrix with rows and columns exchanged. It has as
    /// many rows as the first row of this one has values, each as long as
    /// this matrix has rows; a row that is shorter than the first gives
    /// `fill`, and what a row holds beyond the length of the first is left
    /// out. Of an empty matrix it is the empty matrix.
    pub open spec fn transposed_to(&self, other: &Matrix<T>, fill: T) -> bool {
        if self.rows@.len() == 0 {
            other.rows@.len() == 0
        } else {
            &&& other.rows@.len() == self.rows@[0].values@.len()
            &&& forall|column: int|
                0 <= column < other.rows@.len() ==> (#[trigger] other.rows@[column]).values@.len()
                    == self.rows@.len()
            &&& forall|column: int, row: int|
                0 <= column < other.rows@.len() && 0 <= row < self.rows@.len()
                    ==> #[trigger] other.rows@[column].values@[row] == self.at_or(
                    row,
                    column,
                    fill,
                )
        }
    }
}

/// Exchanges the rows and columns of a matrix, with `fill` where a row is
/// shorter than the first.
pub fn transpose_matrix<T: Copy>(matrix: &Matrix<T>, fill: T) -> (transposed: Matrix<T>)
    ensures
        matrix.transposed_to(&transposed, fill),
{
    let mut rows: Vec<Vector<T>> = Vec::new();
    if matrix.rows.len() == 0 {
        return Matrix { rows };
    }
    let height: usize = matrix.rows.len();
    let width: usize = matrix.rows[0].values.len();
    let mut column: usize = 0;
    while column < width
        invariant
            column <= width,
            height == matrix.rows@.len(),
            height > 0,
            width == matrix.rows@[0].values@.len(),
            rows@.len() == column,
            forall|c: int| 0 <= c < column ==> (#[trigger] rows@[c]).values@.len() == height,
            forall|c: int, r: int|
                0 <= c < column && 0 <= r < height ==> #[trigger] rows@[c].values@[r]
                    == matrix.at_or(r, c, fill),
        decreases width - column,
    {
        let mut values: Vec<T> = Vec::new();
        let mut row: usize = 0;
        while row < height
            invariant
                row <= height,
                height == matrix.rows@.len(),
                column < width,
                values@.len() == row,
                forall|r: int| 0 <= r < row ==> #[trigger] values@[r] == matrix.at_or(
                    r,
                    column as int,
                    fill,
                ),
            decreases height - row,
        {
            let source = &matrix.rows[row].values;
            let value = if column < source.len() {
                source[column]
            } else {
                fill
            };
            values.push(value);
            row += 1;
        }
        rows.push(Vector { values });
        column += 1;
    }
    Matrix { rows }
}

} // verus!
