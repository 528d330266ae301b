use vstd::prelude::*;

verus! {

/// A dense row-major matrix of `rows` by `cols` cells.
#[derive(Debug, Clone, Default)]
pub struct Matrix<T> {
    data: Vec<T>,
    rows: usize,
    cols: usize,
}

impl<T> Matrix<T> {
    /// The cells, row after row.
    pub closed spec fn cells(&self) -> Seq<T> {
        self.data@
    }

    pub closed spec fn num_rows(&self) -> nat {
        self.rows as nat
    }

    pub closed spec fn num_cols(&self) -> nat {
        self.cols as nat
    }

    /// Every matrix holds exactly one cell per (row, column) pair.
    pub closed spec fn wf(&self) -> bool {
        self.data@.len() == self.rows as int * self.cols as int
            && self.rows as int * self.cols as int <= usize::MAX
    }

    /// Position of the cell at `row`, `col` in `cells()`.
    pub open spec fn cell_index(&self, row: int, col: int) -> int {
        row * self.num_cols() + col
    }

    pub open spec fn in_bounds(&self, row: int, col: int) -> bool {
        0 <= row < self.num_rows() && 0 <= col < self.num_cols()
    }
}

impl<T: Clone + Default> Matrix<T> {
    /// A `rows` by `cols` matrix whose every cell holds `T::default()`.
    pub fn new(rows: usize, cols: usize) -> (r: Self)
        requires
            rows * cols <= usize::MAX,
        ensures
            r.wf(),
            r.num_rows() == rows,
            r.num_cols() == cols,
            r.cells().len() == rows * cols,
            forall|i: int| 0 <= i < r.cells().len() ==> call_ensures(T::default, (), #[trigger] r.cells()[i]),
    {
        let n: usize = rows * cols;
        let mut data: Vec<T> = Vec::new();
        let mut i: usize = 0;
        while i < n
            invariant
                i <= n,
                data@.len() == i,
                forall|j: int| 0 <= j < i ==> call_ensures(T::default, (), #[trigger] data@[j]),
            decreases n - i,
        {
            let d = T::default();
            data.push(d);
            i = i + 1;
        }
        Matrix { data, rows, cols }
    }

    /// The same as `new`.
    pub fn default(rows: usize, cols: usize) -> (r: Self)
        requires
            rows * cols <= usize::MAX,
        ensures
            r.wf(),
            r.num_rows() == rows,
            r.num_cols() == cols,
            r.cells().len() == rows * cols,
            forall|i: int| 0 <= i < r.cells().len() ==> call_ensures(T::default, (), #[trigger] r.cells()[i]),
    {
        Matrix::new(rows, cols)
    }

    /// The cell at `row`, `col`, or `None` when either lies outside the matrix.
    pub fn get(&self, row: usize, col: usize) -> (r: Option<&T>)
        requires
            self.wf(),
        ensures
            r.is_some() == self.in_bounds(row as int, col as int),
            r matches Some(v) ==> *v == self.cells()[self.cell_index(row as int, col as int)],
    {
        if row < self.rows && col < self.cols {
            proof {
                lemma_cell_in_range(row as int, col as int, self.rows as int, self.cols as int);
            }
            Some(&self.data[row * self.cols + col])
        } else {
            None
        }
    }

    /// Writes `value` into the cell at `row`, `col`; fails, leaving the matrix
    /// unchanged, when either lies outside the matrix.
    pub fn set(&mut self, row: usize, col: usize, value: T) -> (r: Result<(), String>)
        requires
            old(self).wf(),
        ensures
            final(self).wf(),
            final(self).num_rows() == old(self).num_rows(),
            final(self).num_cols() == old(self).num_cols(),
            r.is_ok() == old(self).in_bounds(row as int, col as int),
            r.is_ok() ==> final(self).cells() == old(self).cells().update(
                old(self).cell_index(row as int, col as int),
                value,
            ),
            r.is_err() ==> final(self).cells() == old(self).cells(),
            r matches Err(msg) ==> msg@ == "Index out of bounds"@,
    {
        if row < self.rows && col < self.cols {
            proof {
                lemma_cell_in_range(row as int, col as int, self.rows as int, self.cols as int);
            }
            let k: usize = row * self.cols + col;
            self.data.set(k, value);
            Ok(())
        } else {
            Err(String::from_str("Index out of bounds"))
        }
    }
}

proof fn lemma_cell_in_range(row: int, col: int, rows: int, cols: int)
    requires
        0 <= row < rows,
        0 <= col < cols,
    ensures
        0 <= row * cols + col < rows * cols,
{
    assert(row * cols + col < rows * cols) by (nonlinear_arith)
        requires
            0 <= row < rows,
            0 <= col < cols,
    ;
    assert(0 <= row * cols) by (nonlinear_arith)
        requires
            0 <= row,
            0 <= col < cols,
    ;
}

} // verus!
