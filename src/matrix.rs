use vstd::prelude::*;

verus! {

/// A dense two-dimensional matrix stored row by row.
pub struct Matrix<T> {
    rows: usize,
    cols: usize,
    data: Vec<T>,
}

/// `i * cols + j` addresses a cell inside a `rows x cols` row-major buffer.
proof fn lemma_cell_in_bounds(i: int, j: int, rows: int, cols: int)
    requires
        0 <= i < rows,
        0 <= j < cols,
    ensures
        0 <= i * cols + j < rows * cols,
{
    assert(0 <= i * cols) by (nonlinear_arith)
        requires
            0 <= i,
            0 <= cols,
    ;
    assert(i * cols + j < rows * cols) by (nonlinear_arith)
        requires
            0 <= i < rows,
            0 <= j < cols,
    ;
}

impl<T> Matrix<T> {
    /// Number of rows.
    pub closed spec fn num_rows(&self) -> nat {
        self.rows as nat
    }

    /// Number of columns.
    pub closed spec fn num_cols(&self) -> nat {
        self.cols as nat
    }

    /// The element at row `i`, column `j`.
    pub closed spec fn at(&self, i: int, j: int) -> T {
        self.data@[i * self.cols + j]
    }

    /// The buffer holds exactly one element per cell.
    pub closed spec fn wf(&self) -> bool {
        self.data@.len() == self.rows * self.cols
    }

    /// Builds a `rows x cols` matrix from its elements in row-major order.
    /// Fails, handing nothing back, when `data` does not hold exactly
    /// `rows * cols` elements.
    pub fn from_shape_vec(rows: usize, cols: usize, data: Vec<T>) -> (r: Option<Self>)
        ensures
            r is Some <==> data@.len() == rows * cols,
            r matches Some(m) ==> {
                &&& m.wf()
                &&& m.num_rows() == rows
                &&& m.num_cols() == cols
                &&& forall|i: int, j: int|
                    0 <= i < rows && 0 <= j < cols ==> #[trigger] m.at(i, j) == data@[i * cols
                        + j]
            },
    {
        let len = data.len();
        match rows.checked_mul(cols) {
            Some(n) => {
                if n == len {
                    Some(Matrix { rows, cols, data })
                } else {
                    None
                }
            },
            None => None,
        }
    }

    /// `(rows, cols)`.
    pub fn dim(&self) -> (r: (usize, usize))
        ensures
            r.0 == self.num_rows(),
            r.1 == self.num_cols(),
    {
        (self.rows, self.cols)
    }

    /// The element at row `i`, column `j`.
    pub fn get(&self, i: usize, j: usize) -> (r: &T)
        requires
            self.wf(),
            i < self.num_rows(),
            j < self.num_cols(),
        ensures
            *r == self.at(i as int, j as int),
    {
        let n = self.data.len();
        proof {
            lemma_cell_in_bounds(i as int, j as int, self.rows as int, self.cols as int);
        }
        &self.data[i * self.cols + j]
    }
}

/// The anti-diagonal of a `rows x cols` matrix read from the bottom-left
/// corner upwards and to the right: `[rows-1, 0], [rows-2, 1], ...`, as many
/// elements as the smaller dimension.
pub open spec fn anti_diagonal<T>(m: Matrix<T>) -> Seq<T> {
    let len = if m.num_rows() < m.num_cols() { m.num_rows() } else { m.num_cols() };
    Seq::new(len, |k: int| m.at(m.num_rows() - 1 - k, k))
}

/// Extracts the anti-diagonal of `arr`, starting at its bottom-left corner and
/// walking up and to the right.
pub fn extract_anti_diagonal_rect2<T: Copy>(arr: &Matrix<T>) -> (r: Vec<T>)
    requires
        arr.wf(),
    ensures
        r@ == anti_diagonal(*arr),
{
    let (nrows, ncols) = arr.dim();
    let len: usize = if nrows < ncols { nrows } else { ncols };
    let mut numbers: Vec<T> = Vec::new();
    let mut k: usize = 0;
    while k < len
        invariant
            arr.wf(),
            nrows == arr.num_rows(),
            ncols == arr.num_cols(),
            len <= nrows,
            len <= ncols,
            k <= len,
            numbers@ =~= anti_diagonal(*arr).subrange(0, k as int),
        decreases len - k,
    {
        let v = *arr.get(nrows - k - 1, k);
        numbers.push(v);
        k += 1;
    }
    numbers
}

} // verus!
