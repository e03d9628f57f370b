use vstd::prelude::*;

verus! {

/// A matrix of modules of a QR code, `true` for a dark module, held in an
/// `ndarray` two-dimensional array.
#[verifier::external_body]
pub struct BitMatrix {
    cells: ndarray::Array2<bool>,
}

/// The cells of a matrix, row by row.
pub uninterp spec fn bit_matrix_rows(m: BitMatrix) -> Seq<Seq<bool>>;

/// Rows that all have `ncols` cells.
pub open spec fn rows_have_len(rows: Seq<Seq<bool>>, ncols: int) -> bool {
    forall|i: int| 0 <= i < rows.len() ==> #[trigger] rows[i].len() == ncols
}

/// The rows of a vector of vectors, as sequences.
pub open spec fn rows_view(rows: Seq<Vec<bool>>) -> Seq<Seq<bool>> {
    Seq::new(rows.len(), |i: int| rows[i]@)
}

/// The length of the first row, or zero without rows.
pub open spec fn first_row_len(rows: Seq<Seq<bool>>) -> int {
    if rows.len() == 0 {
        0
    } else {
        rows[0].len() as int
    }
}

/// A shape that an `ndarray` matrix can take.
pub open spec fn shape_fits(nrows: int, ncols: int) -> bool {
    nrows <= isize::MAX && ncols <= isize::MAX && nrows * ncols <= isize::MAX
}

proof fn lemma_row_major_index(a: int, b: int, r: int, ncols: int)
    by (nonlinear_arith)
    requires
        0 <= a < r,
        0 <= b < ncols,
    ensures
        0 <= a * ncols + b < r * ncols,
{
}

impl BitMatrix {
    /// `ndarray`'s `Array2::from_shape_vec` with the shape `(nrows, ncols)` in the
    /// default (row-major) order. Its source returns `Ok` when the product of the
    /// nonzero axis lengths is at most `isize::MAX` and equals the length of
    /// `cells`. Claimed: row `i` of the matrix holds `cells[i * ncols .. (i + 1) * ncols]`.
    #[verifier::external_body]
    fn from_row_major(nrows: usize, ncols: usize, cells: Vec<bool>) -> (m: BitMatrix)
        requires
            nrows * ncols == cells.len(),
            nrows <= isize::MAX,
            ncols <= isize::MAX,
            cells.len() <= isize::MAX,
        ensures
            bit_matrix_rows(m) == Seq::new(
                nrows as nat,
                |i: int| Seq::new(ncols as nat, |j: int| cells@[i * ncols + j]),
            ),
    {
        BitMatrix { cells: ndarray::Array2::from_shape_vec((nrows, ncols), cells).unwrap() }
    }

    /// `ndarray`'s `nrows`, the length of the first axis.
    /// Claimed: it is the number of rows of `bit_matrix_rows`.
    #[verifier::external_body]
    pub fn nrows(&self) -> (r: usize)
        ensures
            r == bit_matrix_rows(*self).len(),
    {
        self.cells.nrows()
    }

    /// `ndarray`'s `ncols`, the length of the second axis.
    /// Claimed: every row of `bit_matrix_rows` has that many cells.
    #[verifier::external_body]
    pub fn ncols(&self) -> (r: usize)
        ensures
            rows_have_len(bit_matrix_rows(*self), r as int),
    {
        self.cells.ncols()
    }

    /// `ndarray`'s indexing by `[row, column]`, which panics out of bounds.
    /// Claimed: it reads the cell of `bit_matrix_rows` at that row and column.
    #[verifier::external_body]
    pub fn get(&self, i: usize, j: usize) -> (r: bool)
        requires
            i < bit_matrix_rows(*self).len(),
            j < bit_matrix_rows(*self)[i as int].len(),
        ensures
            r == bit_matrix_rows(*self)[i as int][j as int],
    {
        self.cells[[i, j]]
    }

    /// The matrix whose rows are `rows`, if they all have the same length and
    /// the shape fits an `ndarray` matrix; `None` otherwise.
    pub fn from_rows(rows: &Vec<Vec<bool>>) -> (m: Option<BitMatrix>)
        ensures
            m is Some <==> rows_have_len(rows_view(rows@), first_row_len(rows_view(rows@)))
                && shape_fits(rows.len() as int, first_row_len(rows_view(rows@))),
            m matches Some(m) ==> bit_matrix_rows(m) == rows_view(rows@),
    {
        let nrows: usize = rows.len();
        let ncols: usize = if nrows == 0 {
            0
        } else {
            rows[0].len()
        };
        let ghost view = rows_view(rows@);
        assert(ncols == first_row_len(view));
        let mut i: usize = 0;
        while i < nrows
            invariant
                nrows == rows.len(),
                view == rows_view(rows@),
                ncols == first_row_len(view),
                i <= nrows,
                forall|k: int| 0 <= k < i ==> #[trigger] rows@[k]@.len() == ncols,
            decreases nrows - i,
        {
            if rows[i].len() != ncols {
                proof {
                    assert(view[i as int].len() != ncols);
                }
                return None;
            }
            i += 1;
        }
        assert(rows_have_len(view, ncols as int));
        let total: Option<usize> = nrows.checked_mul(ncols);
        if total.is_none() || nrows > isize::MAX as usize || ncols > isize::MAX as usize {
            return None;
        }
        let size: usize = total.unwrap();
        if size > isize::MAX as usize {
            return None;
        }
        let mut cells: Vec<bool> = Vec::new();
        let mut r: usize = 0;
        while r < nrows
            invariant
                nrows == rows.len(),
                forall|k: int| 0 <= k < nrows ==> #[trigger] rows@[k]@.len() == ncols,
                size == nrows * ncols,
                r <= nrows,
                cells.len() == r * ncols,
                forall|a: int, b: int|
                    0 <= a < r && 0 <= b < ncols ==> cells@[a * ncols + b] == #[trigger] rows@[a]@[b],
            decreases nrows - r,
        {
            let mut c: usize = 0;
            while c < ncols
                invariant
                    nrows == rows.len(),
                    forall|k: int| 0 <= k < nrows ==> #[trigger] rows@[k]@.len() == ncols,
                    size == nrows * ncols,
                    r < nrows,
                    c <= ncols,
                    cells.len() == r * ncols + c,
                    forall|a: int, b: int|
                        0 <= a < r && 0 <= b < ncols ==> cells@[a * ncols + b] == #[trigger] rows@[a]@[b],
                    forall|b: int| 0 <= b < c ==> cells@[r * ncols + b] == #[trigger] rows@[r as int]@[b],
                decreases ncols - c,
            {
                proof {
                    lemma_row_major_index(r as int, c as int, nrows as int, ncols as int);
                }
                let ghost before = cells@;
                cells.push(rows[r][c]);
                proof {
                    assert forall|a: int, b: int| 0 <= a < r && 0 <= b < ncols implies cells@[a
                        * ncols + b] == #[trigger] rows@[a]@[b] by {
                        lemma_row_major_index(a, b, r as int, ncols as int);
                        assert(cells@[a * ncols + b] == before[a * ncols + b]);
                    }
                }
                c += 1;
            }
            proof {
                assert((r + 1) * ncols == r * ncols + ncols) by (nonlinear_arith);
                assert forall|a: int, b: int| 0 <= a < r + 1 && 0 <= b < ncols implies cells@[a
                    * ncols + b] == #[trigger] rows@[a]@[b] by {
                    if a == r {
                        assert(cells@[r * ncols + b] == rows@[r as int]@[b]);
                    }
                }
            }
            r += 1;
        }
        let m: BitMatrix = BitMatrix::from_row_major(nrows, ncols, cells);
        proof {
            assert forall|i: int| 0 <= i < nrows implies #[trigger] bit_matrix_rows(m)[i] =~= view[i] by {
                assert forall|j: int| 0 <= j < ncols implies bit_matrix_rows(m)[i][j] == view[i][j] by {
                    assert(cells@[i * ncols + j] == rows@[i]@[j]);
                }
            }
            assert(bit_matrix_rows(m) =~= view);
        }
        Some(m)
    }

    /// The rows of the matrix, each as a vector of its cells.
    pub fn to_rows(&self) -> (rows: Vec<Vec<bool>>)
        ensures
            rows_view(rows@) == bit_matrix_rows(*self),
    {
        let nrows: usize = self.nrows();
        let ncols: usize = self.ncols();
        let ghost cells = bit_matrix_rows(*self);
        let mut rows: Vec<Vec<bool>> = Vec::new();
        let mut i: usize = 0;
        while i < nrows
            invariant
                cells == bit_matrix_rows(*self),
                nrows == cells.len(),
                rows_have_len(cells, ncols as int),
                i <= nrows,
                rows.len() == i,
                forall|k: int| 0 <= k < i ==> #[trigger] rows@[k]@ == cells[k],
            decreases nrows - i,
        {
            let mut row: Vec<bool> = Vec::new();
            let mut j: usize = 0;
            while j < ncols
                invariant
                    cells == bit_matrix_rows(*self),
                    nrows == cells.len(),
                    rows_have_len(cells, ncols as int),
                    i < nrows,
                    j <= ncols,
                    row@ =~= cells[i as int].subrange(0, j as int),
                decreases ncols - j,
            {
                assert(cells[i as int].len() == ncols);
                row.push(self.get(i, j));
                j += 1;
            }
            assert(row@ =~= cells[i as int]);
            rows.push(row);
            i += 1;
        }
        assert(rows_view(rows@) =~= cells);
        rows
    }
}

} // verus!
