use vstd::prelude::*;

use crate::bit_matrix::{bit_matrix_rows, rows_have_len, BitMatrix};
use crate::ec::ErrorCorrectionLevel;
use crate::encode::EncodeMode;

verus! {

/// A QR code: its version, the mode its text is encoded in, its level of error
/// correction, and its matrix of modules.
pub struct QrMatrix {
    pub version: u8,
    pub encode_mode: EncodeMode,
    pub error_correction_level: ErrorCorrectionLevel,
    pub matrix: BitMatrix,
}

/// A module as a number: 1 for a dark module, 0 for a light one.
pub open spec fn module_byte(b: bool) -> u8 {
    if b {
        1
    } else {
        0
    }
}

impl QrMatrix {
    /// The matrix row by row, each module as 1 (dark) or 0 (light).
    pub fn to_01_vec(&self) -> (v: Vec<Vec<u8>>)
        ensures
            v.len() == bit_matrix_rows(self.matrix).len(),
            forall|i: int|
                0 <= i < v.len() ==> #[trigger] v@[i]@ == bit_matrix_rows(self.matrix)[i].map_values(
                    |b: bool| module_byte(b),
                ),
    {
        let nrows: usize = self.matrix.nrows();
        let ncols: usize = self.matrix.ncols();
        let ghost cells = bit_matrix_rows(self.matrix);
        let mut v: Vec<Vec<u8>> = Vec::new();
        let mut i: usize = 0;
        while i < nrows
            invariant
                cells == bit_matrix_rows(self.matrix),
                nrows == cells.len(),
                rows_have_len(cells, ncols as int),
                i <= nrows,
                v.len() == i,
                forall|k: int|
                    0 <= k < i ==> #[trigger] v@[k]@ == cells[k].map_values(|b: bool| module_byte(b)),
            decreases nrows - i,
        {
            assert(cells[i as int].len() == ncols);
            let mut v2: Vec<u8> = Vec::new();
            let mut j: usize = 0;
            while j < ncols
                invariant
                    cells == bit_matrix_rows(self.matrix),
                    nrows == cells.len(),
                    cells[i as int].len() == ncols,
                    i < nrows,
                    j <= ncols,
                    v2@ =~= cells[i as int].subrange(0, j as int).map_values(|b: bool| module_byte(b)),
                decreases ncols - j,
            {
                if self.matrix.get(i, j) {
                    v2.push(1);
                } else {
                    v2.push(0);
                }
                j += 1;
            }
            assert(cells[i as int].subrange(0, ncols as int) =~= cells[i as int]);
            v.push(v2);
            i += 1;
        }
        v
    }
}

} // verus!
