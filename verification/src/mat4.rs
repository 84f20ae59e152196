//! The layout of 4x4 matrices: rows, columns and cells, the row-major and
//! column-major orders, and the matrices that are made of zeros, ones and
//! given words alone. Matrices handed to the device are column-major arrays
//! of sixteen words.

use vstd::prelude::*;
use crate::words::{WORD_ONE, WORD_ZERO};

verus! {

/// A 4x4 matrix of words; `a12` is the cell in row 1, column 2.
#[derive(Debug, Default, Clone, Copy, PartialEq, Eq, Structural)]
pub struct Mat4 {
    pub a00: u32,
    pub a01: u32,
    pub a02: u32,
    pub a03: u32,
    pub a10: u32,
    pub a11: u32,
    pub a12: u32,
    pub a13: u32,
    pub a20: u32,
    pub a21: u32,
    pub a22: u32,
    pub a23: u32,
    pub a30: u32,
    pub a31: u32,
    pub a32: u32,
    pub a33: u32,
}

/// The sixteen words of a matrix read in the other order: what was row by
/// row is column by column, and the other way round.
pub open spec fn spec_transposed(s: Seq<u32>) -> Seq<u32> {
    Seq::new(16, |k: int| s[4 * (k % 4) + k / 4])
}

/// Reading in the other order twice gives back the order one started with.
pub proof fn lemma_transposed_twice(s: Seq<u32>)
    requires
        s.len() == 16,
    ensures
        spec_transposed(spec_transposed(s)) == s,
{
    assert(spec_transposed(spec_transposed(s)) =~= s);
}

impl Mat4 {
    /// The cells row by row.
    pub open spec fn spec_rows(self) -> Seq<u32> {
        seq![
            self.a00,
            self.a01,
            self.a02,
            self.a03,
            self.a10,
            self.a11,
            self.a12,
            self.a13,
            self.a20,
            self.a21,
            self.a22,
            self.a23,
            self.a30,
            self.a31,
            self.a32,
            self.a33,
        ]
    }

    /// The cell in row `r`, column `c`.
    pub open spec fn spec_cell(self, r: int, c: int) -> u32 {
        self.spec_rows()[4 * r + c]
    }

    /// The matrix with ones on the diagonal and zeros elsewhere, row by row.
    pub open spec fn spec_identity() -> Seq<u32> {
        Seq::new(
            16,
            |k: int|
                if k / 4 == k % 4 {
                    WORD_ONE
                } else {
                    WORD_ZERO
                },
        )
    }

    /// The matrix whose cells, row by row, are the words of `arr`.
    pub fn from_row_major(arr: [u32; 16]) -> (m: Self)
        ensures
            m.spec_rows() == arr@,
    {
        let m = Mat4 {
            a00: arr[0],
            a01: arr[1],
            a02: arr[2],
            a03: arr[3],
            a10: arr[4],
            a11: arr[5],
            a12: arr[6],
            a13: arr[7],
            a20: arr[8],
            a21: arr[9],
            a22: arr[10],
            a23: arr[11],
            a30: arr[12],
            a31: arr[13],
            a32: arr[14],
            a33: arr[15],
        };
        assert(m.spec_rows() =~= arr@);
        m
    }

    /// The matrix whose cells, column by column, are the words of `arr`.
    pub fn from_col_major(arr: [u32; 16]) -> (m: Self)
        ensures
            m.spec_rows() == spec_transposed(arr@),
    {
        let m = Mat4 {
            a00: arr[0],
            a01: arr[4],
            a02: arr[8],
            a03: arr[12],
            a10: arr[1],
            a11: arr[5],
            a12: arr[9],
            a13: arr[13],
            a20: arr[2],
            a21: arr[6],
            a22: arr[10],
            a23: arr[14],
            a30: arr[3],
            a31: arr[7],
            a32: arr[11],
            a33: arr[15],
        };
        assert(m.spec_rows() =~= spec_transposed(arr@));
        m
    }

    /// The identity matrix.
    pub fn identity() -> (m: Self)
        ensures
            m.spec_rows() == Self::spec_identity(),
    {
        let m = Mat4 {
            a00: WORD_ONE,
            a01: WORD_ZERO,
            a02: WORD_ZERO,
            a03: WORD_ZERO,
            a10: WORD_ZERO,
            a11: WORD_ONE,
            a12: WORD_ZERO,
            a13: WORD_ZERO,
            a20: WORD_ZERO,
            a21: WORD_ZERO,
            a22: WORD_ONE,
            a23: WORD_ZERO,
            a30: WORD_ZERO,
            a31: WORD_ZERO,
            a32: WORD_ZERO,
            a33: WORD_ONE,
        };
        assert(m.spec_rows() =~= Self::spec_identity());
        m
    }

    /// The cells row by row.
    pub fn as_row_major_array(&self) -> (arr: [u32; 16])
        ensures
            arr@ == self.spec_rows(),
    {
        let arr = [
            self.a00,
            self.a01,
            self.a02,
            self.a03,
            self.a10,
            self.a11,
            self.a12,
            self.a13,
            self.a20,
            self.a21,
            self.a22,
            self.a23,
            self.a30,
            self.a31,
            self.a32,
            self.a33,
        ];
        assert(arr@ =~= self.spec_rows());
        arr
    }

    /// The cells column by column, as the device reads them.
    pub fn as_col_major_array(&self) -> (arr: [u32; 16])
        ensures
            arr@ == spec_transposed(self.spec_rows()),
    {
        let arr = [
            self.a00,
            self.a10,
            self.a20,
            self.a30,
            self.a01,
            self.a11,
            self.a21,
            self.a31,
            self.a02,
            self.a12,
            self.a22,
            self.a32,
            self.a03,
            self.a13,
            self.a23,
            self.a33,
        ];
        assert(arr@ =~= spec_transposed(self.spec_rows()));
        arr
    }

    /// The cells in the order the device reads them, column by column.
    pub fn as_array(&self) -> (arr: [u32; 16])
        ensures
            arr@ == spec_transposed(self.spec_rows()),
    {
        self.as_col_major_array()
    }

    /// Row `n`, left to right.
    pub fn row(&self, n: usize) -> (r: [u32; 4])
        requires
            n <= 3,
        ensures
            r@ == self.spec_rows().subrange(4 * n as int, 4 * n as int + 4),
    {
        let r = if n == 0 {
            [self.a00, self.a01, self.a02, self.a03]
        } else if n == 1 {
            [self.a10, self.a11, self.a12, self.a13]
        } else if n == 2 {
            [self.a20, self.a21, self.a22, self.a23]
        } else {
            [self.a30, self.a31, self.a32, self.a33]
        };
        assert(r@ =~= self.spec_rows().subrange(4 * n as int, 4 * n as int + 4));
        r
    }

    /// Column `n`, top to bottom.
    pub fn col(&self, n: usize) -> (c: [u32; 4])
        requires
            n <= 3,
        ensures
            c@ == spec_transposed(self.spec_rows()).subrange(4 * n as int, 4 * n as int + 4),
    {
        let c = if n == 0 {
            [self.a00, self.a10, self.a20, self.a30]
        } else if n == 1 {
            [self.a01, self.a11, self.a21, self.a31]
        } else if n == 2 {
            [self.a02, self.a12, self.a22, self.a32]
        } else {
            [self.a03, self.a13, self.a23, self.a33]
        };
        assert(c@ =~= spec_transposed(self.spec_rows()).subrange(4 * n as int, 4 * n as int + 4));
        c
    }

    /// The cell in row `row`, column `col`.
    pub fn cell(&self, row: usize, col: usize) -> (w: u32)
        requires
            row <= 3,
            col <= 3,
        ensures
            w == self.spec_cell(row as int, col as int),
    {
        let r = self.row(row);
        r[col]
    }

    /// Replaces row `row` by `values`. A row that the matrix does not have
    /// is ignored.
    pub fn update_row(&mut self, row: usize, values: [u32; 4])
        ensures
            row <= 3 ==> final(self).spec_rows() == Seq::new(
                16,
                |k: int|
                    if k / 4 == row {
                        values@[k % 4]
                    } else {
                        old(self).spec_rows()[k]
                    },
            ),
            row > 3 ==> *final(self) == *old(self),
    {
        if row == 0 {
            self.a00 = values[0];
            self.a01 = values[1];
            self.a02 = values[2];
            self.a03 = values[3];
        } else if row == 1 {
            self.a10 = values[0];
            self.a11 = values[1];
            self.a12 = values[2];
            self.a13 = values[3];
        } else if row == 2 {
            self.a20 = values[0];
            self.a21 = values[1];
            self.a22 = values[2];
            self.a23 = values[3];
        } else if row == 3 {
            self.a30 = values[0];
            self.a31 = values[1];
            self.a32 = values[2];
            self.a33 = values[3];
        }
        proof {
            if row <= 3 {
                assert(self.spec_rows() =~= Seq::new(
                    16,
                    |k: int|
                        if k / 4 == row {
                            values@[k % 4]
                        } else {
                            old(self).spec_rows()[k]
                        },
                ));
            }
        }
    }

    /// Replaces column `col` by `values`. A column that the matrix does not
    /// have is ignored.
    pub fn update_col(&mut self, col: usize, values: [u32; 4])
        ensures
            col <= 3 ==> final(self).spec_rows() == Seq::new(
                16,
                |k: int|
                    if k % 4 == col {
                        values@[k / 4]
                    } else {
                        old(self).spec_rows()[k]
                    },
            ),
            col > 3 ==> *final(self) == *old(self),
    {
        if col == 0 {
            self.a00 = values[0];
            self.a10 = values[1];
            self.a20 = values[2];
            self.a30 = values[3];
        } else if col == 1 {
            self.a01 = values[0];
            self.a11 = values[1];
            self.a21 = values[2];
            self.a31 = values[3];
        } else if col == 2 {
            self.a02 = values[0];
            self.a12 = values[1];
            self.a22 = values[2];
            self.a32 = values[3];
        } else if col == 3 {
            self.a03 = values[0];
            self.a13 = values[1];
            self.a23 = values[2];
            self.a33 = values[3];
        }
        proof {
            if col <= 3 {
                assert(self.spec_rows() =~= Seq::new(
                    16,
                    |k: int|
                        if k % 4 == col {
                            values@[k / 4]
                        } else {
                            old(self).spec_rows()[k]
                        },
                ));
            }
        }
    }

    /// Replaces the cell in row `row`, column `col`. A cell that the matrix
    /// does not have is ignored.
    pub fn update_cell(&mut self, row: usize, col: usize, value: u32)
        ensures
            row <= 3 && col <= 3 ==> final(self).spec_rows() == old(self).spec_rows().update(
                4 * row + col,
                value,
            ),
            row > 3 || col > 3 ==> *final(self) == *old(self),
    {
        if row == 0 {
            if col == 0 {
                self.a00 = value;
            } else if col == 1 {
                self.a01 = value;
            } else if col == 2 {
                self.a02 = value;
            } else if col == 3 {
                self.a03 = value;
            }
        } else if row == 1 {
            if col == 0 {
                self.a10 = value;
            } else if col == 1 {
                self.a11 = value;
            } else if col == 2 {
                self.a12 = value;
            } else if col == 3 {
                self.a13 = value;
            }
        } else if row == 2 {
            if col == 0 {
                self.a20 = value;
            } else if col == 1 {
                self.a21 = value;
            } else if col == 2 {
                self.a22 = value;
            } else if col == 3 {
                self.a23 = value;
            }
        } else if row == 3 {
            if col == 0 {
                self.a30 = value;
            } else if col == 1 {
                self.a31 = value;
            } else if col == 2 {
                self.a32 = value;
            } else if col == 3 {
                self.a33 = value;
            }
        }
        proof {
            if row <= 3 && col <= 3 {
                assert(self.spec_rows() =~= old(self).spec_rows().update(4 * row + col, value));
            }
        }
    }

    /// The column-major translation matrix: the identity with `x`, `y`, `z`
    /// in the last column.
    pub fn translate(x: u32, y: u32, z: u32) -> (m: [u32; 16])
        ensures
            m@ == Self::spec_identity().update(12, x).update(13, y).update(14, z),
    {
        let m = [
            WORD_ONE,
            WORD_ZERO,
            WORD_ZERO,
            WORD_ZERO,
            WORD_ZERO,
            WORD_ONE,
            WORD_ZERO,
            WORD_ZERO,
            WORD_ZERO,
            WORD_ZERO,
            WORD_ONE,
            WORD_ZERO,
            x,
            y,
            z,
            WORD_ONE,
        ];
        assert(m@ =~= Self::spec_identity().update(12, x).update(13, y).update(14, z));
        m
    }

    /// The scaling matrix: `x`, `y`, `z` and one on the diagonal, zeros
    /// elsewhere.
    pub fn scale(x: u32, y: u32, z: u32) -> (m: [u32; 16])
        ensures
            m@ == Self::spec_identity().update(0, x).update(5, y).update(10, z),
    {
        let m = [
            x,
            WORD_ZERO,
            WORD_ZERO,
            WORD_ZERO,
            WORD_ZERO,
            y,
            WORD_ZERO,
            WORD_ZERO,
            WORD_ZERO,
            WORD_ZERO,
            z,
            WORD_ZERO,
            WORD_ZERO,
            WORD_ZERO,
            WORD_ZERO,
            WORD_ONE,
        ];
        assert(m@ =~= Self::spec_identity().update(0, x).update(5, y).update(10, z));
        m
    }

    /// The matrix read in the other order: rows become columns.
    pub fn transpose(src: &[u32; 16]) -> (dst: [u32; 16])
        ensures
            dst@ == spec_transposed(src@),
    {
        let mut dst = [WORD_ZERO;16];
        let mut i: usize = 0;
        while i < 4
            invariant
                i <= 4,
                forall|k: int| 0 <= k < 4 * i ==> dst@[k] == src@[4 * (k % 4) + k / 4],
            decreases 4 - i,
        {
            let mut j: usize = 0;
            while j < 4
                invariant
                    i < 4,
                    j <= 4,
                    forall|k: int| 0 <= k < 4 * i + j ==> dst@[k] == src@[4 * (k % 4) + k / 4],
                decreases 4 - j,
            {
                dst[i * 4 + j] = src[j * 4 + i];
                j += 1;
            }
            i += 1;
        }
        assert(dst@ =~= spec_transposed(src@));
        dst
    }
}

/// The position in a row or column of four that the `a`-th of the three
/// positions other than `skip` has.
pub open spec fn spec_skipping(a: int, skip: int) -> int {
    if a < skip {
        a
    } else {
        a + 1
    }
}

/// The nine words that are left of a matrix when one row and one column are
/// struck out, row by row.
pub open spec fn spec_minor(m: Seq<u32>, row: int, col: int) -> Seq<u32> {
    Seq::new(9, |k: int| m[4 * spec_skipping(k / 3, row) + spec_skipping(k % 3, col)])
}

/// Strikes row `row` and column `col` out of a matrix of sixteen words and
/// returns what is left, row by row.
pub fn minor(m: &[u32; 16], row: usize, col: usize) -> (sub: [u32; 9])
    requires
        row <= 3,
        col <= 3,
    ensures
        sub@ == spec_minor(m@, row as int, col as int),
{
    let mut sub = [WORD_ZERO;9];
    let mut a: usize = 0;
    while a < 3
        invariant
            a <= 3,
            row <= 3,
            col <= 3,
            forall|k: int|
                0 <= k < 3 * a ==> sub@[k] == m@[4 * spec_skipping(k / 3, row as int)
                    + spec_skipping(k % 3, col as int)],
        decreases 3 - a,
    {
        let i: usize = if a < row {
            a
        } else {
            a + 1
        };
        let mut b: usize = 0;
        while b < 3
            invariant
                a < 3,
                b <= 3,
                row <= 3,
                col <= 3,
                i == spec_skipping(a as int, row as int),
                forall|k: int|
                    0 <= k < 3 * a + b ==> sub@[k] == m@[4 * spec_skipping(k / 3, row as int)
                        + spec_skipping(k % 3, col as int)],
            decreases 3 - b,
        {
            let j: usize = if b < col {
                b
            } else {
                b + 1
            };
            sub[a * 3 + b] = m[i * 4 + j];
            b += 1;
        }
        a += 1;
    }
    assert(sub@ =~= spec_minor(m@, row as int, col as int));
    sub
}

/// Whether the cofactor at row `row`, column `col` keeps the sign of its
/// minor's determinant: it does where row and column add up to an even
/// number.
pub fn cofactor_keeps_sign(row: usize, col: usize) -> (keeps: bool)
    requires
        row <= 3,
        col <= 3,
    ensures
        keeps == ((row + col) % 2 == 0),
{
    (row + col) % 2 == 0
}

/// A matrix written out column by column and read back column by column is
/// the matrix one started with, and so it is row by row.
pub proof fn lemma_layout_round_trip(m: Mat4, by_cols: Mat4, by_rows: Mat4)
    requires
        by_cols.spec_rows() == spec_transposed(spec_transposed(m.spec_rows())),
        by_rows.spec_rows() == m.spec_rows(),
    ensures
        by_cols == m,
        by_rows == m,
{
    lemma_transposed_twice(m.spec_rows());
    lemma_rows_determine(by_cols, m);
    lemma_rows_determine(by_rows, m);
}

/// Two matrices with the same cells are the same matrix.
pub proof fn lemma_rows_determine(a: Mat4, b: Mat4)
    requires
        a.spec_rows() == b.spec_rows(),
    ensures
        a == b,
{
    let ra = a.spec_rows();
    let rb = b.spec_rows();
    assert(ra[0] == rb[0] && ra[1] == rb[1] && ra[2] == rb[2] && ra[3] == rb[3]);
    assert(ra[4] == rb[4] && ra[5] == rb[5] && ra[6] == rb[6] && ra[7] == rb[7]);
    assert(ra[8] == rb[8] && ra[9] == rb[9] && ra[10] == rb[10] && ra[11] == rb[11]);
    assert(ra[12] == rb[12] && ra[13] == rb[13] && ra[14] == rb[14] && ra[15] == rb[15]);
}

} // verus!
