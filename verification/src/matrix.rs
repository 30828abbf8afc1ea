//! Dense linear-algebra kernels on matrices of double bit patterns:
//! transpose, matrix and matrix-vector products, diagonal inverse, and a
//! Gauss-Jordan inverse without pivoting. Matrices are row-major
//! `Vec<Vec<u64>>`; every kernel's result is pinned exactly, entry by
//! entry, as a composition of the IEEE-754 operations of [`crate::fp`].

use vstd::prelude::*;
use crate::fp::{add_bits, sub_bits, mul_bits, div_bits, eq_bits, fp_add, fp_sub, fp_mul, fp_div,
    fp_eq, FP_ZERO, FP_ONE};

verus! {

/// Failures of the kernels, mirroring the fatal numeric errors of the
/// analysis.
#[derive(Debug, Clone, Copy, PartialEq, Eq, Structural)]
pub enum LinAlgError {
    /// a kernel needing at least one row was handed none
    EmptyMatrix,
    /// an inverse of a non-square matrix was requested
    NotSquare,
    /// a product over mismatched dimensions was requested
    DimensionMismatch,
    /// Gauss-Jordan elimination hit a zero diagonal pivot
    SingularPivot,
}

/// The rows of a matrix as a sequence of sequences.
pub open spec fn mview(m: Vec<Vec<u64>>) -> Seq<Seq<u64>> {
    Seq::new(m@.len(), |i: int| m@[i]@)
}

/// Every row has the length of the first: the matrix is rectangular.
pub open spec fn rectangular(m: Seq<Seq<u64>>) -> bool {
    forall|i: int| 0 <= i < m.len() ==> (#[trigger] m[i]).len() == m[0].len()
}

/// The all-zero vector.
pub open spec fn zero_vec_spec(n: int) -> Seq<u64> {
    Seq::new(n as nat, |i: int| FP_ZERO)
}

/// The dot product of the first `k` entries, accumulated left to right
/// from +0.0.
pub open spec fn dot_bits(x: Seq<u64>, y: Seq<u64>, k: int) -> u64
    decreases k,
{
    if k <= 0 {
        FP_ZERO
    } else {
        add_bits(dot_bits(x, y, k - 1), mul_bits(x[k - 1], y[k - 1]))
    }
}

/// Column `j` of a matrix.
pub open spec fn col_seq(m: Seq<Seq<u64>>, j: int) -> Seq<u64> {
    Seq::new(m.len(), |i: int| m[i][j])
}

/// The matrix product, each entry a left-to-right dot product.
pub open spec fn mat_mul_spec(a: Seq<Seq<u64>>, b: Seq<Seq<u64>>) -> Seq<Seq<u64>> {
    Seq::new(
        a.len(),
        |i: int| Seq::new(b[0].len(), |j: int| dot_bits(a[i], col_seq(b, j), a[0].len() as int)),
    )
}

/// The matrix-vector product.
pub open spec fn mat_vec_spec(a: Seq<Seq<u64>>, x: Seq<u64>) -> Seq<u64> {
    Seq::new(a.len(), |i: int| dot_bits(a[i], x, a[0].len() as int))
}

/// The transpose.
pub open spec fn transpose_spec(m: Seq<Seq<u64>>) -> Seq<Seq<u64>> {
    Seq::new(m[0].len(), |j: int| Seq::new(m.len(), |i: int| m[i][j]))
}

/// The inverse of a diagonal matrix: reciprocals on the diagonal, +0.0
/// elsewhere.
pub open spec fn diag_inverse_spec(m: Seq<Seq<u64>>) -> Seq<Seq<u64>> {
    Seq::new(
        m.len(),
        |i: int| Seq::new(
            m.len(),
            |j: int| if i == j {
                div_bits(FP_ONE, m[i][i])
            } else {
                FP_ZERO
            },
        ),
    )
}

pub(crate) fn zero_vector(n: usize) -> (r: Vec<u64>)
    ensures
        r@ == zero_vec_spec(n as int),
{
    let mut r: Vec<u64> = Vec::new();
    let mut i: usize = 0;
    while i < n
        invariant
            i <= n,
            r@.len() == i,
            forall|k: int| 0 <= k < i ==> r@[k] == FP_ZERO,
        decreases n - i,
    {
        r.push(FP_ZERO);
        i = i + 1;
    }
    proof {
        assert(r@ =~= zero_vec_spec(n as int));
    }
    r
}

/// The transpose of a non-empty rectangular matrix.
pub fn transpose(m: &Vec<Vec<u64>>) -> (r: Vec<Vec<u64>>)
    requires
        m@.len() >= 1,
        rectangular(mview(*m)),
    ensures
        mview(r) == transpose_spec(mview(*m)),
{
    let nr = m.len();
    let nc = m[0].len();
    let mut out: Vec<Vec<u64>> = Vec::new();
    let mut j: usize = 0;
    while j < nc
        invariant
            j <= nc,
            nr == m@.len(),
            nc == mview(*m)[0].len(),
            rectangular(mview(*m)),
            out@.len() == j,
            forall|jj: int, i: int|
                0 <= jj < j && 0 <= i < nr ==> (#[trigger] out@[jj]@[i]) == mview(*m)[i][jj],
            forall|jj: int| 0 <= jj < j ==> (#[trigger] out@[jj]@).len() == nr,
        decreases nc - j,
    {
        let mut row: Vec<u64> = Vec::new();
        let mut i: usize = 0;
        while i < nr
            invariant
                i <= nr,
                j < nc,
                nr == m@.len(),
                nc == mview(*m)[0].len(),
                rectangular(mview(*m)),
                row@.len() == i,
                forall|k: int| 0 <= k < i ==> row@[k] == mview(*m)[k][j as int],
            decreases nr - i,
        {
            proof {
                assert(mview(*m)[i as int] == m@[i as int]@);
                assert(mview(*m)[i as int].len() == mview(*m)[0].len());
            }
            let v = m[i][j];
            row.push(v);
            i = i + 1;
        }
        out.push(row);
        j = j + 1;
    }
    proof {
        assert(mview(out) =~~= transpose_spec(mview(*m)));
    }
    out
}

/// The product of two non-empty rectangular matrices; an error exactly
/// when the inner dimensions disagree.
pub fn product(left: &Vec<Vec<u64>>, right: &Vec<Vec<u64>>) -> (r: Result<
    Vec<Vec<u64>>,
    LinAlgError,
>)
    requires
        left@.len() >= 1,
        right@.len() >= 1,
        rectangular(mview(*left)),
        rectangular(mview(*right)),
    ensures
        match r {
            Ok(p) => mview(*left)[0].len() == right@.len() && mview(p) == mat_mul_spec(
                mview(*left),
                mview(*right),
            ),
            Err(e) => e == LinAlgError::DimensionMismatch && mview(*left)[0].len() != right@.len(),
        },
{
    let m = left.len();
    let pl = left[0].len();
    let n = right[0].len();
    let pr = right.len();
    if pl != pr {
        return Err(LinAlgError::DimensionMismatch);
    }
    let mut out: Vec<Vec<u64>> = Vec::new();
    let mut i: usize = 0;
    while i < m
        invariant
            i <= m,
            m == left@.len(),
            pl == mview(*left)[0].len(),
            n == mview(*right)[0].len(),
            pl == right@.len(),
            rectangular(mview(*left)),
            rectangular(mview(*right)),
            out@.len() == i,
            forall|ii: int| 0 <= ii < i ==> (#[trigger] out@[ii]@).len() == n,
            forall|ii: int, jj: int|
                0 <= ii < i && 0 <= jj < n ==> (#[trigger] out@[ii]@[jj]) == dot_bits(
                    mview(*left)[ii],
                    col_seq(mview(*right), jj),
                    pl as int,
                ),
        decreases m - i,
    {
        let mut row: Vec<u64> = Vec::new();
        let mut j: usize = 0;
        while j < n
            invariant
                j <= n,
                i < m,
                m == left@.len(),
                pl == mview(*left)[0].len(),
                n == mview(*right)[0].len(),
                pl == right@.len(),
                rectangular(mview(*left)),
                rectangular(mview(*right)),
                row@.len() == j,
                forall|jj: int|
                    0 <= jj < j ==> (#[trigger] row@[jj]) == dot_bits(
                        mview(*left)[i as int],
                        col_seq(mview(*right), jj),
                        pl as int,
                    ),
            decreases n - j,
        {
            let mut sum: u64 = FP_ZERO;
            let mut k: usize = 0;
            while k < pl
                invariant
                    k <= pl,
                    i < m,
                    j < n,
                    m == left@.len(),
                    pl == mview(*left)[0].len(),
                    n == mview(*right)[0].len(),
                    pl == right@.len(),
                    rectangular(mview(*left)),
                    rectangular(mview(*right)),
                    sum == dot_bits(
                        mview(*left)[i as int],
                        col_seq(mview(*right), j as int),
                        k as int,
                    ),
                decreases pl - k,
            {
                proof {
                    assert(mview(*left)[i as int] == left@[i as int]@);
                    assert(mview(*right)[k as int] == right@[k as int]@);
                    assert(mview(*right)[k as int].len() == mview(*right)[0].len());
                    assert(col_seq(mview(*right), j as int)[k as int] == mview(*right)[k as int][j as int]);
                }
                let lv = left[i][k];
                let rv = right[k][j];
                sum = fp_add(sum, fp_mul(lv, rv));
                k = k + 1;
            }
            row.push(sum);
            j = j + 1;
        }
        out.push(row);
        i = i + 1;
    }
    proof {
        assert(mview(out) =~~= mat_mul_spec(mview(*left), mview(*right)));
    }
    Ok(out)
}

/// The product of a non-empty rectangular matrix and a vector; an error
/// exactly when the dimensions disagree.
pub fn product2(left: &Vec<Vec<u64>>, right: &Vec<u64>) -> (r: Result<Vec<u64>, LinAlgError>)
    requires
        left@.len() >= 1,
        rectangular(mview(*left)),
    ensures
        match r {
            Ok(p) => mview(*left)[0].len() == right@.len() && p@ == mat_vec_spec(
                mview(*left),
                right@,
            ),
            Err(e) => e == LinAlgError::DimensionMismatch && mview(*left)[0].len() != right@.len(),
        },
{
    let m = left.len();
    let pl = left[0].len();
    let pr = right.len();
    if pl != pr {
        return Err(LinAlgError::DimensionMismatch);
    }
    let mut out: Vec<u64> = Vec::new();
    let mut i: usize = 0;
    while i < m
        invariant
            i <= m,
            m == left@.len(),
            pl == mview(*left)[0].len(),
            pl == right@.len(),
            rectangular(mview(*left)),
            out@.len() == i,
            forall|ii: int|
                0 <= ii < i ==> (#[trigger] out@[ii]) == dot_bits(
                    mview(*left)[ii],
                    right@,
                    pl as int,
                ),
        decreases m - i,
    {
        let mut sum: u64 = FP_ZERO;
        let mut k: usize = 0;
        while k < pl
            invariant
                k <= pl,
                i < m,
                m == left@.len(),
                pl == mview(*left)[0].len(),
                pl == right@.len(),
                rectangular(mview(*left)),
                sum == dot_bits(mview(*left)[i as int], right@, k as int),
            decreases pl - k,
        {
            let lv = left[i][k];
            let rv = right[k];
            sum = fp_add(sum, fp_mul(lv, rv));
            k = k + 1;
        }
        out.push(sum);
        i = i + 1;
    }
    proof {
        assert(out@ =~= mat_vec_spec(mview(*left), right@));
    }
    Ok(out)
}

/// The inverse of a (diagonal) square matrix: reciprocal diagonal, zeros
/// elsewhere. Errors exactly on an empty or non-square argument.
pub fn invers_diagonal(matrix: &Vec<Vec<u64>>) -> (r: Result<Vec<Vec<u64>>, LinAlgError>)
    requires
        rectangular(mview(*matrix)),
    ensures
        match r {
            Ok(p) => matrix@.len() >= 1 && mview(*matrix)[0].len() == matrix@.len() && mview(p)
                == diag_inverse_spec(mview(*matrix)),
            Err(e) => (e == LinAlgError::EmptyMatrix && matrix@.len() == 0) || (e
                == LinAlgError::NotSquare && matrix@.len() >= 1 && mview(*matrix)[0].len()
                != matrix@.len()),
        },
{
    let n = matrix.len();
    if n == 0 {
        return Err(LinAlgError::EmptyMatrix);
    }
    if matrix[0].len() != n {
        return Err(LinAlgError::NotSquare);
    }
    let mut out: Vec<Vec<u64>> = Vec::new();
    let mut i: usize = 0;
    while i < n
        invariant
            i <= n,
            n == matrix@.len(),
            mview(*matrix)[0].len() == n,
            rectangular(mview(*matrix)),
            out@.len() == i,
            forall|ii: int| 0 <= ii < i ==> (#[trigger] out@[ii]@).len() == n,
            forall|ii: int, jj: int|
                0 <= ii < i && 0 <= jj < n ==> (#[trigger] out@[ii]@[jj]) == (if ii == jj {
                    div_bits(FP_ONE, mview(*matrix)[ii][ii])
                } else {
                    FP_ZERO
                }),
        decreases n - i,
    {
        let mut row: Vec<u64> = Vec::new();
        let mut j: usize = 0;
        while j < n
            invariant
                j <= n,
                i < n,
                n == matrix@.len(),
                mview(*matrix)[0].len() == n,
                rectangular(mview(*matrix)),
                row@.len() == j,
                forall|jj: int|
                    0 <= jj < j ==> (#[trigger] row@[jj]) == (if i == jj {
                        div_bits(FP_ONE, mview(*matrix)[i as int][i as int])
                    } else {
                        FP_ZERO
                    }),
            decreases n - j,
        {
            if i == j {
                proof {
                    assert(mview(*matrix)[i as int] == matrix@[i as int]@);
                    assert(mview(*matrix)[i as int].len() == mview(*matrix)[0].len());
                }
                let v = fp_div(FP_ONE, matrix[i][i]);
                row.push(v);
            } else {
                row.push(FP_ZERO);
            }
            j = j + 1;
        }
        out.push(row);
        i = i + 1;
    }
    proof {
        assert(mview(out) =~~= diag_inverse_spec(mview(*matrix)));
    }
    Ok(out)
}

pub proof fn lemma_mat_mul_shape(a: Seq<Seq<u64>>, b: Seq<Seq<u64>>)
    ensures
        mat_mul_spec(a, b).len() == a.len(),
        forall|i: int|
            0 <= i < a.len() ==> (#[trigger] mat_mul_spec(a, b)[i]).len() == b[0].len(),
        rectangular(mat_mul_spec(a, b)),
{
}

pub proof fn lemma_transpose_shape(m: Seq<Seq<u64>>)
    ensures
        transpose_spec(m).len() == m[0].len(),
        forall|j: int| 0 <= j < m[0].len() ==> (#[trigger] transpose_spec(m)[j]).len() == m.len(),
        rectangular(transpose_spec(m)),
{
}

pub proof fn lemma_diag_inverse_shape(m: Seq<Seq<u64>>)
    ensures
        diag_inverse_spec(m).len() == m.len(),
        forall|i: int| 0 <= i < m.len() ==> (#[trigger] diag_inverse_spec(m)[i]).len() == m.len(),
        rectangular(diag_inverse_spec(m)),
{
}

/// The matrix augmented with the identity: `[m | I]`, `n` rows of width
/// `2n`.
pub open spec fn gj_augment(m: Seq<Seq<u64>>, n: int) -> Seq<Seq<u64>> {
    Seq::new(
        n as nat,
        |i: int| Seq::new(
            (2 * n) as nat,
            |k: int| if k < n {
                m[i][k]
            } else if k == i + n {
                FP_ONE
            } else {
                FP_ZERO
            },
        ),
    )
}

/// One elimination round: every row but the pivot row `i` has
/// `(a[j][i]/a[i][i]) * row_i` subtracted from it.
pub open spec fn gj_round(a: Seq<Seq<u64>>, i: int, n: int) -> Seq<Seq<u64>> {
    Seq::new(
        n as nat,
        |j: int| if j == i {
            a[j]
        } else {
            Seq::new(
                (2 * n) as nat,
                |k: int| sub_bits(a[j][k], mul_bits(div_bits(a[j][i], a[i][i]), a[i][k])),
            )
        },
    )
}

/// The augmented matrix after the first `t` elimination rounds.
pub open spec fn gj_elim(a: Seq<Seq<u64>>, t: int, n: int) -> Seq<Seq<u64>>
    decreases t,
{
    if t <= 0 {
        a
    } else {
        gj_round(gj_elim(a, t - 1, n), t - 1, n)
    }
}

/// No elimination round meets a pivot that compares equal to zero.
pub open spec fn gj_pivots_ok(a: Seq<Seq<u64>>, n: int) -> bool {
    forall|i: int| 0 <= i < n ==> !eq_bits(#[trigger] gj_elim(a, i, n)[i][i], FP_ZERO)
}

/// The final row scaling: each right-half entry is divided by the row's
/// diagonal element.
pub open spec fn gj_normalize(a: Seq<Seq<u64>>, n: int) -> Seq<Seq<u64>> {
    Seq::new(
        n as nat,
        |i: int| Seq::new(
            (2 * n) as nat,
            |k: int| if k < n {
                a[i][k]
            } else {
                div_bits(a[i][k], a[i][i])
            },
        ),
    )
}

/// The Gauss-Jordan inverse: eliminate on `[m | I]` without pivoting,
/// scale, and read off the right half.
pub open spec fn gj_inverse_spec(m: Seq<Seq<u64>>, n: int) -> Seq<Seq<u64>> {
    let e = gj_normalize(gj_elim(gj_augment(m, n), n, n), n);
    Seq::new(n as nat, |i: int| Seq::new(n as nat, |j: int| e[i][j + n]))
}

pub proof fn lemma_gj_inverse_shape(m: Seq<Seq<u64>>, n: int)
    requires
        n >= 0,
    ensures
        gj_inverse_spec(m, n).len() == n,
        forall|i: int| 0 <= i < n ==> (#[trigger] gj_inverse_spec(m, n)[i]).len() == n,
        rectangular(gj_inverse_spec(m, n)),
{
}

/// The Gauss-Jordan inverse of a non-empty rectangular matrix, without
/// pivoting. Errors exactly on a non-square argument or on a diagonal
/// pivot that compares equal to zero during elimination.
pub fn inverse_matrix_jordan(matrix: &Vec<Vec<u64>>) -> (r: Result<Vec<Vec<u64>>, LinAlgError>)
    requires
        matrix@.len() >= 1,
        matrix@.len() <= usize::MAX / 2,
        rectangular(mview(*matrix)),
    ensures
        match r {
            Ok(p) => mview(*matrix)[0].len() == matrix@.len() && gj_pivots_ok(
                gj_augment(mview(*matrix), matrix@.len() as int),
                matrix@.len() as int,
            ) && mview(p) == gj_inverse_spec(mview(*matrix), matrix@.len() as int),
            Err(e) => (e == LinAlgError::NotSquare && mview(*matrix)[0].len() != matrix@.len()) || (
            e == LinAlgError::SingularPivot && mview(*matrix)[0].len() == matrix@.len()
                && !gj_pivots_ok(
                gj_augment(mview(*matrix), matrix@.len() as int),
                matrix@.len() as int,
            )),
        },
{
    let n = matrix.len();
    if matrix[0].len() != n {
        return Err(LinAlgError::NotSquare);
    }
    let twon = 2 * n;

    // Build the augmented matrix [matrix | I].
    let mut a: Vec<Vec<u64>> = Vec::new();
    let mut i: usize = 0;
    while i < n
        invariant
            i <= n,
            n == matrix@.len(),
            n <= usize::MAX / 2,
            twon == 2 * n,
            mview(*matrix)[0].len() == n,
            rectangular(mview(*matrix)),
            a@.len() == i,
            forall|ii: int| 0 <= ii < i ==> (#[trigger] a@[ii]@) == gj_augment(
                mview(*matrix),
                n as int,
            )[ii],
        decreases n - i,
    {
        let mut row: Vec<u64> = Vec::new();
        let mut k: usize = 0;
        while k < twon
            invariant
                k <= twon,
                i < n,
                n == matrix@.len(),
                n <= usize::MAX / 2,
                twon == 2 * n,
                mview(*matrix)[0].len() == n,
                rectangular(mview(*matrix)),
                row@.len() == k,
                forall|kk: int|
                    0 <= kk < k ==> row@[kk] == gj_augment(mview(*matrix), n as int)[i as int][kk],
            decreases twon - k,
        {
            if k < n {
                proof {
                    assert(mview(*matrix)[i as int] == matrix@[i as int]@);
                    assert(mview(*matrix)[i as int].len() == mview(*matrix)[0].len());
                }
                let v = matrix[i][k];
                row.push(v);
            } else if k == i + n {
                row.push(FP_ONE);
            } else {
                row.push(FP_ZERO);
            }
            k = k + 1;
        }
        proof {
            assert(row@ =~= gj_augment(mview(*matrix), n as int)[i as int]);
        }
        a.push(row);
        i = i + 1;
    }
    let ghost aug0 = gj_augment(mview(*matrix), n as int);
    proof {
        assert(mview(a) =~~= aug0);
    }

    // Elimination rounds, checking each pivot first.
    let mut i: usize = 0;
    while i < n
        invariant
            i <= n,
            n >= 1,
            n <= usize::MAX / 2,
            twon == 2 * n,
            aug0 == gj_augment(mview(*matrix), n as int),
            n == matrix@.len(),
            mview(*matrix)[0].len() == n,
            mview(a) == gj_elim(aug0, i as int, n as int),
            a@.len() == n,
            forall|ii: int| 0 <= ii < n ==> (#[trigger] a@[ii]@).len() == twon,
            forall|t: int|
                0 <= t < i ==> !eq_bits(#[trigger] gj_elim(aug0, t, n as int)[t][t], FP_ZERO),
        decreases n - i,
    {
        proof {
            assert(mview(a)[i as int] == a@[i as int]@);
        }
        let pivot = a[i][i];
        if fp_eq(pivot, FP_ZERO) {
            proof {
                assert(gj_elim(aug0, i as int, n as int)[i as int][i as int] == pivot);
                assert(!gj_pivots_ok(aug0, n as int)) by {
                    if gj_pivots_ok(aug0, n as int) {
                        assert(!eq_bits(
                            gj_elim(aug0, i as int, n as int)[i as int][i as int],
                            FP_ZERO,
                        ));
                    }
                }
            }
            return Err(LinAlgError::SingularPivot);
        }
        let mut newa: Vec<Vec<u64>> = Vec::new();
        let mut j: usize = 0;
        while j < n
            invariant
                j <= n,
                i < n,
                n <= usize::MAX / 2,
                twon == 2 * n,
                mview(a) == gj_elim(aug0, i as int, n as int),
                a@.len() == n,
                forall|ii: int| 0 <= ii < n ==> (#[trigger] a@[ii]@).len() == twon,
                newa@.len() == j,
                forall|jj: int| 0 <= jj < j ==> (#[trigger] newa@[jj]@) == gj_round(
                    mview(a),
                    i as int,
                    n as int,
                )[jj],
            decreases n - j,
        {
            let mut row: Vec<u64> = Vec::new();
            if j == i {
                let mut k: usize = 0;
                while k < twon
                    invariant
                        k <= twon,
                        i < n,
                        j == i,
                        twon == 2 * n,
                        a@.len() == n,
                        forall|ii: int| 0 <= ii < n ==> (#[trigger] a@[ii]@).len() == twon,
                        row@.len() == k,
                        forall|kk: int| 0 <= kk < k ==> row@[kk] == a@[i as int]@[kk],
                    decreases twon - k,
                {
                    let v = a[i][k];
                    row.push(v);
                    k = k + 1;
                }
                proof {
                    assert(row@ =~= a@[i as int]@);
                    assert(mview(a)[i as int] == a@[i as int]@);
                    assert(row@ =~= gj_round(mview(a), i as int, n as int)[j as int]);
                }
            } else {
                proof {
                    assert(mview(a)[j as int] == a@[j as int]@);
                    assert(mview(a)[i as int] == a@[i as int]@);
                }
                let ratio = fp_div(a[j][i], a[i][i]);
                let mut k: usize = 0;
                while k < twon
                    invariant
                        k <= twon,
                        i < n,
                        j < n,
                        j != i,
                        twon == 2 * n,
                        a@.len() == n,
                        forall|ii: int| 0 <= ii < n ==> (#[trigger] a@[ii]@).len() == twon,
                        ratio == div_bits(a@[j as int]@[i as int], a@[i as int]@[i as int]),
                        row@.len() == k,
                        forall|kk: int|
                            0 <= kk < k ==> row@[kk] == sub_bits(
                                a@[j as int]@[kk],
                                mul_bits(ratio, a@[i as int]@[kk]),
                            ),
                    decreases twon - k,
                {
                    let v = fp_sub(a[j][k], fp_mul(ratio, a[i][k]));
                    row.push(v);
                    k = k + 1;
                }
                proof {
                    assert(mview(a)[j as int] == a@[j as int]@);
                    assert(mview(a)[i as int] == a@[i as int]@);
                    assert(row@ =~= gj_round(mview(a), i as int, n as int)[j as int]);
                }
            }
            newa.push(row);
            j = j + 1;
        }
        proof {
            assert(mview(newa) =~~= gj_round(mview(a), i as int, n as int));
            assert(gj_elim(aug0, i as int + 1, n as int) == gj_round(
                gj_elim(aug0, i as int, n as int),
                i as int,
                n as int,
            ));
        }
        a = newa;
        i = i + 1;
    }
    proof {
        assert(gj_pivots_ok(aug0, n as int));
    }

    // Scale the right half of each row by its diagonal element.
    let mut nm: Vec<Vec<u64>> = Vec::new();
    let mut i: usize = 0;
    while i < n
        invariant
            i <= n,
            n <= usize::MAX / 2,
            twon == 2 * n,
            mview(a) == gj_elim(aug0, n as int, n as int),
            a@.len() == n,
            forall|ii: int| 0 <= ii < n ==> (#[trigger] a@[ii]@).len() == twon,
            nm@.len() == i,
            forall|ii: int| 0 <= ii < i ==> (#[trigger] nm@[ii]@) == gj_normalize(
                mview(a),
                n as int,
            )[ii],
        decreases n - i,
    {
        proof {
            assert(mview(a)[i as int] == a@[i as int]@);
        }
        let d = a[i][i];
        let mut row: Vec<u64> = Vec::new();
        let mut k: usize = 0;
        while k < twon
            invariant
                k <= twon,
                i < n,
                twon == 2 * n,
                a@.len() == n,
                forall|ii: int| 0 <= ii < n ==> (#[trigger] a@[ii]@).len() == twon,
                d == a@[i as int]@[i as int],
                row@.len() == k,
                forall|kk: int|
                    0 <= kk < k ==> row@[kk] == (if kk < n {
                        a@[i as int]@[kk]
                    } else {
                        div_bits(a@[i as int]@[kk], d)
                    }),
            decreases twon - k,
        {
            if k < n {
                let v = a[i][k];
                row.push(v);
            } else {
                let v = fp_div(a[i][k], d);
                row.push(v);
            }
            k = k + 1;
        }
        proof {
            assert(mview(a)[i as int] == a@[i as int]@);
            assert(row@ =~= gj_normalize(mview(a), n as int)[i as int]);
        }
        nm.push(row);
        i = i + 1;
    }
    proof {
        assert(mview(nm) =~~= gj_normalize(gj_elim(aug0, n as int, n as int), n as int));
    }

    // Read the inverse off the right half.
    let mut b: Vec<Vec<u64>> = Vec::new();
    let mut i: usize = 0;
    while i < n
        invariant
            i <= n,
            n <= usize::MAX / 2,
            twon == 2 * n,
            mview(nm) == gj_normalize(gj_elim(aug0, n as int, n as int), n as int),
            nm@.len() == n,
            forall|ii: int| 0 <= ii < n ==> (#[trigger] nm@[ii]@).len() == twon,
            b@.len() == i,
            forall|ii: int, jj: int|
                0 <= ii < i && 0 <= jj < n ==> (#[trigger] b@[ii]@[jj]) == mview(nm)[ii][jj + n],
            forall|ii: int| 0 <= ii < i ==> (#[trigger] b@[ii]@).len() == n,
        decreases n - i,
    {
        let mut row: Vec<u64> = Vec::new();
        let mut j: usize = 0;
        while j < n
            invariant
                j <= n,
                i < n,
                twon == 2 * n,
                mview(nm) == gj_normalize(gj_elim(aug0, n as int, n as int), n as int),
                nm@.len() == n,
                forall|ii: int| 0 <= ii < n ==> (#[trigger] nm@[ii]@).len() == twon,
                row@.len() == j,
                forall|jj: int| 0 <= jj < j ==> row@[jj] == mview(nm)[i as int][jj + n],
            decreases n - j,
        {
            proof {
                assert(mview(nm)[i as int] == nm@[i as int]@);
            }
            let v = nm[i][j + n];
            row.push(v);
            j = j + 1;
        }
        b.push(row);
        i = i + 1;
    }
    proof {
        assert(mview(b) =~~= gj_inverse_spec(mview(*matrix), n as int));
    }
    Ok(b)
}

} // verus!
