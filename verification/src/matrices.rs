//! Square fixed-point matrices (dimension 2 to 4) with determinant,
//! cofactor inversion and the affine transform builders of the engine.
//!
//! Entries are stored row-major in one vector; the mathematical content of
//! every operation is stated over that sequence of entries.
use vstd::prelude::*;
use vstd::arithmetic::div_mod::lemma_fundamental_div_mod_converse;
use crate::fx::SCALE;
use crate::fx::fx_add_s;
use crate::fx::fx_sub_s;
use crate::fx::fx_neg_s;
use crate::fx::fx_mul_s;
use crate::fx::fx_div_s;
use crate::fx::fx_eq_s;
use crate::fx::fx_add;
use crate::fx::fx_sub;
use crate::fx::fx_neg;
use crate::fx::fx_mul;
use crate::fx::fx_div;
use crate::fx::fx_is_equal;
use crate::tuples::Tuples;
use crate::tuples::TuplesEnum;

verus! {

#[derive(Debug, Clone)]
pub struct Matrix {
    pub m: Vec<i64>,
    pub dim: usize,
}

/// Entry of a row-major entry sequence, as a mathematical integer.
pub open spec fn ment(m: Seq<i64>, dim: int, r: int, c: int) -> int {
    m[r * dim + c] as int
}

/// Entry of the identity matrix.
pub open spec fn ident_ent_s(r: int, c: int) -> int {
    if r == c { SCALE as int } else { 0 }
}

pub open spec fn is_identity_s(m: Seq<i64>, dim: int) -> bool {
    forall|r: int, c: int|
        0 <= r < dim && 0 <= c < dim ==> ment(m, dim, r, c) == ident_ent_s(r, c)
}

/// Row-major entries of the transpose.
pub open spec fn transpose_seq(m: Seq<i64>, dim: int) -> Seq<i64> {
    Seq::new((dim * dim) as nat, |i: int| m[(i % dim) * dim + i / dim])
}

proof fn lemma_index_inj(dim: int, r: int, c: int, r2: int, c2: int)
    requires
        0 <= r < dim,
        0 <= c < dim,
        0 <= r2 < dim,
        0 <= c2 < dim,
        r * dim + c == r2 * dim + c2,
    ensures
        r == r2,
        c == c2,
{
    lemma_fundamental_div_mod_converse(r * dim + c, dim, r, c);
    lemma_fundamental_div_mod_converse(r2 * dim + c2, dim, r2, c2);
}

proof fn lemma_index_bound(dim: int, r: int, c: int)
    requires
        0 <= r < dim,
        0 <= c < dim,
        dim <= 4,
    ensures
        0 <= r * dim + c < dim * dim,
        0 <= dim * r + c < dim * dim,
        dim * dim <= 16,
{
    assert(r * dim + c < dim * dim) by (nonlinear_arith)
        requires 0 <= r < dim && 0 <= c < dim;
    assert(r * dim + c >= 0) by (nonlinear_arith)
        requires r >= 0 && c >= 0 && dim > 0;
    assert(dim * r + c == r * dim + c) by (nonlinear_arith);
    assert(dim * dim <= 16) by (nonlinear_arith)
        requires 0 < dim <= 4;
}

impl Matrix {
    pub open spec fn dim_s(self) -> int {
        self.dim as int
    }

    pub open spec fn ents(self) -> Seq<i64> {
        self.m@
    }

    pub open spec fn ent(self, r: int, c: int) -> int {
        ment(self.m@, self.dim as int, r, c)
    }

    pub open spec fn wf(self) -> bool {
        self.m@.len() == self.dim * self.dim && 1 <= self.dim <= 4
    }

    /// A field-for-field copy whose contents Verus can track.
    pub fn duplicate(&self) -> (r: Self)
        ensures
            r.ents() == self.ents(),
            r.dim_s() == self.dim_s(),
    {
        Matrix { m: self.m.clone(), dim: self.dim }
    }

    pub fn dim(&self) -> (r: usize)
        ensures
            r as int == self.dim_s(),
    {
        self.dim
    }

    fn get_idx(&self, row: usize, col: usize) -> (r: usize)
        requires
            self.wf(),
            row < self.dim_s(),
            col < self.dim_s(),
        ensures
            r as int == row * self.dim_s() + col,
            r < self.ents().len(),
    {
        proof {
            lemma_index_bound(self.dim as int, row as int, col as int);
        }
        self.dim * row + col
    }

    pub fn get(&self, row: usize, col: usize) -> (r: i64)
        requires
            self.wf(),
            row < self.dim_s(),
            col < self.dim_s(),
        ensures
            r as int == self.ent(row as int, col as int),
    {
        let idx = self.get_idx(row, col);
        self.m[idx]
    }

    pub fn set(&mut self, row: usize, col: usize, val: i64)
        requires
            old(self).wf(),
            row < old(self).dim_s(),
            col < old(self).dim_s(),
        ensures
            final(self).wf(),
            final(self).dim_s() == old(self).dim_s(),
            final(self).ent(row as int, col as int) == val as int,
            forall|r: int, c: int|
                0 <= r < old(self).dim_s() && 0 <= c < old(self).dim_s()
                    && !(r == row as int && c == col as int)
                    ==> final(self).ent(r, c) == old(self).ent(r, c),
    {
        let idx = self.get_idx(row, col);
        self.m[idx] = val;
        proof {
            let dim = self.dim as int;
            assert forall|r: int, c: int|
                0 <= r < dim && 0 <= c < dim && !(r == row as int && c == col as int)
                    implies self.ent(r, c) == old(self).ent(r, c) by {
                if r * dim + c == idx as int {
                    lemma_index_inj(dim, r, c, row as int, col as int);
                }
                lemma_index_bound(dim, r, c);
            };
            lemma_index_bound(dim, row as int, col as int);
        }
    }

    /// A fresh `dim` x `dim` identity matrix.
    pub fn new(dim: usize) -> (r: Self)
        requires
            1 <= dim <= 4,
        ensures
            r.wf(),
            r.dim_s() == dim as int,
            is_identity_s(r.ents(), dim as int),
    {
        proof {
            assert(dim * dim <= 16) by (nonlinear_arith)
                requires 0 < dim <= 4;
        }
        let mut m: Vec<i64> = Vec::new();
        let total = dim * dim;
        let mut i: usize = 0;
        while i < total
            invariant
                total == dim * dim,
                dim <= 4,
                m@.len() == i,
                i <= total,
                forall|j: int| 0 <= j < i ==>
                    m@[j] as int == (if j / (dim as int) == j % (dim as int) { SCALE as int } else { 0 }),
            decreases total - i,
        {
            let row = i / dim;
            let col = i % dim;
            if row == col {
                m.push(SCALE);
            } else {
                m.push(0i64);
            }
            i = i + 1;
        }
        let out = Self { m, dim };
        proof {
            assert forall|r: int, c: int|
                0 <= r < dim && 0 <= c < dim
                    implies ment(out.m@, dim as int, r, c) == ident_ent_s(r, c) by {
                lemma_index_bound(dim as int, r, c);
                lemma_fundamental_div_mod_converse(r * (dim as int) + c, dim as int, r, c);
            };
        }
        out
    }

    /// Rebuild `out` as the identity of its own dimension.
    pub fn identity(out: Self) -> (r: Self)
        requires
            out.wf(),
        ensures
            r.wf(),
            r.dim_s() == out.dim_s(),
            is_identity_s(r.ents(), out.dim_s()),
    {
        Self::new(out.dim)
    }

    /// Build a matrix from `values` laid out row by row; the length must be
    /// a perfect square of a supported dimension.
    pub fn from_values(values: &Vec<i64>) -> (r: Self)
        requires
            values@.len() == 4 || values@.len() == 9 || values@.len() == 16,
        ensures
            r.wf(),
            r.dim_s() * r.dim_s() == values@.len(),
            r.ents() == values@,
    {
        let dim: usize = if values.len() == 4 {
            2
        } else if values.len() == 9 {
            3
        } else {
            4
        };
        let m = values.clone();
        proof {
            assert(m@ == values@);
        }
        Self { m, dim }
    }

    pub fn transpose(a: &Self) -> (r: Self)
        requires
            a.wf(),
        ensures
            r.wf(),
            r.dim_s() == a.dim_s(),
            r.ents() == transpose_seq(a.ents(), a.dim_s()),
            forall|rr: int, c: int|
                0 <= rr < a.dim_s() && 0 <= c < a.dim_s()
                    ==> r.ent(c, rr) == a.ent(rr, c),
    {
        let dim = a.dim;
        let mut out = Self::new(dim);
        let mut col: usize = 0;
        while col < dim
            invariant
                a.wf(),
                out.wf(),
                a.dim_s() == dim as int,
                out.dim_s() == dim as int,
                col <= dim,
                forall|r: int, c: int|
                    0 <= r < dim && 0 <= c < dim && c < col
                        ==> out.ent(c, r) == a.ent(r, c),
            decreases dim - col,
        {
            let mut row: usize = 0;
            while row < dim
                invariant
                    a.wf(),
                    out.wf(),
                    a.dim_s() == dim as int,
                    out.dim_s() == dim as int,
                    col < dim,
                    row <= dim,
                    forall|r: int, c: int|
                        0 <= r < dim && 0 <= c < dim && c < col
                            ==> out.ent(c, r) == a.ent(r, c),
                    forall|r: int|
                        0 <= r < row ==> out.ent(col as int, r) == a.ent(r, col as int),
                decreases dim - row,
            {
                let v = a.get(row, col);
                out.set(col, row, v);
                row = row + 1;
            }
            col = col + 1;
        }
        proof {
            let ts = transpose_seq(a.m@, dim as int);
            assert forall|i: int| 0 <= i < dim * dim
                implies out.m@[i] == ts[i] by {
                let r = i / (dim as int);
                let c = i % (dim as int);
                vstd::arithmetic::div_mod::lemma_fundamental_div_mod(i, dim as int);
                assert(0 <= c < dim);
                assert(0 <= r < dim) by (nonlinear_arith)
                    requires
                        i == (dim as int) * r + c,
                        0 <= i < dim * dim,
                        0 <= c < dim;
                assert(out.ent(r, c) == a.ent(c, r));
                lemma_index_bound(dim as int, r, c);
            };
            assert(out.m@ =~= ts);
        }
        out
    }
}

/// Transposing twice gives back the same entries.
pub proof fn lemma_transpose_involution(m: Seq<i64>, dim: int)
    requires
        m.len() == dim * dim,
        1 <= dim <= 4,
    ensures
        transpose_seq(transpose_seq(m, dim), dim) == m,
{
    let t = transpose_seq(m, dim);
    let tt = transpose_seq(t, dim);
    assert forall|i: int| 0 <= i < dim * dim implies tt[i] == m[i] by {
        let r = i / dim;
        let c = i % dim;
        vstd::arithmetic::div_mod::lemma_fundamental_div_mod(i, dim);
        assert(0 <= c < dim);
        assert(0 <= r < dim) by (nonlinear_arith)
            requires
                i == dim * r + c,
                0 <= i < dim * dim,
                0 <= c < dim;
        lemma_index_bound(dim, c, r);
        lemma_fundamental_div_mod_converse(c * dim + r, dim, c, r);
        assert(tt[i] == t[c * dim + r]);
        assert(t[c * dim + r] == m[r * dim + c]);
        assert(i == r * dim + c);
    };
    assert(tt =~= m);
}

/// Index mapping that skips the removed row or column.
pub open spec fn skip_s(i: int, removed: int) -> int {
    if i < removed { i } else { i + 1 }
}

/// Entries of the submatrix with one row and one column removed.
pub open spec fn sub_seq(m: Seq<i64>, dim: int, rr: int, cc: int) -> Seq<i64> {
    Seq::new(((dim - 1) * (dim - 1)) as nat, |i: int|
        m[skip_s(i / (dim - 1), rr) * dim + skip_s(i % (dim - 1), cc)])
}

/// Determinant by the closed 2 x 2 form, else first-row Laplace expansion.
pub open spec fn det_seq(m: Seq<i64>, dim: int) -> int
    decreases dim, 3int, 0int,
{
    if dim <= 1 {
        0
    } else if dim == 2 {
        fx_sub_s(
            fx_mul_s(ment(m, dim, 0, 0), ment(m, dim, 1, 1)),
            fx_mul_s(ment(m, dim, 0, 1), ment(m, dim, 1, 0)),
        )
    } else {
        det_acc(m, dim, dim)
    }
}

/// Partial first-row Laplace sum over the first `n` columns.
pub open spec fn det_acc(m: Seq<i64>, dim: int, n: int) -> int
    decreases dim, 2int, n,
{
    if n <= 0 {
        0
    } else {
        fx_add_s(
            det_acc(m, dim, n - 1),
            fx_mul_s(ment(m, dim, 0, n - 1), cof_seq(m, dim, 0, n - 1)),
        )
    }
}

/// Cofactor: the minor determinant, negated on odd `row + col`.
pub open spec fn cof_seq(m: Seq<i64>, dim: int, r: int, c: int) -> int
    decreases dim, 1int, 0int,
{
    if dim <= 1 {
        0
    } else {
        let mn = det_seq(sub_seq(m, dim, r, c), dim - 1);
        if (r + c) % 2 == 0 { mn } else { fx_neg_s(mn) }
    }
}

/// Dimensions equal and every entry equal within the tolerance.
pub open spec fn mat_eq_s(a: Matrix, b: Matrix) -> bool {
    &&& a.dim_s() == b.dim_s()
    &&& forall|i: int| 0 <= i < a.ents().len()
        ==> fx_eq_s(a.ents()[i] as int, b.ents()[i] as int)
}

/// `inv` holds the cofactor inverse of the 4 x 4 entry sequence `m`.
pub open spec fn is_inverse_of_s(inv: Matrix, m: Seq<i64>) -> bool {
    &&& inv.wf()
    &&& inv.dim_s() == 4
    &&& forall|row: int, col: int|
        0 <= row < 4 && 0 <= col < 4
            ==> inv.ent(col, row) == fx_div_s(cof_seq(m, 4, row, col), det_seq(m, 4))
}

#[derive(Debug, Clone, Copy, PartialEq, Eq, Structural)]
pub enum MatrixError {
    NotInvertible,
}

impl Matrix {
    pub fn is_equal(&self, b: &Self) -> (r: bool)
        requires
            self.wf(),
            b.wf(),
        ensures
            r == mat_eq_s(*self, *b),
    {
        if self.dim != b.dim {
            return false;
        }
        let mut i: usize = 0;
        while i < self.m.len()
            invariant
                self.dim_s() == b.dim_s(),
                self.m@.len() == b.m@.len(),
                i <= self.m@.len(),
                forall|j: int| 0 <= j < i ==> fx_eq_s(self.m@[j] as int, b.m@[j] as int),
            decreases self.m@.len() - i,
        {
            if !fx_is_equal(self.m[i], b.m[i]) {
                proof {
                    assert(0 <= i < self.ents().len()
                        && !fx_eq_s(self.ents()[i as int] as int, b.ents()[i as int] as int));
                }
                return false;
            }
            i = i + 1;
        }
        true
    }

    pub fn submatrix(a: &Self, row_to_remove: usize, col_to_remove: usize) -> (r: Self)
        requires
            a.wf(),
            a.dim_s() >= 2,
            row_to_remove < a.dim_s(),
            col_to_remove < a.dim_s(),
        ensures
            r.wf(),
            r.dim_s() == a.dim_s() - 1,
            r.ents() == sub_seq(a.ents(), a.dim_s(), row_to_remove as int, col_to_remove as int),
    {
        let dim = a.dim;
        let nd = dim - 1;
        let ghost target = sub_seq(a.m@, dim as int, row_to_remove as int, col_to_remove as int);
        proof {
            assert(nd * nd <= 9) by (nonlinear_arith)
                requires 0 < nd <= 3;
        }
        let mut m: Vec<i64> = Vec::new();
        let mut row: usize = 0;
        while row < nd
            invariant
                a.wf(),
                a.dim_s() == dim as int,
                2 <= dim <= 4,
                nd == dim - 1,
                row_to_remove < dim,
                col_to_remove < dim,
                row <= nd,
                m@.len() == row * nd,
                target == sub_seq(a.m@, dim as int, row_to_remove as int, col_to_remove as int),
                forall|j: int| 0 <= j < m@.len() ==> m@[j] == target[j],
            decreases nd - row,
        {
            let mut col: usize = 0;
            while col < nd
                invariant
                    a.wf(),
                    a.dim_s() == dim as int,
                    2 <= dim <= 4,
                    nd == dim - 1,
                    row_to_remove < dim,
                    col_to_remove < dim,
                    row < nd,
                    col <= nd,
                    m@.len() == row * nd + col,
                    target == sub_seq(a.m@, dim as int, row_to_remove as int, col_to_remove as int),
                    forall|j: int| 0 <= j < m@.len() ==> m@[j] == target[j],
                decreases nd - col,
            {
                let src_row = if row < row_to_remove { row } else { row + 1 };
                let src_col = if col < col_to_remove { col } else { col + 1 };
                let v = a.get(src_row, src_col);
                proof {
                    let j = row * (nd as int) + col;
                    lemma_index_bound(nd as int, row as int, col as int);
                    lemma_fundamental_div_mod_converse(j, nd as int, row as int, col as int);
                    assert(target[j] == a.m@[
                        skip_s(row as int, row_to_remove as int) * dim
                            + skip_s(col as int, col_to_remove as int)]);
                    lemma_index_bound(dim as int, src_row as int, src_col as int);
                }
                m.push(v);
                col = col + 1;
            }
            row = row + 1;
            proof {
                assert((row - 1) * nd + nd == row * nd) by (nonlinear_arith);
            }
        }
        proof {
            assert(m@.len() == nd * nd) by (nonlinear_arith)
                requires m@.len() == (nd as int) * nd;
            assert(m@ =~= target);
            assert((nd as int) * nd == (dim - 1) * (dim - 1));
        }
        Self { m, dim: nd }
    }

    pub fn det(a: &Self) -> (r: i64)
        requires
            a.wf(),
        ensures
            r as int == det_seq(a.ents(), a.dim_s()),
        decreases a.dim_s(), 3int, 0int,
    {
        let dim = a.dim;
        if dim < 2 {
            return 0;
        }
        if dim == 2 {
            return fx_sub(
                fx_mul(a.get(0, 0), a.get(1, 1)),
                fx_mul(a.get(0, 1), a.get(1, 0)),
            );
        }
        let mut det: i64 = 0;
        let mut col: usize = 0;
        while col < dim
            invariant
                a.wf(),
                a.dim_s() == dim as int,
                3 <= dim <= 4,
                col <= dim,
                det as int == det_acc(a.ents(), dim as int, col as int),
            decreases dim - col,
        {
            let v = a.get(0, col);
            let cofactor = Matrix::cofactor(a, 0, col);
            det = fx_add(det, fx_mul(v, cofactor));
            col = col + 1;
        }
        det
    }

    pub fn minor(a: &Self, row: usize, col: usize) -> (r: i64)
        requires
            a.wf(),
            a.dim_s() >= 2,
            row < a.dim_s(),
            col < a.dim_s(),
        ensures
            r as int == det_seq(
                sub_seq(a.ents(), a.dim_s(), row as int, col as int), a.dim_s() - 1),
        decreases a.dim_s(), 0int, 0int,
    {
        let sm = Matrix::submatrix(a, row, col);
        Matrix::det(&sm)
    }

    pub fn cofactor(a: &Self, row: usize, col: usize) -> (r: i64)
        requires
            a.wf(),
            a.dim_s() >= 2,
            row < a.dim_s(),
            col < a.dim_s(),
        ensures
            r as int == cof_seq(a.ents(), a.dim_s(), row as int, col as int),
        decreases a.dim_s(), 1int, 0int,
    {
        let minor = Matrix::minor(a, row, col);
        if (row + col) % 2 == 0 {
            minor
        } else {
            fx_neg(minor)
        }
    }

    pub fn is_invertible(a: &Self) -> (r: bool)
        requires
            a.wf(),
        ensures
            r == !fx_eq_s(det_seq(a.ents(), a.dim_s()), 0),
    {
        let d = Matrix::det(a);
        !fx_is_equal(d, 0)
    }

    /// Inversion by cofactors; fails when the determinant vanishes at the
    /// engine tolerance.
    pub fn inverse(a: &Self) -> (r: Result<Self, MatrixError>)
        requires
            a.wf(),
        ensures
            r is Err <==> fx_eq_s(det_seq(a.ents(), a.dim_s()), 0),
            match r {
                Result::Err(e) => e == MatrixError::NotInvertible,
                Result::Ok(out) => {
                    &&& out.wf()
                    &&& out.dim_s() == a.dim_s()
                    &&& forall|row: int, col: int|
                        0 <= row < a.dim_s() && 0 <= col < a.dim_s()
                            ==> out.ent(col, row) == fx_div_s(
                                cof_seq(a.ents(), a.dim_s(), row, col),
                                det_seq(a.ents(), a.dim_s()))
                },
            },
    {
        let dim = a.dim;
        let det = Matrix::det(a);
        if fx_is_equal(det, 0) {
            return Result::Err(MatrixError::NotInvertible);
        }
        proof {
            if dim < 2 {
                assert(det_seq(a.ents(), a.dim_s()) == 0);
                assert(false);
            }
        }
        let mut out = Self::new(dim);
        let mut row: usize = 0;
        while row < dim
            invariant
                a.wf(),
                out.wf(),
                a.dim_s() == dim as int,
                out.dim_s() == dim as int,
                2 <= dim <= 4,
                row <= dim,
                det as int == det_seq(a.ents(), a.dim_s()),
                det != 0,
                !fx_eq_s(det as int, 0),
                forall|rr: int, cc: int|
                    0 <= rr < row && 0 <= cc < dim
                        ==> out.ent(cc, rr) == fx_div_s(
                            cof_seq(a.ents(), dim as int, rr, cc),
                            det as int),
            decreases dim - row,
        {
            let mut col: usize = 0;
            while col < dim
                invariant
                    a.wf(),
                    out.wf(),
                    a.dim_s() == dim as int,
                    out.dim_s() == dim as int,
                    2 <= dim <= 4,
                    row < dim,
                    col <= dim,
                    det as int == det_seq(a.ents(), a.dim_s()),
                    det != 0,
                    !fx_eq_s(det as int, 0),
                    forall|rr: int, cc: int|
                        0 <= rr < row && 0 <= cc < dim
                            ==> out.ent(cc, rr) == fx_div_s(
                                cof_seq(a.ents(), dim as int, rr, cc),
                                det as int),
                    forall|cc: int|
                        0 <= cc < col
                            ==> out.ent(cc, row as int) == fx_div_s(
                                cof_seq(a.ents(), dim as int, row as int, cc),
                                det as int),
                decreases dim - col,
            {
                let cofactor = Matrix::cofactor(a, row, col);
                let val = fx_div(cofactor, det);
                out.set(col, row, val);
                col = col + 1;
            }
            row = row + 1;
        }
        Result::Ok(out)
    }
}

/// Row-by-column accumulation over the first `n` terms.
pub open spec fn mul_acc_s(a: Seq<i64>, b: Seq<i64>, dim: int, row: int, col: int, n: int) -> int
    decreases n,
{
    if n <= 0 {
        0
    } else {
        fx_add_s(
            mul_acc_s(a, b, dim, row, col, n - 1),
            fx_mul_s(ment(a, dim, row, n - 1), ment(b, dim, n - 1, col)),
        )
    }
}

/// Entries of the matrix product.
pub open spec fn mat_mul_s(a: Seq<i64>, b: Seq<i64>, dim: int) -> Seq<i64> {
    Seq::new((dim * dim) as nat, |i: int| mul_acc_s(a, b, dim, i / dim, i % dim, dim) as i64)
}

pub open spec fn tup_at_s(t: Tuples, i: int) -> int {
    if i == 0 { t.x as int } else if i == 1 { t.y as int } else if i == 2 { t.z as int } else { t.w as int }
}

pub open spec fn mul_tup_acc_s(a: Seq<i64>, t: Tuples, row: int, n: int) -> int
    decreases n,
{
    if n <= 0 {
        0
    } else {
        fx_add_s(mul_tup_acc_s(a, t, row, n - 1), fx_mul_s(ment(a, 4, row, n - 1), tup_at_s(t, n - 1)))
    }
}

/// A 4 x 4 matrix applied to a tuple taken as a column vector.
pub open spec fn mat_mul_tuple_s(a: Seq<i64>, t: Tuples) -> Tuples {
    Tuples {
        kind: TuplesEnum::Tuple,
        x: mul_tup_acc_s(a, t, 0, 4) as i64,
        y: mul_tup_acc_s(a, t, 1, 4) as i64,
        z: mul_tup_acc_s(a, t, 2, 4) as i64,
        w: mul_tup_acc_s(a, t, 3, 4) as i64,
    }
}

pub open spec fn translate_seq_s(x: i64, y: i64, z: i64) -> Seq<i64> {
    seq![
        SCALE, 0, 0, x,
        0, SCALE, 0, y,
        0, 0, SCALE, z,
        0, 0, 0, SCALE,
    ]
}

pub open spec fn scale_seq_s(x: i64, y: i64, z: i64) -> Seq<i64> {
    seq![
        x, 0, 0, 0,
        0, y, 0, 0,
        0, 0, z, 0,
        0, 0, 0, SCALE,
    ]
}

pub open spec fn shear_seq_s(x_y: i64, x_z: i64, y_x: i64, y_z: i64, z_x: i64, z_y: i64) -> Seq<i64> {
    seq![
        SCALE, x_y, x_z, 0,
        y_x, SCALE, y_z, 0,
        z_x, z_y, SCALE, 0,
        0, 0, 0, SCALE,
    ]
}

/// Right-handed rotation about the x axis, from the sine and cosine of the
/// angle in fixed point.
pub open spec fn rotate_x_seq_s(sin: i64, cos: i64) -> Seq<i64> {
    seq![
        SCALE, 0, 0, 0,
        0, cos, fx_neg_s(sin as int) as i64, 0,
        0, sin, cos, 0,
        0, 0, 0, SCALE,
    ]
}

pub open spec fn rotate_y_seq_s(sin: i64, cos: i64) -> Seq<i64> {
    seq![
        cos, 0, sin, 0,
        0, SCALE, 0, 0,
        fx_neg_s(sin as int) as i64, 0, cos, 0,
        0, 0, 0, SCALE,
    ]
}

pub open spec fn rotate_z_seq_s(sin: i64, cos: i64) -> Seq<i64> {
    seq![
        cos, fx_neg_s(sin as int) as i64, 0, 0,
        sin, cos, 0, 0,
        0, 0, SCALE, 0,
        0, 0, 0, SCALE,
    ]
}

/// The camera basis built from `from`, `to` and `up`, composed with a
/// translation by `-from`.
pub open spec fn view_transform_s(from: Tuples, to: Tuples, up: Tuples) -> Seq<i64> {
    let forward = crate::tuples::normalize_s(crate::tuples::sub_tup_s(to, from));
    let left = crate::tuples::cross_s(forward, crate::tuples::normalize_s(up));
    let true_up = crate::tuples::cross_s(left, forward);
    let orientation = seq![
        left.x, left.y, left.z, 0,
        true_up.x, true_up.y, true_up.z, 0,
        fx_neg_s(forward.x as int) as i64, fx_neg_s(forward.y as int) as i64,
            fx_neg_s(forward.z as int) as i64, 0,
        0, 0, 0, SCALE,
    ];
    mat_mul_s(
        orientation,
        translate_seq_s(
            fx_neg_s(from.x as int) as i64,
            fx_neg_s(from.y as int) as i64,
            fx_neg_s(from.z as int) as i64,
        ),
        4,
    )
}

impl Matrix {
    pub fn mul(a: &Self, b: &Self) -> (r: Self)
        requires
            a.wf(),
            b.wf(),
            a.dim_s() == b.dim_s(),
        ensures
            r.wf(),
            r.dim_s() == a.dim_s(),
            r.ents() == mat_mul_s(a.ents(), b.ents(), a.dim_s()),
            forall|row: int, col: int|
                0 <= row < a.dim_s() && 0 <= col < a.dim_s()
                    ==> r.ent(row, col) == mul_acc_s(a.ents(), b.ents(), a.dim_s(), row, col, a.dim_s()),
    {
        let dim = a.dim;
        let mut out = Self::new(dim);
        let mut row: usize = 0;
        while row < dim
            invariant
                a.wf(),
                b.wf(),
                out.wf(),
                a.dim_s() == dim as int,
                b.dim_s() == dim as int,
                out.dim_s() == dim as int,
                1 <= dim <= 4,
                row <= dim,
                forall|rr: int, cc: int|
                    0 <= rr < row && 0 <= cc < dim
                        ==> out.ent(rr, cc) == mul_acc_s(a.ents(), b.ents(), dim as int, rr, cc, dim as int),
            decreases dim - row,
        {
            let mut col: usize = 0;
            while col < dim
                invariant
                    a.wf(),
                    b.wf(),
                    out.wf(),
                    a.dim_s() == dim as int,
                    b.dim_s() == dim as int,
                    out.dim_s() == dim as int,
                    1 <= dim <= 4,
                    row < dim,
                    col <= dim,
                    forall|rr: int, cc: int|
                        0 <= rr < row && 0 <= cc < dim
                            ==> out.ent(rr, cc) == mul_acc_s(a.ents(), b.ents(), dim as int, rr, cc, dim as int),
                    forall|cc: int|
                        0 <= cc < col
                            ==> out.ent(row as int, cc) == mul_acc_s(a.ents(), b.ents(), dim as int, row as int, cc, dim as int),
                decreases dim - col,
            {
                let mut val: i64 = 0;
                let mut idx: usize = 0;
                while idx < dim
                    invariant
                        a.wf(),
                        b.wf(),
                        a.dim_s() == dim as int,
                        b.dim_s() == dim as int,
                        1 <= dim <= 4,
                        row < dim,
                        col < dim,
                        idx <= dim,
                        val as int == mul_acc_s(a.ents(), b.ents(), dim as int, row as int, col as int, idx as int),
                    decreases dim - idx,
                {
                    val = fx_add(val, fx_mul(a.get(row, idx), b.get(idx, col)));
                    idx = idx + 1;
                }
                out.set(row, col, val);
                col = col + 1;
            }
            row = row + 1;
        }
        proof {
            let prod = mat_mul_s(a.ents(), b.ents(), dim as int);
            assert forall|i: int| 0 <= i < dim * dim
                implies out.m@[i] == prod[i] by {
                let r2 = i / (dim as int);
                let c2 = i % (dim as int);
                vstd::arithmetic::div_mod::lemma_fundamental_div_mod(i, dim as int);
                assert(0 <= c2 < dim);
                assert(0 <= r2 < dim) by (nonlinear_arith)
                    requires
                        i == (dim as int) * r2 + c2,
                        0 <= i < dim * dim,
                        0 <= c2 < dim;
                assert(out.ent(r2, c2) == mul_acc_s(a.ents(), b.ents(), dim as int, r2, c2, dim as int));
                lemma_index_bound(dim as int, r2, c2);
            };
            assert(out.m@ =~= prod);
        }
        out
    }

    pub fn mul_tuple(a: &Self, b: &Tuples) -> (r: Tuples)
        requires
            a.wf(),
            a.dim_s() == 4,
        ensures
            r == mat_mul_tuple_s(a.ents(), *b),
    {
        let mut out = Tuples::default();
        let mut row: usize = 0;
        while row < 4
            invariant
                a.wf(),
                a.dim_s() == 4,
                row <= 4,
                out.kind_s() == TuplesEnum::Tuple,
                row >= 1 ==> out.x as int == mul_tup_acc_s(a.ents(), *b, 0, 4),
                row >= 2 ==> out.y as int == mul_tup_acc_s(a.ents(), *b, 1, 4),
                row >= 3 ==> out.z as int == mul_tup_acc_s(a.ents(), *b, 2, 4),
                row >= 4 ==> out.w as int == mul_tup_acc_s(a.ents(), *b, 3, 4),
            decreases 4 - row,
        {
            let mut val: i64 = 0;
            let mut col: usize = 0;
            while col < 4
                invariant
                    a.wf(),
                    a.dim_s() == 4,
                    row < 4,
                    col <= 4,
                    val as int == mul_tup_acc_s(a.ents(), *b, row as int, col as int),
                decreases 4 - col,
            {
                val = fx_add(val, fx_mul(a.get(row, col), b.get_at_idx(col)));
                col = col + 1;
            }
            out.set_at_idx(row, val);
            row = row + 1;
        }
        out
    }

    pub fn translate(x: i64, y: i64, z: i64) -> (r: Self)
        ensures
            r.wf(),
            r.dim_s() == 4,
            r.ents() == translate_seq_s(x, y, z),
    {
        let mut m: Vec<i64> = Vec::new();
        m.push(SCALE);
        m.push(0);
        m.push(0);
        m.push(x);
        m.push(0);
        m.push(SCALE);
        m.push(0);
        m.push(y);
        m.push(0);
        m.push(0);
        m.push(SCALE);
        m.push(z);
        m.push(0);
        m.push(0);
        m.push(0);
        m.push(SCALE);
        let out = Matrix { m, dim: 4 };
        proof {
            assert(out.m@.len() == 16);
            assert(out.dim == 4);
            assert(out.m@ =~= translate_seq_s(x, y, z));
            assert(out.wf());
        }
        out
    }

    pub fn scale(x: i64, y: i64, z: i64) -> (r: Self)
        ensures
            r.wf(),
            r.dim_s() == 4,
            r.ents() == scale_seq_s(x, y, z),
    {
        let mut m: Vec<i64> = Vec::new();
        m.push(x);
        m.push(0);
        m.push(0);
        m.push(0);
        m.push(0);
        m.push(y);
        m.push(0);
        m.push(0);
        m.push(0);
        m.push(0);
        m.push(z);
        m.push(0);
        m.push(0);
        m.push(0);
        m.push(0);
        m.push(SCALE);
        let out = Matrix { m, dim: 4 };
        proof {
            assert(out.m@.len() == 16);
            assert(out.dim == 4);
            assert(out.m@ =~= scale_seq_s(x, y, z));
            assert(out.wf());
        }
        out
    }

    pub fn shear(x_y: i64, x_z: i64, y_x: i64, y_z: i64, z_x: i64, z_y: i64) -> (r: Self)
        ensures
            r.wf(),
            r.dim_s() == 4,
            r.ents() == shear_seq_s(x_y, x_z, y_x, y_z, z_x, z_y),
    {
        let mut m: Vec<i64> = Vec::new();
        m.push(SCALE);
        m.push(x_y);
        m.push(x_z);
        m.push(0);
        m.push(y_x);
        m.push(SCALE);
        m.push(y_z);
        m.push(0);
        m.push(z_x);
        m.push(z_y);
        m.push(SCALE);
        m.push(0);
        m.push(0);
        m.push(0);
        m.push(0);
        m.push(SCALE);
        let out = Matrix { m, dim: 4 };
        proof {
            assert(out.m@.len() == 16);
            assert(out.dim == 4);
            assert(out.m@ =~= shear_seq_s(x_y, x_z, y_x, y_z, z_x, z_y));
            assert(out.wf());
        }
        out
    }

    /// Rotation about the x axis; `sin` and `cos` are the sine and cosine of
    /// the angle in fixed point, supplied by the caller.
    pub fn rotate_x(sin: i64, cos: i64) -> (r: Self)
        ensures
            r.wf(),
            r.dim_s() == 4,
            r.ents() == rotate_x_seq_s(sin, cos),
    {
        let mut m: Vec<i64> = Vec::new();
        m.push(SCALE);
        m.push(0);
        m.push(0);
        m.push(0);
        m.push(0);
        m.push(cos);
        m.push(fx_neg(sin));
        m.push(0);
        m.push(0);
        m.push(sin);
        m.push(cos);
        m.push(0);
        m.push(0);
        m.push(0);
        m.push(0);
        m.push(SCALE);
        let out = Matrix { m, dim: 4 };
        proof {
            assert(out.m@.len() == 16);
            assert(out.dim == 4);
            assert(out.m@ =~= rotate_x_seq_s(sin, cos));
            assert(out.wf());
        }
        out
    }

    /// Rotation about the y axis from the angle's sine and cosine.
    pub fn rotate_y(sin: i64, cos: i64) -> (r: Self)
        ensures
            r.wf(),
            r.dim_s() == 4,
            r.ents() == rotate_y_seq_s(sin, cos),
    {
        let mut m: Vec<i64> = Vec::new();
        m.push(cos);
        m.push(0);
        m.push(sin);
        m.push(0);
        m.push(0);
        m.push(SCALE);
        m.push(0);
        m.push(0);
        m.push(fx_neg(sin));
        m.push(0);
        m.push(cos);
        m.push(0);
        m.push(0);
        m.push(0);
        m.push(0);
        m.push(SCALE);
        let out = Matrix { m, dim: 4 };
        proof {
            assert(out.m@.len() == 16);
            assert(out.dim == 4);
            assert(out.m@ =~= rotate_y_seq_s(sin, cos));
            assert(out.wf());
        }
        out
    }

    /// Rotation about the z axis from the angle's sine and cosine.
    pub fn rotate_z(sin: i64, cos: i64) -> (r: Self)
        ensures
            r.wf(),
            r.dim_s() == 4,
            r.ents() == rotate_z_seq_s(sin, cos),
    {
        let mut m: Vec<i64> = Vec::new();
        m.push(cos);
        m.push(fx_neg(sin));
        m.push(0);
        m.push(0);
        m.push(sin);
        m.push(cos);
        m.push(0);
        m.push(0);
        m.push(0);
        m.push(0);
        m.push(SCALE);
        m.push(0);
        m.push(0);
        m.push(0);
        m.push(0);
        m.push(SCALE);
        let out = Matrix { m, dim: 4 };
        proof {
            assert(out.m@.len() == 16);
            assert(out.dim == 4);
            assert(out.m@ =~= rotate_z_seq_s(sin, cos));
            assert(out.wf());
        }
        out
    }

    /// Compose a translation, a rotation and a scaling into one transform.
    pub fn transform_from_trs(t: &Self, rot: &Self, s: &Self) -> (r: Self)
        requires
            t.wf(),
            rot.wf(),
            s.wf(),
            t.dim_s() == 4,
            rot.dim_s() == 4,
            s.dim_s() == 4,
        ensures
            r.wf(),
            r.dim_s() == 4,
            r.ents() == mat_mul_s(mat_mul_s(t.ents(), rot.ents(), 4), s.ents(), 4),
    {
        let tr = Matrix::mul(t, rot);
        Matrix::mul(&tr, s)
    }

    pub fn view_transform(from: &Tuples, to: &Tuples, up: &Tuples) -> (r: Self)
        ensures
            r.wf(),
            r.dim_s() == 4,
            r.ents() == view_transform_s(*from, *to, *up),
    {
        let mut forward = to.clone();
        forward.subtract(from);
        forward.normalize();
        let mut up_n = up.clone();
        up_n.normalize();
        let left = Tuples::cross(&forward, &up_n);
        let true_up = Tuples::cross(&left, &forward);
        let mut m: Vec<i64> = Vec::new();
        m.push(left.x);
        m.push(left.y);
        m.push(left.z);
        m.push(0);
        m.push(true_up.x);
        m.push(true_up.y);
        m.push(true_up.z);
        m.push(0);
        m.push(fx_neg(forward.x));
        m.push(fx_neg(forward.y));
        m.push(fx_neg(forward.z));
        m.push(0);
        m.push(0);
        m.push(0);
        m.push(0);
        m.push(SCALE);
        let orientation = Matrix { m, dim: 4 };
        let translation = Matrix::translate(fx_neg(from.x), fx_neg(from.y), fx_neg(from.z));
        let out = Matrix::mul(&orientation, &translation);
        proof {
            let fwd = crate::tuples::normalize_s(crate::tuples::sub_tup_s(*to, *from));
            let lf = crate::tuples::cross_s(fwd, crate::tuples::normalize_s(*up));
            let tu = crate::tuples::cross_s(lf, fwd);
            assert(orientation.m@ =~= seq![
                lf.x, lf.y, lf.z, 0,
                tu.x, tu.y, tu.z, 0,
                fx_neg_s(fwd.x as int) as i64, fx_neg_s(fwd.y as int) as i64,
                    fx_neg_s(fwd.z as int) as i64, 0,
                0, 0, 0, SCALE,
            ]);
        }
        out
    }
}

/// Applying the identity matrix to a tuple keeps all four components (only
/// the kind tag becomes the generic one).
pub proof fn lemma_identity_mul_tuple(m: Seq<i64>, t: Tuples)
    requires
        m.len() == 16,
        is_identity_s(m, 4),
        crate::fx::fx_abs_s(t.x as int) <= crate::fx::FX_MAX,
        crate::fx::fx_abs_s(t.y as int) <= crate::fx::FX_MAX,
        crate::fx::fx_abs_s(t.z as int) <= crate::fx::FX_MAX,
        crate::fx::fx_abs_s(t.w as int) <= crate::fx::FX_MAX,
    ensures
        mat_mul_tuple_s(m, t) == (Tuples { kind: TuplesEnum::Tuple, x: t.x, y: t.y, z: t.z, w: t.w }),
{
    reveal_with_fuel(mul_tup_acc_s, 5);
    crate::fx::lemma_fx_mul_one(t.x as int);
    crate::fx::lemma_fx_mul_one(t.y as int);
    crate::fx::lemma_fx_mul_one(t.z as int);
    crate::fx::lemma_fx_mul_one(t.w as int);
    crate::fx::lemma_fx_mul_zero(t.x as int);
    crate::fx::lemma_fx_mul_zero(t.y as int);
    crate::fx::lemma_fx_mul_zero(t.z as int);
    crate::fx::lemma_fx_mul_zero(t.w as int);
    assert(ment(m, 4, 0, 0) == ident_ent_s(0, 0));
    assert(ment(m, 4, 0, 1) == ident_ent_s(0, 1));
    assert(ment(m, 4, 0, 2) == ident_ent_s(0, 2));
    assert(ment(m, 4, 0, 3) == ident_ent_s(0, 3));
    assert(ment(m, 4, 1, 0) == ident_ent_s(1, 0));
    assert(ment(m, 4, 1, 1) == ident_ent_s(1, 1));
    assert(ment(m, 4, 1, 2) == ident_ent_s(1, 2));
    assert(ment(m, 4, 1, 3) == ident_ent_s(1, 3));
    assert(ment(m, 4, 2, 0) == ident_ent_s(2, 0));
    assert(ment(m, 4, 2, 1) == ident_ent_s(2, 1));
    assert(ment(m, 4, 2, 2) == ident_ent_s(2, 2));
    assert(ment(m, 4, 2, 3) == ident_ent_s(2, 3));
    assert(ment(m, 4, 3, 0) == ident_ent_s(3, 0));
    assert(ment(m, 4, 3, 1) == ident_ent_s(3, 1));
    assert(ment(m, 4, 3, 2) == ident_ent_s(3, 2));
    assert(ment(m, 4, 3, 3) == ident_ent_s(3, 3));
    assert(mul_tup_acc_s(m, t, 0, 4) == t.x as int);
    assert(mul_tup_acc_s(m, t, 1, 4) == t.y as int);
    assert(mul_tup_acc_s(m, t, 2, 4) == t.z as int);
    assert(mul_tup_acc_s(m, t, 3, 4) == t.w as int);
}

} // verus!
