//! Square matrices with cofactor-expansion determinant and inverse.
//!
//! All transforms of the tracer are 4x4, but the determinant recursion
//! works over any square size, as the cofactor expansion needs the 3x3
//! and 2x2 cases. Entries are fixed-point scalars, so each operation is
//! pinned exactly to its spec mirror below.

use crate::fixed::{s_add, s_div, s_mul, s_neg, s_sub, Fx, EPS_RAW, SCALE};
use crate::point::Point;
use crate::tuple::Tuple;
use crate::vector::Vector;
use vstd::prelude::*;

verus! {

/// A square matrix of fixed-point entries, stored by rows.
#[derive(Debug, Clone, PartialEq)]
pub struct Matrice {
    pub size: usize,
    pub matrice: Vec<Vec<Fx>>,
}

impl View for Matrice {
    type V = Seq<Seq<Fx>>;

    open spec fn view(&self) -> Seq<Seq<Fx>> {
        Seq::new(self.matrice@.len(), |i: int| self.matrice@[i]@)
    }
}

impl Matrice {
    /// Squareness: `size` rows of `size` entries each.
    pub open spec fn wf(&self) -> bool {
        &&& self@.len() == self.size
        &&& forall|i: int| 0 <= i < self.size ==> (#[trigger] self@[i]).len() == self.size
    }
}

/// The identity: one on the diagonal, zero elsewhere.
pub open spec fn spec_identity(n: nat) -> Seq<Seq<Fx>> {
    Seq::new(
        n,
        |i: int|
            Seq::new(
                n,
                |j: int|
                    if i == j {
                        Fx { raw: SCALE }
                    } else {
                        Fx { raw: 0 }
                    },
            ),
    )
}

/// Entry `(i, j)` of the submatrix of `m` with row `r` and column `c`
/// struck out.
pub open spec fn sub_entry(m: Seq<Seq<Fx>>, r: int, c: int, i: int, j: int) -> Fx {
    m[if i < r {
        i
    } else {
        i + 1
    }][if j < c {
        j
    } else {
        j + 1
    }]
}

pub open spec fn spec_submatrix(m: Seq<Seq<Fx>>, r: int, c: int) -> Seq<Seq<Fx>> {
    if m.len() == 0 {
        Seq::empty()
    } else {
        Seq::new(
            (m.len() - 1) as nat,
            |i: int| Seq::new((m.len() - 1) as nat, |j: int| sub_entry(m, r, c, i, j)),
        )
    }
}

/// Determinant by cofactor expansion along the first row; the running
/// sum after the first `c` columns.
pub open spec fn spec_det_sum(m: Seq<Seq<Fx>>, c: nat) -> Fx
    decreases m.len(), 2nat, c,
{
    if c == 0 {
        Fx { raw: 0 }
    } else {
        s_add(spec_det_sum(m, (c - 1) as nat), s_mul(m[0][c - 1], spec_cofactor(m, 0, c - 1)))
    }
}

/// The determinant: `ad - bc` at size two, cofactor expansion along the
/// first row otherwise (and zero at sizes zero and one, where the
/// expansion bottoms out on an empty matrix).
pub open spec fn spec_det(m: Seq<Seq<Fx>>) -> Fx
    decreases m.len(), 3nat, 0nat,
{
    if m.len() == 2 {
        s_sub(s_mul(m[0][0], m[1][1]), s_mul(m[0][1], m[1][0]))
    } else {
        spec_det_sum(m, m.len())
    }
}

pub open spec fn spec_cofactor(m: Seq<Seq<Fx>>, r: int, c: int) -> Fx
    decreases m.len(), 1nat, 0nat,
{
    if (r + c) % 2 != 0 {
        s_neg(spec_minor(m, r, c))
    } else {
        spec_minor(m, r, c)
    }
}

/// The determinant of the submatrix with row `r` and column `c` struck.
pub open spec fn spec_minor(m: Seq<Seq<Fx>>, r: int, c: int) -> Fx
    decreases m.len(), 0nat, 0nat,
{
    if m.len() == 0 {
        Fx { raw: 0 }
    } else {
        spec_det(spec_submatrix(m, r, c))
    }
}

/// Entry `(i, j)` of the inverse: the transposed cofactor over the
/// determinant.
pub open spec fn spec_inverse_entry(m: Seq<Seq<Fx>>, i: int, j: int) -> Fx {
    s_div(spec_cofactor(m, j, i), spec_det(m))
}

/// The whole inverse matrix; meaningful only when the determinant is
/// not zero.
pub open spec fn spec_inverse_mat(m: Seq<Seq<Fx>>) -> Seq<Seq<Fx>> {
    Seq::new(m.len(), |i: int| Seq::new(m.len(), |j: int| spec_inverse_entry(m, i, j)))
}

pub open spec fn spec_transpose(m: Seq<Seq<Fx>>) -> Seq<Seq<Fx>> {
    Seq::new(m.len(), |i: int| Seq::new(m.len(), |j: int| m[j][i]))
}

/// The running sum of the first `k` products of row `i` of `m1` with
/// column `j` of `m2`.
pub open spec fn spec_mul_acc(m1: Seq<Seq<Fx>>, m2: Seq<Seq<Fx>>, i: int, j: int, k: nat) -> Fx
    decreases k,
{
    if k == 0 {
        Fx { raw: 0 }
    } else {
        s_add(spec_mul_acc(m1, m2, i, j, (k - 1) as nat), s_mul(m1[i][k - 1], m2[k - 1][j]))
    }
}

pub open spec fn spec_mat_mul(m1: Seq<Seq<Fx>>, m2: Seq<Seq<Fx>>) -> Seq<Seq<Fx>> {
    Seq::new(
        m1.len(),
        |i: int| Seq::new(m1.len(), |j: int| spec_mul_acc(m1, m2, i, j, m1.len())),
    )
}

/// The running sum of the first `k` products of row `i` of `m` with the
/// homogeneous column `t`.
pub open spec fn spec_row_dot4(m: Seq<Seq<Fx>>, t: Seq<Fx>, i: int, k: nat) -> Fx
    decreases k,
{
    if k == 0 {
        Fx { raw: 0 }
    } else {
        s_add(spec_row_dot4(m, t, i, (k - 1) as nat), s_mul(m[i][k - 1], t[k - 1]))
    }
}

/// A point as a homogeneous column: discriminator one, so translations
/// reach it.
pub open spec fn homog_point(p: Tuple) -> Seq<Fx> {
    seq![p.x, p.y, p.z, Fx { raw: SCALE }]
}

/// A vector as a homogeneous column: discriminator zero, so translations
/// pass it by.
pub open spec fn homog_vector(v: Tuple) -> Seq<Fx> {
    seq![v.x, v.y, v.z, Fx { raw: 0 }]
}

pub open spec fn spec_mul_point(m: Seq<Seq<Fx>>, p: Tuple) -> Tuple {
    Tuple {
        x: spec_row_dot4(m, homog_point(p), 0, 4),
        y: spec_row_dot4(m, homog_point(p), 1, 4),
        z: spec_row_dot4(m, homog_point(p), 2, 4),
    }
}

pub open spec fn spec_mul_vector(m: Seq<Seq<Fx>>, v: Tuple) -> Tuple {
    Tuple {
        x: spec_row_dot4(m, homog_vector(v), 0, 4),
        y: spec_row_dot4(m, homog_vector(v), 1, 4),
        z: spec_row_dot4(m, homog_vector(v), 2, 4),
    }
}

/// One and zero behave in the fixed-point arithmetic exactly as they
/// do over the reals: scaling by one, dividing by one and adding zero
/// change nothing, and a factor of zero annihilates.
pub proof fn lemma_fx_unit_ops(x: Fx)
    ensures
        s_mul(Fx { raw: SCALE as i64 }, x) == x,
        s_mul(x, Fx { raw: SCALE as i64 }) == x,
        s_mul(Fx { raw: 0 }, x) == (Fx { raw: 0 }),
        s_mul(x, Fx { raw: 0 }) == (Fx { raw: 0 }),
        s_add(Fx { raw: 0 }, x) == x,
        s_add(x, Fx { raw: 0 }) == x,
        s_sub(x, Fx { raw: 0 }) == x,
        s_neg(Fx { raw: 0 }) == (Fx { raw: 0 }),
        s_div(x, Fx { raw: SCALE as i64 }) == x,
{
    let s = SCALE as int;
    let v = x.raw as int;
    assert(s * v == v * s && v * s == s * v) by (nonlinear_arith);
    if v >= 0 {
        assert(v * s >= 0) by (nonlinear_arith)
            requires
                v >= 0,
                s > 0,
        ;
        vstd::arithmetic::div_mod::lemma_div_by_multiple(v, s);
    } else {
        assert(v * s < 0 && -(v * s) == (-v) * s) by (nonlinear_arith)
            requires
                v < 0,
                s > 0,
        ;
        vstd::arithmetic::div_mod::lemma_div_by_multiple(-v, s);
    }
    assert(v * 0 == 0 && 0 * v == 0) by (nonlinear_arith);
    vstd::arithmetic::div_mod::lemma_div_of0(s);
}

/// Striking the same row and column out of the identity leaves the
/// smaller identity.
pub proof fn lemma_sub_identity_diag(n: nat, i: int)
    requires
        1 <= n,
        0 <= i < n,
    ensures
        spec_submatrix(spec_identity(n), i, i) == spec_identity((n - 1) as nat),
{
    let sub = spec_submatrix(spec_identity(n), i, i);
    assert forall|a: int, b: int|
        0 <= a < n - 1 && 0 <= b < n - 1 implies #[trigger] sub[a][b] == spec_identity(
        (n - 1) as nat,
    )[a][b] by {
        let a2 = if a < i {
            a
        } else {
            a + 1
        };
        let b2 = if b < i {
            b
        } else {
            b + 1
        };
        assert(sub[a][b] == spec_identity(n)[a2][b2]);
        assert((a2 == b2) == (a == b));
    }
    assert(sub =~~= spec_identity((n - 1) as nat));
}

/// The running determinant sum collapses to zero when every summand
/// carries a zero factor.
proof fn lemma_det_sum_zero_terms(m: Seq<Seq<Fx>>, c: nat)
    requires
        forall|k: int|
            0 <= k < c ==> s_mul(m[0][k], spec_cofactor(m, 0, k)) == (Fx { raw: 0 }),
    ensures
        spec_det_sum(m, c) == (Fx { raw: 0 }),
    decreases c,
{
    if c > 0 {
        lemma_det_sum_zero_terms(m, (c - 1) as nat);
        assert(s_mul(m[0][c - 1], spec_cofactor(m, 0, c - 1)) == (Fx { raw: 0 }));
        lemma_fx_unit_ops(Fx { raw: 0 });
        assert(spec_det_sum(m, c) == s_add(Fx { raw: 0 }, Fx { raw: 0 }));
    }
}

/// A square matrix with an all-zero row has determinant zero.
pub proof fn lemma_det_zero_row(m: Seq<Seq<Fx>>, r: int)
    requires
        2 <= m.len(),
        forall|k: int| 0 <= k < m.len() ==> (#[trigger] m[k]).len() == m.len(),
        0 <= r < m.len(),
        forall|b: int| 0 <= b < m.len() ==> m[r][b] == (Fx { raw: 0 }),
    ensures
        spec_det(m) == (Fx { raw: 0 }),
    decreases m.len(),
{
    let n = m.len() as int;
    if n == 2 {
        lemma_fx_unit_ops(m[0][0]);
        lemma_fx_unit_ops(m[0][1]);
        lemma_fx_unit_ops(m[1][0]);
        lemma_fx_unit_ops(m[1][1]);
    } else if r == 0 {
        assert forall|k: int|
            0 <= k < n implies s_mul(m[0][k], spec_cofactor(m, 0, k)) == (Fx { raw: 0 }) by {
            lemma_fx_unit_ops(spec_cofactor(m, 0, k));
        }
        lemma_det_sum_zero_terms(m, m.len());
    } else {
        assert forall|k: int|
            0 <= k < n implies s_mul(m[0][k], spec_cofactor(m, 0, k)) == (Fx { raw: 0 }) by {
            let sub = spec_submatrix(m, 0, k);
            assert forall|b: int| 0 <= b < sub.len() implies (#[trigger] sub[r - 1][b]) == (Fx { raw: 0 }) by {
                let b2 = if b < k {
                    b
                } else {
                    b + 1
                };
                assert(sub[r - 1][b] == m[r][b2]);
            }
            assert forall|a: int|
                0 <= a < sub.len() implies (#[trigger] sub[a]).len() == sub.len() by {}
            lemma_det_zero_row(sub, r - 1);
            lemma_fx_unit_ops(Fx { raw: 0 });
            lemma_fx_unit_ops(m[0][k]);
        }
        lemma_det_sum_zero_terms(m, m.len());
    }
}

/// The running determinant sum of the identity is one from the first
/// column on: only the diagonal summand contributes.
proof fn lemma_det_sum_identity(n: nat, c: nat)
    requires
        2 <= n,
        1 <= c <= n,
        spec_cofactor(spec_identity(n), 0, 0) == (Fx { raw: SCALE as i64 }),
    ensures
        spec_det_sum(spec_identity(n), c) == (Fx { raw: SCALE as i64 }),
    decreases c,
{
    let one = Fx { raw: SCALE as i64 };
    if c == 1 {
        reveal_with_fuel(spec_det_sum, 3);
        assert(spec_identity(n)[0][0] == one);
        lemma_fx_unit_ops(one);
        assert(s_mul(one, one) == one);
        lemma_fx_unit_ops(s_mul(one, one));
        assert(spec_det_sum(spec_identity(n), 1) == s_add(Fx { raw: 0 }, s_mul(one, one)));
    } else {
        lemma_det_sum_identity(n, (c - 1) as nat);
        assert(spec_identity(n)[0][c - 1] == (Fx { raw: 0 }));
        lemma_fx_unit_ops(spec_cofactor(spec_identity(n), 0, c - 1));
        lemma_fx_unit_ops(one);
        assert(spec_det_sum(spec_identity(n), c) == s_add(one, Fx { raw: 0 }));
    }
}

/// The determinant of the identity is one, at every size from two up.
pub proof fn lemma_det_identity(n: nat)
    requires
        2 <= n,
    ensures
        spec_det(spec_identity(n)) == (Fx { raw: SCALE as i64 }),
    decreases n,
{
    let one = Fx { raw: SCALE as i64 };
    if n == 2 {
        lemma_fx_unit_ops(one);
        lemma_fx_unit_ops(Fx { raw: 0 });
        lemma_fx_unit_ops(s_mul(one, one));
    } else {
        lemma_sub_identity_diag(n, 0);
        lemma_det_identity((n - 1) as nat);
        assert(spec_cofactor(spec_identity(n), 0, 0) == one);
        lemma_det_sum_identity(n, n);
    }
}

/// The cofactors of the four-by-four identity: one on the diagonal,
/// zero off it.
pub proof fn lemma_cofactor_identity4(r: int, c: int)
    requires
        0 <= r < 4,
        0 <= c < 4,
    ensures
        spec_cofactor(spec_identity(4), r, c) == (if r == c {
            Fx { raw: SCALE as i64 }
        } else {
            Fx { raw: 0 }
        }),
{
    if r == c {
        lemma_sub_identity_diag(4, r);
        lemma_det_identity(3);
        assert((r + c) % 2 == 0);
    } else {
        let sub = spec_submatrix(spec_identity(4), r, c);
        let z = if c < r {
            c
        } else {
            c - 1
        };
        assert forall|b: int| 0 <= b < sub.len() implies (#[trigger] sub[z][b]) == (Fx { raw: 0 }) by {
            let z2 = if z < r {
                z
            } else {
                z + 1
            };
            let b2 = if b < c {
                b
            } else {
                b + 1
            };
            assert(sub[z][b] == spec_identity(4)[z2][b2]);
            assert(z2 == c && b2 != c);
        }
        assert forall|a: int| 0 <= a < sub.len() implies (#[trigger] sub[a]).len()
            == sub.len() by {}
        lemma_det_zero_row(sub, z);
        lemma_fx_unit_ops(Fx { raw: 0 });
    }
}

/// The inverse of the identity is the identity, exactly.
pub proof fn lemma_inverse_identity4()
    ensures
        spec_inverse_mat(spec_identity(4)) == spec_identity(4),
        spec_det(spec_identity(4)) == (Fx { raw: SCALE as i64 }),
{
    let one = Fx { raw: SCALE as i64 };
    lemma_det_identity(4);
    assert forall|i: int, j: int|
        0 <= i < 4 && 0 <= j < 4 implies #[trigger] spec_inverse_mat(spec_identity(4))[i][j]
        == spec_identity(4)[i][j] by {
        lemma_cofactor_identity4(j, i);
        lemma_fx_unit_ops(one);
        lemma_fx_unit_ops(Fx { raw: 0 });
    }
    assert(spec_inverse_mat(spec_identity(4)) =~~= spec_identity(4));
}

/// Applying the identity to a homogeneous column gives the column
/// back, exactly.
pub proof fn lemma_row_dot4_identity(t: Seq<Fx>, i: int)
    requires
        t.len() == 4,
        0 <= i < 3,
    ensures
        spec_row_dot4(spec_identity(4), t, i, 4) == t[i],
{
    reveal_with_fuel(spec_row_dot4, 5);
    lemma_fx_unit_ops(t[0]);
    lemma_fx_unit_ops(t[1]);
    lemma_fx_unit_ops(t[2]);
    lemma_fx_unit_ops(t[3]);
    assert forall|k: int| 0 <= k < 4 implies #[trigger] spec_identity(4)[i][k] == (if i == k {
        Fx { raw: SCALE as i64 }
    } else {
        Fx { raw: 0 }
    }) by {}
}

/// The identity moves no point and turns no vector.
pub proof fn lemma_identity_applications(p: Tuple)
    ensures
        spec_mul_point(spec_identity(4), p) == p,
        spec_mul_vector(spec_identity(4), p) == p,
{
    lemma_row_dot4_identity(homog_point(p), 0);
    lemma_row_dot4_identity(homog_point(p), 1);
    lemma_row_dot4_identity(homog_point(p), 2);
    lemma_row_dot4_identity(homog_vector(p), 0);
    lemma_row_dot4_identity(homog_vector(p), 1);
    lemma_row_dot4_identity(homog_vector(p), 2);
}

pub proof fn lemma_transpose_identity()
    ensures
        spec_transpose(spec_identity(4)) == spec_identity(4),
{
    assert(spec_transpose(spec_identity(4)) =~~= spec_identity(4));
}

impl Matrice {
    /// A square matrix of zeroes.
    pub fn new(size: usize) -> (r: Matrice)
        ensures
            r.wf(),
            r.size == size,
            forall|i: int, j: int|
                0 <= i < size && 0 <= j < size ==> (#[trigger] r@[i][j]).raw == 0,
    {
        let mut rows: Vec<Vec<Fx>> = Vec::new();
        let mut i: usize = 0;
        while i < size
            invariant
                i <= size,
                rows@.len() == i,
                forall|a: int| 0 <= a < i ==> (#[trigger] rows@[a])@.len() == size,
                forall|a: int, b: int|
                    0 <= a < i && 0 <= b < size ==> (#[trigger] rows@[a]@[b]).raw == 0,
            decreases size - i,
        {
            let mut row: Vec<Fx> = Vec::new();
            let mut j: usize = 0;
            while j < size
                invariant
                    j <= size,
                    row@.len() == j,
                    forall|b: int| 0 <= b < j ==> (#[trigger] row@[b]).raw == 0,
                decreases size - j,
            {
                row.push(Fx { raw: 0 });
                j += 1;
            }
            rows.push(row);
            i += 1;
        }
        Matrice { size, matrice: rows }
    }

    /// The identity matrix of the given size.
    pub fn identity_matrix(size: usize) -> (r: Matrice)
        ensures
            r.wf(),
            r.size == size,
            r@ == spec_identity(size as nat),
    {
        let mut out = Matrice::new(size);
        let mut ix: usize = 0;
        while ix < size
            invariant
                ix <= size,
                out.wf(),
                out.size == size,
                forall|i: int, j: int|
                    0 <= i < size && 0 <= j < size ==> (#[trigger] out@[i][j]) == (if i == j && i
                        < ix {
                        Fx { raw: SCALE }
                    } else {
                        Fx { raw: 0 }
                    }),
            decreases size - ix,
        {
            out.write_element(ix, ix, Fx { raw: SCALE });
            ix += 1;
        }
        proof {
            assert(out@ =~~= spec_identity(size as nat));
        }
        out
    }

    pub fn size(&self) -> (r: usize)
        ensures
            r == self.size,
    {
        self.size
    }

    pub fn element_at(&self, row: usize, column: usize) -> (r: Fx)
        requires
            self.wf(),
            row < self.size,
            column < self.size,
        ensures
            r == self@[row as int][column as int],
    {
        proof {
            assert(self@[row as int] == self.matrice@[row as int]@);
        }
        self.matrice[row][column]
    }

    pub fn write_element(&mut self, row: usize, column: usize, element: Fx)
        requires
            old(self).wf(),
            row < old(self).size,
            column < old(self).size,
        ensures
            final(self).wf(),
            final(self).size == old(self).size,
            final(self)@ == old(self)@.update(
                row as int,
                old(self)@[row as int].update(column as int, element),
            ),
    {
        proof {
            assert(self@[row as int] == self.matrice@[row as int]@);
        }
        self.matrice[row][column] = element;
        proof {
            assert(final(self)@ =~~= old(self)@.update(
                row as int,
                old(self)@[row as int].update(column as int, element),
            ));
        }
    }

    /// The matrix flipped about its diagonal.
    pub fn transpose(&self) -> (out: Matrice)
        requires
            self.wf(),
        ensures
            out.wf(),
            out.size == self.size,
            out@ == spec_transpose(self@),
            forall|i: int, j: int|
                0 <= i < self.size && 0 <= j < self.size ==> #[trigger] out@[i][j]
                    == self@[j][i],
    {
        let n = self.size;
        let mut out = Matrice::new(n);
        let mut ix: usize = 0;
        while ix < n
            invariant
                ix <= n,
                n == self.size,
                self.wf(),
                out.wf(),
                out.size == n,
                forall|i: int, j: int|
                    0 <= i < ix && 0 <= j < n ==> #[trigger] out@[i][j] == self@[j][i],
            decreases n - ix,
        {
            let mut jx: usize = 0;
            while jx < n
                invariant
                    ix < n,
                    jx <= n,
                    n == self.size,
                    self.wf(),
                    out.wf(),
                    out.size == n,
                    forall|i: int, j: int|
                        0 <= i < ix && 0 <= j < n ==> #[trigger] out@[i][j] == self@[j][i],
                    forall|j: int|
                        0 <= j < jx ==> #[trigger] out@[ix as int][j] == self@[j][ix as int],
                decreases n - jx,
            {
                let v = self.element_at(jx, ix);
                out.write_element(ix, jx, v);
                jx += 1;
            }
            ix += 1;
        }
        proof {
            assert(out@ =~~= spec_transpose(self@));
        }
        out
    }

    /// The matrix with row `r` and column `c` struck out.
    pub fn submatrix(&self, r: usize, c: usize) -> (out: Matrice)
        requires
            self.wf(),
            1 <= self.size,
            r < self.size,
            c < self.size,
        ensures
            out.wf(),
            out.size == self.size - 1,
            out@ == spec_submatrix(self@, r as int, c as int),
    {
        let n = self.size;
        let mut rows: Vec<Vec<Fx>> = Vec::new();
        let mut i: usize = 0;
        while i < n
            invariant
                i <= n,
                n == self.size,
                r < n,
                c < n,
                self.wf(),
                rows@.len() == (if i <= r {
                    i as int
                } else {
                    i - 1
                }),
                forall|a: int| 0 <= a < rows@.len() ==> (#[trigger] rows@[a])@.len() == n - 1,
                forall|a: int, b: int|
                    0 <= a < rows@.len() && 0 <= b < n - 1 ==> #[trigger] rows@[a]@[b]
                        == sub_entry(self@, r as int, c as int, a, b),
            decreases n - i,
        {
            if i != r {
                let mut row_acc: Vec<Fx> = Vec::new();
                let mut j: usize = 0;
                while j < n
                    invariant
                        j <= n,
                        i < n,
                        i != r,
                        n == self.size,
                        r < n,
                        c < n,
                        self.wf(),
                        row_acc@.len() == (if j <= c {
                            j as int
                        } else {
                            j - 1
                        }),
                        forall|b: int|
                            0 <= b < row_acc@.len() ==> #[trigger] row_acc@[b]
                                == self@[i as int][if b < c {
                                b
                            } else {
                                b + 1
                            }],
                    decreases n - j,
                {
                    if j != c {
                        let v = self.element_at(i, j);
                        row_acc.push(v);
                    }
                    j += 1;
                }
                rows.push(row_acc);
            }
            i += 1;
        }
        let out = Matrice { size: n - 1, matrice: rows };
        proof {
            assert(out@ =~~= spec_submatrix(self@, r as int, c as int));
        }
        out
    }

    /// The determinant: `ad - bc` at size two, cofactor expansion along
    /// the first row otherwise.
    pub fn determinant(&self) -> (r: Fx)
        requires
            self.wf(),
        ensures
            r == spec_det(self@),
        decreases self.size, 2int,
    {
        if self.size == 2 {
            let a = self.element_at(0, 0);
            let b = self.element_at(0, 1);
            let c = self.element_at(1, 0);
            let d = self.element_at(1, 1);
            a.mul(d).sub(b.mul(c))
        } else {
            let mut det = Fx { raw: 0 };
            let mut cx: usize = 0;
            while cx < self.size
                invariant
                    self.wf(),
                    self.size != 2,
                    cx <= self.size,
                    det == spec_det_sum(self@, cx as nat),
                decreases self.size - cx,
            {
                let e = self.element_at(0, cx);
                let cof = self.cofactor(0, cx);
                det = det.add(e.mul(cof));
                cx += 1;
            }
            det
        }
    }

    /// The minor's sign flipped on the odd positions of the checkerboard.
    pub fn cofactor(&self, row: usize, column: usize) -> (r: Fx)
        requires
            self.wf(),
            1 <= self.size,
            row < self.size,
            column < self.size,
        ensures
            r == spec_cofactor(self@, row as int, column as int),
        decreases self.size, 1int,
    {
        let m = self.minor(row, column);
        if (row % 2) != (column % 2) {
            proof {
                assert((row as int + column as int) % 2 != 0);
            }
            m.neg()
        } else {
            proof {
                assert((row as int + column as int) % 2 == 0);
            }
            m
        }
    }

    /// The determinant of the submatrix with row and column struck out.
    pub fn minor(&self, row: usize, column: usize) -> (r: Fx)
        requires
            self.wf(),
            1 <= self.size,
            row < self.size,
            column < self.size,
        ensures
            r == spec_minor(self@, row as int, column as int),
        decreases self.size, 0int,
    {
        let sub = self.submatrix(row, column);
        sub.determinant()
    }

    /// The inverse by the adjugate-over-determinant formula, or nothing
    /// when the determinant is zero.
    pub fn inverse(&self) -> (r: Option<Matrice>)
        requires
            self.wf(),
        ensures
            match r {
                None => spec_det(self@).raw == 0,
                Some(out) => {
                    &&& spec_det(self@).raw != 0
                    &&& out.wf()
                    &&& out.size == self.size
                    &&& out@ == spec_inverse_mat(self@)
                    &&& forall|i: int, j: int|
                        0 <= i < self.size && 0 <= j < self.size ==> #[trigger] out@[i][j]
                            == spec_inverse_entry(self@, i, j)
                },
            },
    {
        let det = self.determinant();
        if det.raw == 0 {
            return None;
        }
        let n = self.size;
        let mut out = Matrice::new(n);
        let mut row: usize = 0;
        while row < n
            invariant
                self.wf(),
                n == self.size,
                det == spec_det(self@),
                det.raw != 0,
                out.wf(),
                out.size == n,
                row <= n,
                forall|i: int, j: int|
                    0 <= i < row && 0 <= j < n ==> #[trigger] out@[j][i] == spec_inverse_entry(
                        self@,
                        j,
                        i,
                    ),
            decreases n - row,
        {
            let mut col: usize = 0;
            while col < n
                invariant
                    self.wf(),
                    n == self.size,
                    det == spec_det(self@),
                    det.raw != 0,
                    out.wf(),
                    out.size == n,
                    row < n,
                    col <= n,
                    forall|i: int, j: int|
                        0 <= i < row && 0 <= j < n ==> #[trigger] out@[j][i] == spec_inverse_entry(
                            self@,
                            j,
                            i,
                        ),
                    forall|j: int|
                        0 <= j < col ==> #[trigger] out@[j][row as int] == spec_inverse_entry(
                            self@,
                            j,
                            row as int,
                        ),
                decreases n - col,
            {
                let c = self.cofactor(row, col);
                out.write_element(col, row, c.div(det));
                col += 1;
            }
            row += 1;
        }
        proof {
            assert(out@ =~~= spec_inverse_mat(self@));
        }
        Some(out)
    }

    /// Row-by-column product of two matrices of one size.
    pub fn mul(&self, rhs: &Matrice) -> (out: Matrice)
        requires
            self.wf(),
            rhs.wf(),
            self.size == rhs.size,
        ensures
            out.wf(),
            out.size == self.size,
            out@ == spec_mat_mul(self@, rhs@),
    {
        let n = self.size;
        let mut out = Matrice::new(n);
        let mut ix: usize = 0;
        while ix < n
            invariant
                self.wf(),
                rhs.wf(),
                n == self.size,
                self.size == rhs.size,
                out.wf(),
                out.size == n,
                ix <= n,
                forall|i: int, j: int|
                    0 <= i < ix && 0 <= j < n ==> #[trigger] out@[i][j] == spec_mul_acc(
                        self@,
                        rhs@,
                        i,
                        j,
                        n as nat,
                    ),
            decreases n - ix,
        {
            let mut jx: usize = 0;
            while jx < n
                invariant
                    self.wf(),
                    rhs.wf(),
                    n == self.size,
                    self.size == rhs.size,
                    out.wf(),
                    out.size == n,
                    ix < n,
                    jx <= n,
                    forall|i: int, j: int|
                        0 <= i < ix && 0 <= j < n ==> #[trigger] out@[i][j] == spec_mul_acc(
                            self@,
                            rhs@,
                            i,
                            j,
                            n as nat,
                        ),
                    forall|j: int|
                        0 <= j < jx ==> #[trigger] out@[ix as int][j] == spec_mul_acc(
                            self@,
                            rhs@,
                            ix as int,
                            j,
                            n as nat,
                        ),
                decreases n - jx,
            {
                let mut element = Fx { raw: 0 };
                let mut kx: usize = 0;
                while kx < n
                    invariant
                        self.wf(),
                        rhs.wf(),
                        n == self.size,
                        self.size == rhs.size,
                        ix < n,
                        jx < n,
                        kx <= n,
                        element == spec_mul_acc(self@, rhs@, ix as int, jx as int, kx as nat),
                    decreases n - kx,
                {
                    let a = self.element_at(ix, kx);
                    let b = rhs.element_at(kx, jx);
                    element = element.add(a.mul(b));
                    kx += 1;
                }
                out.write_element(ix, jx, element);
                jx += 1;
            }
            ix += 1;
        }
        proof {
            assert(out@ =~~= spec_mat_mul(self@, rhs@));
        }
        out
    }

    fn row_apply(&self, i: usize, t0: Fx, t1: Fx, t2: Fx, t3: Fx) -> (r: Fx)
        requires
            self.wf(),
            self.size == 4,
            i < 4,
        ensures
            r == spec_row_dot4(self@, seq![t0, t1, t2, t3], i as int, 4),
    {
        let z = Fx { raw: 0 };
        let r = z.add(self.element_at(i, 0).mul(t0)).add(self.element_at(i, 1).mul(t1)).add(
            self.element_at(i, 2).mul(t2),
        ).add(self.element_at(i, 3).mul(t3));
        proof {
            reveal_with_fuel(spec_row_dot4, 5);
        }
        r
    }

    /// Apply the transform to a point: the homogeneous column carries a
    /// one, so the translation column takes part.
    pub fn mul_point(&self, p: &Point) -> (r: Point)
        requires
            self.wf(),
            self.size == 4,
        ensures
            r.position == spec_mul_point(self@, p.position),
    {
        let one = Fx { raw: SCALE };
        let px = p.position.x;
        let py = p.position.y;
        let pz = p.position.z;
        Point {
            position: Tuple {
                x: self.row_apply(0, px, py, pz, one),
                y: self.row_apply(1, px, py, pz, one),
                z: self.row_apply(2, px, py, pz, one),
            },
        }
    }

    /// Apply the transform to a vector: the homogeneous column carries a
    /// zero, so translation never moves a direction.
    pub fn mul_vector(&self, v: &Vector) -> (r: Vector)
        requires
            self.wf(),
            self.size == 4,
        ensures
            r.position == spec_mul_vector(self@, v.position),
    {
        let zero = Fx { raw: 0 };
        let vx = v.position.x;
        let vy = v.position.y;
        let vz = v.position.z;
        Vector {
            position: Tuple {
                x: self.row_apply(0, vx, vy, vz, zero),
                y: self.row_apply(1, vx, vy, vz, zero),
                z: self.row_apply(2, vx, vy, vz, zero),
            },
        }
    }

    /// A verified deep copy of the matrix.
    pub fn duplicate(&self) -> (out: Matrice)
        requires
            self.wf(),
        ensures
            out.wf(),
            out.size == self.size,
            out@ == self@,
    {
        let n = self.size;
        let mut out = Matrice::new(n);
        let mut ix: usize = 0;
        while ix < n
            invariant
                self.wf(),
                n == self.size,
                out.wf(),
                out.size == n,
                ix <= n,
                forall|i: int, j: int|
                    0 <= i < ix && 0 <= j < n ==> #[trigger] out@[i][j] == self@[i][j],
            decreases n - ix,
        {
            let mut jx: usize = 0;
            while jx < n
                invariant
                    self.wf(),
                    n == self.size,
                    out.wf(),
                    out.size == n,
                    ix < n,
                    jx <= n,
                    forall|i: int, j: int|
                        0 <= i < ix && 0 <= j < n ==> #[trigger] out@[i][j] == self@[i][j],
                    forall|j: int|
                        0 <= j < jx ==> #[trigger] out@[ix as int][j] == self@[ix as int][j],
                decreases n - jx,
            {
                let v = self.element_at(ix, jx);
                out.write_element(ix, jx, v);
                jx += 1;
            }
            ix += 1;
        }
        proof {
            assert(out@ =~~= self@);
        }
        out
    }

    /// Whether every pair of entries agrees within the tolerance 1e-5.
    pub fn approx_eq(&self, rhs: &Matrice) -> (r: bool)
        requires
            self.wf(),
            rhs.wf(),
        ensures
            r == (self.size == rhs.size && forall|i: int, j: int|
                0 <= i < self.size && 0 <= j < self.size ==> crate::fixed::abs_i(
                    (#[trigger] self@[i][j]).raw - rhs@[i][j].raw,
                ) < EPS_RAW as int),
    {
        if self.size != rhs.size {
            return false;
        }
        let n = self.size;
        let mut ix: usize = 0;
        while ix < n
            invariant
                ix <= n,
                n == self.size,
                self.size == rhs.size,
                self.wf(),
                rhs.wf(),
                forall|i: int, j: int|
                    0 <= i < ix && 0 <= j < n ==> crate::fixed::abs_i(
                        (#[trigger] self@[i][j]).raw - rhs@[i][j].raw,
                    ) < EPS_RAW as int,
            decreases n - ix,
        {
            let mut jx: usize = 0;
            while jx < n
                invariant
                    ix < n,
                    jx <= n,
                    n == self.size,
                    self.size == rhs.size,
                    self.wf(),
                    rhs.wf(),
                    forall|i: int, j: int|
                        0 <= i < ix && 0 <= j < n ==> crate::fixed::abs_i(
                            (#[trigger] self@[i][j]).raw - rhs@[i][j].raw,
                        ) < EPS_RAW as int,
                    forall|j: int|
                        0 <= j < jx ==> crate::fixed::abs_i(
                            (#[trigger] self@[ix as int][j]).raw - rhs@[ix as int][j].raw,
                        ) < EPS_RAW as int,
                decreases n - jx,
            {
                let a = self.element_at(ix, jx);
                let b = rhs.element_at(ix, jx);
                if !a.approx_eq(b) {
                    return false;
                }
                jx += 1;
            }
            ix += 1;
        }
        true
    }
}

} // verus!
