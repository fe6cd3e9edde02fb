//! Algebraic laws of the operations, stated over the model that their
//! contracts use.
use vstd::prelude::*;
use crate::matrix::{lemma_matrix_shape, Matrix};
use crate::model::{
    column, column_of, column_totals, cross, diagonal_grid, entrywise_difference,
    entrywise_sum, lemma_sum_ext, lemma_sum_scale_left, lemma_sum_scale_right, lemma_sum_single,
    lemma_sum_swap, negated, product, products, row_of, row_totals, transposed,
};
use crate::scalar::Scalar;
use crate::vector::Vector;

verus! {

broadcast use lemma_matrix_shape;

/// Adding a matrix and then subtracting it again gives back the matrix
/// started from: `(a + b) - b == a`.
pub proof fn lemma_add_then_subtract<T: Scalar, const R: usize, const C: usize>(
    a: Matrix<T, R, C>,
    b: Matrix<T, R, C>,
)
    ensures
        entrywise_difference(entrywise_sum(a@, b@), b@) == a@,
{
    assert(entrywise_difference(entrywise_sum(a@, b@), b@) =~~= a@);
}

/// Transposing twice gives back the matrix started from.
pub proof fn lemma_transpose_twice<T: Scalar, const R: usize, const C: usize>(a: Matrix<T, R, C>)
    ensures
        transposed(transposed(a@, C as nat), R as nat) == a@,
{
    assert(transposed(transposed(a@, C as nat), R as nat) =~~= a@);
}

/// The matrix product is associative: `(a * b) * c == a * (b * c)`.
pub proof fn lemma_product_associative<
    T: Scalar,
    const M: usize,
    const N: usize,
    const K: usize,
    const P: usize,
>(a: Matrix<T, M, N>, b: Matrix<T, N, K>, c: Matrix<T, K, P>)
    ensures
        product(product(a@, b@, K as nat), c@, P as nat) == product(
            a@,
            product(b@, c@, P as nat),
            P as nat,
        ),
{
    let ab = product(a@, b@, K as nat);
    let bc = product(b@, c@, P as nat);
    assert forall|i: int, j: int| 0 <= i < M && 0 <= j < P implies #[trigger] product(
        ab,
        c@,
        P as nat,
    )[i][j] == product(a@, bc, P as nat)[i][j] by {
        let g = |n: int, k: int| a@[i][n] * b@[n][k] * c@[k][j];
        assert forall|k: int| 0 <= k < K implies #[trigger] products(ab[i], column(c@, j))(k)
            == column_totals(g, N as int)(k) by {
            lemma_sum_scale_right(
                N as int,
                products(a@[i], column(b@, k)),
                column_of(g, k),
                c@[k][j],
            );
        }
        lemma_sum_ext(K as int, products(ab[i], column(c@, j)), column_totals(g, N as int));
        assert forall|n: int| 0 <= n < N implies #[trigger] products(a@[i], column(bc, j))(n)
            == row_totals(g, K as int)(n) by {
            assert forall|k: int| 0 <= k < K implies #[trigger] row_of(g, n)(k) == a@[i][n] * products(
                b@[n],
                column(c@, j),
            )(k) by {
                vstd::arithmetic::mul::lemma_mul_is_associative(a@[i][n], b@[n][k], c@[k][j]);
            }
            lemma_sum_scale_left(
                K as int,
                products(b@[n], column(c@, j)),
                row_of(g, n),
                a@[i][n],
            );
        }
        lemma_sum_ext(N as int, products(a@[i], column(bc, j)), row_totals(g, K as int));
        lemma_sum_swap(N as int, K as int, g);
    }
    assert(product(ab, c@, P as nat) =~~= product(a@, bc, P as nat));
}

/// The square matrix with ones on its diagonal is a left identity of the
/// matrix product.
pub proof fn lemma_diagonal_one_is_identity<T: Scalar, const R: usize, const C: usize>(
    id: Matrix<T, R, R>,
    b: Matrix<T, R, C>,
)
    requires
        id@ == diagonal_grid(R as nat, R as nat, 1),
    ensures
        product(id@, b@, C as nat) == b@,
{
    assert forall|i: int, j: int| 0 <= i < R && 0 <= j < C implies #[trigger] product(
        id@,
        b@,
        C as nat,
    )[i][j] == b@[i][j] by {
        lemma_sum_single(R as int, products(id@[i], column(b@, j)), i);
    }
    assert(product(id@, b@, C as nat) =~~= b@);
}

/// The cross product of a vector with itself is the zero vector.
pub proof fn lemma_cross_self<T: Scalar>(v: Vector<T, 3>)
    ensures
        cross(v.components(), v.components()) == seq![0int, 0, 0],
{
    let s = v.components();
    assert(s[1] * s[2] == s[2] * s[1]) by (nonlinear_arith);
    assert(s[2] * s[0] == s[0] * s[2]) by (nonlinear_arith);
    assert(s[0] * s[1] == s[1] * s[0]) by (nonlinear_arith);
    assert(cross(s, s) =~= seq![0int, 0, 0]);
}

/// The cross product is anti-commutative: `v1 x v2 == -(v2 x v1)`.
pub proof fn lemma_cross_anticommutative<T: Scalar>(v1: Vector<T, 3>, v2: Vector<T, 3>)
    ensures
        cross(v1.components(), v2.components()) == negated(cross(v2.components(), v1.components())),
{
    let a = v1.components();
    let b = v2.components();
    assert(a[1] * b[2] == b[2] * a[1]) by (nonlinear_arith);
    assert(a[2] * b[1] == b[1] * a[2]) by (nonlinear_arith);
    assert(a[2] * b[0] == b[0] * a[2]) by (nonlinear_arith);
    assert(a[0] * b[2] == b[2] * a[0]) by (nonlinear_arith);
    assert(a[0] * b[1] == b[1] * a[0]) by (nonlinear_arith);
    assert(a[1] * b[0] == b[0] * a[1]) by (nonlinear_arith);
    assert(cross(a, b) =~= negated(cross(b, a)));
}

} // verus!
