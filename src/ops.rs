//! Arithmetic on matrices: entrywise sums and differences, shifting and
//! scaling by an element, and the matrix product.
//!
//! Each operator states its result in its own `ensures`; the operator
//! traits' specification functions are left unused (`obeys_*_spec` is
//! false).  What each `*_req` function asks is that every element
//! operation the operator performs stays within the element type.
use vstd::prelude::*;
use crate::matrix::{lemma_matrix_shape, Matrix};
use crate::model::{
    column, dot, is_grid, dot_fits, dot_prefix, entrywise_difference, entrywise_sum, product, scaled,
    shifted,
};
use crate::scalar::Scalar;

verus! {

broadcast use lemma_matrix_shape;

/// Every entrywise sum of `a` and `b` is a value of `T`.
pub open spec fn sum_fits<T: Scalar>(a: Seq<Seq<int>>, b: Seq<Seq<int>>) -> bool {
    forall|i: int, j: int|
        0 <= i < a.len() && 0 <= j < a[i].len() ==> T::in_range(#[trigger] a[i][j] + b[i][j])
}

/// Every entrywise difference of `a` and `b` is a value of `T`.
pub open spec fn difference_fits<T: Scalar>(a: Seq<Seq<int>>, b: Seq<Seq<int>>) -> bool {
    forall|i: int, j: int|
        0 <= i < a.len() && 0 <= j < a[i].len() ==> T::in_range(#[trigger] a[i][j] - b[i][j])
}

/// Every entry of `g` plus `s` is a value of `T`.
pub open spec fn shift_fits<T: Scalar>(g: Seq<Seq<int>>, s: int) -> bool {
    forall|i: int, j: int|
        0 <= i < g.len() && 0 <= j < g[i].len() ==> T::in_range(#[trigger] g[i][j] + s)
}

/// Every entry of `g` times `s` is a value of `T`.
pub open spec fn scale_fits<T: Scalar>(g: Seq<Seq<int>>, s: int) -> bool {
    forall|i: int, j: int|
        0 <= i < g.len() && 0 <= j < g[i].len() ==> T::in_range(#[trigger] g[i][j] * s)
}

/// Every entry of the product of `a` and `b` (of `cols` columns) is
/// accumulated within the values of `T`.
pub open spec fn product_fits<T: Scalar>(a: Seq<Seq<int>>, b: Seq<Seq<int>>, cols: nat) -> bool {
    forall|i: int, j: int|
        0 <= i < a.len() && 0 <= j < cols ==> #[trigger] dot_fits::<T>(a[i], column(b, j))
}

impl<T: Scalar, const R: usize, const C: usize> std::ops::Add for Matrix<T, R, C> {
    type Output = Matrix<T, R, C>;

    /// The entrywise sum.
    fn add(self, rhs: Self) -> (r: Self)
        ensures
            r@ == entrywise_sum(self@, rhs@),
    {
        let mut r = Self::new();
        let mut i: usize = 0;
        while i < R
            invariant
                i <= R,
                sum_fits::<T>(self@, rhs@),
                is_grid(self@, R as nat, C as nat),
                forall|a: int, b: int|
                    0 <= a < R && 0 <= b < C ==> #[trigger] r@[a][b] == (if a < i {
                        self@[a][b] + rhs@[a][b]
                    } else {
                        0
                    }),
            decreases R - i,
        {
            let mut j: usize = 0;
            while j < C
                invariant
                    i < R,
                    j <= C,
                    sum_fits::<T>(self@, rhs@),
                    is_grid(self@, R as nat, C as nat),
                    forall|a: int, b: int|
                        0 <= a < R && 0 <= b < C ==> #[trigger] r@[a][b] == (if a < i || (a == i
                            && b < j) {
                            self@[a][b] + rhs@[a][b]
                        } else {
                            0
                        }),
                decreases C - j,
            {
                let x = self.get(i, j).plus(rhs.get(i, j));
                r.set_entry(i, j, x);
                j = j + 1;
            }
            i = i + 1;
        }
        assert(r@ =~~= entrywise_sum(self@, rhs@));
        r
    }
}

impl<T: Scalar, const R: usize, const C: usize> vstd::std_specs::ops::AddSpecImpl for Matrix<T, R, C> {
    open spec fn obeys_add_spec() -> bool {
        false
    }

    open spec fn add_req(self, rhs: Self) -> bool {
        sum_fits::<T>(self@, rhs@)
    }

    open spec fn add_spec(self, rhs: Self) -> Self {
        self
    }
}

impl<T: Scalar, const R: usize, const C: usize> std::ops::Sub for Matrix<T, R, C> {
    type Output = Matrix<T, R, C>;

    /// The entrywise difference.
    fn sub(self, rhs: Self) -> (r: Self)
        ensures
            r@ == entrywise_difference(self@, rhs@),
    {
        let mut r = Self::new();
        let mut i: usize = 0;
        while i < R
            invariant
                i <= R,
                difference_fits::<T>(self@, rhs@),
                is_grid(self@, R as nat, C as nat),
                forall|a: int, b: int|
                    0 <= a < R && 0 <= b < C ==> #[trigger] r@[a][b] == (if a < i {
                        self@[a][b] - rhs@[a][b]
                    } else {
                        0
                    }),
            decreases R - i,
        {
            let mut j: usize = 0;
            while j < C
                invariant
                    i < R,
                    j <= C,
                    difference_fits::<T>(self@, rhs@),
                    is_grid(self@, R as nat, C as nat),
                    forall|a: int, b: int|
                        0 <= a < R && 0 <= b < C ==> #[trigger] r@[a][b] == (if a < i || (a == i
                            && b < j) {
                            self@[a][b] - rhs@[a][b]
                        } else {
                            0
                        }),
                decreases C - j,
            {
                let x = self.get(i, j).minus(rhs.get(i, j));
                r.set_entry(i, j, x);
                j = j + 1;
            }
            i = i + 1;
        }
        assert(r@ =~~= entrywise_difference(self@, rhs@));
        r
    }
}

impl<T: Scalar, const R: usize, const C: usize> vstd::std_specs::ops::SubSpecImpl for Matrix<T, R, C> {
    open spec fn obeys_sub_spec() -> bool {
        false
    }

    open spec fn sub_req(self, rhs: Self) -> bool {
        difference_fits::<T>(self@, rhs@)
    }

    open spec fn sub_spec(self, rhs: Self) -> Self {
        self
    }
}

impl<T: Scalar, const R: usize, const C: usize> std::ops::Add<T> for Matrix<T, R, C> {
    type Output = Matrix<T, R, C>;

    /// `rhs` added to every entry.
    fn add(self, rhs: T) -> (r: Self)
        ensures
            r@ == shifted(self@, rhs.value()),
    {
        let mut r = Self::new();
        let mut i: usize = 0;
        while i < R
            invariant
                i <= R,
                shift_fits::<T>(self@, rhs.value()),
                is_grid(self@, R as nat, C as nat),
                forall|a: int, b: int|
                    0 <= a < R && 0 <= b < C ==> #[trigger] r@[a][b] == (if a < i {
                        self@[a][b] + rhs.value()
                    } else {
                        0
                    }),
            decreases R - i,
        {
            let mut j: usize = 0;
            while j < C
                invariant
                    i < R,
                    j <= C,
                    shift_fits::<T>(self@, rhs.value()),
                    is_grid(self@, R as nat, C as nat),
                    forall|a: int, b: int|
                        0 <= a < R && 0 <= b < C ==> #[trigger] r@[a][b] == (if a < i || (a == i
                            && b < j) {
                            self@[a][b] + rhs.value()
                        } else {
                            0
                        }),
                decreases C - j,
            {
                let x = self.get(i, j).plus(rhs);
                r.set_entry(i, j, x);
                j = j + 1;
            }
            i = i + 1;
        }
        assert(r@ =~~= shifted(self@, rhs.value()));
        r
    }
}

impl<T: Scalar, const R: usize, const C: usize> vstd::std_specs::ops::AddSpecImpl<T> for Matrix<T, R, C> {
    open spec fn obeys_add_spec() -> bool {
        false
    }

    open spec fn add_req(self, rhs: T) -> bool {
        shift_fits::<T>(self@, rhs.value())
    }

    open spec fn add_spec(self, rhs: T) -> Self {
        self
    }
}

impl<T: Scalar, const R: usize, const C: usize> std::ops::Sub<T> for Matrix<T, R, C> {
    type Output = Matrix<T, R, C>;

    /// `rhs` subtracted from every entry.
    fn sub(self, rhs: T) -> (r: Self)
        ensures
            r@ == shifted(self@, -rhs.value()),
    {
        let mut r = Self::new();
        let mut i: usize = 0;
        while i < R
            invariant
                i <= R,
                shift_fits::<T>(self@, -rhs.value()),
                is_grid(self@, R as nat, C as nat),
                forall|a: int, b: int|
                    0 <= a < R && 0 <= b < C ==> #[trigger] r@[a][b] == (if a < i {
                        self@[a][b] - rhs.value()
                    } else {
                        0
                    }),
            decreases R - i,
        {
            let mut j: usize = 0;
            while j < C
                invariant
                    i < R,
                    j <= C,
                    shift_fits::<T>(self@, -rhs.value()),
                    is_grid(self@, R as nat, C as nat),
                    forall|a: int, b: int|
                        0 <= a < R && 0 <= b < C ==> #[trigger] r@[a][b] == (if a < i || (a == i
                            && b < j) {
                            self@[a][b] - rhs.value()
                        } else {
                            0
                        }),
                decreases C - j,
            {
                let x = self.get(i, j).minus(rhs);
                r.set_entry(i, j, x);
                j = j + 1;
            }
            i = i + 1;
        }
        assert(r@ =~~= shifted(self@, -rhs.value()));
        r
    }
}

impl<T: Scalar, const R: usize, const C: usize> vstd::std_specs::ops::SubSpecImpl<T> for Matrix<T, R, C> {
    open spec fn obeys_sub_spec() -> bool {
        false
    }

    open spec fn sub_req(self, rhs: T) -> bool {
        shift_fits::<T>(self@, -rhs.value())
    }

    open spec fn sub_spec(self, rhs: T) -> Self {
        self
    }
}

impl<T: Scalar, const R: usize, const C: usize> std::ops::Mul<T> for Matrix<T, R, C> {
    type Output = Matrix<T, R, C>;

    /// Every entry multiplied by `rhs`.
    fn mul(self, rhs: T) -> (r: Self)
        ensures
            r@ == scaled(self@, rhs.value()),
    {
        let mut r = Self::new();
        let mut i: usize = 0;
        while i < R
            invariant
                i <= R,
                scale_fits::<T>(self@, rhs.value()),
                is_grid(self@, R as nat, C as nat),
                forall|a: int, b: int|
                    0 <= a < R && 0 <= b < C ==> #[trigger] r@[a][b] == (if a < i {
                        self@[a][b] * rhs.value()
                    } else {
                        0
                    }),
            decreases R - i,
        {
            let mut j: usize = 0;
            while j < C
                invariant
                    i < R,
                    j <= C,
                    scale_fits::<T>(self@, rhs.value()),
                    is_grid(self@, R as nat, C as nat),
                    forall|a: int, b: int|
                        0 <= a < R && 0 <= b < C ==> #[trigger] r@[a][b] == (if a < i || (a == i
                            && b < j) {
                            self@[a][b] * rhs.value()
                        } else {
                            0
                        }),
                decreases C - j,
            {
                let x = self.get(i, j).times(rhs);
                r.set_entry(i, j, x);
                j = j + 1;
            }
            i = i + 1;
        }
        assert(r@ =~~= scaled(self@, rhs.value()));
        r
    }
}

impl<T: Scalar, const R: usize, const C: usize> vstd::std_specs::ops::MulSpecImpl<T> for Matrix<T, R, C> {
    open spec fn obeys_mul_spec() -> bool {
        false
    }

    open spec fn mul_req(self, rhs: T) -> bool {
        scale_fits::<T>(self@, rhs.value())
    }

    open spec fn mul_spec(self, rhs: T) -> Self {
        self
    }
}

impl<T: Scalar, const M: usize, const N: usize, const K: usize> std::ops::Mul<Matrix<T, N, K>> for Matrix<T, M, N> {
    type Output = Matrix<T, M, K>;

    /// The matrix product: entry `(i, j)` is the sum over `n` of
    /// `self(i, n) * rhs(n, j)`, accumulated from zero.
    fn mul(self, rhs: Matrix<T, N, K>) -> (r: Matrix<T, M, K>)
        ensures
            r@ == product(self@, rhs@, K as nat),
    {
        let mut r = Matrix::<T, M, K>::new();
        let mut i: usize = 0;
        while i < M
            invariant
                i <= M,
                product_fits::<T>(self@, rhs@, K as nat),
                forall|a: int, b: int|
                    0 <= a < M && 0 <= b < K ==> #[trigger] r@[a][b] == (if a < i {
                        dot(self@[a], column(rhs@, b))
                    } else {
                        0
                    }),
            decreases M - i,
        {
            let mut j: usize = 0;
            while j < K
                invariant
                    i < M,
                    j <= K,
                    product_fits::<T>(self@, rhs@, K as nat),
                    forall|a: int, b: int|
                        0 <= a < M && 0 <= b < K ==> #[trigger] r@[a][b] == (if a < i || (a == i
                            && b < j) {
                            dot(self@[a], column(rhs@, b))
                        } else {
                            0
                        }),
                decreases K - j,
            {
                let ghost row = self@[i as int];
                let ghost col = column(rhs@, j as int);
                assert(dot_fits::<T>(row, col));
                let mut sum = T::zero();
                let mut n: usize = 0;
                while n < N
                    invariant
                        i < M,
                        j < K,
                        n <= N,
                        row == self@[i as int],
                        col == column(rhs@, j as int),
                        dot_fits::<T>(row, col),
                        sum.value() == dot_prefix(row, col, n as int),
                    decreases N - n,
                {
                    assert(T::in_range(row[n as int] * col[n as int]));
                    let x = self.get(i, n).times(rhs.get(n, j));
                    sum = sum.plus(x);
                    n = n + 1;
                }
                r.set_entry(i, j, sum);
                j = j + 1;
            }
            i = i + 1;
        }
        assert(r@ =~~= product(self@, rhs@, K as nat));
        r
    }
}

impl<T: Scalar, const M: usize, const N: usize, const K: usize> vstd::std_specs::ops::MulSpecImpl<Matrix<T, N, K>> for Matrix<T, M, N> {
    open spec fn obeys_mul_spec() -> bool {
        false
    }

    open spec fn mul_req(self, rhs: Matrix<T, N, K>) -> bool {
        product_fits::<T>(self@, rhs@, K as nat)
    }

    open spec fn mul_spec(self, rhs: Matrix<T, N, K>) -> Matrix<T, M, K> {
        vstd::pervasive::arbitrary()
    }
}

} // verus!
