//! The matrix type, its constructors, indexing and transposition.
use vstd::prelude::*;
use crate::model::{diagonal_grid, transposed, flat_index, is_grid, lemma_flat_index, overwrite, values_of, zeros};
use crate::scalar::Scalar;

verus! {

/// A matrix of `R` rows and `C` columns, stored row by row.
#[derive(Debug, Clone, Copy, PartialEq, Eq)]
pub struct Matrix<T: Scalar, const R: usize, const C: usize> {
    vals: [[T; C]; R],
}

impl<T: Scalar, const R: usize, const C: usize> View for Matrix<T, R, C> {
    type V = Seq<Seq<int>>;

    /// The values of the entries, row by row.
    closed spec fn view(&self) -> Seq<Seq<int>> {
        Seq::new(R as nat, |i: int| Seq::new(C as nat, |j: int| self.vals[i][j].value()))
    }
}

/// Every matrix is a grid of `R` rows and `C` columns.
pub broadcast proof fn lemma_matrix_shape<T: Scalar, const R: usize, const C: usize>(m: Matrix<T, R, C>)
    ensures
        #![trigger m@]
        is_grid(m@, R as nat, C as nat),
{
}

impl<T: Scalar, const R: usize, const C: usize> Matrix<T, R, C> {
    /// The matrix with every entry zero.
    pub fn new() -> (r: Self)
        ensures
            r@ == zeros(R as nat, C as nat),
    {
        let z = T::zero();
        let row: [T; C] = [z; C];
        let r = Matrix { vals: [row; R] };
        assert(r@ =~~= zeros(R as nat, C as nat));
        r
    }

    /// Overwrites the first `vals_.len()` entries, read row by row, with
    /// `vals_`; the other entries keep their values.
    pub fn set(&mut self, vals_: &[T])
        requires
            vals_@.len() <= R * C,
        ensures
            final(self)@ == overwrite(old(self)@, values_of(vals_@)),
    {
        let ghost start = self@;
        let ghost vs = values_of(vals_@);
        let n = vals_.len();
        let mut idx: usize = 0;
        while idx < n
            invariant
                n == vals_@.len(),
                n <= R * C,
                idx <= n,
                start == old(self)@,
                vs == values_of(vals_@),
                forall|i: int, j: int|
                    0 <= i < R && 0 <= j < C ==> #[trigger] self@[i][j] == (if flat_index(
                        i,
                        j,
                        C as int,
                    ) < idx {
                        vs[flat_index(i, j, C as int)]
                    } else {
                        start[i][j]
                    }),
            decreases n - idx,
        {
            assert(C > 0) by (nonlinear_arith)
                requires
                    idx < R * C,
                    C >= 0,
                    R >= 0,
            ;
            let i = idx / C;
            let j = idx % C;
            assert(i < R) by (nonlinear_arith)
                requires
                    idx < R * C,
                    i == idx / C,
                    C > 0,
            ;
            let ghost before = self@;
            self.set_entry(i, j, vals_[idx]);
            proof {
                assert forall|a: int, b: int| 0 <= a < R && 0 <= b < C implies #[trigger] self@[a][b]
                    == (if flat_index(a, b, C as int) < idx + 1 {
                    vs[flat_index(a, b, C as int)]
                } else {
                    start[a][b]
                }) by {
                    lemma_flat_index(a, b, C as int, idx as int);
                    assert(before[a][b] == self@[a][b] || (a == i && b == j));
                }
            }
            idx = idx + 1;
        }
        assert(self@ =~~= overwrite(start, vs));
    }

    /// The matrix whose first `vals_.len()` entries, read row by row, are
    /// `vals_`, and whose other entries are zero.
    pub fn new_init(vals_: &[T]) -> (r: Self)
        requires
            vals_@.len() <= R * C,
        ensures
            r@ == overwrite(zeros(R as nat, C as nat), values_of(vals_@)),
    {
        let mut m = Self::new();
        m.set(vals_);
        m
    }

    /// The matrix that is `val` at each position `(i, i)` and zero elsewhere.
    pub fn diagonal(val: T) -> (r: Self)
        ensures
            r@ == diagonal_grid(R as nat, C as nat, val.value()),
    {
        let n = if R < C { R } else { C };
        let mut m = Self::new();
        let mut k: usize = 0;
        while k < n
            invariant
                n <= R,
                n <= C,
                k <= n,
                forall|i: int, j: int|
                    0 <= i < R && 0 <= j < C ==> #[trigger] m@[i][j] == (if i == j && i < k {
                        val.value()
                    } else {
                        0
                    }),
            decreases n - k,
        {
            m.set_entry(k, k, val);
            k = k + 1;
        }
        assert(m@ =~~= diagonal_grid(R as nat, C as nat, val.value()));
        m
    }

    /// The entry at row `i`, column `j`.
    pub fn get(&self, i: usize, j: usize) -> (r: T)
        requires
            i < R,
            j < C,
        ensures
            r.value() == self@[i as int][j as int],
    {
        self.vals[i][j]
    }

    /// Replaces the entry at row `i`, column `j` with `v`.
    pub fn set_entry(&mut self, i: usize, j: usize, v: T)
        requires
            i < R,
            j < C,
        ensures
            final(self)@ == old(self)@.update(i as int, old(self)@[i as int].update(j as int, v.value())),
    {
        let mut row = self.vals[i];
        row[j] = v;
        self.vals[i] = row;
        assert(final(self)@ =~~= old(self)@.update(i as int, old(self)@[i as int].update(j as int, v.value())));
    }

    /// The matrix with the rows of `self` as its columns.
    pub fn transpose(&self) -> (r: Matrix<T, C, R>)
        ensures
            r@ == transposed(self@, C as nat),
    {
        let mut r = Matrix::<T, C, R>::new();
        let mut i: usize = 0;
        while i < R
            invariant
                i <= R,
                forall|a: int, b: int|
                    0 <= a < C && 0 <= b < R ==> #[trigger] r@[a][b] == (if b < i {
                        self@[b][a]
                    } else {
                        0
                    }),
            decreases R - i,
        {
            let mut j: usize = 0;
            while j < C
                invariant
                    i < R,
                    j <= C,
                    forall|a: int, b: int|
                        0 <= a < C && 0 <= b < R ==> #[trigger] r@[a][b] == (if b < i || (b == i
                            && a < j) {
                            self@[b][a]
                        } else {
                            0
                        }),
                decreases C - j,
            {
                let x = self.get(i, j);
                r.set_entry(j, i, x);
                j = j + 1;
            }
            i = i + 1;
        }
        assert(r@ =~~= transposed(self@, C as nat));
        r
    }

    /// The number of rows.
    pub fn rows(&self) -> (r: usize)
        ensures
            r == R,
    {
        R
    }

    /// The number of columns.
    pub fn cols(&self) -> (r: usize)
        ensures
            r == C,
    {
        C
    }
}

impl<T: Scalar, const R: usize, const C: usize> Default for Matrix<T, R, C> {
    /// The matrix with every entry zero.
    fn default() -> (r: Self)
        ensures
            r@ == zeros(R as nat, C as nat),
    {
        Self::new()
    }
}

impl<T: Scalar, const R: usize, const C: usize> std::ops::Index<(usize, usize)> for Matrix<T, R, C> {
    type Output = T;

    /// The entry at (row, column).
    fn index(&self, index: (usize, usize)) -> (r: &T)
        ensures
            r.value() == self@[index.0 as int][index.1 as int],
    {
        &self.vals[index.0][index.1]
    }
}

impl<T: Scalar, const R: usize, const C: usize> vstd::std_specs::core::IndexSpecImpl<(usize, usize)> for Matrix<T, R, C> {
    open spec fn index_req(&self, index: &(usize, usize)) -> bool {
        index.0 < R && index.1 < C
    }
}

impl<T: Scalar, const R: usize> std::ops::Index<usize> for Matrix<T, R, 1> {
    type Output = T;

    /// The entry at a position of a column vector.
    fn index(&self, index: usize) -> (r: &T)
        ensures
            r.value() == self@[index as int][0],
    {
        &self.vals[index][0]
    }
}

impl<T: Scalar, const R: usize> vstd::std_specs::core::IndexSpecImpl<usize> for Matrix<T, R, 1> {
    open spec fn index_req(&self, index: &usize) -> bool {
        *index < R
    }
}

} // verus!
