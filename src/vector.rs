//! Column vectors: matrices of one column, with the dot and cross products
//! and access by a single index.
use vstd::prelude::*;
use crate::matrix::{lemma_matrix_shape, Matrix};
use crate::model::{column, cross, dot, dot_fits, dot_prefix};
use crate::scalar::Scalar;

verus! {

broadcast use lemma_matrix_shape;

/// A column vector of `R` entries.
pub type Vector<T, const R: usize> = Matrix<T, R, 1>;

/// Each product and each difference that the cross product of `a` and `b`
/// computes is a value of `T`.
pub open spec fn cross_fits<T: Scalar>(a: Seq<int>, b: Seq<int>) -> bool {
    &&& T::in_range(a[1] * b[2])
    &&& T::in_range(a[2] * b[1])
    &&& T::in_range(a[1] * b[2] - a[2] * b[1])
    &&& T::in_range(a[2] * b[0])
    &&& T::in_range(a[0] * b[2])
    &&& T::in_range(a[2] * b[0] - a[0] * b[2])
    &&& T::in_range(a[0] * b[1])
    &&& T::in_range(a[1] * b[0])
    &&& T::in_range(a[0] * b[1] - a[1] * b[0])
}

impl<T: Scalar, const R: usize> Vector<T, R> {
    /// The values of the entries, top to bottom.
    pub open spec fn components(self) -> Seq<int> {
        column(self@, 0)
    }

    /// The dot product: the sum of the products of corresponding entries,
    /// accumulated from zero.
    pub fn dot(&self, other: &Self) -> (r: T)
        requires
            dot_fits::<T>(self.components(), other.components()),
        ensures
            r.value() == dot(self.components(), other.components()),
    {
        let ghost a = self.components();
        let ghost b = other.components();
        let mut sum = T::zero();
        let mut i: usize = 0;
        while i < R
            invariant
                i <= R,
                a == self.components(),
                b == other.components(),
                dot_fits::<T>(a, b),
                sum.value() == dot_prefix(a, b, i as int),
            decreases R - i,
        {
            assert(T::in_range(a[i as int] * b[i as int]));
            let x = self.get(i, 0).times(other.get(i, 0));
            sum = sum.plus(x);
            i = i + 1;
        }
        sum
    }

    /// The dot product, or `None` where a product or a partial sum on the
    /// way is not a value of `T`.
    pub fn checked_dot(&self, other: &Self) -> (r: Option<T>)
        ensures
            r is Some <==> dot_fits::<T>(self.components(), other.components()),
            r is Some ==> r->0.value() == dot(self.components(), other.components()),
    {
        let ghost a = self.components();
        let ghost b = other.components();
        let mut sum = T::zero();
        let mut i: usize = 0;
        while i < R
            invariant
                i <= R,
                a == self.components(),
                b == other.components(),
                sum.value() == dot_prefix(a, b, i as int),
                forall|k: int|
                    0 <= k < i ==> T::in_range(#[trigger] (a[k] * b[k])) && T::in_range(
                        dot_prefix(a, b, k) + a[k] * b[k],
                    ),
            decreases R - i,
        {
            let x = match self.get(i, 0).checked_times(other.get(i, 0)) {
                Some(x) => x,
                None => {
                    assert(!T::in_range(a[i as int] * b[i as int]));
                    return None;
                },
            };
            sum = match sum.checked_plus(x) {
                Some(s) => s,
                None => {
                    assert(!T::in_range(dot_prefix(a, b, i as int) + a[i as int] * b[i as int]));
                    return None;
                },
            };
            i = i + 1;
        }
        Some(sum)
    }
}

impl<T: Scalar> Vector<T, 2> {
    /// The first entry.
    pub fn x(&self) -> (r: T)
        ensures
            r.value() == self.components()[0],
    {
        self.get(0, 0)
    }

    /// The second entry.
    pub fn y(&self) -> (r: T)
        ensures
            r.value() == self.components()[1],
    {
        self.get(1, 0)
    }
}

impl<T: Scalar> Vector<T, 3> {
    /// The first entry.
    pub fn x(&self) -> (r: T)
        ensures
            r.value() == self.components()[0],
    {
        self.get(0, 0)
    }

    /// The second entry.
    pub fn y(&self) -> (r: T)
        ensures
            r.value() == self.components()[1],
    {
        self.get(1, 0)
    }

    /// The third entry.
    pub fn z(&self) -> (r: T)
        ensures
            r.value() == self.components()[2],
    {
        self.get(2, 0)
    }
}

impl<T: Scalar> std::ops::Mul for Vector<T, 3> {
    type Output = Vector<T, 3>;

    /// The cross product.
    fn mul(self, rhs: Self) -> (r: Self)
        ensures
            r.components() == cross(self.components(), rhs.components()),
    {
        let e0 = self.y().times(rhs.z()).minus(self.z().times(rhs.y()));
        let e1 = self.z().times(rhs.x()).minus(self.x().times(rhs.z()));
        let e2 = self.x().times(rhs.y()).minus(self.y().times(rhs.x()));
        let mut r = Self::new();
        r.set_entry(0, 0, e0);
        r.set_entry(1, 0, e1);
        r.set_entry(2, 0, e2);
        assert(r.components() =~= cross(self.components(), rhs.components()));
        r
    }
}

impl<T: Scalar> vstd::std_specs::ops::MulSpecImpl for Vector<T, 3> {
    open spec fn obeys_mul_spec() -> bool {
        false
    }

    open spec fn mul_req(self, rhs: Self) -> bool {
        cross_fits::<T>(self.components(), rhs.components())
    }

    open spec fn mul_spec(self, rhs: Self) -> Self {
        self
    }
}

} // verus!
