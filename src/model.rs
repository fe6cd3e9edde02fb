//! The mathematical model of a matrix: a grid of integers, stored as a
//! sequence of rows.  The contracts of the executable code are stated with
//! the functions of this module.
use vstd::prelude::*;
use crate::scalar::Scalar;

verus! {

/// A grid of `rows` rows, each of `cols` entries.
pub open spec fn is_grid(g: Seq<Seq<int>>, rows: nat, cols: nat) -> bool {
    &&& g.len() == rows
    &&& forall|i: int| 0 <= i < rows ==> (#[trigger] g[i]).len() == cols
}

/// The values of a sequence of elements.
pub open spec fn values_of<T: Scalar>(s: Seq<T>) -> Seq<int> {
    s.map_values(|x: T| x.value())
}

/// The grid with every entry zero.
pub open spec fn zeros(rows: nat, cols: nat) -> Seq<Seq<int>> {
    Seq::new(rows, |i: int| Seq::new(cols, |j: int| 0))
}

/// The grid that is `v` at each position `(i, i)` and zero elsewhere.
pub open spec fn diagonal_grid(rows: nat, cols: nat, v: int) -> Seq<Seq<int>> {
    Seq::new(rows, |i: int| Seq::new(cols, |j: int| if i == j { v } else { 0 }))
}

/// The position of entry `(i, j)` when a grid of `cols` columns is read
/// row by row.
pub open spec fn flat_index(i: int, j: int, cols: int) -> int {
    i * cols + j
}

/// `g` with its first `vals.len()` entries, read row by row, replaced by
/// `vals`.
pub open spec fn overwrite(g: Seq<Seq<int>>, vals: Seq<int>) -> Seq<Seq<int>> {
    Seq::new(
        g.len(),
        |i: int|
            Seq::new(
                g[i].len(),
                |j: int|
                    if flat_index(i, j, g[i].len() as int) < vals.len() {
                        vals[flat_index(i, j, g[i].len() as int)]
                    } else {
                        g[i][j]
                    },
            ),
    )
}

/// The entrywise sum of two grids of one shape.
pub open spec fn entrywise_sum(a: Seq<Seq<int>>, b: Seq<Seq<int>>) -> Seq<Seq<int>> {
    Seq::new(a.len(), |i: int| Seq::new(a[i].len(), |j: int| a[i][j] + b[i][j]))
}

/// The entrywise difference of two grids of one shape.
pub open spec fn entrywise_difference(a: Seq<Seq<int>>, b: Seq<Seq<int>>) -> Seq<Seq<int>> {
    Seq::new(a.len(), |i: int| Seq::new(a[i].len(), |j: int| a[i][j] - b[i][j]))
}

/// `g` with `s` added to every entry.
pub open spec fn shifted(g: Seq<Seq<int>>, s: int) -> Seq<Seq<int>> {
    Seq::new(g.len(), |i: int| Seq::new(g[i].len(), |j: int| g[i][j] + s))
}

/// `g` with every entry multiplied by `s`.
pub open spec fn scaled(g: Seq<Seq<int>>, s: int) -> Seq<Seq<int>> {
    Seq::new(g.len(), |i: int| Seq::new(g[i].len(), |j: int| g[i][j] * s))
}

/// The transpose of a grid of `cols` columns.
pub open spec fn transposed(g: Seq<Seq<int>>, cols: nat) -> Seq<Seq<int>> {
    Seq::new(cols, |j: int| Seq::new(g.len(), |i: int| g[i][j]))
}

/// Column `j` of a grid.
pub open spec fn column(g: Seq<Seq<int>>, j: int) -> Seq<int> {
    Seq::new(g.len(), |k: int| g[k][j])
}

/// `f(0) + f(1) + ... + f(n - 1)`.
pub open spec fn sum_to(n: int, f: spec_fn(int) -> int) -> int
    decreases n,
{
    if n <= 0 {
        0
    } else {
        sum_to(n - 1, f) + f(n - 1)
    }
}

/// The function `k => a[k] * b[k]`.
pub open spec fn products(a: Seq<int>, b: Seq<int>) -> spec_fn(int) -> int {
    |k: int| a[k] * b[k]
}

/// The sum of the first `n` products `a[k] * b[k]`.
pub open spec fn dot_prefix(a: Seq<int>, b: Seq<int>, n: int) -> int {
    sum_to(n, products(a, b))
}

/// The dot product of two sequences of one length.
pub open spec fn dot(a: Seq<int>, b: Seq<int>) -> int {
    dot_prefix(a, b, a.len() as int)
}

/// The product of a grid `a` with a grid `b` of `cols` columns, whose row
/// count is the column count of `a`.
pub open spec fn product(a: Seq<Seq<int>>, b: Seq<Seq<int>>, cols: nat) -> Seq<Seq<int>> {
    Seq::new(a.len(), |i: int| Seq::new(cols, |j: int| dot(a[i], column(b, j))))
}

/// Accumulating the dot product of `a` and `b` from zero, one product at a
/// time, stays within the values of `T`: each product and each partial
/// sum is one of them.
pub open spec fn dot_fits<T: Scalar>(a: Seq<int>, b: Seq<int>) -> bool {
    forall|k: int|
        0 <= k < a.len() ==> T::in_range(#[trigger] (a[k] * b[k])) && T::in_range(
            dot_prefix(a, b, k) + a[k] * b[k],
        )
}

/// The cross product of two sequences of three entries.
pub open spec fn cross(a: Seq<int>, b: Seq<int>) -> Seq<int> {
    seq![a[1] * b[2] - a[2] * b[1], a[2] * b[0] - a[0] * b[2], a[0] * b[1] - a[1] * b[0]]
}

/// Each entry negated.
pub open spec fn negated(s: Seq<int>) -> Seq<int> {
    Seq::new(s.len(), |i: int| -s[i])
}

/// Entry `(i, j)` of a grid of `cols` columns is the one at `idx` when the
/// grid is read row by row exactly when `i` and `j` are the quotient and
/// remainder of `idx` by `cols`.
pub proof fn lemma_flat_index(i: int, j: int, cols: int, idx: int)
    requires
        0 <= j < cols,
        0 <= idx,
    ensures
        flat_index(i, j, cols) == idx <==> (i == idx / cols && j == idx % cols),
{
    if flat_index(i, j, cols) == idx {
        vstd::arithmetic::div_mod::lemma_fundamental_div_mod_converse(idx, cols, i, j);
    }
    if i == idx / cols && j == idx % cols {
        vstd::arithmetic::div_mod::lemma_fundamental_div_mod(idx, cols);
        assert(idx == cols * (idx / cols) + idx % cols);
        assert(cols * i == i * cols) by (nonlinear_arith);
    }
}

/// Sums of functions that agree below `n` agree.
pub proof fn lemma_sum_ext(n: int, f: spec_fn(int) -> int, g: spec_fn(int) -> int)
    requires
        forall|k: int| 0 <= k < n ==> #[trigger] f(k) == g(k),
    ensures
        sum_to(n, f) == sum_to(n, g),
    decreases n,
{
    if n > 0 {
        lemma_sum_ext(n - 1, f, g);
    }
}

/// The sum of a function that is zero below `n` is zero.
pub proof fn lemma_sum_zero(n: int, f: spec_fn(int) -> int)
    requires
        forall|k: int| 0 <= k < n ==> #[trigger] f(k) == 0,
    ensures
        sum_to(n, f) == 0,
    decreases n,
{
    if n > 0 {
        lemma_sum_zero(n - 1, f);
    }
}

/// The sum of a function that is zero below `n` but at `i` is its value
/// at `i`.
pub proof fn lemma_sum_single(n: int, f: spec_fn(int) -> int, i: int)
    requires
        0 <= i < n,
        forall|k: int| 0 <= k < n && k != i ==> #[trigger] f(k) == 0,
    ensures
        sum_to(n, f) == f(i),
    decreases n,
{
    if n - 1 == i {
        lemma_sum_zero(n - 1, f);
    } else {
        lemma_sum_single(n - 1, f, i);
    }
}

/// Sums are additive.
pub proof fn lemma_sum_add(n: int, f: spec_fn(int) -> int, g: spec_fn(int) -> int, h: spec_fn(int) -> int)
    requires
        forall|k: int| 0 <= k < n ==> #[trigger] h(k) == f(k) + g(k),
    ensures
        sum_to(n, h) == sum_to(n, f) + sum_to(n, g),
    decreases n,
{
    if n > 0 {
        lemma_sum_add(n - 1, f, g, h);
    }
}

/// A constant factor on the right comes out of a sum.
pub proof fn lemma_sum_scale_right(n: int, f: spec_fn(int) -> int, g: spec_fn(int) -> int, c: int)
    requires
        forall|k: int| 0 <= k < n ==> #[trigger] g(k) == f(k) * c,
    ensures
        sum_to(n, g) == sum_to(n, f) * c,
    decreases n,
{
    if n > 0 {
        lemma_sum_scale_right(n - 1, f, g, c);
        assert((sum_to(n - 1, f) + f(n - 1)) * c == sum_to(n - 1, f) * c + f(n - 1) * c)
            by (nonlinear_arith);
    }
}

/// A constant factor on the left comes out of a sum.
pub proof fn lemma_sum_scale_left(n: int, f: spec_fn(int) -> int, g: spec_fn(int) -> int, c: int)
    requires
        forall|k: int| 0 <= k < n ==> #[trigger] g(k) == c * f(k),
    ensures
        sum_to(n, g) == c * sum_to(n, f),
    decreases n,
{
    if n > 0 {
        lemma_sum_scale_left(n - 1, f, g, c);
        assert(c * (sum_to(n - 1, f) + f(n - 1)) == c * sum_to(n - 1, f) + c * f(n - 1))
            by (nonlinear_arith);
    }
}

/// The function `y => g(x, y)`.
pub open spec fn row_of(g: spec_fn(int, int) -> int, x: int) -> spec_fn(int) -> int {
    |y: int| g(x, y)
}

/// The function `x => g(x, y)`.
pub open spec fn column_of(g: spec_fn(int, int) -> int, y: int) -> spec_fn(int) -> int {
    |x: int| g(x, y)
}

/// The function `x => g(x, 0) + ... + g(x, m - 1)`.
pub open spec fn row_totals(g: spec_fn(int, int) -> int, m: int) -> spec_fn(int) -> int {
    |x: int| sum_to(m, row_of(g, x))
}

/// The function `y => g(0, y) + ... + g(n - 1, y)`.
pub open spec fn column_totals(g: spec_fn(int, int) -> int, n: int) -> spec_fn(int) -> int {
    |y: int| sum_to(n, column_of(g, y))
}

/// A double sum may be taken in either order.
pub proof fn lemma_sum_swap(n: int, m: int, g: spec_fn(int, int) -> int)
    requires
        0 <= n,
    ensures
        sum_to(n, row_totals(g, m)) == sum_to(m, column_totals(g, n)),
    decreases n,
{
    if n == 0 {
        lemma_sum_zero(m, column_totals(g, 0));
    } else {
        lemma_sum_swap(n - 1, m, g);
        lemma_sum_add(m, column_totals(g, n - 1), row_of(g, n - 1), column_totals(g, n));
    }
}

} // verus!
