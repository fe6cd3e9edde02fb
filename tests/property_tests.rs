use matrixlib::vector::Vector;
use matrixlib::{Matrix, Scalar};

#[test]
fn add_then_subtract_gives_back_the_first() {
    let a = Matrix::<i32, 2, 3>::new_init(&[7, -2, 0, 15, 3, -9]);
    let b = Matrix::<i32, 2, 3>::new_init(&[100, 4, -50, 1, 0, 8]);
    assert_eq!((a + b) - b, a);
}

#[test]
fn transpose_twice_gives_back_the_matrix() {
    let a = Matrix::<i64, 2, 4>::new_init(&[1, 2, 3, 4, 5, 6, 7, 8]);
    let t = a.transpose();
    assert_eq!(t[(3, 1)], 8);
    assert_eq!(t[(0, 1)], 5);
    assert_eq!(t.transpose(), a);
}

#[test]
fn product_is_associative() {
    let a = Matrix::<i32, 2, 3>::new_init(&[1, 2, 3, 4, 5, 6]);
    let b = Matrix::<i32, 3, 2>::new_init(&[-1, 0, 2, 1, 3, -2]);
    let c = Matrix::<i32, 2, 2>::new_init(&[4, 1, 0, 2]);
    let left = (a * b) * c;
    let right = a * (b * c);
    assert_eq!(left, right);
    assert_eq!(left, Matrix::<i32, 2, 2>::new_init(&[48, 4, 96, 10]));
}

#[test]
fn diagonal_one_is_left_identity() {
    let id = Matrix::<i32, 3, 3>::diagonal(1);
    let b = Matrix::<i32, 3, 2>::new_init(&[3, 4, -1, 2, 0, 4]);
    assert_eq!(id * b, b);
}

#[test]
fn diagonal_fills_only_the_diagonal() {
    let d = Matrix::<i16, 2, 4>::diagonal(7);
    assert_eq!(d, Matrix::<i16, 2, 4>::new_init(&[7, 0, 0, 0, 0, 7, 0, 0]));
}

#[test]
fn cross_of_a_vector_with_itself_is_zero() {
    let v = Vector::<i32, 3>::new_init(&[5, -3, 4]);
    assert_eq!(v * v, Vector::<i32, 3>::new());
}

#[test]
fn cross_is_anticommutative() {
    let v1 = Vector::<i32, 3>::new_init(&[5, 3, 4]);
    let v2 = Vector::<i32, 3>::new_init(&[-2, 1, -1]);
    let forward = v1 * v2;
    let backward = v2 * v1;
    assert_eq!(forward, Vector::<i32, 3>::new() - backward);
    assert_eq!(backward, Vector::<i32, 3>::new_init(&[7, 3, -11]));
}

#[test]
fn new_init_scenario() {
    let m = Matrix::<i32, 2, 3>::new_init(&[11, 12, 13, 21, 22, 23]);
    assert_eq!(m[(0, 0)], 11);
    assert_eq!(m[(1, 0)], 21);
    assert_eq!(m[(0, 2)], 13);
    assert_eq!(m[(1, 2)], 23);
}

#[test]
fn new_init_with_fewer_values_leaves_zeros() {
    let m = Matrix::<i32, 2, 2>::new_init(&[9, 8, 7]);
    assert_eq!(m[(0, 0)], 9);
    assert_eq!(m[(0, 1)], 8);
    assert_eq!(m[(1, 0)], 7);
    assert_eq!(m[(1, 1)], 0);
    let e = Matrix::<i32, 2, 2>::new_init(&[]);
    assert_eq!(e, Matrix::<i32, 2, 2>::new());
}

#[test]
fn set_keeps_the_cells_it_does_not_reach() {
    let mut m = Matrix::<u16, 2, 2>::new_init(&[1, 2, 3, 4]);
    m.set(&[10, 20]);
    assert_eq!(m, Matrix::<u16, 2, 2>::new_init(&[10, 20, 3, 4]));
}

#[test]
fn get_and_set_entry() {
    let mut m = Matrix::<i8, 2, 3>::new();
    m.set_entry(1, 2, -5);
    assert_eq!(m.get(1, 2), -5);
    assert_eq!(m.get(0, 2), 0);
}

#[test]
fn scalar_operations_on_unsigned_elements() {
    let m = Matrix::<u32, 1, 3>::new_init(&[5, 6, 7]);
    assert_eq!(m - 5, Matrix::<u32, 1, 3>::new_init(&[0, 1, 2]));
    assert_eq!(m * 3, Matrix::<u32, 1, 3>::new_init(&[15, 18, 21]));
    assert_eq!(m + 1, Matrix::<u32, 1, 3>::new_init(&[6, 7, 8]));
}

#[test]
fn dot_of_two_vectors() {
    let a = Vector::<i64, 4>::new_init(&[1, -2, 3, 4]);
    let b = Vector::<i64, 4>::new_init(&[5, 6, -7, 8]);
    assert_eq!(a.dot(&b), 5 - 12 - 21 + 32);
}

#[test]
fn checked_dot_reports_overflow() {
    let v = Vector::<i8, 2>::new_init(&[10, 10]);
    assert_eq!(v.checked_dot(&v), None);
    let w = Vector::<i8, 2>::new_init(&[2, 3]);
    assert_eq!(w.checked_dot(&w), Some(13));
    let big = Vector::<u8, 1>::new_init(&[16]);
    assert_eq!(big.checked_dot(&big), None);
}

#[test]
fn named_components_of_a_vector() {
    let v = Vector::<u64, 3>::new_init(&[4, 5, 6]);
    assert_eq!((v.x(), v.y(), v.z()), (4, 5, 6));
    assert_eq!(v[2], 6);
}

#[test]
fn scalar_trait_operations() {
    assert_eq!(<i32 as Scalar>::zero(), 0);
    assert_eq!(7i16.plus(5), 12);
    assert_eq!(7u8.minus(5), 2);
    assert_eq!((-3i64).times(4), -12);
    assert_eq!(200u8.checked_plus(100), None);
    assert_eq!(100u8.checked_plus(100), Some(200));
    assert_eq!(i32::MAX.checked_times(2), None);
    assert_eq!(6u32.checked_times(7), Some(42));
}
