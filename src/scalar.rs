//! The element types a matrix can hold.
use vstd::prelude::*;

verus! {

/// An element type: a fixed-width integer whose value is read as a
/// mathematical integer.  Every operation is exact, so each one asks that
/// its result be representable.
pub trait Scalar: Copy + Sized {
    /// The mathematical value of an element.
    spec fn value(self) -> int;

    /// Whether `v` is the value of some element.
    spec fn in_range(v: int) -> bool;

    /// The additive identity.
    fn zero() -> (r: Self)
        ensures
            r.value() == 0,
    ;

    fn plus(self, rhs: Self) -> (r: Self)
        requires
            Self::in_range(self.value() + rhs.value()),
        ensures
            r.value() == self.value() + rhs.value(),
    ;

    fn minus(self, rhs: Self) -> (r: Self)
        requires
            Self::in_range(self.value() - rhs.value()),
        ensures
            r.value() == self.value() - rhs.value(),
    ;

    fn times(self, rhs: Self) -> (r: Self)
        requires
            Self::in_range(self.value() * rhs.value()),
        ensures
            r.value() == self.value() * rhs.value(),
    ;

    /// The sum, or `None` where it is not representable.
    fn checked_plus(self, rhs: Self) -> (r: Option<Self>)
        ensures
            r is Some <==> Self::in_range(self.value() + rhs.value()),
            r is Some ==> r->0.value() == self.value() + rhs.value(),
    ;

    /// The product, or `None` where it is not representable.
    fn checked_times(self, rhs: Self) -> (r: Option<Self>)
        ensures
            r is Some <==> Self::in_range(self.value() * rhs.value()),
            r is Some ==> r->0.value() == self.value() * rhs.value(),
    ;
}

impl Scalar for i8 {
    open spec fn value(self) -> int {
        self as int
    }

    open spec fn in_range(v: int) -> bool {
        i8::MIN <= v <= i8::MAX
    }

    fn zero() -> (r: i8) {
        0
    }

    fn plus(self, rhs: i8) -> (r: i8) {
        self + rhs
    }

    fn minus(self, rhs: i8) -> (r: i8) {
        self - rhs
    }

    fn times(self, rhs: i8) -> (r: i8) {
        self * rhs
    }

    fn checked_plus(self, rhs: i8) -> (r: Option<i8>) {
        self.checked_add(rhs)
    }

    fn checked_times(self, rhs: i8) -> (r: Option<i8>) {
        self.checked_mul(rhs)
    }
}

impl Scalar for i16 {
    open spec fn value(self) -> int {
        self as int
    }

    open spec fn in_range(v: int) -> bool {
        i16::MIN <= v <= i16::MAX
    }

    fn zero() -> (r: i16) {
        0
    }

    fn plus(self, rhs: i16) -> (r: i16) {
        self + rhs
    }

    fn minus(self, rhs: i16) -> (r: i16) {
        self - rhs
    }

    fn times(self, rhs: i16) -> (r: i16) {
        self * rhs
    }

    fn checked_plus(self, rhs: i16) -> (r: Option<i16>) {
        self.checked_add(rhs)
    }

    fn checked_times(self, rhs: i16) -> (r: Option<i16>) {
        self.checked_mul(rhs)
    }
}

impl Scalar for i32 {
    open spec fn value(self) -> int {
        self as int
    }

    open spec fn in_range(v: int) -> bool {
        i32::MIN <= v <= i32::MAX
    }

    fn zero() -> (r: i32) {
        0
    }

    fn plus(self, rhs: i32) -> (r: i32) {
        self + rhs
    }

    fn minus(self, rhs: i32) -> (r: i32) {
        self - rhs
    }

    fn times(self, rhs: i32) -> (r: i32) {
        self * rhs
    }

    fn checked_plus(self, rhs: i32) -> (r: Option<i32>) {
        self.checked_add(rhs)
    }

    fn checked_times(self, rhs: i32) -> (r: Option<i32>) {
        self.checked_mul(rhs)
    }
}

impl Scalar for i64 {
    open spec fn value(self) -> int {
        self as int
    }

    open spec fn in_range(v: int) -> bool {
        i64::MIN <= v <= i64::MAX
    }

    fn zero() -> (r: i64) {
        0
    }

    fn plus(self, rhs: i64) -> (r: i64) {
        self + rhs
    }

    fn minus(self, rhs: i64) -> (r: i64) {
        self - rhs
    }

    fn times(self, rhs: i64) -> (r: i64) {
        self * rhs
    }

    fn checked_plus(self, rhs: i64) -> (r: Option<i64>) {
        self.checked_add(rhs)
    }

    fn checked_times(self, rhs: i64) -> (r: Option<i64>) {
        self.checked_mul(rhs)
    }
}

impl Scalar for u8 {
    open spec fn value(self) -> int {
        self as int
    }

    open spec fn in_range(v: int) -> bool {
        u8::MIN <= v <= u8::MAX
    }

    fn zero() -> (r: u8) {
        0
    }

    fn plus(self, rhs: u8) -> (r: u8) {
        self + rhs
    }

    fn minus(self, rhs: u8) -> (r: u8) {
        self - rhs
    }

    fn times(self, rhs: u8) -> (r: u8) {
        self * rhs
    }

    fn checked_plus(self, rhs: u8) -> (r: Option<u8>) {
        self.checked_add(rhs)
    }

    fn checked_times(self, rhs: u8) -> (r: Option<u8>) {
        self.checked_mul(rhs)
    }
}

impl Scalar for u16 {
    open spec fn value(self) -> int {
        self as int
    }

    open spec fn in_range(v: int) -> bool {
        u16::MIN <= v <= u16::MAX
    }

    fn zero() -> (r: u16) {
        0
    }

    fn plus(self, rhs: u16) -> (r: u16) {
        self + rhs
    }

    fn minus(self, rhs: u16) -> (r: u16) {
        self - rhs
    }

    fn times(self, rhs: u16) -> (r: u16) {
        self * rhs
    }

    fn checked_plus(self, rhs: u16) -> (r: Option<u16>) {
        self.checked_add(rhs)
    }

    fn checked_times(self, rhs: u16) -> (r: Option<u16>) {
        self.checked_mul(rhs)
    }
}

impl Scalar for u32 {
    open spec fn value(self) -> int {
        self as int
    }

    open spec fn in_range(v: int) -> bool {
        u32::MIN <= v <= u32::MAX
    }

    fn zero() -> (r: u32) {
        0
    }

    fn plus(self, rhs: u32) -> (r: u32) {
        self + rhs
    }

    fn minus(self, rhs: u32) -> (r: u32) {
        self - rhs
    }

    fn times(self, rhs: u32) -> (r: u32) {
        self * rhs
    }

    fn checked_plus(self, rhs: u32) -> (r: Option<u32>) {
        self.checked_add(rhs)
    }

    fn checked_times(self, rhs: u32) -> (r: Option<u32>) {
        self.checked_mul(rhs)
    }
}

impl Scalar for u64 {
    open spec fn value(self) -> int {
        self as int
    }

    open spec fn in_range(v: int) -> bool {
        u64::MIN <= v <= u64::MAX
    }

    fn zero() -> (r: u64) {
        0
    }

    fn plus(self, rhs: u64) -> (r: u64) {
        self + rhs
    }

    fn minus(self, rhs: u64) -> (r: u64) {
        self - rhs
    }

    fn times(self, rhs: u64) -> (r: u64) {
        self * rhs
    }

    fn checked_plus(self, rhs: u64) -> (r: Option<u64>) {
        self.checked_add(rhs)
    }

    fn checked_times(self, rhs: u64) -> (r: Option<u64>) {
        self.checked_mul(rhs)
    }
}

} // verus!
