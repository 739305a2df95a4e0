//! The numeric representations a quantity can be stored in.
use vstd::prelude::*;

verus! {

/// Quotient of `a` by `b` rounded toward zero, the way machine integers
/// divide. Zero when `b` is zero.
pub open spec fn trunc_div(a: int, b: int) -> int {
    if b == 0 {
        0
    } else if a >= 0 && b > 0 {
        a / b
    } else if a < 0 && b < 0 {
        (-a) / (-b)
    } else if a < 0 {
        -((-a) / b)
    } else {
        -(a / (-b))
    }
}

/// A numeric representation: a bounded range of integers with its
/// arithmetic, its order and its conversions from and to machine integers.
/// The arithmetic is exact: an operation whose result would leave the range
/// may not be called.
pub trait Scalar: Copy {
    /// The number that `self` stands for.
    spec fn value(self) -> int;

    /// The representation of the number `v`.
    spec fn of_int(v: int) -> Self;

    /// The least number that can be represented.
    spec fn lowest() -> int;

    /// The greatest number that can be represented.
    spec fn highest() -> int;

    /// Every value lies in the range of its representation.
    proof fn lemma_value_in_range(self)
        ensures
            Self::lowest() <= self.value() <= Self::highest(),
    ;

    /// A number in range is represented by a value that stands for it.
    proof fn lemma_of_int_value(v: int)
        requires
            Self::lowest() <= v <= Self::highest(),
        ensures
            Self::of_int(v).value() == v,
    ;

    /// A value is the representation of the number it stands for, so two
    /// values that stand for the same number are equal.
    proof fn lemma_value_of_int(self)
        ensures
            Self::of_int(self.value()) == self,
    ;

    /// Every 32-bit signed integer can be represented, the scale factors of
    /// the quantity types among them.
    proof fn lemma_range_covers_i32()
        ensures
            Self::lowest() <= i32::MIN,
            i32::MAX <= Self::highest(),
    ;

    /// The representation of a 32-bit constant.
    fn from_i32(v: i32) -> (r: Self)
        ensures
            r.value() == v,
    ;

    /// The representation of a 64-bit number, where there is one.
    fn from_i64(v: i64) -> (r: Option<Self>)
        ensures
            Self::lowest() <= v <= Self::highest() ==> r.is_some() && r.unwrap().value() == v,
            !(Self::lowest() <= v <= Self::highest()) ==> r.is_none(),
    ;

    /// The number that `self` stands for, as a 64-bit integer.
    fn to_i64(self) -> (r: i64)
        ensures
            r == self.value(),
    ;

    /// Whether `self` and `rhs` stand for the same number.
    fn equals(self, rhs: Self) -> (r: bool)
        ensures
            r == (self.value() == rhs.value()),
    ;

    /// Whether `self` stands for a smaller number than `rhs`.
    fn below(self, rhs: Self) -> (r: bool)
        ensures
            r == (self.value() < rhs.value()),
    ;

    /// `self + rhs`.
    fn sum(self, rhs: Self) -> (r: Self)
        requires
            Self::lowest() <= self.value() + rhs.value() <= Self::highest(),
        ensures
            r.value() == self.value() + rhs.value(),
    ;

    /// `self - rhs`.
    fn difference(self, rhs: Self) -> (r: Self)
        requires
            Self::lowest() <= self.value() - rhs.value() <= Self::highest(),
        ensures
            r.value() == self.value() - rhs.value(),
    ;

    /// `self * rhs`.
    fn product(self, rhs: Self) -> (r: Self)
        requires
            Self::lowest() <= self.value() * rhs.value() <= Self::highest(),
        ensures
            r.value() == self.value() * rhs.value(),
    ;

    /// `self / rhs`, rounded toward zero.
    fn quotient(self, rhs: Self) -> (r: Self)
        requires
            rhs.value() != 0,
            Self::lowest() <= trunc_div(self.value(), rhs.value()) <= Self::highest(),
        ensures
            r.value() == trunc_div(self.value(), rhs.value()),
    ;
}

/// Whether the number `v` lies in the range of the representation `T`.
pub open spec fn fits<T: Scalar>(v: int) -> bool {
    T::lowest() <= v <= T::highest()
}

/// Dividing by a negative number gives the opposite of dividing by its
/// opposite.
pub proof fn lemma_negative_divisor(a: int, b: int)
    ensures
        b < 0 ==> a / b == -(a / (-b)),
        b == -1 ==> a / b == -a,
{
    if b < 0 {
        assert(a / b == -(a / (-b))) by (nonlinear_arith)
            requires
                b < 0,
        ;
        if b == -1 {
            assert(a / 1 == a);
        }
    }
}

/// Calls `num_traits::cast` from `i32` to `i32`, which hands every value back
/// unchanged.
#[verifier::external_body]
fn cast_i32_to_i32(n: i32) -> (r: Option<i32>)
    ensures
        r == Some(n),
{
    num_traits::cast::<i32, i32>(n)
}

/// Calls `num_traits::cast` from `i32` to `i64`, which widens every value.
#[verifier::external_body]
fn cast_i32_to_i64(n: i32) -> (r: Option<i64>)
    ensures
        r.is_some(),
        r.unwrap() == n,
{
    num_traits::cast::<i32, i64>(n)
}

/// Calls `num_traits::cast` from `i64` to `i32`, which gives the same number
/// where it lies between `i32::MIN` and `i32::MAX` and `None` elsewhere.
#[verifier::external_body]
fn cast_i64_to_i32(n: i64) -> (r: Option<i32>)
    ensures
        i32::MIN <= n <= i32::MAX ==> r.is_some() && r.unwrap() == n,
        !(i32::MIN <= n <= i32::MAX) ==> r.is_none(),
{
    num_traits::cast::<i64, i32>(n)
}

/// Calls `num_traits::cast` from `i64` to `i64`, which hands every value back
/// unchanged.
#[verifier::external_body]
fn cast_i64_to_i64(n: i64) -> (r: Option<i64>)
    ensures
        r == Some(n),
{
    num_traits::cast::<i64, i64>(n)
}

impl Scalar for i32 {
    open spec fn value(self) -> int {
        self as int
    }

    open spec fn of_int(v: int) -> Self {
        v as i32
    }

    open spec fn lowest() -> int {
        i32::MIN as int
    }

    open spec fn highest() -> int {
        i32::MAX as int
    }

    proof fn lemma_value_in_range(self) {
    }

    proof fn lemma_of_int_value(v: int) {
    }

    proof fn lemma_value_of_int(self) {
    }

    proof fn lemma_range_covers_i32() {
    }

    fn from_i32(v: i32) -> (r: Self) {
        cast_i32_to_i32(v).unwrap()
    }

    fn from_i64(v: i64) -> (r: Option<Self>) {
        cast_i64_to_i32(v)
    }

    fn to_i64(self) -> (r: i64) {
        cast_i32_to_i64(self).unwrap()
    }

    fn equals(self, rhs: Self) -> (r: bool) {
        self == rhs
    }

    fn below(self, rhs: Self) -> (r: bool) {
        self < rhs
    }

    fn sum(self, rhs: Self) -> (r: Self) {
        self + rhs
    }

    fn difference(self, rhs: Self) -> (r: Self) {
        self - rhs
    }

    fn product(self, rhs: Self) -> (r: Self) {
        self * rhs
    }

    fn quotient(self, rhs: Self) -> (r: Self) {
        proof {
            lemma_negative_divisor(self as int, rhs as int);
            lemma_negative_divisor(-self, rhs as int);
        }
        self / rhs
    }
}

impl Scalar for i64 {
    open spec fn value(self) -> int {
        self as int
    }

    open spec fn of_int(v: int) -> Self {
        v as i64
    }

    open spec fn lowest() -> int {
        i64::MIN as int
    }

    open spec fn highest() -> int {
        i64::MAX as int
    }

    proof fn lemma_value_in_range(self) {
    }

    proof fn lemma_of_int_value(v: int) {
    }

    proof fn lemma_value_of_int(self) {
    }

    proof fn lemma_range_covers_i32() {
    }

    fn from_i32(v: i32) -> (r: Self) {
        cast_i32_to_i64(v).unwrap()
    }

    fn from_i64(v: i64) -> (r: Option<Self>) {
        cast_i64_to_i64(v)
    }

    fn to_i64(self) -> (r: i64) {
        cast_i64_to_i64(self).unwrap()
    }

    fn equals(self, rhs: Self) -> (r: bool) {
        self == rhs
    }

    fn below(self, rhs: Self) -> (r: bool) {
        self < rhs
    }

    fn sum(self, rhs: Self) -> (r: Self) {
        self + rhs
    }

    fn difference(self, rhs: Self) -> (r: Self) {
        self - rhs
    }

    fn product(self, rhs: Self) -> (r: Self) {
        self * rhs
    }

    fn quotient(self, rhs: Self) -> (r: Self) {
        proof {
            lemma_negative_divisor(self as int, rhs as int);
            lemma_negative_divisor(-self, rhs as int);
        }
        self / rhs
    }
}

} // verus!
