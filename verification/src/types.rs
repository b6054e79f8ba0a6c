//! The scalar domain: which numeric types may serve as coordinates, and what
//! is known of their arithmetic.
//!
//! Generic code in this crate speaks of a scalar's operators through the
//! operator specifications of `vstd` (`add_req`, `add_spec`, ...). The signed
//! integer types additionally carry an exact model, [`Signed::as_int`], over
//! which the algebraic laws of the geometric types are proved.
use std::fmt::Debug;
use std::ops::{Add, Div, Mul, Neg, Sub};
use vstd::prelude::*;
use vstd::std_specs::cmp::PartialEqSpec;
use vstd::std_specs::convert::FromSpec;
use vstd::std_specs::ops::{AddSpec, MulSpec, NegSpec, SubSpec};

verus! {

/// Types closed under addition.
pub trait ClosedAdd<Rhs = Self>: Add<Rhs, Output = Self> {}

impl<T, Rhs> ClosedAdd<Rhs> for T where T: Add<Rhs, Output = T> {}

/// Types closed under subtraction.
pub trait ClosedSub<Rhs = Self>: Sub<Rhs, Output = Self> {}

impl<T, Rhs> ClosedSub<Rhs> for T where T: Sub<Rhs, Output = T> {}

/// Types closed under multiplication.
pub trait ClosedMul<Rhs = Self>: Mul<Rhs, Output = Self> {}

impl<T, Rhs> ClosedMul<Rhs> for T where T: Mul<Rhs, Output = T> {}

/// Types closed under division.
pub trait ClosedDiv<Rhs = Self>: Div<Rhs, Output = Self> {}

impl<T, Rhs> ClosedDiv<Rhs> for T where T: Div<Rhs, Output = T> {}

/// Types closed under negation.
pub trait ClosedNeg: Neg<Output = Self> {}

impl<T> ClosedNeg for T where T: Neg<Output = T> {}

/// Types with all four arithmetic operators.
pub trait Field: Sized + ClosedAdd + ClosedSub + ClosedMul + ClosedDiv {}

impl<T: ClosedAdd + ClosedSub + ClosedMul + ClosedDiv> Field for T {}

/// Any copyable, comparable, printable type can be a coordinate.
pub trait Scalar: 'static + Copy + PartialEq + Debug {}

impl<T: 'static + Copy + PartialEq + Debug> Scalar for T {}

/// A coordinate is admissible when it compares equal to itself. Every integer
/// is; a floating-point NaN is the one value of a primitive numeric type that
/// is not.
pub open spec fn admissible<T: PartialEq>(x: T) -> bool {
    x.eq_spec(&x)
}

/// Tests at run time whether `x` is admissible as a coordinate.
pub fn is_admissible<T: PartialEq>(x: &T) -> (ok: bool)
    ensures
        T::obeys_eq_spec() ==> ok == admissible(*x),
{
    x.eq(x)
}

/// The zero of a scalar type: what the type makes of the integer 0.
pub open spec fn zero_spec<T: From<i8>>() -> T {
    T::from_spec(0i8)
}

/// The one of a scalar type: what the type makes of the integer 1.
pub open spec fn one_spec<T: From<i8>>() -> T {
    T::from_spec(1i8)
}

/// The zero of a scalar type.
pub fn zero<T: From<i8>>() -> (r: T)
    ensures
        T::obeys_from_spec() ==> r == zero_spec::<T>(),
{
    T::from(0i8)
}

/// The one of a scalar type.
pub fn one<T: From<i8>>() -> (r: T)
    ensures
        T::obeys_from_spec() ==> r == one_spec::<T>(),
{
    T::from(1i8)
}

/// Whether the integer `v` is the value of some `T`.
pub open spec fn representable<T: Signed>(v: int) -> bool {
    T::lowest() <= v <= T::highest()
}

/// Whether the zero and the one of `T` stand for the integers 0 and 1, as
/// they do for every signed integer type wider than `i8`.
pub open spec fn has_units<T: Signed + From<i8>>() -> bool {
    &&& T::obeys_from_spec()
    &&& zero_spec::<T>().as_int() == 0
    &&& one_spec::<T>().as_int() == 1
}

/// Marks the built-in value types.
pub trait PrimitiveMarker {}

impl PrimitiveMarker for bool {}

impl PrimitiveMarker for char {}

impl PrimitiveMarker for i8 {}

impl PrimitiveMarker for u8 {}

impl PrimitiveMarker for i16 {}

impl PrimitiveMarker for u16 {}

impl PrimitiveMarker for i32 {}

impl PrimitiveMarker for u32 {}

impl PrimitiveMarker for i64 {}

impl PrimitiveMarker for u64 {}

impl PrimitiveMarker for isize {}

impl PrimitiveMarker for usize {}

/// The built-in value types, with the capabilities they all share.
pub trait Primitive: 'static + Copy + Send + Sync + Debug + Default + PrimitiveMarker {}

impl<T: 'static + Copy + Send + Sync + Debug + Default + PrimitiveMarker> Primitive for T {}

/// Numeric types with a least and a greatest value.
pub trait Bounded {
    const MIN: Self;
    const MAX: Self;
}

impl Bounded for i8 {
    const MIN: i8 = i8::MIN;
    const MAX: i8 = i8::MAX;
}

impl Bounded for u8 {
    const MIN: u8 = u8::MIN;
    const MAX: u8 = u8::MAX;
}

impl Bounded for i16 {
    const MIN: i16 = i16::MIN;
    const MAX: i16 = i16::MAX;
}

impl Bounded for u16 {
    const MIN: u16 = u16::MIN;
    const MAX: u16 = u16::MAX;
}

impl Bounded for i32 {
    const MIN: i32 = i32::MIN;
    const MAX: i32 = i32::MAX;
}

impl Bounded for u32 {
    const MIN: u32 = u32::MIN;
    const MAX: u32 = u32::MAX;
}

impl Bounded for i64 {
    const MIN: i64 = i64::MIN;
    const MAX: i64 = i64::MAX;
}

impl Bounded for u64 {
    const MIN: u64 = u64::MIN;
    const MAX: u64 = u64::MAX;
}

impl Bounded for i128 {
    const MIN: i128 = i128::MIN;
    const MAX: i128 = i128::MAX;
}

impl Bounded for u128 {
    const MIN: u128 = u128::MIN;
    const MAX: u128 = u128::MAX;
}

impl Bounded for isize {
    const MIN: isize = isize::MIN;
    const MAX: isize = isize::MAX;
}

impl Bounded for usize {
    const MIN: usize = usize::MIN;
    const MAX: usize = usize::MAX;
}

/// The signed integer types.
///
/// Their arithmetic is exact: each operator is defined precisely when the
/// mathematical result lies between [`Signed::lowest`] and
/// [`Signed::highest`], and then yields that result.
pub trait Signed: Copy + PartialEq + Add<Output = Self> + Sub<Output = Self> + Mul<
    Output = Self,
> + Neg<Output = Self> {
    type Unsigned;

    /// The integer that `self` stands for.
    spec fn as_int(self) -> int;

    /// The least representable integer.
    spec fn lowest() -> int;

    /// The greatest representable integer.
    spec fn highest() -> int;

    /// Every value stands for an integer within the range, which holds
    /// zero and more on either side of it.
    proof fn lemma_range(a: Self)
        ensures
            Self::lowest() <= a.as_int() <= Self::highest(),
            Self::lowest() < 0 < Self::highest(),
    ;

    /// Distinct values stand for distinct integers.
    proof fn lemma_injective(a: Self, b: Self)
        ensures
            a.as_int() == b.as_int() ==> a == b,
    ;

    /// `==` tells whether two values are the same.
    proof fn lemma_eq(a: Self, b: Self)
        ensures
            Self::obeys_eq_spec(),
            a.eq_spec(&b) <==> a == b,
    ;

    /// `+` is integer addition wherever the sum is representable.
    proof fn lemma_add(a: Self, b: Self)
        ensures
            Self::obeys_add_spec(),
            a.add_req(b) <==> Self::lowest() <= a.as_int() + b.as_int() <= Self::highest(),
            a.add_req(b) ==> a.add_spec(b).as_int() == a.as_int() + b.as_int(),
    ;

    /// `-` is integer subtraction wherever the difference is representable.
    proof fn lemma_sub(a: Self, b: Self)
        ensures
            Self::obeys_sub_spec(),
            a.sub_req(b) <==> Self::lowest() <= a.as_int() - b.as_int() <= Self::highest(),
            a.sub_req(b) ==> a.sub_spec(b).as_int() == a.as_int() - b.as_int(),
    ;

    /// `*` is integer multiplication wherever the product is representable.
    proof fn lemma_mul(a: Self, b: Self)
        ensures
            Self::obeys_mul_spec(),
            a.mul_req(b) <==> Self::lowest() <= a.as_int() * b.as_int() <= Self::highest(),
            a.mul_req(b) ==> a.mul_spec(b).as_int() == a.as_int() * b.as_int(),
    ;

    /// Unary `-` is integer negation of everything but the least value.
    proof fn lemma_neg(a: Self)
        ensures
            Self::obeys_neg_spec(),
            a.neg_req() <==> a.as_int() != Self::lowest(),
            a.neg_req() ==> a.neg_spec().as_int() == -a.as_int(),
    ;

    /// The absolute value. The least value has none.
    fn abs(self) -> (r: Self)
        requires
            self.as_int() != Self::lowest(),
        ensures
            r.as_int() == (if self.as_int() < 0 {
                -self.as_int()
            } else {
                self.as_int()
            }),
    ;
}

/// The unsigned integer types, each paired with the signed type of its width.
pub trait Unsigned {
    type Signed: Signed;
}

impl Signed for i8 {
    type Unsigned = u8;

    open spec fn as_int(self) -> int {
        self as int
    }

    open spec fn lowest() -> int {
        i8::MIN as int
    }

    open spec fn highest() -> int {
        i8::MAX as int
    }

    proof fn lemma_range(a: i8) {
    }

    proof fn lemma_injective(a: i8, b: i8) {
    }

    proof fn lemma_eq(a: i8, b: i8) {
    }

    proof fn lemma_add(a: i8, b: i8) {
    }

    proof fn lemma_sub(a: i8, b: i8) {
    }

    proof fn lemma_mul(a: i8, b: i8) {
    }

    proof fn lemma_neg(a: i8) {
    }

    fn abs(self) -> (r: i8)
        ensures
            r == (if self < 0 {
                -self
            } else {
                self as int
            }),
    {
        if self < 0 {
            -self
        } else {
            self
        }
    }
}

impl Unsigned for u8 {
    type Signed = i8;
}

impl Signed for i16 {
    type Unsigned = u16;

    open spec fn as_int(self) -> int {
        self as int
    }

    open spec fn lowest() -> int {
        i16::MIN as int
    }

    open spec fn highest() -> int {
        i16::MAX as int
    }

    proof fn lemma_range(a: i16) {
    }

    proof fn lemma_injective(a: i16, b: i16) {
    }

    proof fn lemma_eq(a: i16, b: i16) {
    }

    proof fn lemma_add(a: i16, b: i16) {
    }

    proof fn lemma_sub(a: i16, b: i16) {
    }

    proof fn lemma_mul(a: i16, b: i16) {
    }

    proof fn lemma_neg(a: i16) {
    }

    fn abs(self) -> (r: i16)
        ensures
            r == (if self < 0 {
                -self
            } else {
                self as int
            }),
    {
        if self < 0 {
            -self
        } else {
            self
        }
    }
}

impl Unsigned for u16 {
    type Signed = i16;
}

impl Signed for i32 {
    type Unsigned = u32;

    open spec fn as_int(self) -> int {
        self as int
    }

    open spec fn lowest() -> int {
        i32::MIN as int
    }

    open spec fn highest() -> int {
        i32::MAX as int
    }

    proof fn lemma_range(a: i32) {
    }

    proof fn lemma_injective(a: i32, b: i32) {
    }

    proof fn lemma_eq(a: i32, b: i32) {
    }

    proof fn lemma_add(a: i32, b: i32) {
    }

    proof fn lemma_sub(a: i32, b: i32) {
    }

    proof fn lemma_mul(a: i32, b: i32) {
    }

    proof fn lemma_neg(a: i32) {
    }

    fn abs(self) -> (r: i32)
        ensures
            r == (if self < 0 {
                -self
            } else {
                self as int
            }),
    {
        if self < 0 {
            -self
        } else {
            self
        }
    }
}

impl Unsigned for u32 {
    type Signed = i32;
}

impl Signed for i64 {
    type Unsigned = u64;

    open spec fn as_int(self) -> int {
        self as int
    }

    open spec fn lowest() -> int {
        i64::MIN as int
    }

    open spec fn highest() -> int {
        i64::MAX as int
    }

    proof fn lemma_range(a: i64) {
    }

    proof fn lemma_injective(a: i64, b: i64) {
    }

    proof fn lemma_eq(a: i64, b: i64) {
    }

    proof fn lemma_add(a: i64, b: i64) {
    }

    proof fn lemma_sub(a: i64, b: i64) {
    }

    proof fn lemma_mul(a: i64, b: i64) {
    }

    proof fn lemma_neg(a: i64) {
    }

    fn abs(self) -> (r: i64)
        ensures
            r == (if self < 0 {
                -self
            } else {
                self as int
            }),
    {
        if self < 0 {
            -self
        } else {
            self
        }
    }
}

impl Unsigned for u64 {
    type Signed = i64;
}

impl Signed for isize {
    type Unsigned = usize;

    open spec fn as_int(self) -> int {
        self as int
    }

    open spec fn lowest() -> int {
        isize::MIN as int
    }

    open spec fn highest() -> int {
        isize::MAX as int
    }

    proof fn lemma_range(a: isize) {
    }

    proof fn lemma_injective(a: isize, b: isize) {
    }

    proof fn lemma_eq(a: isize, b: isize) {
    }

    proof fn lemma_add(a: isize, b: isize) {
    }

    proof fn lemma_sub(a: isize, b: isize) {
    }

    proof fn lemma_mul(a: isize, b: isize) {
    }

    proof fn lemma_neg(a: isize) {
    }

    fn abs(self) -> (r: isize)
        ensures
            r == (if self < 0 {
                -self
            } else {
                self as int
            }),
    {
        if self < 0 {
            -self
        } else {
            self
        }
    }
}

impl Unsigned for usize {
    type Signed = isize;
}

impl Signed for i128 {
    type Unsigned = u128;

    open spec fn as_int(self) -> int {
        self as int
    }

    open spec fn lowest() -> int {
        i128::MIN as int
    }

    open spec fn highest() -> int {
        i128::MAX as int
    }

    proof fn lemma_range(a: i128) {
    }

    proof fn lemma_injective(a: i128, b: i128) {
    }

    proof fn lemma_eq(a: i128, b: i128) {
    }

    proof fn lemma_add(a: i128, b: i128) {
    }

    proof fn lemma_sub(a: i128, b: i128) {
    }

    proof fn lemma_mul(a: i128, b: i128) {
    }

    proof fn lemma_neg(a: i128) {
    }

    fn abs(self) -> (r: i128)
        ensures
            r == (if self < 0 {
                -self
            } else {
                self as int
            }),
    {
        if self < 0 {
            -self
        } else {
            self
        }
    }
}

impl Unsigned for u128 {
    type Signed = i128;
}

/// Scalars with the real-number operations that integers lack. The crate
/// implements it for no type: it is the interface through which a
/// floating-point scalar supplies them.
pub trait Float: Field + Debug + PartialEq + PartialOrd + ClosedNeg + Copy + Default {
    fn is_nan(self) -> bool;

    fn fract(self) -> Self;

    /// `self * a + b`, rounded once.
    fn mul_add(self, a: Self, b: Self) -> Self;

    fn sqrt(self) -> Self;

    fn ceil(self) -> Self;

    fn floor(self) -> Self;

    fn round(self) -> Self;

    fn trunc(self) -> Self;
}

} // verus!
