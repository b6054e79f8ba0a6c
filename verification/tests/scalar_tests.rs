use geom_kernel::math::{lerp_fused, Abs, BackendStatus, Lerp};
use geom_kernel::types::{is_admissible, one, zero, Bounded, Float, Signed};
use std::ops::{Add, Div, Mul, Neg, Sub};

#[test]
fn nan_is_the_one_scalar_that_is_not_admissible() {
    assert!(is_admissible(&0.0f32));
    assert!(is_admissible(&f32::INFINITY));
    assert!(is_admissible(&f64::NEG_INFINITY));
    assert!(!is_admissible(&f32::NAN));
    assert!(!is_admissible(&f64::NAN));
    assert!(is_admissible(&i32::MIN));
    assert!(is_admissible(&0u8));
}

#[test]
fn zero_and_one_of_each_scalar() {
    assert_eq!(zero::<i32>(), 0);
    assert_eq!(one::<i32>(), 1);
    assert_eq!(zero::<i64>(), 0);
    assert_eq!(one::<i16>(), 1);
    assert_eq!(zero::<f32>(), 0.0);
    assert_eq!(one::<f32>(), 1.0);
    assert_eq!(one::<f64>(), 1.0);
}

#[test]
fn absolute_values_of_signed_integers() {
    assert_eq!(Signed::abs(-5i8), 5);
    assert_eq!(Signed::abs(5i16), 5);
    assert_eq!(Signed::abs(-7i32), 7);
    assert_eq!(Signed::abs(0i64), 0);
    assert_eq!(Signed::abs(-9isize), 9);
    assert_eq!(Signed::abs(i128::MIN + 1), i128::MAX);
    assert_eq!(Signed::abs(i32::MAX), i32::MAX);
    assert_eq!(Abs::abs(-3i32), 3);
    assert_eq!(Abs::abs(i64::MIN + 1), i64::MAX);
}

#[test]
fn least_and_greatest_values() {
    assert_eq!(<i8 as Bounded>::MIN, -128);
    assert_eq!(<i8 as Bounded>::MAX, 127);
    assert_eq!(<u8 as Bounded>::MIN, 0);
    assert_eq!(<u16 as Bounded>::MAX, 65535);
    assert_eq!(<i32 as Bounded>::MIN, i32::MIN);
    assert_eq!(<u64 as Bounded>::MAX, u64::MAX);
    assert_eq!(<i128 as Bounded>::MIN, i128::MIN);
    assert_eq!(<usize as Bounded>::MAX, usize::MAX);
    assert_eq!(<isize as Bounded>::MIN, isize::MIN);
}

#[test]
fn classical_lerp() {
    assert_eq!(Lerp::lerp(0.0f32, 2.0, 10.0), 2.0);
    assert_eq!(Lerp::lerp(1.0f32, 2.0, 10.0), 10.0);
    assert_eq!(Lerp::lerp(0.25f32, 2.0, 10.0), 4.0);
    assert_eq!(Lerp::lerp(0.5f64, -4.0, 4.0), 0.0);
    assert_eq!(Lerp::lerp(2.0f64, 1.0, 3.0), 5.0);
    assert_eq!(Lerp::lerp(0i32, 7, 9), 7);
    assert_eq!(Lerp::lerp(1i32, 7, 9), 9);
}

#[derive(Debug, Default, Clone, Copy, PartialEq, PartialOrd)]
struct Real(f64);

impl Add for Real {
    type Output = Real;
    fn add(self, rhs: Real) -> Real {
        Real(self.0 + rhs.0)
    }
}

impl Sub for Real {
    type Output = Real;
    fn sub(self, rhs: Real) -> Real {
        Real(self.0 - rhs.0)
    }
}

impl Mul for Real {
    type Output = Real;
    fn mul(self, rhs: Real) -> Real {
        Real(self.0 * rhs.0)
    }
}

impl Div for Real {
    type Output = Real;
    fn div(self, rhs: Real) -> Real {
        Real(self.0 / rhs.0)
    }
}

impl Neg for Real {
    type Output = Real;
    fn neg(self) -> Real {
        Real(-self.0)
    }
}

impl Float for Real {
    fn is_nan(self) -> bool {
        self.0.is_nan()
    }
    fn fract(self) -> Self {
        Real(self.0.fract())
    }
    fn mul_add(self, a: Self, b: Self) -> Self {
        Real(self.0.mul_add(a.0, b.0))
    }
    fn sqrt(self) -> Self {
        Real(self.0.sqrt())
    }
    fn ceil(self) -> Self {
        Real(self.0.ceil())
    }
    fn floor(self) -> Self {
        Real(self.0.floor())
    }
    fn round(self) -> Self {
        Real(self.0.round())
    }
    fn trunc(self) -> Self {
        Real(self.0.trunc())
    }
}

#[test]
fn fused_lerp() {
    assert_eq!(lerp_fused(Real(0.0), Real(2.0), Real(10.0)), Real(2.0));
    assert_eq!(lerp_fused(Real(1.0), Real(2.0), Real(10.0)), Real(10.0));
    assert_eq!(lerp_fused(Real(0.25), Real(2.0), Real(10.0)), Real(4.0));
    assert_eq!(lerp_fused(Real(-1.0), Real(2.0), Real(10.0)), Real(-6.0));
}

#[test]
fn backend_status_codes() {
    assert_eq!(BackendStatus::from_code(0), BackendStatus::Success);
    assert_eq!(BackendStatus::from_code(3), BackendStatus::SingularPivot(3));
    assert_eq!(BackendStatus::from_code(i32::MAX), BackendStatus::SingularPivot(2147483647));
    assert_eq!(BackendStatus::from_code(-4), BackendStatus::InvalidArgument(4));
    assert_eq!(BackendStatus::from_code(i32::MIN), BackendStatus::InvalidArgument(2147483648));
}
