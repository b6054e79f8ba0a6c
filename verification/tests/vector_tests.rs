use geom_kernel::geom::{DotProduct, Normal3, Vector2, Vector3};
use geom_kernel::types::Float;
use geom_kernel::vec3;
use quickcheck::{quickcheck, TestResult};
use std::ops::{Add, AddAssign, Div, DivAssign, Mul, MulAssign, Neg, Sub, SubAssign};

#[test]
fn test_vector2_new() {
    let v = Vector2::new(1i32, 2i32);
    assert_eq!(v.x, 1);
    assert_eq!(v.y, 2);
}

#[test]
fn test_vector2_add() {
    let v = Vector2::new(1i32, 2i32);
    let u = Vector2::new(3i32, 4i32);
    assert_eq!(&v + &u, Vector2::new(4, 6));
}

#[test]
fn vector2_operators_in_every_form() {
    let v = Vector2::new(1i32, 2);
    let u = Vector2::new(3i32, 5);
    assert_eq!(v + u, Vector2::new(4, 7));
    assert_eq!(v + &u, Vector2::new(4, 7));
    assert_eq!(&v + u, Vector2::new(4, 7));
    assert_eq!(v - u, Vector2::new(-2, -3));
    assert_eq!(v - &u, Vector2::new(-2, -3));
    assert_eq!(&v - u, Vector2::new(-2, -3));
    assert_eq!(&v - &u, Vector2::new(-2, -3));
    assert_eq!(u * 3, Vector2::new(9, 15));
    assert_eq!(&u * 3, Vector2::new(9, 15));
    assert_eq!(u / 2, Vector2::new(1, 2));
    assert_eq!(&u / 2, Vector2::new(1, 2));
    assert_eq!(-u, Vector2::new(-3, -5));
    assert_eq!(-&u, Vector2::new(-3, -5));
}

#[test]
fn vector3_operators() {
    let v = Vector3::new(1.5f64, -2.0, 4.0);
    let u = Vector3::new(0.5f64, 2.0, 1.0);
    assert_eq!(v + u, Vector3::new(2.0, 0.0, 5.0));
    assert_eq!(v - u, Vector3::new(1.0, -4.0, 3.0));
    assert_eq!(v * 2.0, Vector3::new(3.0, -4.0, 8.0));
    assert_eq!(v / 2.0, Vector3::new(0.75, -1.0, 2.0));
    assert_eq!(-v, Vector3::new(-1.5, 2.0, -4.0));
    assert_eq!(&v + &u, Vector3::new(2.0, 0.0, 5.0));
    assert_eq!(&v - &u, Vector3::new(1.0, -4.0, 3.0));
}

#[test]
fn vector_compound_assignment() {
    let mut v = Vector3::new(1i64, 2, 3);
    v += Vector3::new(10, 20, 30);
    assert_eq!(v, Vector3::new(11, 22, 33));
    v -= &Vector3::new(1, 2, 3);
    assert_eq!(v, Vector3::new(10, 20, 30));
    v *= 3;
    assert_eq!(v, Vector3::new(30, 60, 90));
    v /= 4;
    assert_eq!(v, Vector3::new(7, 15, 22));
    v += &Vector3::new(1, 1, 1);
    v -= Vector3::new(8, 16, 23);
    assert_eq!(v, Vector3::new(0, 0, 0));
    let mut w = Vector2::new(1i32, 2);
    w.add_assign(Vector2::new(1, 1));
    w.sub_assign(Vector2::new(0, 3));
    w.mul_assign(5);
    w.div_assign(2);
    assert_eq!(w, Vector2::new(5, 0));
}

#[test]
fn add_then_sub_gives_back_the_vector() {
    let v0 = Vector3::new(7i32, -8, 9);
    let v1 = Vector3::new(-100i32, 250, 3);
    assert_eq!((v0 + v1) - v1, v0);
    assert_eq!((v0 - v1) + v1, v0);
    let a = Vector2::new(i32::MAX - 5, i32::MIN + 5);
    let b = Vector2::new(5i32, -5);
    assert_eq!((a + b) - b, a);
}

#[test]
fn vector_addition_is_componentwise_for_finite_floats() {
    fn property(x0: f64, y0: f64, x1: f64, y1: f64) -> TestResult {
        if !x0.is_finite() || !y0.is_finite() || !x1.is_finite() || !y1.is_finite() {
            return TestResult::discard();
        }
        TestResult::from_bool(
            Vector2::new(x0, y0) + Vector2::new(x1, y1) == Vector2::new(x0 + x1, y0 + y1),
        )
    }
    quickcheck(property as fn(f64, f64, f64, f64) -> TestResult);
}

#[test]
fn vector_addition_and_subtraction_undo_each_other_for_integers() {
    fn property(x0: i32, y0: i32, z0: i32, x1: i32, y1: i32, z1: i32) -> bool {
        let v0 = Vector3::new(i64::from(x0), i64::from(y0), i64::from(z0));
        let v1 = Vector3::new(i64::from(x1), i64::from(y1), i64::from(z1));
        (v0 + v1) - v1 == v0 && (v0 - v1) + v1 == v0
    }
    quickcheck(property as fn(i32, i32, i32, i32, i32, i32) -> bool);
}

#[test]
fn equality_and_order_go_coordinate_by_coordinate() {
    assert!(Vector2::new(1i32, 2) == Vector2::new(1, 2));
    assert!(Vector2::new(1i32, 2) != Vector2::new(1, 3));
    assert!(Vector2::new(1i32, 9) < Vector2::new(2, 0));
    assert!(Vector2::new(1i32, 2) < Vector2::new(1, 3));
    assert!(Vector3::new(1i32, 2, 3) < Vector3::new(1, 2, 4));
    assert!(Vector3::new(1i32, 3, 0) > Vector3::new(1, 2, 9));
    assert!(Vector3::new(1i32, 2, 3) <= Vector3::new(1, 2, 3));
    assert_eq!(Vector3::new(1i32, 2, 3).cmp(&Vector3::new(1, 2, 4)), std::cmp::Ordering::Less);
    assert_eq!(
        Vector2::new(1.0f32, f32::NAN).partial_cmp(&Vector2::new(1.0, 0.0)),
        None
    );
    assert_eq!(
        Vector2::new(0.0f32, f32::NAN).partial_cmp(&Vector2::new(1.0, 0.0)),
        Some(std::cmp::Ordering::Less)
    );
    let mut sorted = vec![Vector2::new(2i32, 1), Vector2::new(1, 5), Vector2::new(1, 2)];
    sorted.sort();
    assert_eq!(sorted, vec![Vector2::new(1, 2), Vector2::new(1, 5), Vector2::new(2, 1)]);
}

#[test]
fn try_new_refuses_nan() {
    assert_eq!(Vector2::try_new(1.0f32, 2.0), Some(Vector2 { x: 1.0, y: 2.0 }));
    assert!(Vector2::try_new(f32::NAN, 2.0).is_none());
    assert!(Vector2::try_new(1.0f32, f32::NAN).is_none());
    assert!(Vector3::try_new(1.0f64, 2.0, f64::NAN).is_none());
    assert!(Vector3::try_new(f64::INFINITY, 2.0, 3.0).is_some());
    assert_eq!(Vector3::try_new(1i32, 2, 3), Some(Vector3 { x: 1, y: 2, z: 3 }));
}

#[test]
fn vec3_builds_a_vector() {
    assert_eq!(vec3(1i32, 2, 3), Vector3 { x: 1, y: 2, z: 3 });
}

#[test]
fn from_a_pair() {
    let v: Vector2<i32> = (3, 4).into();
    assert_eq!(v, Vector2::new(3, 4));
}

#[test]
fn abs_of_each_coordinate() {
    assert_eq!(Vector3::new(-3i32, 4, -5).abs(), Vector3::new(3, 4, 5));
    assert_eq!(Vector2::new(-7i64, 0).abs(), Vector2::new(7, 0));
}

#[test]
fn dot_products() {
    assert_eq!(Vector2::new(1i32, 2).dot(&Vector2::new(3, 4)), 11);
    assert_eq!(Vector3::new(1i32, 2, 3).dot(&Vector3::new(4, -5, 6)), 12);
    assert_eq!(Normal3::new(1i32, 2, 3).dot(&Normal3::new(4, -5, 6)), 12);
    let n = Normal3::new(1i32, 2, 3);
    let v = Vector3::new(4i32, -5, 6);
    assert_eq!(n.dot(&v), 12);
    assert_eq!(v.dot(&n), 12);
    assert_eq!(DotProduct::dot(&v, &n), DotProduct::dot(&n, &v));
}

#[test]
fn vector3_cross_of_axes() {
    let x = Vector3::new(1.0f32, 0.0, 0.0);
    let y = Vector3::new(0.0f32, 1.0, 0.0);
    let z = Vector3::new(0.0f32, 0.0, 1.0);
    assert_eq!(x.cross(&y), z);
    assert_eq!(y.cross(&z), x);
    assert_eq!(z.cross(&x), y);
    assert_eq!(x.dot(&y), 0.0);
}

#[test]
fn cross_by_the_formula() {
    let a = Vector3::new(2i32, 3, 4);
    let b = Vector3::new(5i32, 6, 7);
    assert_eq!(a.cross(&b), Vector3::new(3 * 7 - 4 * 6, 4 * 5 - 2 * 7, 2 * 6 - 3 * 5));
    assert_eq!(a.cross(&b), Vector3::new(-3, 6, -3));
    assert_eq!(a.cross(&b), (-b).cross(&a));
    assert_eq!(a.cross(&a), Vector3::new(0, 0, 0));
}

#[test]
fn cross_is_perpendicular_to_both_operands() {
    let a = Vector3::new(2i32, 3, 4);
    let b = Vector3::new(5i32, 6, 7);
    assert_eq!(a.cross(&b).dot(&a), 0);
    assert_eq!(a.cross(&b).dot(&b), 0);
    fn property(x0: i16, y0: i16, z0: i16, x1: i16, y1: i16, z1: i16) -> bool {
        let v0 = Vector3::new(i128::from(x0), i128::from(y0), i128::from(z0));
        let v1 = Vector3::new(i128::from(x1), i128::from(y1), i128::from(z1));
        v0.cross(&v1).dot(&v0) == 0 && v0.cross(&v1).dot(&v1) == 0
    }
    quickcheck(property as fn(i16, i16, i16, i16, i16, i16) -> bool);
}

#[test]
fn cross_is_anticommutative_for_integers() {
    fn property(x0: i16, y0: i16, z0: i16, x1: i16, y1: i16, z1: i16) -> bool {
        let v0 = Vector3::new(i64::from(x0), i64::from(y0), i64::from(z0));
        let v1 = Vector3::new(i64::from(x1), i64::from(y1), i64::from(z1));
        v0.cross(&v1) == (-v1).cross(&v0)
    }
    quickcheck(property as fn(i16, i16, i16, i16, i16, i16) -> bool);
}

fn narrow(w: f64) -> f32 {
    w as f32
}

#[test]
fn cross_is_anticommutative_for_finite_floats() {
    fn property(x0: f32, y0: f32, z0: f32, x1: f32, y1: f32, z1: f32) -> TestResult {
        if !x0.is_finite()
            || !y0.is_finite()
            || !z0.is_finite()
            || !x1.is_finite()
            || !y1.is_finite()
            || !z1.is_finite()
        {
            return TestResult::discard();
        }
        let v0 = Vector3::new(x0, y0, z0);
        let v1 = Vector3::new(x1, y1, z1);
        let one_way = v0.cross_widened::<f64, _>(&v1, narrow);
        let other_way = (-v1).cross_widened::<f64, _>(&v0, narrow);
        TestResult::from_bool(one_way == other_way)
    }
    quickcheck(property as fn(f32, f32, f32, f32, f32, f32) -> TestResult);
}

#[test]
fn widened_cross_keeps_digits_that_the_narrow_one_loses() {
    let a = Vector3::new(4097.0f32, 4097.0, 1.0);
    let b = Vector3::new(4097.0f32, 4095.0, 1.0);
    // a.x * b.y - a.y * b.x = 4097 * 4095 - 4097 * 4097 = -8194, and the
    // second product needs more than the 24 bits that a 32-bit float holds.
    let wide = a.cross_widened::<f64, _>(&b, narrow);
    assert_eq!(wide.z, -8194.0);
    assert_eq!(wide.x, 4097.0 - 4095.0);
    assert_eq!(wide.y, 4097.0 - 4097.0);
    let plain = a.cross(&b);
    assert_eq!(plain.x, 2.0);
    assert_eq!(plain.z, -8193.0);
}

#[derive(Debug, Default, Clone, Copy, PartialEq, PartialOrd)]
struct Real(f64);

impl Add for Real {
    type Output = Real;
    fn add(self, rhs: Real) -> Real {
        Real(self.0 + rhs.0)
    }
}

impl Sub for Real {
    type Output = Real;
    fn sub(self, rhs: Real) -> Real {
        Real(self.0 - rhs.0)
    }
}

impl Mul for Real {
    type Output = Real;
    fn mul(self, rhs: Real) -> Real {
        Real(self.0 * rhs.0)
    }
}

impl Div for Real {
    type Output = Real;
    fn div(self, rhs: Real) -> Real {
        Real(self.0 / rhs.0)
    }
}

impl Neg for Real {
    type Output = Real;
    fn neg(self) -> Real {
        Real(-self.0)
    }
}

impl Float for Real {
    fn is_nan(self) -> bool {
        self.0.is_nan()
    }
    fn fract(self) -> Self {
        Real(self.0.fract())
    }
    fn mul_add(self, a: Self, b: Self) -> Self {
        Real(self.0.mul_add(a.0, b.0))
    }
    fn sqrt(self) -> Self {
        Real(self.0.sqrt())
    }
    fn ceil(self) -> Self {
        Real(self.0.ceil())
    }
    fn floor(self) -> Self {
        Real(self.0.floor())
    }
    fn round(self) -> Self {
        Real(self.0.round())
    }
    fn trunc(self) -> Self {
        Real(self.0.trunc())
    }
}

#[test]
fn vector_length_and_normalize() {
    let v = Vector2::new(Real(3.0), Real(4.0));
    assert_eq!(v.length(), Real(5.0));
    assert_eq!(v.normalize(), Vector2::new(Real(0.6), Real(0.8)));
    let w = Vector3::new(Real(2.0), Real(3.0), Real(6.0));
    assert_eq!(w.length(), Real(7.0));
    assert_eq!(w.normalize(), Vector3::new(Real(2.0 / 7.0), Real(3.0 / 7.0), Real(6.0 / 7.0)));
}

#[test]
fn normalizing_the_zero_vector_gives_nan() {
    let z = Vector3::new(Real(0.0), Real(0.0), Real(0.0));
    let n = z.normalize();
    assert!(n.x.is_nan() && n.y.is_nan() && n.z.is_nan());
}

#[test]
fn normal3_length_is_root_of_dot() {
    let n = Normal3::new(Real(3.0), Real(0.0), Real(4.0));
    assert_eq!(n.length(), Real(5.0));
    let u = n.normalize();
    assert_eq!(u, Normal3::new(Real(0.6), Real(0.0), Real(0.8)));
}
