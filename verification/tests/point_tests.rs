use geom_kernel::geom::{Point2, Point3, Vector2, Vector3};
use geom_kernel::point2;
use geom_kernel::types::Float;
use std::ops::{Add, Div, Mul, Neg, Sub};

#[test]
fn point_plus_vector_is_a_point() {
    assert_eq!(Point2::new(1i32, 2) + Vector2::new(10, 20), Point2::new(11, 22));
    assert_eq!(Point3::new(1i32, 2, 3) + Vector3::new(10, 20, 30), Point3::new(11, 22, 33));
    assert_eq!(Point3::new(1.5f32, 2.0, 3.0) + Vector3::new(0.5, 0.0, -3.0), Point3::new(2.0, 2.0, 0.0));
}

#[test]
fn point_minus_point_is_a_vector() {
    assert_eq!(Point2::new(11i32, 22) - Point2::new(1, 2), Vector2::new(10, 20));
    assert_eq!(&Point2::new(11i32, 22) - &Point2::new(1, 2), Vector2::new(10, 20));
    assert_eq!(Point3::new(11i32, 22, 33) - Point3::new(1, 2, 3), Vector3::new(10, 20, 30));
    assert_eq!(&Point3::new(11i32, 22, 33) - &Point3::new(1, 2, 3), Vector3::new(10, 20, 30));
}

#[test]
fn point_minus_vector_is_a_point() {
    assert_eq!(Point3::new(11i32, 22, 33) - Vector3::new(10, 20, 30), Point3::new(1, 2, 3));
}

#[test]
fn moving_a_point_there_and_back() {
    let p = Point3::new(-4i64, 5, 6);
    let v = Vector3::new(100i64, -200, 300);
    assert_eq!((p + v) - v, p);
    let q = Point3::new(9i64, 9, 9);
    assert_eq!(q + (p - q), p);
    assert_eq!((p + v) - p, v);
}

#[test]
fn point2_builds_a_point() {
    assert_eq!(point2(1i32, 2), Point2 { x: 1, y: 2 });
    assert_eq!(Point2::try_new(1.0f32, f32::NAN), None);
    assert_eq!(Point3::try_new(1.0f32, 2.0, 3.0), Some(Point3 { x: 1.0, y: 2.0, z: 3.0 }));
    assert_eq!(Point3::try_new(f64::NAN, 2.0, 3.0), None);
}

#[test]
fn points_convert_to_and_from_tuples() {
    let p: Point2<i32> = (1, 2).into();
    assert_eq!(p, Point2::new(1, 2));
    let q: Point3<i32> = (1, 2, 3).into();
    assert_eq!(q, Point3::new(1, 2, 3));
    let t: (i32, i32) = Point2::new(4, 5).into();
    assert_eq!(t, (4, 5));
    let u: (i32, i32, i32) = Point3::new(4, 5, 6).into();
    assert_eq!(u, (4, 5, 6));
}

#[test]
fn a_point_in_space_drops_to_the_plane() {
    let p: Point2<i32> = Point3::new(7, 8, 9).into();
    assert_eq!(p, Point2::new(7, 8));
}

#[test]
fn points_are_ordered_coordinate_by_coordinate() {
    assert!(Point2::new(1i32, 9) < Point2::new(2, 0));
    assert!(Point3::new(1i32, 2, 3) < Point3::new(1, 2, 4));
    assert!(Point3::new(1i32, 2, 3) == Point3::new(1, 2, 3));
    assert!(Point3::new(1i32, 2, 3) != Point3::new(1, 2, 4));
    assert_eq!(Point2::new(3i32, 1).max(Point2::new(2, 7)), Point2::new(3, 1));
}

#[derive(Debug, Default, Clone, Copy, PartialEq, PartialOrd)]
struct Real(f64);

impl Add for Real {
    type Output = Real;
    fn add(self, rhs: Real) -> Real {
        Real(self.0 + rhs.0)
    }
}

impl Sub for Real {
    type Output = Real;
    fn sub(self, rhs: Real) -> Real {
        Real(self.0 - rhs.0)
    }
}

impl Mul for Real {
    type Output = Real;
    fn mul(self, rhs: Real) -> Real {
        Real(self.0 * rhs.0)
    }
}

impl Div for Real {
    type Output = Real;
    fn div(self, rhs: Real) -> Real {
        Real(self.0 / rhs.0)
    }
}

impl Neg for Real {
    type Output = Real;
    fn neg(self) -> Real {
        Real(-self.0)
    }
}

impl Float for Real {
    fn is_nan(self) -> bool {
        self.0.is_nan()
    }
    fn fract(self) -> Self {
        Real(self.0.fract())
    }
    fn mul_add(self, a: Self, b: Self) -> Self {
        Real(self.0.mul_add(a.0, b.0))
    }
    fn sqrt(self) -> Self {
        Real(self.0.sqrt())
    }
    fn ceil(self) -> Self {
        Real(self.0.ceil())
    }
    fn floor(self) -> Self {
        Real(self.0.floor())
    }
    fn round(self) -> Self {
        Real(self.0.round())
    }
    fn trunc(self) -> Self {
        Real(self.0.trunc())
    }
}

#[test]
fn distance_is_the_length_of_the_difference() {
    let a = Point2::new(Real(1.0), Real(1.0));
    let b = Point2::new(Real(4.0), Real(5.0));
    assert_eq!(Point2::distance(&a, &b), Real(5.0));
    assert_eq!(Point2::distance(&b, &a), Real(5.0));
    let c = Point3::new(Real(1.0), Real(2.0), Real(3.0));
    let d = Point3::new(Real(3.0), Real(5.0), Real(9.0));
    assert_eq!(Point3::distance(&c, &d), Real(7.0));
    assert_eq!(Point3::distance(&c, &c), Real(0.0));
}
