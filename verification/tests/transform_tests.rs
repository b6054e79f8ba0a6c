use geom_kernel::geom::{DotProduct, Normal3, Point3, Vector3};
use geom_kernel::math::Matrix4x4;
use geom_kernel::transform::Transform;
use geom_kernel::types::Float;
use std::ops::{Add, Div, Mul, Neg, Sub};

#[derive(Debug, Default, Clone, Copy, PartialEq, PartialOrd)]
struct Real(f64);

impl From<i8> for Real {
    fn from(v: i8) -> Real {
        Real(f64::from(v))
    }
}

impl Add for Real {
    type Output = Real;
    fn add(self, rhs: Real) -> Real {
        Real(self.0 + rhs.0)
    }
}

impl Sub for Real {
    type Output = Real;
    fn sub(self, rhs: Real) -> Real {
        Real(self.0 - rhs.0)
    }
}

impl Mul for Real {
    type Output = Real;
    fn mul(self, rhs: Real) -> Real {
        Real(self.0 * rhs.0)
    }
}

impl Div for Real {
    type Output = Real;
    fn div(self, rhs: Real) -> Real {
        Real(self.0 / rhs.0)
    }
}

impl Neg for Real {
    type Output = Real;
    fn neg(self) -> Real {
        Real(-self.0)
    }
}

impl Float for Real {
    fn is_nan(self) -> bool {
        self.0.is_nan()
    }
    fn fract(self) -> Self {
        Real(self.0.fract())
    }
    fn mul_add(self, a: Self, b: Self) -> Self {
        Real(self.0.mul_add(a.0, b.0))
    }
    fn sqrt(self) -> Self {
        Real(self.0.sqrt())
    }
    fn ceil(self) -> Self {
        Real(self.0.ceil())
    }
    fn floor(self) -> Self {
        Real(self.0.floor())
    }
    fn round(self) -> Self {
        Real(self.0.round())
    }
    fn trunc(self) -> Self {
        Real(self.0.trunc())
    }
}

fn real_point(x: f64, y: f64, z: f64) -> Point3<Real> {
    Point3::new(Real(x), Real(y), Real(z))
}

fn real_vector(x: f64, y: f64, z: f64) -> Vector3<Real> {
    Vector3::new(Real(x), Real(y), Real(z))
}

#[test]
fn camera_axes_for_a_camera_that_looks_along_z() {
    let m = Transform::camera_to_world(
        &real_point(1.0, 2.0, 3.0),
        &real_point(1.0, 2.0, 8.0),
        &real_vector(0.0, 2.0, 0.0),
    );
    let o = Real(0.0);
    let l = Real(1.0);
    assert_eq!(m, Matrix4x4::new(
        l, o, o, Real(1.0),
        o, l, o, Real(2.0),
        o, o, l, Real(3.0),
        o, o, o, l,
    ));
}

#[test]
fn camera_axes_for_a_camera_that_looks_along_x() {
    let m = Transform::camera_to_world(
        &real_point(0.0, 0.0, 0.0),
        &real_point(5.0, 0.0, 0.0),
        &real_vector(0.0, 1.0, 0.0),
    );
    let o = Real(0.0);
    let l = Real(1.0);
    // dir = x, right = up x dir = y x x = -z, new up = dir x right = x x -z = y
    assert_eq!(m, Matrix4x4::new(
        o, o, l, o,
        o, l, o, o,
        Real(-1.0), o, o, o,
        o, o, o, l,
    ));
}

#[test]
fn look_at_is_the_inverse_of_the_camera_matrix() {
    let pos = real_point(1.0, 2.0, 3.0);
    let camera_to_world =
        Transform::camera_to_world(&pos, &real_point(1.0, 2.0, 8.0), &real_vector(0.0, 1.0, 0.0));
    let o = Real(0.0);
    let l = Real(1.0);
    let world_to_camera = Matrix4x4::new(
        l, o, o, Real(-1.0),
        o, l, o, Real(-2.0),
        o, o, l, Real(-3.0),
        o, o, o, l,
    );
    let t = Transform::look_at(camera_to_world, Some(world_to_camera));
    assert_eq!(*t.forward(), world_to_camera);
    assert_eq!(*t.inverse().forward(), camera_to_world);
    assert_eq!(t.transform_point(pos), real_point(0.0, 0.0, 0.0));
    assert_eq!(t.transform_point(real_point(1.0, 2.0, 8.0)), real_point(0.0, 0.0, 5.0));
}

#[test]
fn translate_moves_a_point_and_its_inverse_moves_it_back() {
    let t = Transform::translate(Vector3::new(1.0f32, 2.0, 3.0));
    let moved = t.transform_point(Point3::new(0.0, 0.0, 0.0));
    assert_eq!(moved, Point3::new(1.0, 2.0, 3.0));
    let back = t.inverse().transform_point(Point3::new(1.0, 2.0, 3.0));
    assert_eq!(back, Point3::new(0.0, 0.0, 0.0));
}

#[test]
fn translate_through_the_generic_entry_point() {
    let t = Transform::translate(Vector3::new(1.0f32, 2.0, 3.0));
    let moved: Point3<f32> = t.transform(Point3::new(0.0, 0.0, 0.0));
    assert_eq!(moved, Point3::new(1.0, 2.0, 3.0));
    let back: Point3<f32> = t.inverse().transform(Point3::new(1.0, 2.0, 3.0));
    assert_eq!(back, Point3::new(0.0, 0.0, 0.0));
    let tuple: (f32, f32, f32) = t.transform((4.0, 5.0, 6.0));
    assert_eq!(tuple, (5.0, 7.0, 9.0));
}

#[test]
fn translate_matrices() {
    let t = Transform::translate(Vector3::new(1i32, 2, 3));
    assert_eq!(*t.forward(), Matrix4x4::new(
        1, 0, 0, 1,
        0, 1, 0, 2,
        0, 0, 1, 3,
        0, 0, 0, 1,
    ));
    assert_eq!(*t.inverse().forward(), Matrix4x4::new(
        1, 0, 0, -1,
        0, 1, 0, -2,
        0, 0, 1, -3,
        0, 0, 0, 1,
    ));
}

#[test]
fn translate_leaves_vectors_and_normals_alone() {
    let t = Transform::translate(Vector3::new(1i32, 2, 3));
    assert_eq!(t.transform_vector(Vector3::new(4, 5, 6)), Vector3::new(4, 5, 6));
    assert_eq!(t.transform_normal(Normal3::new(4, 5, 6)), Normal3::new(4, 5, 6));
    assert_eq!(t.transform_point(Point3::new(4, 5, 6)), Point3::new(5, 7, 9));
}

#[test]
fn rotate_z_by_a_quarter_turn() {
    let (sin, cos) = 90.0f32.to_radians().sin_cos();
    let t = Transform::rotate_z(sin, cos);
    let p = t.transform_point(Point3::new(1.0, 0.0, 0.0));
    assert!((p.x - 0.0).abs() < f32::EPSILON);
    assert!((p.y - 1.0).abs() < f32::EPSILON);
    assert!((p.z - 0.0).abs() < f32::EPSILON);
    let q = t.inverse().transform_point(p);
    assert!((q.x - 1.0).abs() < f32::EPSILON);
    assert!((q.y - 0.0).abs() < f32::EPSILON);
    assert!((q.z - 0.0).abs() < f32::EPSILON);
}

#[test]
fn exact_quarter_turns_about_each_axis() {
    let x = Transform::rotate_x(1i32, 0);
    assert_eq!(x.transform_vector(Vector3::new(0, 1, 0)), Vector3::new(0, 0, 1));
    assert_eq!(x.transform_vector(Vector3::new(0, 0, 1)), Vector3::new(0, -1, 0));
    let y = Transform::rotate_y(1i32, 0);
    assert_eq!(y.transform_vector(Vector3::new(0, 0, 1)), Vector3::new(1, 0, 0));
    assert_eq!(y.transform_vector(Vector3::new(1, 0, 0)), Vector3::new(0, 0, -1));
    let z = Transform::rotate_z(1i32, 0);
    assert_eq!(z.transform_vector(Vector3::new(1, 0, 0)), Vector3::new(0, 1, 0));
    assert_eq!(z.transform_vector(Vector3::new(0, 1, 0)), Vector3::new(-1, 0, 0));
    assert_eq!(*z.inverse().forward(), z.forward().transpose());
}

#[test]
fn scale_by_zero_has_an_infinite_inverse() {
    let t = Transform::scale(0.0f32, 1.0, 1.0);
    let inv = t.inverse();
    assert!(inv.forward()[(0, 0)].is_infinite());
    assert_eq!(inv.forward()[(1, 1)], 1.0);
    assert_eq!(inv.forward()[(2, 2)], 1.0);
    assert_eq!(inv.forward()[(3, 3)], 1.0);
}

#[test]
fn scale_matrices() {
    let t = Transform::scale(2.0f64, 4.0, 8.0);
    assert_eq!(*t.forward(), Matrix4x4::diag(2.0, 4.0, 8.0, 1.0));
    assert_eq!(*t.inverse().forward(), Matrix4x4::diag(0.5, 0.25, 0.125, 1.0));
    assert_eq!(t.transform_point(Point3::new(1.0, 1.0, 1.0)), Point3::new(2.0, 4.0, 8.0));
}

#[test]
fn normals_go_by_the_inverse_transpose() {
    let t = Transform::scale(2.0f64, 4.0, 8.0);
    assert_eq!(t.transform_vector(Vector3::new(1.0, 1.0, 1.0)), Vector3::new(2.0, 4.0, 8.0));
    assert_eq!(t.transform_normal(Normal3::new(1.0, 1.0, 1.0)), Normal3::new(0.5, 0.25, 0.125));
    let m = Matrix4x4::new(
        1.0f64, 2.0, 0.0, 0.0,
        0.0, 1.0, 0.0, 0.0,
        0.0, 0.0, 1.0, 0.0,
        0.0, 0.0, 0.0, 1.0,
    );
    let inv = Matrix4x4::new(
        1.0f64, -2.0, 0.0, 0.0,
        0.0, 1.0, 0.0, 0.0,
        0.0, 0.0, 1.0, 0.0,
        0.0, 0.0, 0.0, 1.0,
    );
    let shear = Transform::new(m, Some(inv));
    assert_eq!(shear.transform_vector(Vector3::new(0.0, 1.0, 0.0)), Vector3::new(2.0, 1.0, 0.0));
    assert_eq!(shear.transform_normal(Normal3::new(1.0, 0.0, 0.0)), Normal3::new(1.0, -2.0, 0.0));
}

#[test]
fn a_projective_map_divides_by_the_fourth_coordinate() {
    let m = Matrix4x4::new(
        1.0f32, 0.0, 0.0, 0.0,
        0.0, 1.0, 0.0, 0.0,
        0.0, 0.0, 1.0, 0.0,
        0.0, 0.0, 1.0, 0.0,
    );
    let t = Transform::with_inverse_unchecked(m, m);
    let p = t.transform_point(Point3::new(2.0, 4.0, 2.0));
    assert_eq!(p, Point3::new(1.0, 2.0, 1.0));
    let q = t.transform_point(Point3::new(2.0, 4.0, 1.0));
    assert_eq!(q, Point3::new(2.0, 4.0, 1.0));
}

#[test]
fn inverse_and_transpose_act_on_both_matrices() {
    let f = Matrix4x4::new(
        5.0f32, 6.0, 6.0, 8.0,
        2.0, 2.0, 2.0, 8.0,
        6.0, 6.0, 2.0, 8.0,
        2.0, 3.0, 6.0, 7.0,
    );
    let i = Matrix4x4::new(
        -17.0f32, -9.0, 12.0, 16.0,
        17.0, 8.75, -11.75, -16.0,
        -4.0, -2.25, 2.75, 4.0,
        1.0, 0.75, -0.75, -1.0,
    );
    let t = Transform::new(f, Some(i));
    assert_eq!(*t.forward(), f);
    assert_eq!(*t.inverse().forward(), i);
    assert_eq!(*t.inverse().inverse().forward(), f);
    assert_eq!(*t.transpose().forward(), f.transpose());
    assert_eq!(*t.transpose().inverse().forward(), i.transpose());
    let p = Point3::new(1.0f32, 2.0, 3.0);
    let there = t.transform_point(p);
    assert_eq!(there, Point3::new(43.0 / 33.0, 20.0 / 33.0, 32.0 / 33.0));
    let back = t.inverse().transform_point(there);
    assert!((back.x - p.x).abs() < 1e-4);
    assert!((back.y - p.y).abs() < 1e-4);
    assert!((back.z - p.z).abs() < 1e-4);
}

#[test]
fn is_identity_compares_the_forward_matrix() {
    let id = Matrix4x4::<f32>::identity();
    assert!(Transform::with_inverse_unchecked(id, id).is_identity());
    assert!(!Transform::translate(Vector3::new(1.0f32, 0.0, 0.0)).is_identity());
    assert!(Transform::translate(Vector3::new(0i32, 0, 0)).is_identity());
}

#[test]
fn a_normal_stays_perpendicular_to_its_surface() {
    let m = Matrix4x4::new(
        1i64, 2, 0, 5,
        0, 1, 3, 6,
        0, 0, 1, 7,
        0, 0, 0, 1,
    );
    let inv = Matrix4x4::new(
        1i64, -2, 6, -35,
        0, 1, -3, 15,
        0, 0, 1, -7,
        0, 0, 0, 1,
    );
    let t = Transform::new(m, Some(inv));
    let p = Point3::new(3i64, -4, 5);
    assert_eq!(t.inverse().transform_point(t.transform_point(p)), p);
    let n = Normal3::new(2i64, -1, 4);
    let along = Vector3::new(1i64, 2, 0);
    let across = Vector3::new(3i64, 5, -7);
    assert_eq!(n.dot(&along), 0);
    assert_eq!(t.transform_normal(n).dot(&t.transform_vector(along)), 0);
    assert_eq!(t.transform_normal(n).dot(&t.transform_vector(across)), n.dot(&across));
    // the vector rule would not do for the normal
    let wrong = t.transform_vector(Vector3::new(n.x, n.y, n.z));
    assert_ne!(wrong.dot(&t.transform_vector(along)), 0);
}

#[test]
fn integer_transforms_from_the_closed_forms() {
    let t = Transform::translate(Vector3::new(5i64, -6, 7));
    let p = Point3::new(1i64, 2, 3);
    assert_eq!(t.transform_point(p), p + Vector3::new(5, -6, 7));
    assert_eq!(t.inverse().transform_point(t.transform_point(p)), p);
    assert_eq!(t.inverse().inverse().transform_point(p), t.transform_point(p));
    let r = Transform::rotate_y(-1i64, 0);
    assert_eq!(r.inverse().transform_vector(r.transform_vector(Vector3::new(1, 2, 3))), Vector3::new(1, 2, 3));
    let s = Transform::scale(-1i32, 1, -1);
    assert_eq!(s.transform_point(Point3::new(1, 2, 3)), Point3::new(-1, 2, -3));
    assert_eq!(s.inverse().transform_point(Point3::new(-1, 2, -3)), Point3::new(1, 2, 3));
}
