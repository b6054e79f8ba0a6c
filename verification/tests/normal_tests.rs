use geom_kernel::geom::{Normal3, Vector3};
use std::ops::{AddAssign, DivAssign, MulAssign, SubAssign};

#[test]
fn normal_operators() {
    let n = Normal3::new(1i32, 2, 3);
    let m = Normal3::new(10i32, 20, 30);
    assert_eq!(n + m, Normal3::new(11, 22, 33));
    assert_eq!(n + &m, Normal3::new(11, 22, 33));
    assert_eq!(&n + m, Normal3::new(11, 22, 33));
    assert_eq!(&n + &m, Normal3::new(11, 22, 33));
    assert_eq!(m - n, Normal3::new(9, 18, 27));
    assert_eq!(&m - &n, Normal3::new(9, 18, 27));
    assert_eq!(n * 4, Normal3::new(4, 8, 12));
    assert_eq!(&n * 4, Normal3::new(4, 8, 12));
    assert_eq!(m / 5, Normal3::new(2, 4, 6));
    assert_eq!(&m / 5, Normal3::new(2, 4, 6));
    assert_eq!(-n, Normal3::new(-1, -2, -3));
    assert_eq!((n + m) - m, n);
}

#[test]
fn normal_compound_assignment() {
    let mut n = Normal3::new(1.0f32, 2.0, 3.0);
    n += Normal3::new(1.0, 1.0, 1.0);
    assert_eq!(n, Normal3::new(2.0, 3.0, 4.0));
    n -= &Normal3::new(1.0, 1.0, 1.0);
    assert_eq!(n, Normal3::new(1.0, 2.0, 3.0));
    n *= Normal3::new(2.0, 3.0, 4.0);
    assert_eq!(n, Normal3::new(2.0, 6.0, 12.0));
    n /= Normal3::new(2.0, 2.0, 2.0);
    assert_eq!(n, Normal3::new(1.0, 3.0, 6.0));
    let mut m = Normal3::new(1i32, 2, 3);
    m.add_assign(&Normal3::new(1, 1, 1));
    m.sub_assign(Normal3::new(2, 2, 2));
    m.mul_assign(Normal3::new(7, 8, 9));
    m.div_assign(Normal3::new(1, 2, 3));
    assert_eq!(m, Normal3::new(0, 4, 6));
}

#[test]
fn a_vector_becomes_a_normal() {
    let n: Normal3<i32> = Vector3::new(1, 2, 3).into();
    assert_eq!(n, Normal3::new(1, 2, 3));
}

#[test]
fn normal_try_new_refuses_nan() {
    assert_eq!(Normal3::try_new(0.0f32, 1.0, 0.0), Some(Normal3 { x: 0.0, y: 1.0, z: 0.0 }));
    assert_eq!(Normal3::try_new(0.0f32, f32::NAN, 0.0), None);
}

#[test]
fn normals_are_ordered_coordinate_by_coordinate() {
    assert!(Normal3::new(0i32, 5, 5) < Normal3::new(1, 0, 0));
    assert!(Normal3::new(1i32, 0, 1) > Normal3::new(1, 0, 0));
    assert!(Normal3::new(1i32, 0, 1) == Normal3::new(1, 0, 1));
}
