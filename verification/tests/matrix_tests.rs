use geom_kernel::math::Matrix4x4;

#[test]
fn test_transpose() {
    let m = Matrix4x4::new(
        1., 2., 3., 4.,
        5., 6., 7., 8.,
        9., 10., 11., 12.,
        13., 14., 15., 16.
    );
    let t = Matrix4x4::new(
        1., 5., 9., 13.,
        2., 6., 10., 14.,
        3., 7., 11., 15.,
        4., 8., 12., 16.
    );
    assert_eq!(m.transpose(), t);
}

#[test]
fn transpose_twice_is_the_matrix() {
    let m = Matrix4x4::new(
        1i32, 2, 3, 4,
        5, 6, 7, 8,
        9, 10, 11, 12,
        13, 14, 15, 16,
    );
    assert_eq!(m.transpose().transpose(), m);
    assert_ne!(m.transpose(), m);
}

#[test]
fn entries_are_stored_row_by_row() {
    let m = Matrix4x4::new(
        1i32, 2, 3, 4,
        5, 6, 7, 8,
        9, 10, 11, 12,
        13, 14, 15, 16,
    );
    assert_eq!(m.get(0, 0), 1);
    assert_eq!(m.get(0, 3), 4);
    assert_eq!(m.get(1, 0), 5);
    assert_eq!(m.get(3, 2), 15);
    assert_eq!(m[(2, 1)], 10);
    assert_eq!(m[(3, 3)], 16);
}

#[test]
fn set_and_get_mut_change_one_entry() {
    let mut m = Matrix4x4::<i64>::zero();
    m.set(1, 2, 7);
    *m.get_mut(3, 0) = 9;
    let expected = Matrix4x4::new(
        0i64, 0, 0, 0,
        0, 0, 7, 0,
        0, 0, 0, 0,
        9, 0, 0, 0,
    );
    assert_eq!(m, expected);
}

#[test]
fn swap_exchanges_two_entries() {
    let mut m = Matrix4x4::new(
        1i32, 2, 3, 4,
        5, 6, 7, 8,
        9, 10, 11, 12,
        13, 14, 15, 16,
    );
    m.swap(0, 1, 2, 3);
    assert_eq!(m.get(0, 1), 12);
    assert_eq!(m.get(2, 3), 2);
    assert_eq!(m.get(0, 0), 1);
}

#[test]
fn zero_identity_and_diag() {
    let z = Matrix4x4::<f32>::zero();
    assert_eq!(z, Matrix4x4::new(
        0., 0., 0., 0.,
        0., 0., 0., 0.,
        0., 0., 0., 0.,
        0., 0., 0., 0.,
    ));
    assert_eq!(Matrix4x4::<f32>::default(), z);
    let id = Matrix4x4::<f32>::identity();
    assert_eq!(id, Matrix4x4::new(
        1., 0., 0., 0.,
        0., 1., 0., 0.,
        0., 0., 1., 0.,
        0., 0., 0., 1.,
    ));
    let d = Matrix4x4::diag(2i32, 3, 4, 5);
    assert_eq!(d, Matrix4x4::new(
        2, 0, 0, 0,
        0, 3, 0, 0,
        0, 0, 4, 0,
        0, 0, 0, 5,
    ));
}

#[test]
fn nan_entries_make_a_matrix_unequal_to_itself() {
    let mut m = Matrix4x4::<f32>::identity();
    assert!(m == m);
    m.set(2, 2, f32::NAN);
    assert!(m != m);
}
