use geom_kernel::bounds::{Axis3, Bounds2, Bounds3};
use geom_kernel::geom::{Point2, Point3, Vector3};
use quickcheck::quickcheck;

#[test]
fn new_orders_the_corners_on_every_axis() {
    let b = Bounds3::new(Point3::new(5i32, 1, 9), Point3::new(2, 7, 3));
    assert_eq!(b.min, Point3::new(2, 1, 3));
    assert_eq!(b.max, Point3::new(5, 7, 9));
    let c = Bounds3::new(Point3::new(2i32, 7, 3), Point3::new(5, 1, 9));
    assert_eq!(c, b);
    let d = Bounds2::new(Point2::new(5i32, 1), Point2::new(2, 7));
    assert_eq!(d.min, Point2::new(2, 1));
    assert_eq!(d.max, Point2::new(5, 7));
    assert_eq!(Bounds2::new(Point2::new(2i32, 7), Point2::new(5, 1)), d);
}

#[test]
fn the_middle_axis_of_the_greatest_corner_comes_from_the_middle_axis() {
    let b = Bounds3::new(Point3::new(100i32, 1, 0), Point3::new(0, 2, 0));
    assert_eq!(b.max.y, 2);
    let c = Bounds2::new(Point2::new(100i32, 1), Point2::new(0, 2));
    assert_eq!(c.max.y, 2);
}

#[test]
fn the_least_corner_never_exceeds_the_greatest() {
    fn property(x0: i32, y0: i32, z0: i32, x1: i32, y1: i32, z1: i32) -> bool {
        let b = Bounds3::new(Point3::new(x0, y0, z0), Point3::new(x1, y1, z1));
        let swapped = Bounds3::new(Point3::new(x1, y1, z1), Point3::new(x0, y0, z0));
        b.min.x <= b.max.x && b.min.y <= b.max.y && b.min.z <= b.max.z && b == swapped
    }
    quickcheck(property as fn(i32, i32, i32, i32, i32, i32) -> bool);
    fn in_the_plane(x0: i32, y0: i32, x1: i32, y1: i32) -> bool {
        let b = Bounds2::new(Point2::new(x0, y0), Point2::new(x1, y1));
        b.min.x <= b.max.x && b.min.y <= b.max.y
    }
    quickcheck(in_the_plane as fn(i32, i32, i32, i32) -> bool);
}

#[test]
fn maximum_extent_breaks_ties_toward_the_later_axis() {
    let b = Bounds3::new(Point3::new(0i32, 0, 0), Point3::new(2, 3, 1));
    assert_eq!(b.diagonal(), Vector3::new(2, 3, 1));
    assert_eq!(b.maximum_extent(), Axis3::Y);
    let x = Bounds3::new(Point3::new(0i32, 0, 0), Point3::new(4, 3, 1));
    assert_eq!(x.maximum_extent(), Axis3::X);
    let z = Bounds3::new(Point3::new(0i32, 0, 0), Point3::new(1, 2, 3));
    assert_eq!(z.maximum_extent(), Axis3::Z);
    let xy = Bounds3::new(Point3::new(0i32, 0, 0), Point3::new(3, 3, 1));
    assert_eq!(xy.maximum_extent(), Axis3::Y);
    let xz = Bounds3::new(Point3::new(0i32, 0, 0), Point3::new(3, 1, 3));
    assert_eq!(xz.maximum_extent(), Axis3::Z);
    let yz = Bounds3::new(Point3::new(0i32, 0, 0), Point3::new(1, 3, 3));
    assert_eq!(yz.maximum_extent(), Axis3::Z);
    let cube = Bounds3::new(Point3::new(0i32, 0, 0), Point3::new(3, 3, 3));
    assert_eq!(cube.maximum_extent(), Axis3::Z);
}

#[test]
fn area_volume_and_diagonal() {
    let b = Bounds2::new(Point2::new(1i32, 1), Point2::new(4, 6));
    assert_eq!(b.area(), 15);
    let c = Bounds3::new(Point3::new(1i64, 1, 1), Point3::new(3, 4, 6));
    assert_eq!(c.diagonal(), Vector3::new(2, 3, 5));
    assert_eq!(c.volume(), 30);
    let point = Bounds3::from(Point3::new(7i32, 8, 9));
    assert_eq!(point.volume(), 0);
    assert_eq!(point.diagonal(), Vector3::new(0, 0, 0));
}

#[test]
fn lerp_goes_from_the_least_corner_to_the_greatest() {
    let b = Bounds3::new(Point3::new(10i32, 20, 30), Point3::new(14, 28, 42));
    assert_eq!(b.lerp(&Point3::new(0, 0, 0)), Point3::new(10, 20, 30));
    assert_eq!(b.lerp(&Point3::new(1, 1, 1)), Point3::new(14, 28, 42));
    assert_eq!(b.lerp(&Point3::new(1, 0, 1)), Point3::new(14, 20, 42));
    assert_eq!(b.lerp(&Point3::new(2, 0, 0)), Point3::new(18, 20, 30));
}

#[test]
fn the_default_box_is_the_whole_domain() {
    let b = Bounds3::<i32>::default();
    assert_eq!(b.min, Point3::new(i32::MIN, i32::MIN, i32::MIN));
    assert_eq!(b.max, Point3::new(i32::MAX, i32::MAX, i32::MAX));
    let c = Bounds2::<u8>::default();
    assert_eq!(c.min, Point2::new(0, 0));
    assert_eq!(c.max, Point2::new(255, 255));
}

#[test]
fn boxes_from_points_and_pairs() {
    let p = Point2::new(3i32, 4);
    assert_eq!(Bounds2::from(p), Bounds2 { min: p, max: p });
    let q = Point3::new(3i32, 4, 5);
    assert_eq!(Bounds3::from(q), Bounds3 { min: q, max: q });
    let lo = Point3::new(9i32, 9, 9);
    let hi = Point3::new(1i32, 1, 1);
    let taken_as_given = Bounds3::from((lo, hi));
    assert_eq!(taken_as_given.min, lo);
    assert_eq!(taken_as_given.max, hi);
    let pair = Bounds2::from((Point2::new(1i32, 2), Point2::new(3, 4)));
    assert_eq!(pair.min, Point2::new(1, 2));
    assert_eq!(pair.max, Point2::new(3, 4));
}

#[test]
fn boxes_of_floats() {
    let b = Bounds3::new(Point3::new(4.0f32, -1.0, 0.5), Point3::new(-2.0, 3.0, 0.25));
    assert_eq!(b.min, Point3::new(-2.0, -1.0, 0.25));
    assert_eq!(b.max, Point3::new(4.0, 3.0, 0.5));
    assert_eq!(b.diagonal(), Vector3::new(6.0, 4.0, 0.25));
    assert_eq!(b.volume(), 6.0);
    assert_eq!(b.maximum_extent(), Axis3::X);
    assert_eq!(b.lerp(&Point3::new(0.5, 0.25, 1.0)), Point3::new(1.0, 0.0, 0.5));
    let c = Bounds2::new(Point2::new(1.5f64, 2.0), Point2::new(0.5, 4.0));
    assert_eq!(c.area(), 2.0);
}
