//! A geometric algebra kernel: vectors, points and normals as distinct types,
//! axis-aligned bounds, 4x4 matrices and affine transforms that carry their
//! inverse.
use vstd::prelude::*;

pub mod bounds;
pub mod geom;
pub mod math;
pub mod transform;
pub mod types;

pub use geom::{Point2, Point3, Vector2, Vector3};
pub use transform::Transform;
pub use types::{Bounded, Scalar};

use crate::bounds::Bounds3;
use crate::geom::Normal3;
use crate::types::admissible;

verus! {

pub type Vector2i = Vector2<i32>;

pub type Vector3i = Vector3<i32>;

pub type Point2i = Point2<i32>;

pub type Point3i = Point3<i32>;

pub type Bounds3i = Bounds3<i32>;

pub type Normal3i = Normal3<i32>;

/// The vector `(x, y, z)`.
pub fn vec3<T: Scalar>(x: T, y: T, z: T) -> (v: Vector3<T>)
    requires
        admissible(x),
        admissible(y),
        admissible(z),
    ensures
        v == (Vector3 { x, y, z }),
{
    Vector3::new(x, y, z)
}

/// The point `(x, y)`.
pub fn point2<T: Scalar>(x: T, y: T) -> (p: Point2<T>)
    requires
        admissible(x),
        admissible(y),
    ensures
        p == (Point2 { x, y }),
{
    Point2::new(x, y)
}

} // verus!
