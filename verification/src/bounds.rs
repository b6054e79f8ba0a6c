//! Axis-aligned bounding boxes: a least and a greatest corner.
use crate::geom::{Point2, Point3, Vector2, Vector3};
use crate::math::Lerp;
use crate::types::{Bounded, Field, Scalar};
use std::cmp::Ordering;
use vstd::laws_cmp::obeys_partial_cmp_spec_properties;
use vstd::laws_eq::obeys_concrete_eq;
use vstd::prelude::*;
use vstd::std_specs::cmp::{PartialEqSpec, PartialOrdIs, PartialOrdSpec};
use vstd::std_specs::ops::{MulSpec, SubSpec};

verus! {

/// The lesser of `a` and `b`: `b` where it comes before `a`, else `a`.
pub open spec fn lesser<T: PartialOrd>(a: T, b: T) -> T {
    if b.is_lt(&a) {
        b
    } else {
        a
    }
}

/// The greater of `a` and `b`: `a` where `b` comes before it, else `b`.
pub open spec fn greater<T: PartialOrd>(a: T, b: T) -> T {
    if b.is_lt(&a) {
        a
    } else {
        b
    }
}

/// Whether `a` can be compared with `b`. Two integers always can; a
/// floating-point NaN can be compared with nothing.
pub open spec fn comparable<T: PartialOrd>(a: T, b: T) -> bool {
    a.partial_cmp_spec(&b) is Some
}

/// The lesser of two values that can be compared does not come after the
/// greater.
pub proof fn lemma_lesser_at_most_greater<T: PartialOrd>(a: T, b: T)
    requires
        obeys_partial_cmp_spec_properties::<T>(),
        comparable(a, b),
    ensures
        lesser(a, b).is_le(&greater(a, b)),
{
    reveal(obeys_partial_cmp_spec_properties);
    reveal(vstd::laws_eq::obeys_eq_spec_properties);
}

/// The lesser and the greater of two values that can be compared do not
/// depend on the order in which the two are given, where values that
/// compare equal are the same.
pub proof fn lemma_lesser_greater_symmetric<T: PartialOrd>(a: T, b: T)
    requires
        obeys_partial_cmp_spec_properties::<T>(),
        obeys_concrete_eq::<T>(),
        comparable(a, b),
    ensures
        lesser(a, b) == lesser(b, a),
        greater(a, b) == greater(b, a),
{
    reveal(obeys_partial_cmp_spec_properties);
    reveal(vstd::laws_eq::obeys_concrete_eq);
    assert(b.is_lt(&a) <==> a.is_gt(&b));
    if !b.is_lt(&a) && !a.is_lt(&b) {
        assert(a.partial_cmp_spec(&b) == Some(Ordering::Equal));
        assert(a.eq_spec(&b));
    }
}

/// One of the three coordinate axes.
#[derive(Debug, Eq, PartialEq, Copy, Clone, Hash, Structural)]
pub enum Axis3 {
    X,
    Y,
    Z,
}

/// A box in the plane.
#[derive(Debug, Eq, PartialEq, Copy, Clone, Hash)]
pub struct Bounds2<T: Scalar> {
    pub min: Point2<T>,
    pub max: Point2<T>,
}

/// A box in space.
#[derive(Debug, Eq, PartialEq, Copy, Clone, Hash)]
pub struct Bounds3<T: Scalar> {
    pub min: Point3<T>,
    pub max: Point3<T>,
}

impl<T: Scalar + PartialOrd> Bounds2<T> {
    /// Whether on each axis the least corner does not come after the
    /// greatest.
    pub open spec fn is_ordered(self) -> bool {
        &&& self.min.x.is_le(&self.max.x)
        &&& self.min.y.is_le(&self.max.y)
    }

    /// The box spanned by two corners: on each axis, the lesser of the two
    /// coordinates of that axis and the greater of them.
    pub open spec fn spanned(p1: Point2<T>, p2: Point2<T>) -> Self {
        Bounds2 {
            min: Point2 { x: lesser(p1.x, p2.x), y: lesser(p1.y, p2.y) },
            max: Point2 { x: greater(p1.x, p2.x), y: greater(p1.y, p2.y) },
        }
    }

    /// Whether each coordinate of `p1` can be compared with that of `p2`.
    pub open spec fn comparable_corners(p1: Point2<T>, p2: Point2<T>) -> bool {
        &&& comparable(p1.x, p2.x)
        &&& comparable(p1.y, p2.y)
    }

    /// The smallest box that holds the two corners, whatever their order.
    pub fn new(p1: Point2<T>, p2: Point2<T>) -> (b: Self)
        ensures
            T::obeys_partial_cmp_spec() ==> b == Self::spanned(p1, p2),
            T::obeys_partial_cmp_spec() && obeys_partial_cmp_spec_properties::<T>()
                && Self::comparable_corners(p1, p2) ==> b.is_ordered(),
    {
        let (min_x, max_x) = if p2.x < p1.x { (p2.x, p1.x) } else { (p1.x, p2.x) };
        let (min_y, max_y) = if p2.y < p1.y { (p2.y, p1.y) } else { (p1.y, p2.y) };
        proof {
            if obeys_partial_cmp_spec_properties::<T>() && Self::comparable_corners(p1, p2) {
                Self::lemma_spanned_is_ordered(p1, p2);
            }
        }
        Bounds2 { min: Point2 { x: min_x, y: min_y }, max: Point2 { x: max_x, y: max_y } }
    }

    /// A box made from any two corners has its corners in order on every
    /// axis, whichever of the two is given first.
    pub proof fn lemma_spanned_is_ordered(p1: Point2<T>, p2: Point2<T>)
        requires
            obeys_partial_cmp_spec_properties::<T>(),
            Self::comparable_corners(p1, p2),
        ensures
            Self::spanned(p1, p2).is_ordered(),
    {
        lemma_lesser_at_most_greater(p1.x, p2.x);
        lemma_lesser_at_most_greater(p1.y, p2.y);
    }

    /// The box does not depend on the order in which its two corners are
    /// given.
    pub proof fn lemma_spanned_is_symmetric(p1: Point2<T>, p2: Point2<T>)
        requires
            obeys_partial_cmp_spec_properties::<T>(),
            obeys_concrete_eq::<T>(),
            Self::comparable_corners(p1, p2),
        ensures
            Self::spanned(p1, p2) == Self::spanned(p2, p1),
    {
        lemma_lesser_greater_symmetric(p1.x, p2.x);
        lemma_lesser_greater_symmetric(p1.y, p2.y);
    }
}

impl<T: Scalar + Field> Bounds2<T> {
    /// The vector from the least corner to the greatest.
    pub open spec fn diagonal_spec(self) -> Vector2<T> {
        self.max.sub_spec(self.min)
    }

    /// When the area can be computed.
    pub open spec fn area_req(self) -> bool {
        &&& T::obeys_sub_spec()
        &&& T::obeys_mul_spec()
        &&& self.max.sub_req(self.min)
        &&& self.diagonal_spec().x.mul_req(self.diagonal_spec().y)
    }

    /// The product of the two extents.
    pub open spec fn area_spec(self) -> T {
        self.diagonal_spec().x.mul_spec(self.diagonal_spec().y)
    }

    /// The area of the box.
    pub fn area(&self) -> (a: T)
        requires
            self.area_req(),
        ensures
            a == self.area_spec(),
    {
        let d = self.max - self.min;
        d.x * d.y
    }
}

/// The whole coordinate domain: from the least value of the scalar on every
/// axis to the greatest. It is not the empty box.
impl<T: Scalar + Bounded> Default for Bounds2<T> {
    fn default() -> (b: Self)
        ensures
            b.min == (Point2 { x: T::MIN, y: T::MIN }),
            b.max == (Point2 { x: T::MAX, y: T::MAX }),
    {
        Bounds2 { min: Point2 { x: T::MIN, y: T::MIN }, max: Point2 { x: T::MAX, y: T::MAX } }
    }
}

/// The box that holds the single point `p`.
impl<T: Scalar> From<Point2<T>> for Bounds2<T> {
    fn from(p: Point2<T>) -> (b: Self) {
        Bounds2 { min: p, max: p }
    }
}

impl<T: Scalar> vstd::std_specs::convert::FromSpecImpl<Point2<T>> for Bounds2<T> {
    open spec fn obeys_from_spec() -> bool {
        true
    }

    open spec fn from_spec(p: Point2<T>) -> Self {
        Bounds2 { min: p, max: p }
    }
}

/// The box with the given least and greatest corner, taken as they are.
impl<T: Scalar> From<(Point2<T>, Point2<T>)> for Bounds2<T> {
    fn from(corners: (Point2<T>, Point2<T>)) -> (b: Self) {
        Bounds2 { min: corners.0, max: corners.1 }
    }
}

impl<T: Scalar> vstd::std_specs::convert::FromSpecImpl<(Point2<T>, Point2<T>)> for Bounds2<T> {
    open spec fn obeys_from_spec() -> bool {
        true
    }

    open spec fn from_spec(corners: (Point2<T>, Point2<T>)) -> Self {
        Bounds2 { min: corners.0, max: corners.1 }
    }
}

/// The whole coordinate domain: from the least value of the scalar on every
/// axis to the greatest. It is not the empty box.
impl<T: Scalar + Bounded> Default for Bounds3<T> {
    fn default() -> (b: Self)
        ensures
            b.min == (Point3 { x: T::MIN, y: T::MIN, z: T::MIN }),
            b.max == (Point3 { x: T::MAX, y: T::MAX, z: T::MAX }),
    {
        Bounds3 {
            min: Point3 { x: T::MIN, y: T::MIN, z: T::MIN },
            max: Point3 { x: T::MAX, y: T::MAX, z: T::MAX },
        }
    }
}

impl<T: Scalar + PartialOrd> Bounds3<T> {
    /// Whether on each axis the least corner does not come after the
    /// greatest.
    pub open spec fn is_ordered(self) -> bool {
        &&& self.min.x.is_le(&self.max.x)
        &&& self.min.y.is_le(&self.max.y)
        &&& self.min.z.is_le(&self.max.z)
    }

    /// The box spanned by two corners: on each axis, the lesser of the two
    /// coordinates of that axis and the greater of them.
    pub open spec fn spanned(p1: Point3<T>, p2: Point3<T>) -> Self {
        Bounds3 {
            min: Point3 { x: lesser(p1.x, p2.x), y: lesser(p1.y, p2.y), z: lesser(p1.z, p2.z) },
            max: Point3 {
                x: greater(p1.x, p2.x),
                y: greater(p1.y, p2.y),
                z: greater(p1.z, p2.z),
            },
        }
    }

    /// Whether each coordinate of `p1` can be compared with that of `p2`.
    pub open spec fn comparable_corners(p1: Point3<T>, p2: Point3<T>) -> bool {
        &&& comparable(p1.x, p2.x)
        &&& comparable(p1.y, p2.y)
        &&& comparable(p1.z, p2.z)
    }

    /// The smallest box that holds the two corners, whatever their order.
    pub fn new(p1: Point3<T>, p2: Point3<T>) -> (b: Self)
        ensures
            T::obeys_partial_cmp_spec() ==> b == Self::spanned(p1, p2),
            T::obeys_partial_cmp_spec() && obeys_partial_cmp_spec_properties::<T>()
                && Self::comparable_corners(p1, p2) ==> b.is_ordered(),
    {
        let (min_x, max_x) = if p2.x < p1.x { (p2.x, p1.x) } else { (p1.x, p2.x) };
        let (min_y, max_y) = if p2.y < p1.y { (p2.y, p1.y) } else { (p1.y, p2.y) };
        let (min_z, max_z) = if p2.z < p1.z { (p2.z, p1.z) } else { (p1.z, p2.z) };
        proof {
            if obeys_partial_cmp_spec_properties::<T>() && Self::comparable_corners(p1, p2) {
                Self::lemma_spanned_is_ordered(p1, p2);
            }
        }
        Bounds3 {
            min: Point3 { x: min_x, y: min_y, z: min_z },
            max: Point3 { x: max_x, y: max_y, z: max_z },
        }
    }

    /// A box made from any two corners has its corners in order on every
    /// axis, whichever of the two is given first.
    pub proof fn lemma_spanned_is_ordered(p1: Point3<T>, p2: Point3<T>)
        requires
            obeys_partial_cmp_spec_properties::<T>(),
            Self::comparable_corners(p1, p2),
        ensures
            Self::spanned(p1, p2).is_ordered(),
    {
        lemma_lesser_at_most_greater(p1.x, p2.x);
        lemma_lesser_at_most_greater(p1.y, p2.y);
        lemma_lesser_at_most_greater(p1.z, p2.z);
    }

    /// The box does not depend on the order in which its two corners are
    /// given.
    pub proof fn lemma_spanned_is_symmetric(p1: Point3<T>, p2: Point3<T>)
        requires
            obeys_partial_cmp_spec_properties::<T>(),
            obeys_concrete_eq::<T>(),
            Self::comparable_corners(p1, p2),
        ensures
            Self::spanned(p1, p2) == Self::spanned(p2, p1),
    {
        lemma_lesser_greater_symmetric(p1.x, p2.x);
        lemma_lesser_greater_symmetric(p1.y, p2.y);
        lemma_lesser_greater_symmetric(p1.z, p2.z);
    }
}

impl<T: Scalar + Field> Bounds3<T> {
    /// The vector from the least corner to the greatest.
    pub open spec fn diagonal_spec(self) -> Vector3<T> {
        self.max.sub_spec(self.min)
    }

    /// The vector from the least corner to the greatest.
    pub fn diagonal(&self) -> (d: Vector3<T>)
        requires
            self.max.sub_req(self.min),
        ensures
            T::obeys_sub_spec() ==> d == self.diagonal_spec(),
    {
        self.max - self.min
    }

    /// When the volume can be computed.
    pub open spec fn volume_req(self) -> bool {
        let d = self.diagonal_spec();
        &&& T::obeys_sub_spec()
        &&& T::obeys_mul_spec()
        &&& self.max.sub_req(self.min)
        &&& d.x.mul_req(d.y)
        &&& d.x.mul_spec(d.y).mul_req(d.z)
    }

    /// The product of the three extents.
    pub open spec fn volume_spec(self) -> T {
        let d = self.diagonal_spec();
        d.x.mul_spec(d.y).mul_spec(d.z)
    }

    /// The volume of the box.
    pub fn volume(&self) -> (v: T)
        requires
            self.volume_req(),
        ensures
            v == self.volume_spec(),
    {
        let d = self.diagonal();
        d.x * d.y * d.z
    }

}

impl<T: Scalar + PartialOrd + Field> Bounds3<T> {
    /// The axis along which the diagonal `d` is longest. X wins only where
    /// it is strictly longer than both others; otherwise Y wins where it is
    /// strictly longer than Z; otherwise Z. A tie thus goes to the later
    /// axis.
    pub open spec fn widest_axis(d: Vector3<T>) -> Axis3 {
        if d.x.is_gt(&d.y) && d.x.is_gt(&d.z) {
            Axis3::X
        } else if d.y.is_gt(&d.z) {
            Axis3::Y
        } else {
            Axis3::Z
        }
    }

    /// The extent of the diagonal `d` along `axis`.
    pub open spec fn extent(d: Vector3<T>, axis: Axis3) -> T {
        match axis {
            Axis3::X => d.x,
            Axis3::Y => d.y,
            Axis3::Z => d.z,
        }
    }

    /// Along the widest axis the diagonal is at least as long as along the
    /// other two, where its three coordinates can be compared with each
    /// other.
    pub proof fn lemma_widest_axis_is_widest(d: Vector3<T>)
        requires
            obeys_partial_cmp_spec_properties::<T>(),
            obeys_concrete_eq::<T>(),
            comparable(d.x, d.y),
            comparable(d.x, d.z),
            comparable(d.y, d.z),
        ensures
            d.x.is_le(&Self::extent(d, Self::widest_axis(d))),
            d.y.is_le(&Self::extent(d, Self::widest_axis(d))),
            d.z.is_le(&Self::extent(d, Self::widest_axis(d))),
    {
        reveal(obeys_partial_cmp_spec_properties);
        reveal(vstd::laws_eq::obeys_concrete_eq);
    }

    /// The axis along which the box extends farthest.
    pub fn maximum_extent(&self) -> (axis: Axis3)
        requires
            self.max.sub_req(self.min),
        ensures
            T::obeys_sub_spec() && T::obeys_partial_cmp_spec() ==> axis == Self::widest_axis(
                self.diagonal_spec(),
            ),
    {
        let d = self.diagonal();
        if d.x > d.y && d.x > d.z {
            Axis3::X
        } else if d.y > d.z {
            Axis3::Y
        } else {
            Axis3::Z
        }
    }

}

impl<T: Scalar + Lerp> Bounds3<T> {
    /// The point of the box at the parameters `t`, one per axis: 0 gives the
    /// least corner's coordinate, 1 the greatest corner's.
    pub fn lerp(&self, t: &Point3<T>) -> (p: Point3<T>)
        requires
            T::lerp_req(t.x, self.min.x, self.max.x),
            T::lerp_req(t.y, self.min.y, self.max.y),
            T::lerp_req(t.z, self.min.z, self.max.z),
        ensures
            p.x == T::lerp_spec(t.x, self.min.x, self.max.x),
            p.y == T::lerp_spec(t.y, self.min.y, self.max.y),
            p.z == T::lerp_spec(t.z, self.min.z, self.max.z),
    {
        Point3 {
            x: Lerp::lerp(t.x, self.min.x, self.max.x),
            y: Lerp::lerp(t.y, self.min.y, self.max.y),
            z: Lerp::lerp(t.z, self.min.z, self.max.z),
        }
    }
}

/// The box that holds the single point `p`.
impl<T: Scalar> From<Point3<T>> for Bounds3<T> {
    fn from(p: Point3<T>) -> (b: Self) {
        Bounds3 { min: p, max: p }
    }
}

impl<T: Scalar> vstd::std_specs::convert::FromSpecImpl<Point3<T>> for Bounds3<T> {
    open spec fn obeys_from_spec() -> bool {
        true
    }

    open spec fn from_spec(p: Point3<T>) -> Self {
        Bounds3 { min: p, max: p }
    }
}

/// The box with the given least and greatest corner, taken as they are.
impl<T: Scalar> From<(Point3<T>, Point3<T>)> for Bounds3<T> {
    fn from(corners: (Point3<T>, Point3<T>)) -> (b: Self) {
        Bounds3 { min: corners.0, max: corners.1 }
    }
}

impl<T: Scalar> vstd::std_specs::convert::FromSpecImpl<(Point3<T>, Point3<T>)> for Bounds3<T> {
    open spec fn obeys_from_spec() -> bool {
        true
    }

    open spec fn from_spec(corners: (Point3<T>, Point3<T>)) -> Self {
        Bounds3 { min: corners.0, max: corners.1 }
    }
}

} // verus!
