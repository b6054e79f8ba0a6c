//! Affine points: positions. The difference of two points is a vector and a
//! point plus a vector is a point; points are not added to each other.
use super::{DotProduct, Vector2, Vector3};
use crate::types::{admissible, is_admissible, Float, Scalar};
use std::cmp::Ordering;
use std::ops::{Add, Sub};
use vstd::prelude::*;
use vstd::std_specs::cmp::{PartialEqSpec, PartialOrdSpec};
use vstd::std_specs::ops::{AddSpec, SubSpec};

verus! {

/// A position in the plane.
///
/// Equality and ordering compare the coordinates in turn, first to last: a
/// total order for use in containers, not a geometric one.
#[derive(Ord, Eq, Copy, Clone, Default, Hash, Debug)]
pub struct Point2<T: Scalar> {
    pub x: T,
    pub y: T,
}

/// A position in space.
///
/// Equality and ordering compare the coordinates in turn, first to last: a
/// total order for use in containers, not a geometric one.
#[derive(Ord, Eq, Copy, Clone, Default, Hash, Debug)]
pub struct Point3<T: Scalar> {
    pub x: T,
    pub y: T,
    pub z: T,
}

impl<T: Scalar> Point2<T> {
    /// The point with the given coordinates, each of which must be
    /// admissible: a floating-point NaN is no coordinate.
    pub fn new(x: T, y: T) -> (p: Self)
        requires
            admissible(x),
            admissible(y),
        ensures
            p.x == x,
            p.y == y,
    {
        Point2 { x, y }
    }

    /// As [`Point2::new`], but tests the coordinates itself and yields
    /// nothing when one of them is not admissible.
    pub fn try_new(x: T, y: T) -> (p: Option<Self>)
        ensures
            T::obeys_eq_spec() ==> (p is Some <==> admissible(x) && admissible(y)),
            p is Some ==> p == Some(Point2 { x, y }),
    {
        if is_admissible(&x) && is_admissible(&y) {
            Some(Point2 { x, y })
        } else {
            None
        }
    }
}

/// Equal when every coordinate is.
impl<T: Scalar> PartialEq for Point2<T> {
    fn eq(&self, other: &Self) -> (r: bool) {
        self.x == other.x && self.y == other.y
    }
}

impl<T: Scalar> vstd::std_specs::cmp::PartialEqSpecImpl for Point2<T> {
    open spec fn obeys_eq_spec() -> bool {
        T::obeys_eq_spec()
    }

    open spec fn eq_spec(&self, other: &Self) -> bool {
        self.x.eq_spec(&other.x) && self.y.eq_spec(&other.y)
    }
}

/// Ordered by the first coordinate in which the two differ.
impl<T: Scalar + PartialOrd> PartialOrd for Point2<T> {
    fn partial_cmp(&self, other: &Self) -> (r: Option<Ordering>) {
        match self.x.partial_cmp(&other.x) {
            Some(Ordering::Equal) => self.y.partial_cmp(&other.y),
            decided => decided,
        }
    }
}

impl<T: Scalar + PartialOrd> vstd::std_specs::cmp::PartialOrdSpecImpl for Point2<T> {
    open spec fn obeys_partial_cmp_spec() -> bool {
        T::obeys_partial_cmp_spec()
    }

    open spec fn partial_cmp_spec(&self, other: &Self) -> Option<Ordering> {
        match self.x.partial_cmp_spec(&other.x) {
            Some(Ordering::Equal) => self.y.partial_cmp_spec(&other.y),
            decided => decided,
        }
    }
}

impl<T: Scalar> Point3<T> {
    /// The point with the given coordinates, each of which must be
    /// admissible: a floating-point NaN is no coordinate.
    pub fn new(x: T, y: T, z: T) -> (p: Self)
        requires
            admissible(x),
            admissible(y),
            admissible(z),
        ensures
            p.x == x,
            p.y == y,
            p.z == z,
    {
        Point3 { x, y, z }
    }

    /// As [`Point3::new`], but tests the coordinates itself and yields
    /// nothing when one of them is not admissible.
    pub fn try_new(x: T, y: T, z: T) -> (p: Option<Self>)
        ensures
            T::obeys_eq_spec() ==> (p is Some <==> admissible(x) && admissible(y) && admissible(z)),
            p is Some ==> p == Some(Point3 { x, y, z }),
    {
        if is_admissible(&x) && is_admissible(&y) && is_admissible(&z) {
            Some(Point3 { x, y, z })
        } else {
            None
        }
    }
}

/// Equal when every coordinate is.
impl<T: Scalar> PartialEq for Point3<T> {
    fn eq(&self, other: &Self) -> (r: bool) {
        self.x == other.x && self.y == other.y && self.z == other.z
    }
}

impl<T: Scalar> vstd::std_specs::cmp::PartialEqSpecImpl for Point3<T> {
    open spec fn obeys_eq_spec() -> bool {
        T::obeys_eq_spec()
    }

    open spec fn eq_spec(&self, other: &Self) -> bool {
        self.x.eq_spec(&other.x) && self.y.eq_spec(&other.y) && self.z.eq_spec(&other.z)
    }
}

/// Ordered by the first coordinate in which the two differ.
impl<T: Scalar + PartialOrd> PartialOrd for Point3<T> {
    fn partial_cmp(&self, other: &Self) -> (r: Option<Ordering>) {
        match self.x.partial_cmp(&other.x) {
            Some(Ordering::Equal) => match self.y.partial_cmp(&other.y) {
                Some(Ordering::Equal) => self.z.partial_cmp(&other.z),
                decided => decided,
            },
            decided => decided,
        }
    }
}

impl<T: Scalar + PartialOrd> vstd::std_specs::cmp::PartialOrdSpecImpl for Point3<T> {
    open spec fn obeys_partial_cmp_spec() -> bool {
        T::obeys_partial_cmp_spec()
    }

    open spec fn partial_cmp_spec(&self, other: &Self) -> Option<Ordering> {
        match self.x.partial_cmp_spec(&other.x) {
            Some(Ordering::Equal) => match self.y.partial_cmp_spec(&other.y) {
                Some(Ordering::Equal) => self.z.partial_cmp_spec(&other.z),
                decided => decided,
            },
            decided => decided,
        }
    }
}

/// The point reached from `self` by the displacement `rhs`.
impl<T: Scalar + Add<Output = T>> Add<Vector2<T>> for Point2<T> {
    type Output = Point2<T>;

    fn add(self, rhs: Vector2<T>) -> (sum: Point2<T>)
        ensures
            T::obeys_add_spec() ==> sum == (Point2 {
                x: self.x.add_spec(rhs.x),
                y: self.y.add_spec(rhs.y),
            }),
    {
        Point2 { x: self.x + rhs.x, y: self.y + rhs.y }
    }
}

impl<T: Scalar + Add<Output = T>> vstd::std_specs::ops::AddSpecImpl<Vector2<T>> for Point2<T> {
    open spec fn obeys_add_spec() -> bool {
        T::obeys_add_spec()
    }

    open spec fn add_req(self, rhs: Vector2<T>) -> bool {
        &&& self.x.add_req(rhs.x)
        &&& self.y.add_req(rhs.y)
    }

    open spec fn add_spec(self, rhs: Vector2<T>) -> Point2<T> {
        Point2 { x: self.x.add_spec(rhs.x), y: self.y.add_spec(rhs.y) }
    }
}

/// The displacement that leads from `rhs` to `self`.
impl<T: Scalar + Sub<Output = T>> Sub<Point2<T>> for Point2<T> {
    type Output = Vector2<T>;

    fn sub(self, rhs: Point2<T>) -> (difference: Vector2<T>)
        ensures
            T::obeys_sub_spec() ==> difference == (Vector2 {
                x: self.x.sub_spec(rhs.x),
                y: self.y.sub_spec(rhs.y),
            }),
    {
        Vector2 { x: self.x - rhs.x, y: self.y - rhs.y }
    }
}

impl<T: Scalar + Sub<Output = T>> vstd::std_specs::ops::SubSpecImpl<Point2<T>> for Point2<T> {
    open spec fn obeys_sub_spec() -> bool {
        T::obeys_sub_spec()
    }

    open spec fn sub_req(self, rhs: Point2<T>) -> bool {
        &&& self.x.sub_req(rhs.x)
        &&& self.y.sub_req(rhs.y)
    }

    open spec fn sub_spec(self, rhs: Point2<T>) -> Vector2<T> {
        Vector2 { x: self.x.sub_spec(rhs.x), y: self.y.sub_spec(rhs.y) }
    }
}

impl<'a, T: Scalar + Sub<Output = T>> Sub<&'a Point2<T>> for &'a Point2<T> {
    type Output = Vector2<T>;

    fn sub(self, rhs: &'a Point2<T>) -> (difference: Vector2<T>)
        ensures
            T::obeys_sub_spec() ==> difference == (Vector2 {
                x: self.x.sub_spec(rhs.x),
                y: self.y.sub_spec(rhs.y),
            }),
    {
        Vector2 { x: self.x - rhs.x, y: self.y - rhs.y }
    }
}

impl<'a, T: Scalar + Sub<Output = T>> vstd::std_specs::ops::SubSpecImpl<&'a Point2<T>> for
    &'a Point2<T> {
    open spec fn obeys_sub_spec() -> bool {
        T::obeys_sub_spec()
    }

    open spec fn sub_req(self, rhs: &'a Point2<T>) -> bool {
        &&& self.x.sub_req(rhs.x)
        &&& self.y.sub_req(rhs.y)
    }

    open spec fn sub_spec(self, rhs: &'a Point2<T>) -> Vector2<T> {
        Vector2 { x: self.x.sub_spec(rhs.x), y: self.y.sub_spec(rhs.y) }
    }
}

impl<T: Scalar + Float> Point2<T> {
    /// The Euclidean distance between two points: the length of their
    /// difference.
    pub fn distance(p1: &Point2<T>, p2: &Point2<T>) -> (d: T)
        requires
            T::obeys_sub_spec(),
            (*p1).sub_req(*p2),
            (*p1).sub_spec(*p2).dot_req(&(*p1).sub_spec(*p2)),
        ensures
            (*p1).sub_spec(*p2).has_length(d),
    {
        (*p1 - *p2).length()
    }
}

/// The point reached from `self` by the displacement `rhs`.
impl<T: Scalar + Add<Output = T>> Add<Vector3<T>> for Point3<T> {
    type Output = Point3<T>;

    fn add(self, rhs: Vector3<T>) -> (sum: Point3<T>)
        ensures
            T::obeys_add_spec() ==> sum == (Point3 {
                x: self.x.add_spec(rhs.x),
                y: self.y.add_spec(rhs.y),
                z: self.z.add_spec(rhs.z),
            }),
    {
        Point3 { x: self.x + rhs.x, y: self.y + rhs.y, z: self.z + rhs.z }
    }
}

impl<T: Scalar + Add<Output = T>> vstd::std_specs::ops::AddSpecImpl<Vector3<T>> for Point3<T> {
    open spec fn obeys_add_spec() -> bool {
        T::obeys_add_spec()
    }

    open spec fn add_req(self, rhs: Vector3<T>) -> bool {
        &&& self.x.add_req(rhs.x)
        &&& self.y.add_req(rhs.y)
        &&& self.z.add_req(rhs.z)
    }

    open spec fn add_spec(self, rhs: Vector3<T>) -> Point3<T> {
        Point3 { x: self.x.add_spec(rhs.x), y: self.y.add_spec(rhs.y), z: self.z.add_spec(rhs.z) }
    }
}

/// The point from which the displacement `rhs` leads to `self`.
impl<T: Scalar + Sub<Output = T>> Sub<Vector3<T>> for Point3<T> {
    type Output = Point3<T>;

    fn sub(self, rhs: Vector3<T>) -> (difference: Point3<T>)
        ensures
            T::obeys_sub_spec() ==> difference == (Point3 {
                x: self.x.sub_spec(rhs.x),
                y: self.y.sub_spec(rhs.y),
                z: self.z.sub_spec(rhs.z),
            }),
    {
        Point3 { x: self.x - rhs.x, y: self.y - rhs.y, z: self.z - rhs.z }
    }
}

impl<T: Scalar + Sub<Output = T>> vstd::std_specs::ops::SubSpecImpl<Vector3<T>> for Point3<T> {
    open spec fn obeys_sub_spec() -> bool {
        T::obeys_sub_spec()
    }

    open spec fn sub_req(self, rhs: Vector3<T>) -> bool {
        &&& self.x.sub_req(rhs.x)
        &&& self.y.sub_req(rhs.y)
        &&& self.z.sub_req(rhs.z)
    }

    open spec fn sub_spec(self, rhs: Vector3<T>) -> Point3<T> {
        Point3 { x: self.x.sub_spec(rhs.x), y: self.y.sub_spec(rhs.y), z: self.z.sub_spec(rhs.z) }
    }
}

impl<'a, T: Scalar + Sub<Output = T>> Sub<&'a Point3<T>> for &'a Point3<T> {
    type Output = Vector3<T>;

    fn sub(self, rhs: &'a Point3<T>) -> (difference: Vector3<T>)
        ensures
            T::obeys_sub_spec() ==> difference == (Vector3 {
                x: self.x.sub_spec(rhs.x),
                y: self.y.sub_spec(rhs.y),
                z: self.z.sub_spec(rhs.z),
            }),
    {
        Vector3 { x: self.x - rhs.x, y: self.y - rhs.y, z: self.z - rhs.z }
    }
}

impl<'a, T: Scalar + Sub<Output = T>> vstd::std_specs::ops::SubSpecImpl<&'a Point3<T>> for
    &'a Point3<T> {
    open spec fn obeys_sub_spec() -> bool {
        T::obeys_sub_spec()
    }

    open spec fn sub_req(self, rhs: &'a Point3<T>) -> bool {
        &&& self.x.sub_req(rhs.x)
        &&& self.y.sub_req(rhs.y)
        &&& self.z.sub_req(rhs.z)
    }

    open spec fn sub_spec(self, rhs: &'a Point3<T>) -> Vector3<T> {
        Vector3 { x: self.x.sub_spec(rhs.x), y: self.y.sub_spec(rhs.y), z: self.z.sub_spec(rhs.z) }
    }
}

/// The displacement that leads from `rhs` to `self`.
impl<T: Scalar + Sub<Output = T>> Sub<Point3<T>> for Point3<T> {
    type Output = Vector3<T>;

    fn sub(self, rhs: Point3<T>) -> (difference: Vector3<T>)
        ensures
            T::obeys_sub_spec() ==> difference == (Vector3 {
                x: self.x.sub_spec(rhs.x),
                y: self.y.sub_spec(rhs.y),
                z: self.z.sub_spec(rhs.z),
            }),
    {
        Vector3 { x: self.x - rhs.x, y: self.y - rhs.y, z: self.z - rhs.z }
    }
}

impl<T: Scalar + Sub<Output = T>> vstd::std_specs::ops::SubSpecImpl<Point3<T>> for Point3<T> {
    open spec fn obeys_sub_spec() -> bool {
        T::obeys_sub_spec()
    }

    open spec fn sub_req(self, rhs: Point3<T>) -> bool {
        &&& self.x.sub_req(rhs.x)
        &&& self.y.sub_req(rhs.y)
        &&& self.z.sub_req(rhs.z)
    }

    open spec fn sub_spec(self, rhs: Point3<T>) -> Vector3<T> {
        Vector3 { x: self.x.sub_spec(rhs.x), y: self.y.sub_spec(rhs.y), z: self.z.sub_spec(rhs.z) }
    }
}

impl<T: Scalar + Float> Point3<T> {
    /// The Euclidean distance between two points: the length of their
    /// difference.
    pub fn distance(p1: &Point3<T>, p2: &Point3<T>) -> (d: T)
        requires
            T::obeys_sub_spec(),
            (*p1).sub_req(*p2),
            (*p1).sub_spec(*p2).dot_req(&(*p1).sub_spec(*p2)),
        ensures
            (*p1).sub_spec(*p2).has_length(d),
    {
        (*p1 - *p2).length()
    }
}

/// Drops the third coordinate.
impl<T: Scalar> From<Point3<T>> for Point2<T> {
    fn from(p: Point3<T>) -> (q: Self) {
        Point2 { x: p.x, y: p.y }
    }
}

impl<T: Scalar> vstd::std_specs::convert::FromSpecImpl<Point3<T>> for Point2<T> {
    open spec fn obeys_from_spec() -> bool {
        true
    }

    open spec fn from_spec(p: Point3<T>) -> Self {
        Point2 { x: p.x, y: p.y }
    }
}

impl<T: Scalar> From<(T, T)> for Point2<T> {
    fn from(src: (T, T)) -> (p: Self) {
        Point2 { x: src.0, y: src.1 }
    }
}

impl<T: Scalar> vstd::std_specs::convert::FromSpecImpl<(T, T)> for Point2<T> {
    open spec fn obeys_from_spec() -> bool {
        true
    }

    open spec fn from_spec(src: (T, T)) -> Self {
        Point2 { x: src.0, y: src.1 }
    }
}

impl<T: Scalar> From<(T, T, T)> for Point3<T> {
    fn from(src: (T, T, T)) -> (p: Self) {
        Point3 { x: src.0, y: src.1, z: src.2 }
    }
}

impl<T: Scalar> vstd::std_specs::convert::FromSpecImpl<(T, T, T)> for Point3<T> {
    open spec fn obeys_from_spec() -> bool {
        true
    }

    open spec fn from_spec(src: (T, T, T)) -> Self {
        Point3 { x: src.0, y: src.1, z: src.2 }
    }
}

impl<T: Scalar> From<Point2<T>> for (T, T) {
    fn from(p: Point2<T>) -> (t: Self) {
        (p.x, p.y)
    }
}

impl<T: Scalar> vstd::std_specs::convert::FromSpecImpl<Point2<T>> for (T, T) {
    open spec fn obeys_from_spec() -> bool {
        true
    }

    open spec fn from_spec(p: Point2<T>) -> Self {
        (p.x, p.y)
    }
}

/// The three coordinates in order, each from its own field.
impl<T: Scalar> From<Point3<T>> for (T, T, T) {
    fn from(p: Point3<T>) -> (t: Self) {
        (p.x, p.y, p.z)
    }
}

impl<T: Scalar> vstd::std_specs::convert::FromSpecImpl<Point3<T>> for (T, T, T) {
    open spec fn obeys_from_spec() -> bool {
        true
    }

    open spec fn from_spec(p: Point3<T>) -> Self {
        (p.x, p.y, p.z)
    }
}

} // verus!
