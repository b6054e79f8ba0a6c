//! Free vectors: displacements with magnitude and direction but no origin.
//! They are closed under addition, scaling by a scalar and negation.
use super::DotProduct;
use crate::math::Abs;
use crate::types::{admissible, is_admissible, Float};
use std::cmp::Ordering;
use std::ops::{Add, AddAssign, Div, DivAssign, Mul, MulAssign, Neg, Sub, SubAssign};
use vstd::prelude::*;
use vstd::std_specs::cmp::{PartialEqSpec, PartialOrdSpec};
use vstd::std_specs::convert::FromSpec;
use vstd::std_specs::ops::{AddSpec, DivSpec, MulSpec, NegSpec, SubSpec};

verus! {

/// A free vector in the plane.
///
/// Equality and ordering compare the coordinates in turn, first to last: a
/// total order for use in containers, not a geometric one.
#[derive(Eq, Ord, Default, Copy, Clone, Hash, Debug)]
pub struct Vector2<T> {
    pub x: T,
    pub y: T,
}

impl<T: PartialEq> Vector2<T> {
    /// The vector with the given coordinates, each of which must be
    /// admissible: a floating-point NaN is no coordinate.
    pub fn new(x: T, y: T) -> (v: Self)
        requires
            admissible(x),
            admissible(y),
        ensures
            v.x == x,
            v.y == y,
    {
        Vector2 { x, y }
    }

    /// As [`Vector2::new`], but tests the coordinates itself and yields
    /// nothing when one of them is not admissible.
    pub fn try_new(x: T, y: T) -> (v: Option<Self>)
        ensures
            T::obeys_eq_spec() ==> (v is Some <==> admissible(x) && admissible(y)),
            v is Some ==> v == Some(Vector2 { x, y }),
    {
        if is_admissible(&x) && is_admissible(&y) {
            Some(Vector2 { x, y })
        } else {
            None
        }
    }
}

/// Equal when every coordinate is.
impl<T: PartialEq> PartialEq for Vector2<T> {
    fn eq(&self, other: &Self) -> (r: bool) {
        self.x == other.x && self.y == other.y
    }
}

impl<T: PartialEq> vstd::std_specs::cmp::PartialEqSpecImpl for Vector2<T> {
    open spec fn obeys_eq_spec() -> bool {
        T::obeys_eq_spec()
    }

    open spec fn eq_spec(&self, other: &Self) -> bool {
        self.x.eq_spec(&other.x) && self.y.eq_spec(&other.y)
    }
}

/// Ordered by the first coordinate in which the two differ.
impl<T: PartialOrd> PartialOrd for Vector2<T> {
    fn partial_cmp(&self, other: &Self) -> (r: Option<Ordering>) {
        match self.x.partial_cmp(&other.x) {
            Some(Ordering::Equal) => self.y.partial_cmp(&other.y),
            decided => decided,
        }
    }
}

impl<T: PartialOrd> vstd::std_specs::cmp::PartialOrdSpecImpl for Vector2<T> {
    open spec fn obeys_partial_cmp_spec() -> bool {
        T::obeys_partial_cmp_spec()
    }

    open spec fn partial_cmp_spec(&self, other: &Self) -> Option<Ordering> {
        match self.x.partial_cmp_spec(&other.x) {
            Some(Ordering::Equal) => self.y.partial_cmp_spec(&other.y),
            decided => decided,
        }
    }
}

/// The componentwise sum of two vectors.
impl<T: Add<Output = T>> Add<Vector2<T>> for Vector2<T> {
    type Output = Vector2<T>;

    fn add(self, rhs: Vector2<T>) -> (sum: Vector2<T>)
        ensures
            T::obeys_add_spec() ==> sum == (Vector2 {
                x: self.x.add_spec(rhs.x),
                y: self.y.add_spec(rhs.y),
            }),
    {
        Vector2 { x: self.x + rhs.x, y: self.y + rhs.y }
    }
}

impl<T: Add<Output = T>> vstd::std_specs::ops::AddSpecImpl<Vector2<T>> for Vector2<T> {
    open spec fn obeys_add_spec() -> bool {
        T::obeys_add_spec()
    }

    open spec fn add_req(self, rhs: Vector2<T>) -> bool {
        &&& self.x.add_req(rhs.x)
        &&& self.y.add_req(rhs.y)
    }

    open spec fn add_spec(self, rhs: Vector2<T>) -> Vector2<T> {
        Vector2 { x: self.x.add_spec(rhs.x), y: self.y.add_spec(rhs.y) }
    }
}

impl<'a, T: Copy + Add<Output = T>> Add<&'a Vector2<T>> for Vector2<T> {
    type Output = Vector2<T>;

    fn add(self, rhs: &'a Vector2<T>) -> (sum: Vector2<T>)
        ensures
            T::obeys_add_spec() ==> sum == (Vector2 {
                x: self.x.add_spec(rhs.x),
                y: self.y.add_spec(rhs.y),
            }),
    {
        Vector2 { x: self.x + rhs.x, y: self.y + rhs.y }
    }
}

impl<'a, T: Copy + Add<Output = T>> vstd::std_specs::ops::AddSpecImpl<&'a Vector2<T>> for
    Vector2<T> {
    open spec fn obeys_add_spec() -> bool {
        T::obeys_add_spec()
    }

    open spec fn add_req(self, rhs: &'a Vector2<T>) -> bool {
        &&& self.x.add_req(rhs.x)
        &&& self.y.add_req(rhs.y)
    }

    open spec fn add_spec(self, rhs: &'a Vector2<T>) -> Vector2<T> {
        Vector2 { x: self.x.add_spec(rhs.x), y: self.y.add_spec(rhs.y) }
    }
}

impl<'a, T: Copy + Add<Output = T>> Add<Vector2<T>> for &'a Vector2<T> {
    type Output = Vector2<T>;

    fn add(self, rhs: Vector2<T>) -> (sum: Vector2<T>)
        ensures
            T::obeys_add_spec() ==> sum == (Vector2 {
                x: self.x.add_spec(rhs.x),
                y: self.y.add_spec(rhs.y),
            }),
    {
        Vector2 { x: self.x + rhs.x, y: self.y + rhs.y }
    }
}

impl<'a, T: Copy + Add<Output = T>> vstd::std_specs::ops::AddSpecImpl<Vector2<T>> for
    &'a Vector2<T> {
    open spec fn obeys_add_spec() -> bool {
        T::obeys_add_spec()
    }

    open spec fn add_req(self, rhs: Vector2<T>) -> bool {
        &&& self.x.add_req(rhs.x)
        &&& self.y.add_req(rhs.y)
    }

    open spec fn add_spec(self, rhs: Vector2<T>) -> Vector2<T> {
        Vector2 { x: self.x.add_spec(rhs.x), y: self.y.add_spec(rhs.y) }
    }
}

impl<'a, T: Copy + Add<Output = T>> Add<&'a Vector2<T>> for &'a Vector2<T> {
    type Output = Vector2<T>;

    fn add(self, rhs: &'a Vector2<T>) -> (sum: Vector2<T>)
        ensures
            T::obeys_add_spec() ==> sum == (Vector2 {
                x: self.x.add_spec(rhs.x),
                y: self.y.add_spec(rhs.y),
            }),
    {
        Vector2 { x: self.x + rhs.x, y: self.y + rhs.y }
    }
}

impl<'a, T: Copy + Add<Output = T>> vstd::std_specs::ops::AddSpecImpl<&'a Vector2<T>> for
    &'a Vector2<T> {
    open spec fn obeys_add_spec() -> bool {
        T::obeys_add_spec()
    }

    open spec fn add_req(self, rhs: &'a Vector2<T>) -> bool {
        &&& self.x.add_req(rhs.x)
        &&& self.y.add_req(rhs.y)
    }

    open spec fn add_spec(self, rhs: &'a Vector2<T>) -> Vector2<T> {
        Vector2 { x: self.x.add_spec(rhs.x), y: self.y.add_spec(rhs.y) }
    }
}

impl<T: Copy + Add<Output = T>> AddAssign for Vector2<T> {
    fn add_assign(&mut self, rhs: Vector2<T>)
        requires
            old(self).x.add_req(rhs.x),
            old(self).y.add_req(rhs.y),
        ensures
            T::obeys_add_spec() ==> {
                &&& final(self).x == old(self).x.add_spec(rhs.x)
                &&& final(self).y == old(self).y.add_spec(rhs.y)
            },
    {
        self.x = self.x + rhs.x;
        self.y = self.y + rhs.y;
    }
}

impl<'a, T: Copy + Add<Output = T>> AddAssign<&'a Vector2<T>> for Vector2<T> {
    fn add_assign(&mut self, rhs: &'a Vector2<T>)
        requires
            old(self).x.add_req(rhs.x),
            old(self).y.add_req(rhs.y),
        ensures
            T::obeys_add_spec() ==> {
                &&& final(self).x == old(self).x.add_spec(rhs.x)
                &&& final(self).y == old(self).y.add_spec(rhs.y)
            },
    {
        self.x = self.x + rhs.x;
        self.y = self.y + rhs.y;
    }
}

/// The componentwise difference of two vectors.
impl<T: Sub<Output = T>> Sub<Vector2<T>> for Vector2<T> {
    type Output = Vector2<T>;

    fn sub(self, rhs: Vector2<T>) -> (difference: Vector2<T>)
        ensures
            T::obeys_sub_spec() ==> difference == (Vector2 {
                x: self.x.sub_spec(rhs.x),
                y: self.y.sub_spec(rhs.y),
            }),
    {
        Vector2 { x: self.x - rhs.x, y: self.y - rhs.y }
    }
}

impl<T: Sub<Output = T>> vstd::std_specs::ops::SubSpecImpl<Vector2<T>> for Vector2<T> {
    open spec fn obeys_sub_spec() -> bool {
        T::obeys_sub_spec()
    }

    open spec fn sub_req(self, rhs: Vector2<T>) -> bool {
        &&& self.x.sub_req(rhs.x)
        &&& self.y.sub_req(rhs.y)
    }

    open spec fn sub_spec(self, rhs: Vector2<T>) -> Vector2<T> {
        Vector2 { x: self.x.sub_spec(rhs.x), y: self.y.sub_spec(rhs.y) }
    }
}

impl<'a, T: Copy + Sub<Output = T>> Sub<&'a Vector2<T>> for Vector2<T> {
    type Output = Vector2<T>;

    fn sub(self, rhs: &'a Vector2<T>) -> (difference: Vector2<T>)
        ensures
            T::obeys_sub_spec() ==> difference == (Vector2 {
                x: self.x.sub_spec(rhs.x),
                y: self.y.sub_spec(rhs.y),
            }),
    {
        Vector2 { x: self.x - rhs.x, y: self.y - rhs.y }
    }
}

impl<'a, T: Copy + Sub<Output = T>> vstd::std_specs::ops::SubSpecImpl<&'a Vector2<T>> for
    Vector2<T> {
    open spec fn obeys_sub_spec() -> bool {
        T::obeys_sub_spec()
    }

    open spec fn sub_req(self, rhs: &'a Vector2<T>) -> bool {
        &&& self.x.sub_req(rhs.x)
        &&& self.y.sub_req(rhs.y)
    }

    open spec fn sub_spec(self, rhs: &'a Vector2<T>) -> Vector2<T> {
        Vector2 { x: self.x.sub_spec(rhs.x), y: self.y.sub_spec(rhs.y) }
    }
}

impl<'a, T: Copy + Sub<Output = T>> Sub<Vector2<T>> for &'a Vector2<T> {
    type Output = Vector2<T>;

    fn sub(self, rhs: Vector2<T>) -> (difference: Vector2<T>)
        ensures
            T::obeys_sub_spec() ==> difference == (Vector2 {
                x: self.x.sub_spec(rhs.x),
                y: self.y.sub_spec(rhs.y),
            }),
    {
        Vector2 { x: self.x - rhs.x, y: self.y - rhs.y }
    }
}

impl<'a, T: Copy + Sub<Output = T>> vstd::std_specs::ops::SubSpecImpl<Vector2<T>> for
    &'a Vector2<T> {
    open spec fn obeys_sub_spec() -> bool {
        T::obeys_sub_spec()
    }

    open spec fn sub_req(self, rhs: Vector2<T>) -> bool {
        &&& self.x.sub_req(rhs.x)
        &&& self.y.sub_req(rhs.y)
    }

    open spec fn sub_spec(self, rhs: Vector2<T>) -> Vector2<T> {
        Vector2 { x: self.x.sub_spec(rhs.x), y: self.y.sub_spec(rhs.y) }
    }
}

impl<'a, T: Copy + Sub<Output = T>> Sub<&'a Vector2<T>> for &'a Vector2<T> {
    type Output = Vector2<T>;

    fn sub(self, rhs: &'a Vector2<T>) -> (difference: Vector2<T>)
        ensures
            T::obeys_sub_spec() ==> difference == (Vector2 {
                x: self.x.sub_spec(rhs.x),
                y: self.y.sub_spec(rhs.y),
            }),
    {
        Vector2 { x: self.x - rhs.x, y: self.y - rhs.y }
    }
}

impl<'a, T: Copy + Sub<Output = T>> vstd::std_specs::ops::SubSpecImpl<&'a Vector2<T>> for
    &'a Vector2<T> {
    open spec fn obeys_sub_spec() -> bool {
        T::obeys_sub_spec()
    }

    open spec fn sub_req(self, rhs: &'a Vector2<T>) -> bool {
        &&& self.x.sub_req(rhs.x)
        &&& self.y.sub_req(rhs.y)
    }

    open spec fn sub_spec(self, rhs: &'a Vector2<T>) -> Vector2<T> {
        Vector2 { x: self.x.sub_spec(rhs.x), y: self.y.sub_spec(rhs.y) }
    }
}

impl<T: Copy + Sub<Output = T>> SubAssign for Vector2<T> {
    fn sub_assign(&mut self, rhs: Vector2<T>)
        requires
            old(self).x.sub_req(rhs.x),
            old(self).y.sub_req(rhs.y),
        ensures
            T::obeys_sub_spec() ==> {
                &&& final(self).x == old(self).x.sub_spec(rhs.x)
                &&& final(self).y == old(self).y.sub_spec(rhs.y)
            },
    {
        self.x = self.x - rhs.x;
        self.y = self.y - rhs.y;
    }
}

impl<'a, T: Copy + Sub<Output = T>> SubAssign<&'a Vector2<T>> for Vector2<T> {
    fn sub_assign(&mut self, rhs: &'a Vector2<T>)
        requires
            old(self).x.sub_req(rhs.x),
            old(self).y.sub_req(rhs.y),
        ensures
            T::obeys_sub_spec() ==> {
                &&& final(self).x == old(self).x.sub_spec(rhs.x)
                &&& final(self).y == old(self).y.sub_spec(rhs.y)
            },
    {
        self.x = self.x - rhs.x;
        self.y = self.y - rhs.y;
    }
}

/// Each coordinate multiplied by the scalar `rhs`.
impl<T: Copy + Mul<Output = T>> Mul<T> for Vector2<T> {
    type Output = Vector2<T>;

    fn mul(self, rhs: T) -> (product: Vector2<T>)
        ensures
            T::obeys_mul_spec() ==> product == (Vector2 {
                x: self.x.mul_spec(rhs),
                y: self.y.mul_spec(rhs),
            }),
    {
        Vector2 { x: self.x * rhs, y: self.y * rhs }
    }
}

impl<T: Copy + Mul<Output = T>> vstd::std_specs::ops::MulSpecImpl<T> for Vector2<T> {
    open spec fn obeys_mul_spec() -> bool {
        T::obeys_mul_spec()
    }

    open spec fn mul_req(self, rhs: T) -> bool {
        &&& self.x.mul_req(rhs)
        &&& self.y.mul_req(rhs)
    }

    open spec fn mul_spec(self, rhs: T) -> Vector2<T> {
        Vector2 { x: self.x.mul_spec(rhs), y: self.y.mul_spec(rhs) }
    }
}

impl<'a, T: Copy + Mul<Output = T>> Mul<T> for &'a Vector2<T> {
    type Output = Vector2<T>;

    fn mul(self, rhs: T) -> (product: Vector2<T>)
        ensures
            T::obeys_mul_spec() ==> product == (Vector2 {
                x: self.x.mul_spec(rhs),
                y: self.y.mul_spec(rhs),
            }),
    {
        Vector2 { x: self.x * rhs, y: self.y * rhs }
    }
}

impl<'a, T: Copy + Mul<Output = T>> vstd::std_specs::ops::MulSpecImpl<T> for &'a Vector2<T> {
    open spec fn obeys_mul_spec() -> bool {
        T::obeys_mul_spec()
    }

    open spec fn mul_req(self, rhs: T) -> bool {
        &&& self.x.mul_req(rhs)
        &&& self.y.mul_req(rhs)
    }

    open spec fn mul_spec(self, rhs: T) -> Vector2<T> {
        Vector2 { x: self.x.mul_spec(rhs), y: self.y.mul_spec(rhs) }
    }
}

impl<T: Copy + Mul<Output = T>> MulAssign<T> for Vector2<T> {
    fn mul_assign(&mut self, rhs: T)
        requires
            old(self).x.mul_req(rhs),
            old(self).y.mul_req(rhs),
        ensures
            T::obeys_mul_spec() ==> {
                &&& final(self).x == old(self).x.mul_spec(rhs)
                &&& final(self).y == old(self).y.mul_spec(rhs)
            },
    {
        self.x = self.x * rhs;
        self.y = self.y * rhs;
    }
}

/// Each coordinate divided by the scalar `rhs`.
impl<T: Copy + Div<Output = T>> Div<T> for Vector2<T> {
    type Output = Vector2<T>;

    fn div(self, rhs: T) -> (quotient: Vector2<T>)
        ensures
            T::obeys_div_spec() ==> quotient == (Vector2 {
                x: self.x.div_spec(rhs),
                y: self.y.div_spec(rhs),
            }),
    {
        Vector2 { x: self.x / rhs, y: self.y / rhs }
    }
}

impl<T: Copy + Div<Output = T>> vstd::std_specs::ops::DivSpecImpl<T> for Vector2<T> {
    open spec fn obeys_div_spec() -> bool {
        T::obeys_div_spec()
    }

    open spec fn div_req(self, rhs: T) -> bool {
        &&& self.x.div_req(rhs)
        &&& self.y.div_req(rhs)
    }

    open spec fn div_spec(self, rhs: T) -> Vector2<T> {
        Vector2 { x: self.x.div_spec(rhs), y: self.y.div_spec(rhs) }
    }
}

impl<'a, T: Copy + Div<Output = T>> Div<T> for &'a Vector2<T> {
    type Output = Vector2<T>;

    fn div(self, rhs: T) -> (quotient: Vector2<T>)
        ensures
            T::obeys_div_spec() ==> quotient == (Vector2 {
                x: self.x.div_spec(rhs),
                y: self.y.div_spec(rhs),
            }),
    {
        Vector2 { x: self.x / rhs, y: self.y / rhs }
    }
}

impl<'a, T: Copy + Div<Output = T>> vstd::std_specs::ops::DivSpecImpl<T> for &'a Vector2<T> {
    open spec fn obeys_div_spec() -> bool {
        T::obeys_div_spec()
    }

    open spec fn div_req(self, rhs: T) -> bool {
        &&& self.x.div_req(rhs)
        &&& self.y.div_req(rhs)
    }

    open spec fn div_spec(self, rhs: T) -> Vector2<T> {
        Vector2 { x: self.x.div_spec(rhs), y: self.y.div_spec(rhs) }
    }
}

impl<T: Copy + Div<Output = T>> DivAssign<T> for Vector2<T> {
    fn div_assign(&mut self, rhs: T)
        requires
            old(self).x.div_req(rhs),
            old(self).y.div_req(rhs),
        ensures
            T::obeys_div_spec() ==> {
                &&& final(self).x == old(self).x.div_spec(rhs)
                &&& final(self).y == old(self).y.div_spec(rhs)
            },
    {
        self.x = self.x / rhs;
        self.y = self.y / rhs;
    }
}

/// The vector of the same length that points the opposite way.
impl<T: Neg<Output = T>> Neg for Vector2<T> {
    type Output = Vector2<T>;

    fn neg(self) -> (opposite: Vector2<T>)
        ensures
            T::obeys_neg_spec() ==> opposite == (Vector2 {
                x: self.x.neg_spec(),
                y: self.y.neg_spec(),
            }),
    {
        Vector2 { x: self.x.neg(), y: self.y.neg() }
    }
}

impl<T: Neg<Output = T>> vstd::std_specs::ops::NegSpecImpl for Vector2<T> {
    open spec fn obeys_neg_spec() -> bool {
        T::obeys_neg_spec()
    }

    open spec fn neg_req(self) -> bool {
        &&& self.x.neg_req()
        &&& self.y.neg_req()
    }

    open spec fn neg_spec(self) -> Vector2<T> {
        Vector2 { x: self.x.neg_spec(), y: self.y.neg_spec() }
    }
}

impl<'a, T: Copy + Neg<Output = T>> Neg for &'a Vector2<T> {
    type Output = Vector2<T>;

    fn neg(self) -> (opposite: Vector2<T>)
        ensures
            T::obeys_neg_spec() ==> opposite == (Vector2 {
                x: self.x.neg_spec(),
                y: self.y.neg_spec(),
            }),
    {
        Vector2 { x: self.x.neg(), y: self.y.neg() }
    }
}

impl<'a, T: Copy + Neg<Output = T>> vstd::std_specs::ops::NegSpecImpl for &'a Vector2<T> {
    open spec fn obeys_neg_spec() -> bool {
        T::obeys_neg_spec()
    }

    open spec fn neg_req(self) -> bool {
        &&& self.x.neg_req()
        &&& self.y.neg_req()
    }

    open spec fn neg_spec(self) -> Vector2<T> {
        Vector2 { x: self.x.neg_spec(), y: self.y.neg_spec() }
    }
}

impl<T: Abs> Vector2<T> {
    /// The vector of the absolute values of the coordinates.
    pub fn abs(self) -> (r: Self)
        requires
            self.x.abs_req(),
            self.y.abs_req(),
        ensures
            self.x.abs_ensures(r.x),
            self.y.abs_ensures(r.y),
    {
        Vector2 { x: self.x.abs(), y: self.y.abs() }
    }
}

impl<T: Float> Vector2<T> {
    /// Whether `len` can be the length of the vector: a value that the
    /// scalar's square root may give for the dot product of the vector with
    /// itself.
    pub open spec fn has_length(self, len: T) -> bool {
        call_ensures(T::sqrt, (self.dot_spec(&self),), len)
    }

    /// When the vector can be normalized: its length can be computed and
    /// each coordinate divided by it.
    pub open spec fn normalize_req(self) -> bool {
        &&& self.dot_req(&self)
        &&& forall|len: T| #[trigger] self.has_length(len) ==> self.div_req(len)
    }

    /// Whether `unit` can be what normalizing the vector gives: the vector
    /// divided by a length of it.
    pub open spec fn normalizes_to(self, unit: Self) -> bool {
        exists|len: T| #[trigger]
            self.has_length(len) && (T::obeys_div_spec() ==> unit == self.div_spec(len))
    }

    /// The Euclidean length: the square root of the vector's dot product
    /// with itself.
    pub fn length(self) -> (len: T)
        requires
            self.dot_req(&self),
        ensures
            self.has_length(len),
    {
        self.dot(&self).sqrt()
    }

    /// The vector divided by its length. Of a vector of length zero it gives
    /// what the scalar's division by zero gives.
    pub fn normalize(self) -> (unit: Vector2<T>)
        requires
            self.normalize_req(),
        ensures
            self.normalizes_to(unit),
    {
        let len = self.length();
        self / len
    }
}

impl<T: Copy + Add<Output = T> + Mul<Output = T>> DotProduct for Vector2<T> {
    type Output = T;

    open spec fn dot_req(&self, rhs: &Self) -> bool {
        &&& T::obeys_mul_spec()
        &&& T::obeys_add_spec()
        &&& self.x.mul_req(rhs.x)
        &&& self.y.mul_req(rhs.y)
        &&& self.x.mul_spec(rhs.x).add_req(self.y.mul_spec(rhs.y))
    }

    open spec fn dot_spec(&self, rhs: &Self) -> T {
        self.x.mul_spec(rhs.x).add_spec(self.y.mul_spec(rhs.y))
    }

    fn dot(&self, rhs: &Self) -> (r: T)
        ensures
            r == self.dot_spec(rhs),
    {
        self.x * rhs.x + self.y * rhs.y
    }
}

/// A free vector in space.
///
/// Equality and ordering compare the coordinates in turn, first to last: a
/// total order for use in containers, not a geometric one.
#[derive(Eq, Ord, Default, Copy, Clone, Hash, Debug)]
pub struct Vector3<T> {
    pub x: T,
    pub y: T,
    pub z: T,
}

impl<T: PartialEq> Vector3<T> {
    /// The vector with the given coordinates, each of which must be
    /// admissible: a floating-point NaN is no coordinate.
    pub fn new(x: T, y: T, z: T) -> (v: Self)
        requires
            admissible(x),
            admissible(y),
            admissible(z),
        ensures
            v.x == x,
            v.y == y,
            v.z == z,
    {
        Vector3 { x, y, z }
    }

    /// As [`Vector3::new`], but tests the coordinates itself and yields
    /// nothing when one of them is not admissible.
    pub fn try_new(x: T, y: T, z: T) -> (v: Option<Self>)
        ensures
            T::obeys_eq_spec() ==> (v is Some <==> admissible(x) && admissible(y) && admissible(z)),
            v is Some ==> v == Some(Vector3 { x, y, z }),
    {
        if is_admissible(&x) && is_admissible(&y) && is_admissible(&z) {
            Some(Vector3 { x, y, z })
        } else {
            None
        }
    }
}

/// Equal when every coordinate is.
impl<T: PartialEq> PartialEq for Vector3<T> {
    fn eq(&self, other: &Self) -> (r: bool) {
        self.x == other.x && self.y == other.y && self.z == other.z
    }
}

impl<T: PartialEq> vstd::std_specs::cmp::PartialEqSpecImpl for Vector3<T> {
    open spec fn obeys_eq_spec() -> bool {
        T::obeys_eq_spec()
    }

    open spec fn eq_spec(&self, other: &Self) -> bool {
        self.x.eq_spec(&other.x) && self.y.eq_spec(&other.y) && self.z.eq_spec(&other.z)
    }
}

/// Ordered by the first coordinate in which the two differ.
impl<T: PartialOrd> PartialOrd for Vector3<T> {
    fn partial_cmp(&self, other: &Self) -> (r: Option<Ordering>) {
        match self.x.partial_cmp(&other.x) {
            Some(Ordering::Equal) => match self.y.partial_cmp(&other.y) {
                Some(Ordering::Equal) => self.z.partial_cmp(&other.z),
                decided => decided,
            },
            decided => decided,
        }
    }
}

impl<T: PartialOrd> vstd::std_specs::cmp::PartialOrdSpecImpl for Vector3<T> {
    open spec fn obeys_partial_cmp_spec() -> bool {
        T::obeys_partial_cmp_spec()
    }

    open spec fn partial_cmp_spec(&self, other: &Self) -> Option<Ordering> {
        match self.x.partial_cmp_spec(&other.x) {
            Some(Ordering::Equal) => match self.y.partial_cmp_spec(&other.y) {
                Some(Ordering::Equal) => self.z.partial_cmp_spec(&other.z),
                decided => decided,
            },
            decided => decided,
        }
    }
}

/// The componentwise sum of two vectors.
impl<T: Add<Output = T>> Add<Vector3<T>> for Vector3<T> {
    type Output = Vector3<T>;

    fn add(self, rhs: Vector3<T>) -> (sum: Vector3<T>)
        ensures
            T::obeys_add_spec() ==> sum == (Vector3 {
                x: self.x.add_spec(rhs.x),
                y: self.y.add_spec(rhs.y),
                z: self.z.add_spec(rhs.z),
            }),
    {
        Vector3 { x: self.x + rhs.x, y: self.y + rhs.y, z: self.z + rhs.z }
    }
}

impl<T: Add<Output = T>> vstd::std_specs::ops::AddSpecImpl<Vector3<T>> for Vector3<T> {
    open spec fn obeys_add_spec() -> bool {
        T::obeys_add_spec()
    }

    open spec fn add_req(self, rhs: Vector3<T>) -> bool {
        &&& self.x.add_req(rhs.x)
        &&& self.y.add_req(rhs.y)
        &&& self.z.add_req(rhs.z)
    }

    open spec fn add_spec(self, rhs: Vector3<T>) -> Vector3<T> {
        Vector3 { x: self.x.add_spec(rhs.x), y: self.y.add_spec(rhs.y), z: self.z.add_spec(rhs.z) }
    }
}

impl<'a, T: Copy + Add<Output = T>> Add<&'a Vector3<T>> for Vector3<T> {
    type Output = Vector3<T>;

    fn add(self, rhs: &'a Vector3<T>) -> (sum: Vector3<T>)
        ensures
            T::obeys_add_spec() ==> sum == (Vector3 {
                x: self.x.add_spec(rhs.x),
                y: self.y.add_spec(rhs.y),
                z: self.z.add_spec(rhs.z),
            }),
    {
        Vector3 { x: self.x + rhs.x, y: self.y + rhs.y, z: self.z + rhs.z }
    }
}

impl<'a, T: Copy + Add<Output = T>> vstd::std_specs::ops::AddSpecImpl<&'a Vector3<T>> for
    Vector3<T> {
    open spec fn obeys_add_spec() -> bool {
        T::obeys_add_spec()
    }

    open spec fn add_req(self, rhs: &'a Vector3<T>) -> bool {
        &&& self.x.add_req(rhs.x)
        &&& self.y.add_req(rhs.y)
        &&& self.z.add_req(rhs.z)
    }

    open spec fn add_spec(self, rhs: &'a Vector3<T>) -> Vector3<T> {
        Vector3 { x: self.x.add_spec(rhs.x), y: self.y.add_spec(rhs.y), z: self.z.add_spec(rhs.z) }
    }
}

impl<'a, T: Copy + Add<Output = T>> Add<Vector3<T>> for &'a Vector3<T> {
    type Output = Vector3<T>;

    fn add(self, rhs: Vector3<T>) -> (sum: Vector3<T>)
        ensures
            T::obeys_add_spec() ==> sum == (Vector3 {
                x: self.x.add_spec(rhs.x),
                y: self.y.add_spec(rhs.y),
                z: self.z.add_spec(rhs.z),
            }),
    {
        Vector3 { x: self.x + rhs.x, y: self.y + rhs.y, z: self.z + rhs.z }
    }
}

impl<'a, T: Copy + Add<Output = T>> vstd::std_specs::ops::AddSpecImpl<Vector3<T>> for
    &'a Vector3<T> {
    open spec fn obeys_add_spec() -> bool {
        T::obeys_add_spec()
    }

    open spec fn add_req(self, rhs: Vector3<T>) -> bool {
        &&& self.x.add_req(rhs.x)
        &&& self.y.add_req(rhs.y)
        &&& self.z.add_req(rhs.z)
    }

    open spec fn add_spec(self, rhs: Vector3<T>) -> Vector3<T> {
        Vector3 { x: self.x.add_spec(rhs.x), y: self.y.add_spec(rhs.y), z: self.z.add_spec(rhs.z) }
    }
}

impl<'a, T: Copy + Add<Output = T>> Add<&'a Vector3<T>> for &'a Vector3<T> {
    type Output = Vector3<T>;

    fn add(self, rhs: &'a Vector3<T>) -> (sum: Vector3<T>)
        ensures
            T::obeys_add_spec() ==> sum == (Vector3 {
                x: self.x.add_spec(rhs.x),
                y: self.y.add_spec(rhs.y),
                z: self.z.add_spec(rhs.z),
            }),
    {
        Vector3 { x: self.x + rhs.x, y: self.y + rhs.y, z: self.z + rhs.z }
    }
}

impl<'a, T: Copy + Add<Output = T>> vstd::std_specs::ops::AddSpecImpl<&'a Vector3<T>> for
    &'a Vector3<T> {
    open spec fn obeys_add_spec() -> bool {
        T::obeys_add_spec()
    }

    open spec fn add_req(self, rhs: &'a Vector3<T>) -> bool {
        &&& self.x.add_req(rhs.x)
        &&& self.y.add_req(rhs.y)
        &&& self.z.add_req(rhs.z)
    }

    open spec fn add_spec(self, rhs: &'a Vector3<T>) -> Vector3<T> {
        Vector3 { x: self.x.add_spec(rhs.x), y: self.y.add_spec(rhs.y), z: self.z.add_spec(rhs.z) }
    }
}

impl<T: Copy + Add<Output = T>> AddAssign for Vector3<T> {
    fn add_assign(&mut self, rhs: Vector3<T>)
        requires
            old(self).x.add_req(rhs.x),
            old(self).y.add_req(rhs.y),
            old(self).z.add_req(rhs.z),
        ensures
            T::obeys_add_spec() ==> {
                &&& final(self).x == old(self).x.add_spec(rhs.x)
                &&& final(self).y == old(self).y.add_spec(rhs.y)
                &&& final(self).z == old(self).z.add_spec(rhs.z)
            },
    {
        self.x = self.x + rhs.x;
        self.y = self.y + rhs.y;
        self.z = self.z + rhs.z;
    }
}

impl<'a, T: Copy + Add<Output = T>> AddAssign<&'a Vector3<T>> for Vector3<T> {
    fn add_assign(&mut self, rhs: &'a Vector3<T>)
        requires
            old(self).x.add_req(rhs.x),
            old(self).y.add_req(rhs.y),
            old(self).z.add_req(rhs.z),
        ensures
            T::obeys_add_spec() ==> {
                &&& final(self).x == old(self).x.add_spec(rhs.x)
                &&& final(self).y == old(self).y.add_spec(rhs.y)
                &&& final(self).z == old(self).z.add_spec(rhs.z)
            },
    {
        self.x = self.x + rhs.x;
        self.y = self.y + rhs.y;
        self.z = self.z + rhs.z;
    }
}

/// The componentwise difference of two vectors.
impl<T: Sub<Output = T>> Sub<Vector3<T>> for Vector3<T> {
    type Output = Vector3<T>;

    fn sub(self, rhs: Vector3<T>) -> (difference: Vector3<T>)
        ensures
            T::obeys_sub_spec() ==> difference == (Vector3 {
                x: self.x.sub_spec(rhs.x),
                y: self.y.sub_spec(rhs.y),
                z: self.z.sub_spec(rhs.z),
            }),
    {
        Vector3 { x: self.x - rhs.x, y: self.y - rhs.y, z: self.z - rhs.z }
    }
}

impl<T: Sub<Output = T>> vstd::std_specs::ops::SubSpecImpl<Vector3<T>> for Vector3<T> {
    open spec fn obeys_sub_spec() -> bool {
        T::obeys_sub_spec()
    }

    open spec fn sub_req(self, rhs: Vector3<T>) -> bool {
        &&& self.x.sub_req(rhs.x)
        &&& self.y.sub_req(rhs.y)
        &&& self.z.sub_req(rhs.z)
    }

    open spec fn sub_spec(self, rhs: Vector3<T>) -> Vector3<T> {
        Vector3 { x: self.x.sub_spec(rhs.x), y: self.y.sub_spec(rhs.y), z: self.z.sub_spec(rhs.z) }
    }
}

impl<'a, T: Copy + Sub<Output = T>> Sub<&'a Vector3<T>> for Vector3<T> {
    type Output = Vector3<T>;

    fn sub(self, rhs: &'a Vector3<T>) -> (difference: Vector3<T>)
        ensures
            T::obeys_sub_spec() ==> difference == (Vector3 {
                x: self.x.sub_spec(rhs.x),
                y: self.y.sub_spec(rhs.y),
                z: self.z.sub_spec(rhs.z),
            }),
    {
        Vector3 { x: self.x - rhs.x, y: self.y - rhs.y, z: self.z - rhs.z }
    }
}

impl<'a, T: Copy + Sub<Output = T>> vstd::std_specs::ops::SubSpecImpl<&'a Vector3<T>> for
    Vector3<T> {
    open spec fn obeys_sub_spec() -> bool {
        T::obeys_sub_spec()
    }

    open spec fn sub_req(self, rhs: &'a Vector3<T>) -> bool {
        &&& self.x.sub_req(rhs.x)
        &&& self.y.sub_req(rhs.y)
        &&& self.z.sub_req(rhs.z)
    }

    open spec fn sub_spec(self, rhs: &'a Vector3<T>) -> Vector3<T> {
        Vector3 { x: self.x.sub_spec(rhs.x), y: self.y.sub_spec(rhs.y), z: self.z.sub_spec(rhs.z) }
    }
}

impl<'a, T: Copy + Sub<Output = T>> Sub<Vector3<T>> for &'a Vector3<T> {
    type Output = Vector3<T>;

    fn sub(self, rhs: Vector3<T>) -> (difference: Vector3<T>)
        ensures
            T::obeys_sub_spec() ==> difference == (Vector3 {
                x: self.x.sub_spec(rhs.x),
                y: self.y.sub_spec(rhs.y),
                z: self.z.sub_spec(rhs.z),
            }),
    {
        Vector3 { x: self.x - rhs.x, y: self.y - rhs.y, z: self.z - rhs.z }
    }
}

impl<'a, T: Copy + Sub<Output = T>> vstd::std_specs::ops::SubSpecImpl<Vector3<T>> for
    &'a Vector3<T> {
    open spec fn obeys_sub_spec() -> bool {
        T::obeys_sub_spec()
    }

    open spec fn sub_req(self, rhs: Vector3<T>) -> bool {
        &&& self.x.sub_req(rhs.x)
        &&& self.y.sub_req(rhs.y)
        &&& self.z.sub_req(rhs.z)
    }

    open spec fn sub_spec(self, rhs: Vector3<T>) -> Vector3<T> {
        Vector3 { x: self.x.sub_spec(rhs.x), y: self.y.sub_spec(rhs.y), z: self.z.sub_spec(rhs.z) }
    }
}

impl<'a, T: Copy + Sub<Output = T>> Sub<&'a Vector3<T>> for &'a Vector3<T> {
    type Output = Vector3<T>;

    fn sub(self, rhs: &'a Vector3<T>) -> (difference: Vector3<T>)
        ensures
            T::obeys_sub_spec() ==> difference == (Vector3 {
                x: self.x.sub_spec(rhs.x),
                y: self.y.sub_spec(rhs.y),
                z: self.z.sub_spec(rhs.z),
            }),
    {
        Vector3 { x: self.x - rhs.x, y: self.y - rhs.y, z: self.z - rhs.z }
    }
}

impl<'a, T: Copy + Sub<Output = T>> vstd::std_specs::ops::SubSpecImpl<&'a Vector3<T>> for
    &'a Vector3<T> {
    open spec fn obeys_sub_spec() -> bool {
        T::obeys_sub_spec()
    }

    open spec fn sub_req(self, rhs: &'a Vector3<T>) -> bool {
        &&& self.x.sub_req(rhs.x)
        &&& self.y.sub_req(rhs.y)
        &&& self.z.sub_req(rhs.z)
    }

    open spec fn sub_spec(self, rhs: &'a Vector3<T>) -> Vector3<T> {
        Vector3 { x: self.x.sub_spec(rhs.x), y: self.y.sub_spec(rhs.y), z: self.z.sub_spec(rhs.z) }
    }
}

impl<T: Copy + Sub<Output = T>> SubAssign for Vector3<T> {
    fn sub_assign(&mut self, rhs: Vector3<T>)
        requires
            old(self).x.sub_req(rhs.x),
            old(self).y.sub_req(rhs.y),
            old(self).z.sub_req(rhs.z),
        ensures
            T::obeys_sub_spec() ==> {
                &&& final(self).x == old(self).x.sub_spec(rhs.x)
                &&& final(self).y == old(self).y.sub_spec(rhs.y)
                &&& final(self).z == old(self).z.sub_spec(rhs.z)
            },
    {
        self.x = self.x - rhs.x;
        self.y = self.y - rhs.y;
        self.z = self.z - rhs.z;
    }
}

impl<'a, T: Copy + Sub<Output = T>> SubAssign<&'a Vector3<T>> for Vector3<T> {
    fn sub_assign(&mut self, rhs: &'a Vector3<T>)
        requires
            old(self).x.sub_req(rhs.x),
            old(self).y.sub_req(rhs.y),
            old(self).z.sub_req(rhs.z),
        ensures
            T::obeys_sub_spec() ==> {
                &&& final(self).x == old(self).x.sub_spec(rhs.x)
                &&& final(self).y == old(self).y.sub_spec(rhs.y)
                &&& final(self).z == old(self).z.sub_spec(rhs.z)
            },
    {
        self.x = self.x - rhs.x;
        self.y = self.y - rhs.y;
        self.z = self.z - rhs.z;
    }
}

/// Each coordinate multiplied by the scalar `rhs`.
impl<T: Copy + Mul<Output = T>> Mul<T> for Vector3<T> {
    type Output = Vector3<T>;

    fn mul(self, rhs: T) -> (product: Vector3<T>)
        ensures
            T::obeys_mul_spec() ==> product == (Vector3 {
                x: self.x.mul_spec(rhs),
                y: self.y.mul_spec(rhs),
                z: self.z.mul_spec(rhs),
            }),
    {
        Vector3 { x: self.x * rhs, y: self.y * rhs, z: self.z * rhs }
    }
}

impl<T: Copy + Mul<Output = T>> vstd::std_specs::ops::MulSpecImpl<T> for Vector3<T> {
    open spec fn obeys_mul_spec() -> bool {
        T::obeys_mul_spec()
    }

    open spec fn mul_req(self, rhs: T) -> bool {
        &&& self.x.mul_req(rhs)
        &&& self.y.mul_req(rhs)
        &&& self.z.mul_req(rhs)
    }

    open spec fn mul_spec(self, rhs: T) -> Vector3<T> {
        Vector3 { x: self.x.mul_spec(rhs), y: self.y.mul_spec(rhs), z: self.z.mul_spec(rhs) }
    }
}

impl<'a, T: Copy + Mul<Output = T>> Mul<T> for &'a Vector3<T> {
    type Output = Vector3<T>;

    fn mul(self, rhs: T) -> (product: Vector3<T>)
        ensures
            T::obeys_mul_spec() ==> product == (Vector3 {
                x: self.x.mul_spec(rhs),
                y: self.y.mul_spec(rhs),
                z: self.z.mul_spec(rhs),
            }),
    {
        Vector3 { x: self.x * rhs, y: self.y * rhs, z: self.z * rhs }
    }
}

impl<'a, T: Copy + Mul<Output = T>> vstd::std_specs::ops::MulSpecImpl<T> for &'a Vector3<T> {
    open spec fn obeys_mul_spec() -> bool {
        T::obeys_mul_spec()
    }

    open spec fn mul_req(self, rhs: T) -> bool {
        &&& self.x.mul_req(rhs)
        &&& self.y.mul_req(rhs)
        &&& self.z.mul_req(rhs)
    }

    open spec fn mul_spec(self, rhs: T) -> Vector3<T> {
        Vector3 { x: self.x.mul_spec(rhs), y: self.y.mul_spec(rhs), z: self.z.mul_spec(rhs) }
    }
}

impl<T: Copy + Mul<Output = T>> MulAssign<T> for Vector3<T> {
    fn mul_assign(&mut self, rhs: T)
        requires
            old(self).x.mul_req(rhs),
            old(self).y.mul_req(rhs),
            old(self).z.mul_req(rhs),
        ensures
            T::obeys_mul_spec() ==> {
                &&& final(self).x == old(self).x.mul_spec(rhs)
                &&& final(self).y == old(self).y.mul_spec(rhs)
                &&& final(self).z == old(self).z.mul_spec(rhs)
            },
    {
        self.x = self.x * rhs;
        self.y = self.y * rhs;
        self.z = self.z * rhs;
    }
}

/// Each coordinate divided by the scalar `rhs`.
impl<T: Copy + Div<Output = T>> Div<T> for Vector3<T> {
    type Output = Vector3<T>;

    fn div(self, rhs: T) -> (quotient: Vector3<T>)
        ensures
            T::obeys_div_spec() ==> quotient == (Vector3 {
                x: self.x.div_spec(rhs),
                y: self.y.div_spec(rhs),
                z: self.z.div_spec(rhs),
            }),
    {
        Vector3 { x: self.x / rhs, y: self.y / rhs, z: self.z / rhs }
    }
}

impl<T: Copy + Div<Output = T>> vstd::std_specs::ops::DivSpecImpl<T> for Vector3<T> {
    open spec fn obeys_div_spec() -> bool {
        T::obeys_div_spec()
    }

    open spec fn div_req(self, rhs: T) -> bool {
        &&& self.x.div_req(rhs)
        &&& self.y.div_req(rhs)
        &&& self.z.div_req(rhs)
    }

    open spec fn div_spec(self, rhs: T) -> Vector3<T> {
        Vector3 { x: self.x.div_spec(rhs), y: self.y.div_spec(rhs), z: self.z.div_spec(rhs) }
    }
}

impl<'a, T: Copy + Div<Output = T>> Div<T> for &'a Vector3<T> {
    type Output = Vector3<T>;

    fn div(self, rhs: T) -> (quotient: Vector3<T>)
        ensures
            T::obeys_div_spec() ==> quotient == (Vector3 {
                x: self.x.div_spec(rhs),
                y: self.y.div_spec(rhs),
                z: self.z.div_spec(rhs),
            }),
    {
        Vector3 { x: self.x / rhs, y: self.y / rhs, z: self.z / rhs }
    }
}

impl<'a, T: Copy + Div<Output = T>> vstd::std_specs::ops::DivSpecImpl<T> for &'a Vector3<T> {
    open spec fn obeys_div_spec() -> bool {
        T::obeys_div_spec()
    }

    open spec fn div_req(self, rhs: T) -> bool {
        &&& self.x.div_req(rhs)
        &&& self.y.div_req(rhs)
        &&& self.z.div_req(rhs)
    }

    open spec fn div_spec(self, rhs: T) -> Vector3<T> {
        Vector3 { x: self.x.div_spec(rhs), y: self.y.div_spec(rhs), z: self.z.div_spec(rhs) }
    }
}

impl<T: Copy + Div<Output = T>> DivAssign<T> for Vector3<T> {
    fn div_assign(&mut self, rhs: T)
        requires
            old(self).x.div_req(rhs),
            old(self).y.div_req(rhs),
            old(self).z.div_req(rhs),
        ensures
            T::obeys_div_spec() ==> {
                &&& final(self).x == old(self).x.div_spec(rhs)
                &&& final(self).y == old(self).y.div_spec(rhs)
                &&& final(self).z == old(self).z.div_spec(rhs)
            },
    {
        self.x = self.x / rhs;
        self.y = self.y / rhs;
        self.z = self.z / rhs;
    }
}

/// The vector of the same length that points the opposite way.
impl<T: Neg<Output = T>> Neg for Vector3<T> {
    type Output = Vector3<T>;

    fn neg(self) -> (opposite: Vector3<T>)
        ensures
            T::obeys_neg_spec() ==> opposite == (Vector3 {
                x: self.x.neg_spec(),
                y: self.y.neg_spec(),
                z: self.z.neg_spec(),
            }),
    {
        Vector3 { x: self.x.neg(), y: self.y.neg(), z: self.z.neg() }
    }
}

impl<T: Neg<Output = T>> vstd::std_specs::ops::NegSpecImpl for Vector3<T> {
    open spec fn obeys_neg_spec() -> bool {
        T::obeys_neg_spec()
    }

    open spec fn neg_req(self) -> bool {
        &&& self.x.neg_req()
        &&& self.y.neg_req()
        &&& self.z.neg_req()
    }

    open spec fn neg_spec(self) -> Vector3<T> {
        Vector3 { x: self.x.neg_spec(), y: self.y.neg_spec(), z: self.z.neg_spec() }
    }
}

impl<'a, T: Copy + Neg<Output = T>> Neg for &'a Vector3<T> {
    type Output = Vector3<T>;

    fn neg(self) -> (opposite: Vector3<T>)
        ensures
            T::obeys_neg_spec() ==> opposite == (Vector3 {
                x: self.x.neg_spec(),
                y: self.y.neg_spec(),
                z: self.z.neg_spec(),
            }),
    {
        Vector3 { x: self.x.neg(), y: self.y.neg(), z: self.z.neg() }
    }
}

impl<'a, T: Copy + Neg<Output = T>> vstd::std_specs::ops::NegSpecImpl for &'a Vector3<T> {
    open spec fn obeys_neg_spec() -> bool {
        T::obeys_neg_spec()
    }

    open spec fn neg_req(self) -> bool {
        &&& self.x.neg_req()
        &&& self.y.neg_req()
        &&& self.z.neg_req()
    }

    open spec fn neg_spec(self) -> Vector3<T> {
        Vector3 { x: self.x.neg_spec(), y: self.y.neg_spec(), z: self.z.neg_spec() }
    }
}

impl<T: Abs> Vector3<T> {
    /// The vector of the absolute values of the coordinates.
    pub fn abs(self) -> (r: Self)
        requires
            self.x.abs_req(),
            self.y.abs_req(),
            self.z.abs_req(),
        ensures
            self.x.abs_ensures(r.x),
            self.y.abs_ensures(r.y),
            self.z.abs_ensures(r.z),
    {
        Vector3 { x: self.x.abs(), y: self.y.abs(), z: self.z.abs() }
    }
}

impl<T: Float> Vector3<T> {
    /// Whether `len` can be the length of the vector: a value that the
    /// scalar's square root may give for the dot product of the vector with
    /// itself.
    pub open spec fn has_length(self, len: T) -> bool {
        call_ensures(T::sqrt, (self.dot_spec(&self),), len)
    }

    /// When the vector can be normalized: its length can be computed and
    /// each coordinate divided by it.
    pub open spec fn normalize_req(self) -> bool {
        &&& self.dot_req(&self)
        &&& forall|len: T| #[trigger] self.has_length(len) ==> self.div_req(len)
    }

    /// Whether `unit` can be what normalizing the vector gives: the vector
    /// divided by a length of it.
    pub open spec fn normalizes_to(self, unit: Self) -> bool {
        exists|len: T| #[trigger]
            self.has_length(len) && (T::obeys_div_spec() ==> unit == self.div_spec(len))
    }

    /// The Euclidean length: the square root of the vector's dot product
    /// with itself.
    pub fn length(self) -> (len: T)
        requires
            self.dot_req(&self),
        ensures
            self.has_length(len),
    {
        self.dot(&self).sqrt()
    }

    /// The vector divided by its length. Of a vector of length zero it gives
    /// what the scalar's division by zero gives.
    pub fn normalize(self) -> (unit: Vector3<T>)
        requires
            self.normalize_req(),
        ensures
            self.normalizes_to(unit),
    {
        let len = self.length();
        self / len
    }
}

impl<T: Copy + Add<Output = T> + Mul<Output = T>> DotProduct for Vector3<T> {
    type Output = T;

    open spec fn dot_req(&self, rhs: &Self) -> bool {
        &&& T::obeys_mul_spec()
        &&& T::obeys_add_spec()
        &&& self.x.mul_req(rhs.x)
        &&& self.y.mul_req(rhs.y)
        &&& self.z.mul_req(rhs.z)
        &&& self.x.mul_spec(rhs.x).add_req(self.y.mul_spec(rhs.y))
        &&& self.x.mul_spec(rhs.x).add_spec(self.y.mul_spec(rhs.y)).add_req(self.z.mul_spec(rhs.z))
    }

    open spec fn dot_spec(&self, rhs: &Self) -> T {
        self.x.mul_spec(rhs.x).add_spec(self.y.mul_spec(rhs.y)).add_spec(self.z.mul_spec(rhs.z))
    }

    fn dot(&self, rhs: &Self) -> (r: T)
        ensures
            r == self.dot_spec(rhs),
    {
        self.x * rhs.x + self.y * rhs.y + self.z * rhs.z
    }
}

impl<T> From<(T, T)> for Vector2<T> {
    fn from(src: (T, T)) -> (v: Self) {
        Vector2 { x: src.0, y: src.1 }
    }
}

impl<T> vstd::std_specs::convert::FromSpecImpl<(T, T)> for Vector2<T> {
    open spec fn obeys_from_spec() -> bool {
        true
    }

    open spec fn from_spec(src: (T, T)) -> Self {
        Vector2 { x: src.0, y: src.1 }
    }
}

impl<T: Copy + Mul<Output = T> + Sub<Output = T>> Vector3<T> {
    /// When the cross product with `rhs` can be computed: each of the six
    /// products and of the three differences is defined.
    pub open spec fn cross_req(self, rhs: &Self) -> bool {
        &&& T::obeys_mul_spec()
        &&& T::obeys_sub_spec()
        &&& self.y.mul_req(rhs.z)
        &&& self.z.mul_req(rhs.y)
        &&& self.z.mul_req(rhs.x)
        &&& self.x.mul_req(rhs.z)
        &&& self.x.mul_req(rhs.y)
        &&& self.y.mul_req(rhs.x)
        &&& self.y.mul_spec(rhs.z).sub_req(self.z.mul_spec(rhs.y))
        &&& self.z.mul_spec(rhs.x).sub_req(self.x.mul_spec(rhs.z))
        &&& self.x.mul_spec(rhs.y).sub_req(self.y.mul_spec(rhs.x))
    }

    /// The cross product `(y0 z1 - z0 y1, z0 x1 - x0 z1, x0 y1 - y0 x1)`.
    pub open spec fn cross_spec(self, rhs: &Self) -> Self {
        Vector3 {
            x: self.y.mul_spec(rhs.z).sub_spec(self.z.mul_spec(rhs.y)),
            y: self.z.mul_spec(rhs.x).sub_spec(self.x.mul_spec(rhs.z)),
            z: self.x.mul_spec(rhs.y).sub_spec(self.y.mul_spec(rhs.x)),
        }
    }

    /// The cross product of `self` and `rhs`, computed in the scalar's own
    /// arithmetic. Between nearly parallel vectors of a narrow
    /// floating-point scalar it loses most of its digits to cancellation:
    /// see [`Vector3::cross_widened`].
    pub fn cross(self, rhs: &Self) -> (r: Self)
        requires
            self.cross_req(rhs),
        ensures
            r == self.cross_spec(rhs),
    {
        Vector3 {
            x: (self.y * rhs.z) - (self.z * rhs.y),
            y: (self.z * rhs.x) - (self.x * rhs.z),
            z: (self.x * rhs.y) - (self.y * rhs.x),
        }
    }
}

impl<T: Copy> Vector3<T> {
    /// The vector with each coordinate converted to the scalar `W`.
    pub open spec fn widened<W: From<T>>(self) -> Vector3<W> {
        Vector3 { x: W::from_spec(self.x), y: W::from_spec(self.y), z: W::from_spec(self.z) }
    }

    /// The cross product of `self` and `rhs`, computed in the wider scalar
    /// `W`: both operands are converted to `W`, the products and
    /// differences are taken there, and `narrow` brings each coordinate of
    /// the result back. For a 32-bit floating-point `T` and a 64-bit `W`
    /// this avoids the cancellation that the narrow arithmetic suffers
    /// between nearly parallel vectors.
    pub fn cross_widened<W, F>(self, rhs: &Self, narrow: F) -> (r: Self) where
        W: Copy + From<T> + Mul<Output = W> + Sub<Output = W>,
        F: Fn(W) -> T,
        requires
            W::obeys_from_spec(),
            self.widened::<W>().cross_req(&rhs.widened::<W>()),
            forall|w: W| call_requires(narrow, (w,)),
        ensures
            call_ensures(narrow, (self.widened::<W>().cross_spec(&rhs.widened::<W>()).x,), r.x),
            call_ensures(narrow, (self.widened::<W>().cross_spec(&rhs.widened::<W>()).y,), r.y),
            call_ensures(narrow, (self.widened::<W>().cross_spec(&rhs.widened::<W>()).z,), r.z),
    {
        let a = Vector3 { x: W::from(self.x), y: W::from(self.y), z: W::from(self.z) };
        let b = Vector3 { x: W::from(rhs.x), y: W::from(rhs.y), z: W::from(rhs.z) };
        let wide = a.cross(&b);
        Vector3 { x: narrow(wide.x), y: narrow(wide.y), z: narrow(wide.z) }
    }
}

} // verus!
