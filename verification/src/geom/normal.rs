//! Surface normals. A normal has the coordinates of a vector but is a type
//! of its own: under an affine map it goes by the inverse transpose of the
//! map, not by the map itself.
use super::{DotProduct, Vector3};
use crate::types::{admissible, is_admissible, Float, Scalar};
use std::cmp::Ordering;
use std::ops::{Add, AddAssign, Div, DivAssign, Mul, MulAssign, Neg, Sub, SubAssign};
use vstd::prelude::*;
use vstd::std_specs::cmp::{PartialEqSpec, PartialOrdSpec};
use vstd::std_specs::ops::{AddSpec, DivSpec, MulSpec, NegSpec, SubSpec};

verus! {

/// A surface normal in space.
///
/// Equality and ordering compare the coordinates in turn, first to last: a
/// total order for use in containers, not a geometric one.
#[derive(Eq, Ord, Default, Copy, Clone, Hash, Debug)]
pub struct Normal3<T: Scalar> {
    pub x: T,
    pub y: T,
    pub z: T,
}

impl<T: Scalar> Normal3<T> {
    /// The normal with the given coordinates, each of which must be
    /// admissible: a floating-point NaN is no coordinate.
    pub fn new(x: T, y: T, z: T) -> (n: Self)
        requires
            admissible(x),
            admissible(y),
            admissible(z),
        ensures
            n.x == x,
            n.y == y,
            n.z == z,
    {
        Normal3 { x, y, z }
    }

    /// As [`Normal3::new`], but tests the coordinates itself and yields
    /// nothing when one of them is not admissible.
    pub fn try_new(x: T, y: T, z: T) -> (n: Option<Self>)
        ensures
            T::obeys_eq_spec() ==> (n is Some <==> admissible(x) && admissible(y) && admissible(z)),
            n is Some ==> n == Some(Normal3 { x, y, z }),
    {
        if is_admissible(&x) && is_admissible(&y) && is_admissible(&z) {
            Some(Normal3 { x, y, z })
        } else {
            None
        }
    }
}

/// Equal when every coordinate is.
impl<T: Scalar> PartialEq for Normal3<T> {
    fn eq(&self, other: &Self) -> (r: bool) {
        self.x == other.x && self.y == other.y && self.z == other.z
    }
}

impl<T: Scalar> vstd::std_specs::cmp::PartialEqSpecImpl for Normal3<T> {
    open spec fn obeys_eq_spec() -> bool {
        T::obeys_eq_spec()
    }

    open spec fn eq_spec(&self, other: &Self) -> bool {
        self.x.eq_spec(&other.x) && self.y.eq_spec(&other.y) && self.z.eq_spec(&other.z)
    }
}

/// Ordered by the first coordinate in which the two differ.
impl<T: Scalar + PartialOrd> PartialOrd for Normal3<T> {
    fn partial_cmp(&self, other: &Self) -> (r: Option<Ordering>) {
        match self.x.partial_cmp(&other.x) {
            Some(Ordering::Equal) => match self.y.partial_cmp(&other.y) {
                Some(Ordering::Equal) => self.z.partial_cmp(&other.z),
                decided => decided,
            },
            decided => decided,
        }
    }
}

impl<T: Scalar + PartialOrd> vstd::std_specs::cmp::PartialOrdSpecImpl for Normal3<T> {
    open spec fn obeys_partial_cmp_spec() -> bool {
        T::obeys_partial_cmp_spec()
    }

    open spec fn partial_cmp_spec(&self, other: &Self) -> Option<Ordering> {
        match self.x.partial_cmp_spec(&other.x) {
            Some(Ordering::Equal) => match self.y.partial_cmp_spec(&other.y) {
                Some(Ordering::Equal) => self.z.partial_cmp_spec(&other.z),
                decided => decided,
            },
            decided => decided,
        }
    }
}

/// The normal with the coordinates of the vector `v`.
impl<T: Scalar> From<Vector3<T>> for Normal3<T> {
    fn from(v: Vector3<T>) -> (n: Self) {
        Normal3 { x: v.x, y: v.y, z: v.z }
    }
}

impl<T: Scalar> vstd::std_specs::convert::FromSpecImpl<Vector3<T>> for Normal3<T> {
    open spec fn obeys_from_spec() -> bool {
        true
    }

    open spec fn from_spec(v: Vector3<T>) -> Self {
        Normal3 { x: v.x, y: v.y, z: v.z }
    }
}

/// The componentwise sum of two normals.
impl<T: Scalar + Add<Output = T>> Add<Normal3<T>> for Normal3<T> {
    type Output = Normal3<T>;

    fn add(self, rhs: Normal3<T>) -> (sum: Normal3<T>)
        ensures
            T::obeys_add_spec() ==> sum == (Normal3 {
                x: self.x.add_spec(rhs.x),
                y: self.y.add_spec(rhs.y),
                z: self.z.add_spec(rhs.z),
            }),
    {
        Normal3 { x: self.x + rhs.x, y: self.y + rhs.y, z: self.z + rhs.z }
    }
}

impl<T: Scalar + Add<Output = T>> vstd::std_specs::ops::AddSpecImpl<Normal3<T>> for Normal3<T> {
    open spec fn obeys_add_spec() -> bool {
        T::obeys_add_spec()
    }

    open spec fn add_req(self, rhs: Normal3<T>) -> bool {
        &&& self.x.add_req(rhs.x)
        &&& self.y.add_req(rhs.y)
        &&& self.z.add_req(rhs.z)
    }

    open spec fn add_spec(self, rhs: Normal3<T>) -> Normal3<T> {
        Normal3 { x: self.x.add_spec(rhs.x), y: self.y.add_spec(rhs.y), z: self.z.add_spec(rhs.z) }
    }
}

impl<'a, T: Scalar + Add<Output = T>> Add<&'a Normal3<T>> for Normal3<T> {
    type Output = Normal3<T>;

    fn add(self, rhs: &'a Normal3<T>) -> (sum: Normal3<T>)
        ensures
            T::obeys_add_spec() ==> sum == (Normal3 {
                x: self.x.add_spec(rhs.x),
                y: self.y.add_spec(rhs.y),
                z: self.z.add_spec(rhs.z),
            }),
    {
        Normal3 { x: self.x + rhs.x, y: self.y + rhs.y, z: self.z + rhs.z }
    }
}

impl<'a, T: Scalar + Add<Output = T>> vstd::std_specs::ops::AddSpecImpl<&'a Normal3<T>> for
    Normal3<T> {
    open spec fn obeys_add_spec() -> bool {
        T::obeys_add_spec()
    }

    open spec fn add_req(self, rhs: &'a Normal3<T>) -> bool {
        &&& self.x.add_req(rhs.x)
        &&& self.y.add_req(rhs.y)
        &&& self.z.add_req(rhs.z)
    }

    open spec fn add_spec(self, rhs: &'a Normal3<T>) -> Normal3<T> {
        Normal3 { x: self.x.add_spec(rhs.x), y: self.y.add_spec(rhs.y), z: self.z.add_spec(rhs.z) }
    }
}

impl<'a, T: Scalar + Add<Output = T>> Add<Normal3<T>> for &'a Normal3<T> {
    type Output = Normal3<T>;

    fn add(self, rhs: Normal3<T>) -> (sum: Normal3<T>)
        ensures
            T::obeys_add_spec() ==> sum == (Normal3 {
                x: self.x.add_spec(rhs.x),
                y: self.y.add_spec(rhs.y),
                z: self.z.add_spec(rhs.z),
            }),
    {
        Normal3 { x: self.x + rhs.x, y: self.y + rhs.y, z: self.z + rhs.z }
    }
}

impl<'a, T: Scalar + Add<Output = T>> vstd::std_specs::ops::AddSpecImpl<Normal3<T>> for
    &'a Normal3<T> {
    open spec fn obeys_add_spec() -> bool {
        T::obeys_add_spec()
    }

    open spec fn add_req(self, rhs: Normal3<T>) -> bool {
        &&& self.x.add_req(rhs.x)
        &&& self.y.add_req(rhs.y)
        &&& self.z.add_req(rhs.z)
    }

    open spec fn add_spec(self, rhs: Normal3<T>) -> Normal3<T> {
        Normal3 { x: self.x.add_spec(rhs.x), y: self.y.add_spec(rhs.y), z: self.z.add_spec(rhs.z) }
    }
}

impl<'a, T: Scalar + Add<Output = T>> Add<&'a Normal3<T>> for &'a Normal3<T> {
    type Output = Normal3<T>;

    fn add(self, rhs: &'a Normal3<T>) -> (sum: Normal3<T>)
        ensures
            T::obeys_add_spec() ==> sum == (Normal3 {
                x: self.x.add_spec(rhs.x),
                y: self.y.add_spec(rhs.y),
                z: self.z.add_spec(rhs.z),
            }),
    {
        Normal3 { x: self.x + rhs.x, y: self.y + rhs.y, z: self.z + rhs.z }
    }
}

impl<'a, T: Scalar + Add<Output = T>> vstd::std_specs::ops::AddSpecImpl<&'a Normal3<T>> for
    &'a Normal3<T> {
    open spec fn obeys_add_spec() -> bool {
        T::obeys_add_spec()
    }

    open spec fn add_req(self, rhs: &'a Normal3<T>) -> bool {
        &&& self.x.add_req(rhs.x)
        &&& self.y.add_req(rhs.y)
        &&& self.z.add_req(rhs.z)
    }

    open spec fn add_spec(self, rhs: &'a Normal3<T>) -> Normal3<T> {
        Normal3 { x: self.x.add_spec(rhs.x), y: self.y.add_spec(rhs.y), z: self.z.add_spec(rhs.z) }
    }
}

/// The componentwise difference of two normals.
impl<T: Scalar + Sub<Output = T>> Sub<Normal3<T>> for Normal3<T> {
    type Output = Normal3<T>;

    fn sub(self, rhs: Normal3<T>) -> (difference: Normal3<T>)
        ensures
            T::obeys_sub_spec() ==> difference == (Normal3 {
                x: self.x.sub_spec(rhs.x),
                y: self.y.sub_spec(rhs.y),
                z: self.z.sub_spec(rhs.z),
            }),
    {
        Normal3 { x: self.x - rhs.x, y: self.y - rhs.y, z: self.z - rhs.z }
    }
}

impl<T: Scalar + Sub<Output = T>> vstd::std_specs::ops::SubSpecImpl<Normal3<T>> for Normal3<T> {
    open spec fn obeys_sub_spec() -> bool {
        T::obeys_sub_spec()
    }

    open spec fn sub_req(self, rhs: Normal3<T>) -> bool {
        &&& self.x.sub_req(rhs.x)
        &&& self.y.sub_req(rhs.y)
        &&& self.z.sub_req(rhs.z)
    }

    open spec fn sub_spec(self, rhs: Normal3<T>) -> Normal3<T> {
        Normal3 { x: self.x.sub_spec(rhs.x), y: self.y.sub_spec(rhs.y), z: self.z.sub_spec(rhs.z) }
    }
}

impl<'a, T: Scalar + Sub<Output = T>> Sub<&'a Normal3<T>> for Normal3<T> {
    type Output = Normal3<T>;

    fn sub(self, rhs: &'a Normal3<T>) -> (difference: Normal3<T>)
        ensures
            T::obeys_sub_spec() ==> difference == (Normal3 {
                x: self.x.sub_spec(rhs.x),
                y: self.y.sub_spec(rhs.y),
                z: self.z.sub_spec(rhs.z),
            }),
    {
        Normal3 { x: self.x - rhs.x, y: self.y - rhs.y, z: self.z - rhs.z }
    }
}

impl<'a, T: Scalar + Sub<Output = T>> vstd::std_specs::ops::SubSpecImpl<&'a Normal3<T>> for
    Normal3<T> {
    open spec fn obeys_sub_spec() -> bool {
        T::obeys_sub_spec()
    }

    open spec fn sub_req(self, rhs: &'a Normal3<T>) -> bool {
        &&& self.x.sub_req(rhs.x)
        &&& self.y.sub_req(rhs.y)
        &&& self.z.sub_req(rhs.z)
    }

    open spec fn sub_spec(self, rhs: &'a Normal3<T>) -> Normal3<T> {
        Normal3 { x: self.x.sub_spec(rhs.x), y: self.y.sub_spec(rhs.y), z: self.z.sub_spec(rhs.z) }
    }
}

impl<'a, T: Scalar + Sub<Output = T>> Sub<Normal3<T>> for &'a Normal3<T> {
    type Output = Normal3<T>;

    fn sub(self, rhs: Normal3<T>) -> (difference: Normal3<T>)
        ensures
            T::obeys_sub_spec() ==> difference == (Normal3 {
                x: self.x.sub_spec(rhs.x),
                y: self.y.sub_spec(rhs.y),
                z: self.z.sub_spec(rhs.z),
            }),
    {
        Normal3 { x: self.x - rhs.x, y: self.y - rhs.y, z: self.z - rhs.z }
    }
}

impl<'a, T: Scalar + Sub<Output = T>> vstd::std_specs::ops::SubSpecImpl<Normal3<T>> for
    &'a Normal3<T> {
    open spec fn obeys_sub_spec() -> bool {
        T::obeys_sub_spec()
    }

    open spec fn sub_req(self, rhs: Normal3<T>) -> bool {
        &&& self.x.sub_req(rhs.x)
        &&& self.y.sub_req(rhs.y)
        &&& self.z.sub_req(rhs.z)
    }

    open spec fn sub_spec(self, rhs: Normal3<T>) -> Normal3<T> {
        Normal3 { x: self.x.sub_spec(rhs.x), y: self.y.sub_spec(rhs.y), z: self.z.sub_spec(rhs.z) }
    }
}

impl<'a, T: Scalar + Sub<Output = T>> Sub<&'a Normal3<T>> for &'a Normal3<T> {
    type Output = Normal3<T>;

    fn sub(self, rhs: &'a Normal3<T>) -> (difference: Normal3<T>)
        ensures
            T::obeys_sub_spec() ==> difference == (Normal3 {
                x: self.x.sub_spec(rhs.x),
                y: self.y.sub_spec(rhs.y),
                z: self.z.sub_spec(rhs.z),
            }),
    {
        Normal3 { x: self.x - rhs.x, y: self.y - rhs.y, z: self.z - rhs.z }
    }
}

impl<'a, T: Scalar + Sub<Output = T>> vstd::std_specs::ops::SubSpecImpl<&'a Normal3<T>> for
    &'a Normal3<T> {
    open spec fn obeys_sub_spec() -> bool {
        T::obeys_sub_spec()
    }

    open spec fn sub_req(self, rhs: &'a Normal3<T>) -> bool {
        &&& self.x.sub_req(rhs.x)
        &&& self.y.sub_req(rhs.y)
        &&& self.z.sub_req(rhs.z)
    }

    open spec fn sub_spec(self, rhs: &'a Normal3<T>) -> Normal3<T> {
        Normal3 { x: self.x.sub_spec(rhs.x), y: self.y.sub_spec(rhs.y), z: self.z.sub_spec(rhs.z) }
    }
}

/// Each coordinate multiplied by the scalar `rhs`.
impl<T: Scalar + Mul<Output = T>> Mul<T> for Normal3<T> {
    type Output = Normal3<T>;

    fn mul(self, rhs: T) -> (product: Normal3<T>)
        ensures
            T::obeys_mul_spec() ==> product == (Normal3 {
                x: self.x.mul_spec(rhs),
                y: self.y.mul_spec(rhs),
                z: self.z.mul_spec(rhs),
            }),
    {
        Normal3 { x: self.x * rhs, y: self.y * rhs, z: self.z * rhs }
    }
}

impl<T: Scalar + Mul<Output = T>> vstd::std_specs::ops::MulSpecImpl<T> for Normal3<T> {
    open spec fn obeys_mul_spec() -> bool {
        T::obeys_mul_spec()
    }

    open spec fn mul_req(self, rhs: T) -> bool {
        &&& self.x.mul_req(rhs)
        &&& self.y.mul_req(rhs)
        &&& self.z.mul_req(rhs)
    }

    open spec fn mul_spec(self, rhs: T) -> Normal3<T> {
        Normal3 { x: self.x.mul_spec(rhs), y: self.y.mul_spec(rhs), z: self.z.mul_spec(rhs) }
    }
}

impl<'a, T: Scalar + Mul<Output = T>> Mul<T> for &'a Normal3<T> {
    type Output = Normal3<T>;

    fn mul(self, rhs: T) -> (product: Normal3<T>)
        ensures
            T::obeys_mul_spec() ==> product == (Normal3 {
                x: self.x.mul_spec(rhs),
                y: self.y.mul_spec(rhs),
                z: self.z.mul_spec(rhs),
            }),
    {
        Normal3 { x: self.x * rhs, y: self.y * rhs, z: self.z * rhs }
    }
}

impl<'a, T: Scalar + Mul<Output = T>> vstd::std_specs::ops::MulSpecImpl<T> for &'a Normal3<T> {
    open spec fn obeys_mul_spec() -> bool {
        T::obeys_mul_spec()
    }

    open spec fn mul_req(self, rhs: T) -> bool {
        &&& self.x.mul_req(rhs)
        &&& self.y.mul_req(rhs)
        &&& self.z.mul_req(rhs)
    }

    open spec fn mul_spec(self, rhs: T) -> Normal3<T> {
        Normal3 { x: self.x.mul_spec(rhs), y: self.y.mul_spec(rhs), z: self.z.mul_spec(rhs) }
    }
}

/// Each coordinate divided by the scalar `rhs`.
impl<T: Scalar + Div<Output = T>> Div<T> for Normal3<T> {
    type Output = Normal3<T>;

    fn div(self, rhs: T) -> (quotient: Normal3<T>)
        ensures
            T::obeys_div_spec() ==> quotient == (Normal3 {
                x: self.x.div_spec(rhs),
                y: self.y.div_spec(rhs),
                z: self.z.div_spec(rhs),
            }),
    {
        Normal3 { x: self.x / rhs, y: self.y / rhs, z: self.z / rhs }
    }
}

impl<T: Scalar + Div<Output = T>> vstd::std_specs::ops::DivSpecImpl<T> for Normal3<T> {
    open spec fn obeys_div_spec() -> bool {
        T::obeys_div_spec()
    }

    open spec fn div_req(self, rhs: T) -> bool {
        &&& self.x.div_req(rhs)
        &&& self.y.div_req(rhs)
        &&& self.z.div_req(rhs)
    }

    open spec fn div_spec(self, rhs: T) -> Normal3<T> {
        Normal3 { x: self.x.div_spec(rhs), y: self.y.div_spec(rhs), z: self.z.div_spec(rhs) }
    }
}

impl<'a, T: Scalar + Div<Output = T>> Div<T> for &'a Normal3<T> {
    type Output = Normal3<T>;

    fn div(self, rhs: T) -> (quotient: Normal3<T>)
        ensures
            T::obeys_div_spec() ==> quotient == (Normal3 {
                x: self.x.div_spec(rhs),
                y: self.y.div_spec(rhs),
                z: self.z.div_spec(rhs),
            }),
    {
        Normal3 { x: self.x / rhs, y: self.y / rhs, z: self.z / rhs }
    }
}

impl<'a, T: Scalar + Div<Output = T>> vstd::std_specs::ops::DivSpecImpl<T> for &'a Normal3<T> {
    open spec fn obeys_div_spec() -> bool {
        T::obeys_div_spec()
    }

    open spec fn div_req(self, rhs: T) -> bool {
        &&& self.x.div_req(rhs)
        &&& self.y.div_req(rhs)
        &&& self.z.div_req(rhs)
    }

    open spec fn div_spec(self, rhs: T) -> Normal3<T> {
        Normal3 { x: self.x.div_spec(rhs), y: self.y.div_spec(rhs), z: self.z.div_spec(rhs) }
    }
}

/// The normal that points the opposite way.
impl<T: Scalar + Neg<Output = T>> Neg for Normal3<T> {
    type Output = Normal3<T>;

    fn neg(self) -> (opposite: Normal3<T>)
        ensures
            T::obeys_neg_spec() ==> opposite == (Normal3 {
                x: self.x.neg_spec(),
                y: self.y.neg_spec(),
                z: self.z.neg_spec(),
            }),
    {
        Normal3 { x: self.x.neg(), y: self.y.neg(), z: self.z.neg() }
    }
}

impl<T: Scalar + Neg<Output = T>> vstd::std_specs::ops::NegSpecImpl for Normal3<T> {
    open spec fn obeys_neg_spec() -> bool {
        T::obeys_neg_spec()
    }

    open spec fn neg_req(self) -> bool {
        &&& self.x.neg_req()
        &&& self.y.neg_req()
        &&& self.z.neg_req()
    }

    open spec fn neg_spec(self) -> Normal3<T> {
        Normal3 { x: self.x.neg_spec(), y: self.y.neg_spec(), z: self.z.neg_spec() }
    }
}

impl<T: Scalar + Add<Output = T>> AddAssign for Normal3<T> {
    fn add_assign(&mut self, rhs: Normal3<T>)
        requires
            old(self).x.add_req(rhs.x),
            old(self).y.add_req(rhs.y),
            old(self).z.add_req(rhs.z),
        ensures
            T::obeys_add_spec() ==> {
                &&& final(self).x == old(self).x.add_spec(rhs.x)
                &&& final(self).y == old(self).y.add_spec(rhs.y)
                &&& final(self).z == old(self).z.add_spec(rhs.z)
            },
    {
        self.x = self.x + rhs.x;
        self.y = self.y + rhs.y;
        self.z = self.z + rhs.z;
    }
}

impl<'a, T: Scalar + Add<Output = T>> AddAssign<&'a Normal3<T>> for Normal3<T> {
    fn add_assign(&mut self, rhs: &'a Normal3<T>)
        requires
            old(self).x.add_req(rhs.x),
            old(self).y.add_req(rhs.y),
            old(self).z.add_req(rhs.z),
        ensures
            T::obeys_add_spec() ==> {
                &&& final(self).x == old(self).x.add_spec(rhs.x)
                &&& final(self).y == old(self).y.add_spec(rhs.y)
                &&& final(self).z == old(self).z.add_spec(rhs.z)
            },
    {
        self.x = self.x + rhs.x;
        self.y = self.y + rhs.y;
        self.z = self.z + rhs.z;
    }
}

impl<T: Scalar + Sub<Output = T>> SubAssign for Normal3<T> {
    fn sub_assign(&mut self, rhs: Normal3<T>)
        requires
            old(self).x.sub_req(rhs.x),
            old(self).y.sub_req(rhs.y),
            old(self).z.sub_req(rhs.z),
        ensures
            T::obeys_sub_spec() ==> {
                &&& final(self).x == old(self).x.sub_spec(rhs.x)
                &&& final(self).y == old(self).y.sub_spec(rhs.y)
                &&& final(self).z == old(self).z.sub_spec(rhs.z)
            },
    {
        self.x = self.x - rhs.x;
        self.y = self.y - rhs.y;
        self.z = self.z - rhs.z;
    }
}

impl<'a, T: Scalar + Sub<Output = T>> SubAssign<&'a Normal3<T>> for Normal3<T> {
    fn sub_assign(&mut self, rhs: &'a Normal3<T>)
        requires
            old(self).x.sub_req(rhs.x),
            old(self).y.sub_req(rhs.y),
            old(self).z.sub_req(rhs.z),
        ensures
            T::obeys_sub_spec() ==> {
                &&& final(self).x == old(self).x.sub_spec(rhs.x)
                &&& final(self).y == old(self).y.sub_spec(rhs.y)
                &&& final(self).z == old(self).z.sub_spec(rhs.z)
            },
    {
        self.x = self.x - rhs.x;
        self.y = self.y - rhs.y;
        self.z = self.z - rhs.z;
    }
}

/// Multiplies coordinate by coordinate.
impl<T: Scalar + Mul<Output = T>> MulAssign for Normal3<T> {
    fn mul_assign(&mut self, rhs: Normal3<T>)
        requires
            old(self).x.mul_req(rhs.x),
            old(self).y.mul_req(rhs.y),
            old(self).z.mul_req(rhs.z),
        ensures
            T::obeys_mul_spec() ==> {
                &&& final(self).x == old(self).x.mul_spec(rhs.x)
                &&& final(self).y == old(self).y.mul_spec(rhs.y)
                &&& final(self).z == old(self).z.mul_spec(rhs.z)
            },
    {
        self.x = self.x * rhs.x;
        self.y = self.y * rhs.y;
        self.z = self.z * rhs.z;
    }
}

/// Divides coordinate by coordinate.
impl<T: Scalar + Div<Output = T>> DivAssign for Normal3<T> {
    fn div_assign(&mut self, rhs: Normal3<T>)
        requires
            old(self).x.div_req(rhs.x),
            old(self).y.div_req(rhs.y),
            old(self).z.div_req(rhs.z),
        ensures
            T::obeys_div_spec() ==> {
                &&& final(self).x == old(self).x.div_spec(rhs.x)
                &&& final(self).y == old(self).y.div_spec(rhs.y)
                &&& final(self).z == old(self).z.div_spec(rhs.z)
            },
    {
        self.x = self.x / rhs.x;
        self.y = self.y / rhs.y;
        self.z = self.z / rhs.z;
    }
}

impl<T: Scalar + Float> Normal3<T> {
    /// Whether `len` can be the length of the normal: a value that the
    /// scalar's square root may give for the dot product of the normal with
    /// itself.
    pub open spec fn has_length(self, len: T) -> bool {
        call_ensures(T::sqrt, (self.dot_spec(&self),), len)
    }

    /// When the normal can be normalized: its length can be computed and
    /// each coordinate divided by it.
    pub open spec fn normalize_req(self) -> bool {
        &&& self.dot_req(&self)
        &&& forall|len: T| #[trigger] self.has_length(len) ==> self.div_req(len)
    }

    /// Whether `unit` can be what normalizing the normal gives: the normal
    /// divided by a length of it.
    pub open spec fn normalizes_to(self, unit: Self) -> bool {
        exists|len: T| #[trigger]
            self.has_length(len) && (T::obeys_div_spec() ==> unit == self.div_spec(len))
    }

    /// The Euclidean length: the square root of the normal's dot product
    /// with itself.
    pub fn length(&self) -> (len: T)
        requires
            self.dot_req(self),
        ensures
            self.has_length(len),
    {
        self.dot(self).sqrt()
    }

    /// The normal divided by its length. Of a normal of length zero it gives
    /// what the scalar's division by zero gives.
    pub fn normalize(&self) -> (unit: Normal3<T>)
        requires
            self.normalize_req(),
        ensures
            self.normalizes_to(unit),
    {
        let len = self.length();
        (*self) / len
    }
}

impl<T: Scalar + Add<Output = T> + Mul<Output = T>> DotProduct for Normal3<T> {
    type Output = T;

    open spec fn dot_req(&self, rhs: &Self) -> bool {
        &&& T::obeys_mul_spec()
        &&& T::obeys_add_spec()
        &&& self.x.mul_req(rhs.x)
        &&& self.y.mul_req(rhs.y)
        &&& self.z.mul_req(rhs.z)
        &&& self.x.mul_spec(rhs.x).add_req(self.y.mul_spec(rhs.y))
        &&& self.x.mul_spec(rhs.x).add_spec(self.y.mul_spec(rhs.y)).add_req(self.z.mul_spec(rhs.z))
    }

    open spec fn dot_spec(&self, rhs: &Self) -> T {
        self.x.mul_spec(rhs.x).add_spec(self.y.mul_spec(rhs.y)).add_spec(self.z.mul_spec(rhs.z))
    }

    fn dot(&self, rhs: &Self) -> (r: T)
        ensures
            r == self.dot_spec(rhs),
    {
        self.x * rhs.x + self.y * rhs.y + self.z * rhs.z
    }
}

impl<T: Scalar + Add<Output = T> + Mul<Output = T>> DotProduct<Vector3<T>> for Normal3<T> {
    type Output = T;

    open spec fn dot_req(&self, rhs: &Vector3<T>) -> bool {
        &&& T::obeys_mul_spec()
        &&& T::obeys_add_spec()
        &&& self.x.mul_req(rhs.x)
        &&& self.y.mul_req(rhs.y)
        &&& self.z.mul_req(rhs.z)
        &&& self.x.mul_spec(rhs.x).add_req(self.y.mul_spec(rhs.y))
        &&& self.x.mul_spec(rhs.x).add_spec(self.y.mul_spec(rhs.y)).add_req(self.z.mul_spec(rhs.z))
    }

    open spec fn dot_spec(&self, rhs: &Vector3<T>) -> T {
        self.x.mul_spec(rhs.x).add_spec(self.y.mul_spec(rhs.y)).add_spec(self.z.mul_spec(rhs.z))
    }

    fn dot(&self, rhs: &Vector3<T>) -> (r: T)
        ensures
            r == self.dot_spec(rhs),
    {
        self.x * rhs.x + self.y * rhs.y + self.z * rhs.z
    }
}

/// A vector's dot product with a normal is the normal's with the vector.
impl<T: Scalar + Add<Output = T> + Mul<Output = T>> DotProduct<Normal3<T>> for Vector3<T> {
    type Output = T;

    open spec fn dot_req(&self, rhs: &Normal3<T>) -> bool {
        rhs.dot_req(self)
    }

    open spec fn dot_spec(&self, rhs: &Normal3<T>) -> T {
        rhs.dot_spec(self)
    }

    fn dot(&self, rhs: &Normal3<T>) -> (r: T)
        ensures
            r == rhs.dot_spec(self),
    {
        rhs.dot(self)
    }
}

impl<T: Scalar> Normal3<T> {
    /// The dot product with a normal or with a vector.
    pub fn dot<U>(&self, rhs: &U) -> (r: T) where Self: DotProduct<U, Output = T>
        requires
            self.dot_req(rhs),
        ensures
            r == self.dot_spec(rhs),
    {
        DotProduct::dot(self, rhs)
    }
}

} // verus!
