//! Scalar helpers: absolute value and linear interpolation.
use crate::types::{Float, Signed};
use std::ops::{Add, Mul, Sub};
use vstd::prelude::*;
use vstd::std_specs::convert::FromSpec;
use vstd::std_specs::ops::{AddSpec, MulSpec, SubSpec};

pub mod algebra;
mod matrix4x4;

pub use matrix4x4::{same_entries, BackendStatus, Matrix4x4};

verus! {

/// Scalars with an absolute value.
pub trait Abs: Sized {
    /// When the absolute value exists.
    spec fn abs_req(self) -> bool;

    /// What holds of the absolute value `r` of `self`.
    spec fn abs_ensures(self, r: Self) -> bool;

    fn abs(self) -> (r: Self)
        requires
            self.abs_req(),
        ensures
            self.abs_ensures(r),
    ;
}

impl<T: Signed> Abs for T {
    open spec fn abs_req(self) -> bool {
        self.as_int() != T::lowest()
    }

    open spec fn abs_ensures(self, r: T) -> bool {
        r.as_int() == (if self.as_int() < 0 {
            -self.as_int()
        } else {
            self.as_int()
        })
    }

    fn abs(self) -> (r: T)
        ensures
            self.abs_ensures(r),
    {
        Signed::abs(self)
    }
}

/// Linear interpolation between two scalars.
pub trait Lerp: Sized {
    /// When the interpolation can be computed.
    spec fn lerp_req(t: Self, v0: Self, v1: Self) -> bool;

    /// The value at parameter `t` on the way from `v0` (at 0) to `v1` (at 1).
    spec fn lerp_spec(t: Self, v0: Self, v1: Self) -> Self;

    fn lerp(t: Self, v0: Self, v1: Self) -> (r: Self)
        requires
            Self::lerp_req(t, v0, v1),
        ensures
            r == Self::lerp_spec(t, v0, v1),
    ;
}

/// The classical formulation `(1 - t) * v0 + t * v1`, for every scalar that
/// has a one and the three operators.
impl<T: Copy + From<i8> + Add<Output = T> + Sub<Output = T> + Mul<Output = T>> Lerp for T {
    open spec fn lerp_req(t: T, v0: T, v1: T) -> bool {
        let one = T::from_spec(1i8);
        &&& T::obeys_from_spec()
        &&& T::obeys_add_spec()
        &&& T::obeys_sub_spec()
        &&& T::obeys_mul_spec()
        &&& one.sub_req(t)
        &&& one.sub_spec(t).mul_req(v0)
        &&& t.mul_req(v1)
        &&& one.sub_spec(t).mul_spec(v0).add_req(t.mul_spec(v1))
    }

    open spec fn lerp_spec(t: T, v0: T, v1: T) -> T {
        T::from_spec(1i8).sub_spec(t).mul_spec(v0).add_spec(t.mul_spec(v1))
    }

    fn lerp(t: T, v0: T, v1: T) -> (r: T)
        ensures
            r == Self::lerp_spec(t, v0, v1),
    {
        (T::from(1i8) - t) * v0 + t * v1
    }
}

/// The fused formulation `v0 + t * (v1 - v0)`, which rounds the product and
/// the sum together: `t.mul_add(v1 - v0, v0)`.
pub fn lerp_fused<T: Float>(t: T, v0: T, v1: T) -> (r: T)
    requires
        T::obeys_sub_spec(),
        v1.sub_req(v0),
    ensures
        call_ensures(T::mul_add, (t, v1.sub_spec(v0), v0), r),
{
    t.mul_add(v1 - v0, v0)
}

} // verus!
