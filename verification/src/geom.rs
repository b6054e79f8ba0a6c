//! The coordinate types: free vectors, affine points and surface normals.
//! They are kept apart because an affine map treats each differently.
use vstd::prelude::*;

pub mod laws;
mod normal;
mod point;
mod vector;

pub use normal::Normal3;
pub use point::{Point2, Point3};
pub use vector::{Vector2, Vector3};

verus! {

/// The sum of the products of corresponding coordinates, for each pair of
/// coordinate types between which it makes sense.
pub trait DotProduct<Rhs = Self> {
    type Output;

    /// When the dot product with `rhs` can be computed.
    spec fn dot_req(&self, rhs: &Rhs) -> bool;

    /// The dot product with `rhs`.
    spec fn dot_spec(&self, rhs: &Rhs) -> Self::Output;

    fn dot(&self, rhs: &Rhs) -> (r: Self::Output)
        requires
            self.dot_req(rhs),
        ensures
            r == self.dot_spec(rhs),
    ;
}

} // verus!
