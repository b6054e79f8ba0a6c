//! Affine transforms: a matrix together with its inverse.
//!
//! The two matrices of a transform are meant to be inverse to each other.
//! The closed-form constructors below supply both from a formula; for any
//! other matrix the inverse comes from a factorization that this crate does
//! not perform, and is handed in.
use crate::geom::{Normal3, Point3, Vector3};
use crate::math::{same_entries, Matrix4x4};
use crate::types::{one, one_spec, zero, zero_spec, Float, Scalar};
use std::ops::{Add, Div, Mul, Neg};
use vstd::prelude::*;
use vstd::std_specs::cmp::PartialEqSpec;
use vstd::std_specs::convert::{FromSpec, IntoSpec};
use vstd::std_specs::ops::{AddSpec, DivSpec, MulSpec, NegSpec, SubSpec};

pub mod laws;

verus! {

/// An affine map of space, kept with the map that undoes it.
pub struct Transform<T> {
    forward: Matrix4x4<T>,
    inverse: Matrix4x4<T>,
}

impl<T> Transform<T> {
    /// The matrix of the map.
    pub closed spec fn forward_matrix(self) -> Matrix4x4<T> {
        self.forward
    }

    /// The matrix of the map that undoes it.
    pub closed spec fn inverse_matrix(self) -> Matrix4x4<T> {
        self.inverse
    }
}

impl<T: Copy> Transform<T> {
    /// The transform with matrix `forward`, whose inverse a factorization has
    /// found to be `inverse`. A matrix without an inverse makes no transform:
    /// `inverse` must be there.
    pub fn new(forward: Matrix4x4<T>, inverse: Option<Matrix4x4<T>>) -> (t: Self)
        requires
            inverse is Some,
        ensures
            t.forward_matrix() == forward,
            Some(t.inverse_matrix()) == inverse,
    {
        Transform { forward, inverse: inverse.unwrap() }
    }

    /// The transform with the given matrix and inverse, taken on trust:
    /// nothing tests that the two are inverse to each other, and where they
    /// are not, what the transform later computes is wrong without notice.
    pub fn with_inverse_unchecked(forward: Matrix4x4<T>, inverse: Matrix4x4<T>) -> (t: Self)
        ensures
            t.forward_matrix() == forward,
            t.inverse_matrix() == inverse,
    {
        Transform { forward, inverse }
    }

    /// The matrix of the map.
    pub fn forward(&self) -> (m: &Matrix4x4<T>)
        ensures
            *m == self.forward_matrix(),
    {
        &self.forward
    }

    /// The inverse transform: the two matrices change places.
    pub fn inverse(&self) -> (t: Self)
        ensures
            t.forward_matrix() == self.inverse_matrix(),
            t.inverse_matrix() == self.forward_matrix(),
    {
        Self::with_inverse_unchecked(self.inverse, self.forward)
    }

    /// The inverse of the inverse is the transform itself.
    pub proof fn lemma_inverse_twice(self, once: Self, twice: Self)
        requires
            once.forward_matrix() == self.inverse_matrix(),
            once.inverse_matrix() == self.forward_matrix(),
            twice.forward_matrix() == once.inverse_matrix(),
            twice.inverse_matrix() == once.forward_matrix(),
        ensures
            twice == self,
    {
    }

    /// The transposed transform: each of the two matrices is transposed.
    pub fn transpose(&self) -> (t: Self)
        ensures
            t.forward_matrix()@ == self.forward_matrix().transpose_spec(),
            t.inverse_matrix()@ == self.inverse_matrix().transpose_spec(),
    {
        Self::with_inverse_unchecked(self.forward.transpose(), self.inverse.transpose())
    }
}

impl<T: Copy + From<i8> + PartialEq> Transform<T> {
    /// Whether the map leaves every point where it is: its matrix equals the
    /// identity matrix, entry by entry.
    pub fn is_identity(&self) -> (r: bool)
        ensures
            T::obeys_eq_spec() && T::obeys_from_spec() ==> r == same_entries(
                self.forward_matrix()@,
                Matrix4x4::<T>::identity_spec(),
            ),
    {
        let id = Matrix4x4::<T>::identity();
        self.forward == id
    }
}

/// The entries of the matrix that moves every point by `(x, y, z)`.
pub open spec fn translation_spec<T: From<i8>>(x: T, y: T, z: T) -> Seq<T> {
    let o = zero_spec::<T>();
    let l = one_spec::<T>();
    seq![
        l, o, o, x,
        o, l, o, y,
        o, o, l, z,
        o, o, o, l,
    ]
}

/// The entries of the matrix that turns space about the x axis by the angle
/// with the given sine and cosine.
pub open spec fn rotation_x_spec<T: From<i8> + Neg<Output = T>>(sin: T, cos: T) -> Seq<T> {
    let o = zero_spec::<T>();
    let l = one_spec::<T>();
    seq![
        l, o, o, o,
        o, cos, sin.neg_spec(), o,
        o, sin, cos, o,
        o, o, o, l,
    ]
}

/// The entries of the matrix that turns space about the y axis by the angle
/// with the given sine and cosine.
pub open spec fn rotation_y_spec<T: From<i8> + Neg<Output = T>>(sin: T, cos: T) -> Seq<T> {
    let o = zero_spec::<T>();
    let l = one_spec::<T>();
    seq![
        cos, o, sin, o,
        o, l, o, o,
        sin.neg_spec(), o, cos, o,
        o, o, o, l,
    ]
}

/// The entries of the matrix that turns space about the z axis by the angle
/// with the given sine and cosine.
pub open spec fn rotation_z_spec<T: From<i8> + Neg<Output = T>>(sin: T, cos: T) -> Seq<T> {
    let o = zero_spec::<T>();
    let l = one_spec::<T>();
    seq![
        cos, sin.neg_spec(), o, o,
        sin, cos, o, o,
        o, o, l, o,
        o, o, o, l,
    ]
}

impl<T: Copy + From<i8> + Neg<Output = T>> Transform<T> {
    /// The translation by `delta`. Its inverse is the translation by the
    /// opposite of `delta`.
    pub fn translate(delta: Vector3<T>) -> (t: Self)
        requires
            delta.neg_req(),
        ensures
            T::obeys_from_spec() ==> t.forward_matrix()@ == translation_spec(
                delta.x,
                delta.y,
                delta.z,
            ),
            T::obeys_from_spec() && T::obeys_neg_spec() ==> t.inverse_matrix()@
                == translation_spec(delta.x.neg_spec(), delta.y.neg_spec(), delta.z.neg_spec()),
    {
        let o = zero::<T>();
        let l = one::<T>();
        let (x, y, z) = (delta.x, delta.y, delta.z);
        let (nx, ny, nz) = (x.neg(), y.neg(), z.neg());
        Self::with_inverse_unchecked(
            Matrix4x4::new(
                l, o, o, x,
                o, l, o, y,
                o, o, l, z,
                o, o, o, l,
            ),
            Matrix4x4::new(
                l, o, o, nx,
                o, l, o, ny,
                o, o, l, nz,
                o, o, o, l,
            ),
        )
    }

    /// The rotation about the x axis by the angle whose sine is `sin` and
    /// whose cosine is `cos`. A rotation matrix is orthogonal, so its
    /// inverse is its transpose.
    pub fn rotate_x(sin: T, cos: T) -> (t: Self)
        requires
            sin.neg_req(),
        ensures
            T::obeys_from_spec() && T::obeys_neg_spec() ==> t.forward_matrix()@ == rotation_x_spec(
                sin,
                cos,
            ),
            t.inverse_matrix()@ == t.forward_matrix().transpose_spec(),
    {
        let o = zero::<T>();
        let l = one::<T>();
        let nsin = sin.neg();
        let mat = Matrix4x4::new(
            l, o, o, o,
            o, cos, nsin, o,
            o, sin, cos, o,
            o, o, o, l,
        );
        Self::with_inverse_unchecked(mat, mat.transpose())
    }

    /// The rotation about the y axis by the angle whose sine is `sin` and
    /// whose cosine is `cos`. Its inverse is its transpose.
    pub fn rotate_y(sin: T, cos: T) -> (t: Self)
        requires
            sin.neg_req(),
        ensures
            T::obeys_from_spec() && T::obeys_neg_spec() ==> t.forward_matrix()@ == rotation_y_spec(
                sin,
                cos,
            ),
            t.inverse_matrix()@ == t.forward_matrix().transpose_spec(),
    {
        let o = zero::<T>();
        let l = one::<T>();
        let nsin = sin.neg();
        let mat = Matrix4x4::new(
            cos, o, sin, o,
            o, l, o, o,
            nsin, o, cos, o,
            o, o, o, l,
        );
        Self::with_inverse_unchecked(mat, mat.transpose())
    }

    /// The rotation about the z axis by the angle whose sine is `sin` and
    /// whose cosine is `cos`. Its inverse is its transpose.
    pub fn rotate_z(sin: T, cos: T) -> (t: Self)
        requires
            sin.neg_req(),
        ensures
            T::obeys_from_spec() && T::obeys_neg_spec() ==> t.forward_matrix()@ == rotation_z_spec(
                sin,
                cos,
            ),
            t.inverse_matrix()@ == t.forward_matrix().transpose_spec(),
    {
        let o = zero::<T>();
        let l = one::<T>();
        let nsin = sin.neg();
        let mat = Matrix4x4::new(
            cos, nsin, o, o,
            sin, cos, o, o,
            o, o, l, o,
            o, o, o, l,
        );
        Self::with_inverse_unchecked(mat, mat.transpose())
    }
}

impl<T: Copy + From<i8> + Div<Output = T>> Transform<T> {
    /// The scaling by `x`, `y` and `z` along the three axes. Its inverse
    /// scales by their reciprocals, as the scalar's division yields them:
    /// for a scalar that can divide by zero, a factor of zero gives an
    /// inverse that is not finite.
    pub fn scale(x: T, y: T, z: T) -> (t: Self)
        requires
            T::obeys_from_spec(),
            one_spec::<T>().div_req(x),
            one_spec::<T>().div_req(y),
            one_spec::<T>().div_req(z),
        ensures
            t.forward_matrix()@ == Matrix4x4::<T>::diag_spec(x, y, z, one_spec::<T>()),
            T::obeys_div_spec() ==> t.inverse_matrix()@ == Matrix4x4::<T>::diag_spec(
                one_spec::<T>().div_spec(x),
                one_spec::<T>().div_spec(y),
                one_spec::<T>().div_spec(z),
                one_spec::<T>(),
            ),
    {
        let l = one::<T>();
        Self::with_inverse_unchecked(
            Matrix4x4::diag(x, y, z, l),
            Matrix4x4::diag(l / x, l / y, l / z, l),
        )
    }
}

/// The entries of the matrix that takes camera coordinates to world
/// coordinates, for a camera at `pos` whose axes in the world are `right`,
/// `up` and `dir`: the axes are its first three columns and `pos` is the
/// fourth.
pub open spec fn camera_matrix_spec<T: Scalar + From<i8>>(
    right: Vector3<T>,
    up: Vector3<T>,
    dir: Vector3<T>,
    pos: Point3<T>,
) -> Seq<T> {
    let o = zero_spec::<T>();
    let l = one_spec::<T>();
    seq![
        right.x, up.x, dir.x, pos.x,
        right.y, up.y, dir.y, pos.y,
        right.z, up.z, dir.z, pos.z,
        o, o, o, l,
    ]
}

impl<T: Scalar + Float + From<i8>> Transform<T> {
    /// When the axes of a camera at `pos` that looks at `look` can be
    /// computed: every difference, product and quotient on the way is
    /// defined, whatever the square roots come out as.
    pub open spec fn camera_req(pos: Point3<T>, look: Point3<T>, up: Vector3<T>) -> bool {
        let toward = look.sub_spec(pos);
        &&& T::obeys_sub_spec()
        &&& look.sub_req(pos)
        &&& toward.normalize_req()
        &&& up.normalize_req()
        &&& forall|dir: Vector3<T>, unit_up: Vector3<T>| #[trigger]
            toward.normalizes_to(dir) && #[trigger] up.normalizes_to(unit_up) ==> {
                &&& unit_up.cross_req(&dir)
                &&& unit_up.cross_spec(&dir).normalize_req()
                &&& forall|right: Vector3<T>| #[trigger]
                    unit_up.cross_spec(&dir).normalizes_to(right) ==> dir.cross_req(&right)
            }
    }

    /// Whether `right`, `new_up` and `dir` can be the axes of a camera at
    /// `pos` that looks at `look` with `up` roughly upward: `dir` is the
    /// normalized direction from `pos` to `look`, `right` the normalized
    /// cross product of the normalized `up` with `dir`, and `new_up` the
    /// cross product of `dir` with `right`.
    pub open spec fn is_camera_basis(
        pos: Point3<T>,
        look: Point3<T>,
        up: Vector3<T>,
        right: Vector3<T>,
        new_up: Vector3<T>,
        dir: Vector3<T>,
    ) -> bool {
        &&& look.sub_spec(pos).normalizes_to(dir)
        &&& exists|unit_up: Vector3<T>| #[trigger]
            up.normalizes_to(unit_up) && unit_up.cross_spec(&dir).normalizes_to(right)
        &&& new_up == dir.cross_spec(&right)
    }

    /// The matrix that takes the coordinates of a camera to those of the
    /// world. The camera stands at `pos` and looks at `look`; `up` says
    /// which way is up for it and need not be perpendicular to the line of
    /// sight.
    pub fn camera_to_world(pos: &Point3<T>, look: &Point3<T>, up: &Vector3<T>) -> (m: Matrix4x4<T>)
        requires
            Self::camera_req(*pos, *look, *up),
        ensures
            T::obeys_from_spec() ==> exists|right: Vector3<T>, new_up: Vector3<T>, dir: Vector3<T>|
                {
                    &&& #[trigger] Self::is_camera_basis(*pos, *look, *up, right, new_up, dir)
                    &&& m@ == camera_matrix_spec(right, new_up, dir, *pos)
                },
    {
        let dir = (*look - *pos).normalize();
        let unit_up = up.normalize();
        let right = unit_up.cross(&dir).normalize();
        let new_up = dir.cross(&right);
        let o = zero::<T>();
        let l = one::<T>();
        let m = Matrix4x4::new(
            right.x, new_up.x, dir.x, pos.x,
            right.y, new_up.y, dir.y, pos.y,
            right.z, new_up.z, dir.z, pos.z,
            o, o, o, l,
        );
        assert(Self::is_camera_basis(*pos, *look, *up, right, new_up, dir));
        m
    }

    /// The transform that takes world coordinates to those of a camera,
    /// from the camera's matrix (see [`Transform::camera_to_world`]) and
    /// the inverse that a factorization found for it. The camera's matrix
    /// is the inverse of the result. Where the factorization found no
    /// inverse, the camera's axes are degenerate and there is no such
    /// transform: `inverse` must be there.
    pub fn look_at(camera_to_world: Matrix4x4<T>, inverse: Option<Matrix4x4<T>>) -> (t: Self)
        requires
            inverse is Some,
        ensures
            Some(t.forward_matrix()) == inverse,
            t.inverse_matrix() == camera_to_world,
    {
        Self::new(camera_to_world, inverse).inverse()
    }
}

/// `a * x + b * y + c * z`, summed from the left.
pub open spec fn linear_row_spec<T: Add<Output = T> + Mul<Output = T>>(
    a: T,
    b: T,
    c: T,
    x: T,
    y: T,
    z: T,
) -> T {
    a.mul_spec(x).add_spec(b.mul_spec(y)).add_spec(c.mul_spec(z))
}

/// When `a * x + b * y + c * z` can be computed.
pub open spec fn linear_row_req<T: Add<Output = T> + Mul<Output = T>>(
    a: T,
    b: T,
    c: T,
    x: T,
    y: T,
    z: T,
) -> bool {
    &&& T::obeys_add_spec()
    &&& T::obeys_mul_spec()
    &&& a.mul_req(x)
    &&& b.mul_req(y)
    &&& c.mul_req(z)
    &&& a.mul_spec(x).add_req(b.mul_spec(y))
    &&& a.mul_spec(x).add_spec(b.mul_spec(y)).add_req(c.mul_spec(z))
}

/// `a * x + b * y + c * z + d`, summed from the left.
pub open spec fn affine_row_spec<T: Add<Output = T> + Mul<Output = T>>(
    a: T,
    b: T,
    c: T,
    d: T,
    x: T,
    y: T,
    z: T,
) -> T {
    linear_row_spec(a, b, c, x, y, z).add_spec(d)
}

/// When `a * x + b * y + c * z + d` can be computed.
pub open spec fn affine_row_req<T: Add<Output = T> + Mul<Output = T>>(
    a: T,
    b: T,
    c: T,
    d: T,
    x: T,
    y: T,
    z: T,
) -> bool {
    &&& linear_row_req(a, b, c, x, y, z)
    &&& linear_row_spec(a, b, c, x, y, z).add_req(d)
}

fn linear_row<T: Copy + Add<Output = T> + Mul<Output = T>>(
    a: T,
    b: T,
    c: T,
    x: T,
    y: T,
    z: T,
) -> (r: T)
    requires
        linear_row_req(a, b, c, x, y, z),
    ensures
        r == linear_row_spec(a, b, c, x, y, z),
{
    a * x + b * y + c * z
}

fn affine_row<T: Copy + Add<Output = T> + Mul<Output = T>>(
    a: T,
    b: T,
    c: T,
    d: T,
    x: T,
    y: T,
    z: T,
) -> (r: T)
    requires
        affine_row_req(a, b, c, d, x, y, z),
    ensures
        r == affine_row_spec(a, b, c, d, x, y, z),
{
    a * x + b * y + c * z + d
}

impl<T: Copy + Add<Output = T> + Mul<Output = T>> Matrix4x4<T> {
    /// Row `i` of the matrix applied to the homogeneous point
    /// `(x, y, z, 1)`.
    pub open spec fn affine_row(self, i: int, x: T, y: T, z: T) -> T {
        affine_row_spec(self.at(i, 0), self.at(i, 1), self.at(i, 2), self.at(i, 3), x, y, z)
    }

    /// When row `i` can be applied to the homogeneous point `(x, y, z, 1)`.
    pub open spec fn affine_row_req(self, i: int, x: T, y: T, z: T) -> bool {
        affine_row_req(self.at(i, 0), self.at(i, 1), self.at(i, 2), self.at(i, 3), x, y, z)
    }

    /// Row `i` of the matrix applied to the direction `(x, y, z, 0)`.
    pub open spec fn linear_row(self, i: int, x: T, y: T, z: T) -> T {
        linear_row_spec(self.at(i, 0), self.at(i, 1), self.at(i, 2), x, y, z)
    }

    /// When row `i` can be applied to the direction `(x, y, z, 0)`.
    pub open spec fn linear_row_req(self, i: int, x: T, y: T, z: T) -> bool {
        linear_row_req(self.at(i, 0), self.at(i, 1), self.at(i, 2), x, y, z)
    }

    /// Column `j` of the matrix applied to the direction `(x, y, z, 0)`:
    /// row `j` of the transpose.
    pub open spec fn linear_column(self, j: int, x: T, y: T, z: T) -> T {
        linear_row_spec(self.at(0, j), self.at(1, j), self.at(2, j), x, y, z)
    }

    /// When column `j` can be applied to the direction `(x, y, z, 0)`.
    pub open spec fn linear_column_req(self, j: int, x: T, y: T, z: T) -> bool {
        linear_row_req(self.at(0, j), self.at(1, j), self.at(2, j), x, y, z)
    }
}

impl<T: Scalar + From<i8> + Add<Output = T> + Mul<Output = T> + Div<Output = T>> Transform<T> {
    /// When the map can be applied to the position `(x, y, z)`: the four
    /// rows can be, and where the fourth does not come out as one, the
    /// other three can be divided by it.
    pub open spec fn position_req(self, x: T, y: T, z: T) -> bool {
        let m = self.forward_matrix();
        let w = m.affine_row(3, x, y, z);
        &&& T::obeys_from_spec()
        &&& T::obeys_eq_spec()
        &&& m.affine_row_req(0, x, y, z)
        &&& m.affine_row_req(1, x, y, z)
        &&& m.affine_row_req(2, x, y, z)
        &&& m.affine_row_req(3, x, y, z)
        &&& !w.eq_spec(&one_spec::<T>()) ==> {
            &&& T::obeys_div_spec()
            &&& m.affine_row(0, x, y, z).div_req(w)
            &&& m.affine_row(1, x, y, z).div_req(w)
            &&& m.affine_row(2, x, y, z).div_req(w)
        }
    }

    /// The image of the position `(x, y, z)`: the first three rows of the
    /// matrix applied to `(x, y, z, 1)`, each divided by what the fourth row
    /// gives unless that is exactly one.
    pub open spec fn position_image(self, x: T, y: T, z: T) -> (T, T, T) {
        let m = self.forward_matrix();
        let xp = m.affine_row(0, x, y, z);
        let yp = m.affine_row(1, x, y, z);
        let zp = m.affine_row(2, x, y, z);
        let w = m.affine_row(3, x, y, z);
        if w.eq_spec(&one_spec::<T>()) {
            (xp, yp, zp)
        } else {
            (xp.div_spec(w), yp.div_spec(w), zp.div_spec(w))
        }
    }

    fn map_position(&self, x: T, y: T, z: T) -> (image: (T, T, T))
        requires
            self.position_req(x, y, z),
        ensures
            image == self.position_image(x, y, z),
    {
        let m = &self.forward;
        let xp = affine_row(m.get(0, 0), m.get(0, 1), m.get(0, 2), m.get(0, 3), x, y, z);
        let yp = affine_row(m.get(1, 0), m.get(1, 1), m.get(1, 2), m.get(1, 3), x, y, z);
        let zp = affine_row(m.get(2, 0), m.get(2, 1), m.get(2, 2), m.get(2, 3), x, y, z);
        let wp = affine_row(m.get(3, 0), m.get(3, 1), m.get(3, 2), m.get(3, 3), x, y, z);
        if wp == one::<T>() {
            (xp, yp, zp)
        } else {
            (xp / wp, yp / wp, zp / wp)
        }
    }

    /// Applies the map to anything that can be taken apart into three
    /// coordinates and put together from them, treating it as a position.
    pub fn transform<P: Into<(T, T, T)> + From<(T, T, T)>>(&self, src: P) -> (image: P)
        requires
            P::obeys_into_spec(),
            self.position_req(src.into_spec().0, src.into_spec().1, src.into_spec().2),
        ensures
            P::obeys_from_spec() ==> image == P::from_spec(
                self.position_image(src.into_spec().0, src.into_spec().1, src.into_spec().2),
            ),
    {
        let (x, y, z) = src.into();
        P::from(self.map_position(x, y, z))
    }

    /// The image of the point `p`. A point is moved by the whole map,
    /// translation included.
    pub fn transform_point(&self, p: Point3<T>) -> (image: Point3<T>)
        requires
            self.position_req(p.x, p.y, p.z),
        ensures
            (image.x, image.y, image.z) == self.position_image(p.x, p.y, p.z),
    {
        let (x, y, z) = self.map_position(p.x, p.y, p.z);
        Point3 { x, y, z }
    }
}

impl<T: Copy + Add<Output = T> + Mul<Output = T>> Transform<T> {
    /// The image of the vector `v`. A vector has no position: it goes by
    /// the linear part of the map alone, and a translation leaves it as it
    /// is.
    pub fn transform_vector(&self, v: Vector3<T>) -> (image: Vector3<T>)
        requires
            self.forward_matrix().linear_row_req(0, v.x, v.y, v.z),
            self.forward_matrix().linear_row_req(1, v.x, v.y, v.z),
            self.forward_matrix().linear_row_req(2, v.x, v.y, v.z),
        ensures
            image.x == self.forward_matrix().linear_row(0, v.x, v.y, v.z),
            image.y == self.forward_matrix().linear_row(1, v.x, v.y, v.z),
            image.z == self.forward_matrix().linear_row(2, v.x, v.y, v.z),
    {
        let m = &self.forward;
        Vector3 {
            x: linear_row(m.get(0, 0), m.get(0, 1), m.get(0, 2), v.x, v.y, v.z),
            y: linear_row(m.get(1, 0), m.get(1, 1), m.get(1, 2), v.x, v.y, v.z),
            z: linear_row(m.get(2, 0), m.get(2, 1), m.get(2, 2), v.x, v.y, v.z),
        }
    }

}

impl<T: Scalar + Add<Output = T> + Mul<Output = T>> Transform<T> {
    /// The image of the normal `n`. A normal goes by the transpose of the
    /// inverse of the linear part, which keeps it perpendicular to the
    /// surface it belongs to.
    pub fn transform_normal(&self, n: Normal3<T>) -> (image: Normal3<T>)
        requires
            self.inverse_matrix().linear_column_req(0, n.x, n.y, n.z),
            self.inverse_matrix().linear_column_req(1, n.x, n.y, n.z),
            self.inverse_matrix().linear_column_req(2, n.x, n.y, n.z),
        ensures
            image.x == self.inverse_matrix().linear_column(0, n.x, n.y, n.z),
            image.y == self.inverse_matrix().linear_column(1, n.x, n.y, n.z),
            image.z == self.inverse_matrix().linear_column(2, n.x, n.y, n.z),
    {
        let m = &self.inverse;
        Normal3 {
            x: linear_row(m.get(0, 0), m.get(1, 0), m.get(2, 0), n.x, n.y, n.z),
            y: linear_row(m.get(0, 1), m.get(1, 1), m.get(2, 1), n.x, n.y, n.z),
            z: linear_row(m.get(0, 2), m.get(1, 2), m.get(2, 2), n.x, n.y, n.z),
        }
    }
}

} // verus!
