//! Laws of transforms over the signed integers, whose arithmetic is exact:
//! the closed-form constructors give two matrices that are inverse to each
//! other, and the operations on transforms keep them so.
use super::{rotation_x_spec, rotation_y_spec, rotation_z_spec, translation_spec, Transform};
use crate::geom::{Point3, Vector3};
use crate::math::algebra::{
    dot3, identity, inverse_pair, keeps_directions, lemma_inverse_pair_symmetric,
    lemma_normal_image_keeps_dot, lemma_transposes_of_inverse_pair, product, transpose,
};
use crate::math::Matrix4x4;
use super::{affine_row_req, affine_row_spec, linear_row_req, linear_row_spec};
use crate::geom::Normal3;
use crate::types::{has_units, one_spec, representable, zero_spec, Scalar, Signed};
use std::ops::Div;
use vstd::prelude::*;
use vstd::std_specs::convert::FromSpec;
use vstd::std_specs::ops::{AddSpec, MulSpec, NegSpec};

verus! {

/// Products with zero and with one.
proof fn lemma_units()
    ensures
        forall|x: int, y: int| y == 0 ==> #[trigger] (x * y) == 0,
        forall|x: int, y: int| x == 0 ==> #[trigger] (x * y) == 0,
        forall|x: int, y: int| y == 1 ==> #[trigger] (x * y) == x,
        forall|x: int, y: int| x == 1 ==> #[trigger] (x * y) == y,
{
    assert forall|x: int, y: int| y == 0 implies #[trigger] (x * y) == 0 by {
        assert(x * 0 == 0) by (nonlinear_arith);
    }
    assert forall|x: int, y: int| x == 0 implies #[trigger] (x * y) == 0 by {
        assert(0 * y == 0) by (nonlinear_arith);
    }
    assert forall|x: int, y: int| y == 1 implies #[trigger] (x * y) == x by {
        assert(x * 1 == x) by (nonlinear_arith);
    }
    assert forall|x: int, y: int| x == 1 implies #[trigger] (x * y) == y by {
        assert(1 * y == y) by (nonlinear_arith);
    }
}

/// Whether `a x + b y + c z` can be computed from the left without leaving
/// the range of `T`.
pub open spec fn linear_row_fits<T: Signed>(
    a: int,
    b: int,
    c: int,
    x: int,
    y: int,
    z: int,
) -> bool {
    &&& representable::<T>(a * x)
    &&& representable::<T>(b * y)
    &&& representable::<T>(c * z)
    &&& representable::<T>(a * x + b * y)
    &&& representable::<T>(a * x + b * y + c * z)
}

/// A row can be applied to a direction exactly when no product and no
/// partial sum leaves the range, and then computes `a x + b y + c z` over
/// the integers.
pub proof fn lemma_linear_row<T: Signed>(a: T, b: T, c: T, x: T, y: T, z: T)
    ensures
        linear_row_req(a, b, c, x, y, z) <==> linear_row_fits::<T>(
            a.as_int(),
            b.as_int(),
            c.as_int(),
            x.as_int(),
            y.as_int(),
            z.as_int(),
        ),
        linear_row_req(a, b, c, x, y, z) ==> linear_row_spec(a, b, c, x, y, z).as_int()
            == a.as_int() * x.as_int() + b.as_int() * y.as_int() + c.as_int() * z.as_int(),
{
    T::lemma_mul(a, x);
    T::lemma_mul(b, y);
    T::lemma_mul(c, z);
    T::lemma_add(a.mul_spec(x), b.mul_spec(y));
    T::lemma_add(a.mul_spec(x).add_spec(b.mul_spec(y)), c.mul_spec(z));
}

/// A row can be applied to a position exactly when no product and no
/// partial sum leaves the range, and then computes `a x + b y + c z + d`
/// over the integers.
pub proof fn lemma_affine_row<T: Signed>(a: T, b: T, c: T, d: T, x: T, y: T, z: T)
    ensures
        affine_row_req(a, b, c, d, x, y, z) <==> {
            &&& linear_row_fits::<T>(
                a.as_int(),
                b.as_int(),
                c.as_int(),
                x.as_int(),
                y.as_int(),
                z.as_int(),
            )
            &&& representable::<T>(
                a.as_int() * x.as_int() + b.as_int() * y.as_int() + c.as_int() * z.as_int()
                    + d.as_int(),
            )
        },
        affine_row_req(a, b, c, d, x, y, z) ==> affine_row_spec(a, b, c, d, x, y, z).as_int()
            == a.as_int() * x.as_int() + b.as_int() * y.as_int() + c.as_int() * z.as_int()
            + d.as_int(),
{
    lemma_linear_row(a, b, c, x, y, z);
    T::lemma_add(linear_row_spec(a, b, c, x, y, z), d);
}

/// What the sine and cosine of a rotation, and the opposite `n` of the
/// sine, give in the products of the rotation's matrix with its transpose.
proof fn lemma_turn(s: int, c: int, n: int)
    requires
        n == -s,
        s * s + c * c == 1,
    ensures
        c * c + n * n == 1,
        c * s + n * c == 0,
        s * c + c * n == 0,
        c * c + s * s == 1,
        c * n + s * c == 0,
        n * c + c * s == 0,
        n * n + c * c == 1,
{
    assert(c * c + n * n == 1) by (nonlinear_arith)
        requires
            n == -s,
            s * s + c * c == 1,
    ;
    assert(c * s + n * c == 0) by (nonlinear_arith)
        requires
            n == -s,
    ;
    assert(s * c + c * n == 0) by (nonlinear_arith)
        requires
            n == -s,
    ;
    assert(c * n + s * c == 0) by (nonlinear_arith)
        requires
            n == -s,
    ;
    assert(n * c + c * s == 0) by (nonlinear_arith)
        requires
            n == -s,
    ;
    assert(n * n + c * c == 1) by (nonlinear_arith)
        requires
            n == -s,
            s * s + c * c == 1,
    ;
}

impl<T: Signed> Transform<T> {
    /// Whether the two matrices of the transform are inverse to each other.
    pub open spec fn is_consistent(self) -> bool {
        inverse_pair(self.forward_matrix().as_ints(), self.inverse_matrix().as_ints())
    }

    /// The inverse of a consistent transform is consistent.
    pub proof fn lemma_inverse_is_consistent(self, inv: Self)
        requires
            self.is_consistent(),
            inv.forward_matrix() == self.inverse_matrix(),
            inv.inverse_matrix() == self.forward_matrix(),
        ensures
            inv.is_consistent(),
    {
        lemma_inverse_pair_symmetric(
            self.forward_matrix().as_ints(),
            self.inverse_matrix().as_ints(),
        );
    }

    /// The transpose of a consistent transform is consistent.
    pub proof fn lemma_transpose_is_consistent(self, tr: Self)
        requires
            self.is_consistent(),
            tr.forward_matrix()@ == self.forward_matrix().transpose_spec(),
            tr.inverse_matrix()@ == self.inverse_matrix().transpose_spec(),
        ensures
            tr.is_consistent(),
    {
        let f = self.forward_matrix().as_ints();
        let i = self.inverse_matrix().as_ints();
        lemma_transposes_of_inverse_pair(f, i);
        assert(tr.forward_matrix().as_ints() =~= transpose(f));
        assert(tr.inverse_matrix().as_ints() =~= transpose(i));
    }
}

impl<T: Signed + From<i8>> Transform<T> {
    /// A translation and the translation by the opposite vector are inverse
    /// to each other.
    pub proof fn lemma_translate_is_consistent(self, delta: Vector3<T>)
        requires
            has_units::<T>(),
            delta.neg_req(),
            self.forward_matrix()@ == translation_spec(delta.x, delta.y, delta.z),
            self.inverse_matrix()@ == translation_spec(
                delta.x.neg_spec(),
                delta.y.neg_spec(),
                delta.z.neg_spec(),
            ),
        ensures
            self.is_consistent(),
    {
        T::lemma_neg(delta.x);
        T::lemma_neg(delta.y);
        T::lemma_neg(delta.z);
        lemma_units();
        let f = self.forward_matrix().as_ints();
        let i = self.inverse_matrix().as_ints();
        assert(product(f, i) =~= identity());
        assert(product(i, f) =~= identity());
    }

    /// A rotation about the x axis and its transpose are inverse to each
    /// other, for a sine and a cosine whose squares add up to one.
    pub proof fn lemma_rotate_x_is_consistent(self, sin: T, cos: T)
        requires
            has_units::<T>(),
            sin.neg_req(),
            sin.as_int() * sin.as_int() + cos.as_int() * cos.as_int() == 1,
            self.forward_matrix()@ == rotation_x_spec(sin, cos),
            self.inverse_matrix()@ == self.forward_matrix().transpose_spec(),
        ensures
            self.is_consistent(),
    {
        T::lemma_neg(sin);
        lemma_units();
        lemma_turn(sin.as_int(), cos.as_int(), sin.neg_spec().as_int());
        let f = self.forward_matrix().as_ints();
        let i = self.inverse_matrix().as_ints();
        assert(i =~= transpose(f));
        assert(product(f, i) =~= identity());
        assert(product(i, f) =~= identity());
    }

    /// A rotation about the y axis and its transpose are inverse to each
    /// other, for a sine and a cosine whose squares add up to one.
    pub proof fn lemma_rotate_y_is_consistent(self, sin: T, cos: T)
        requires
            has_units::<T>(),
            sin.neg_req(),
            sin.as_int() * sin.as_int() + cos.as_int() * cos.as_int() == 1,
            self.forward_matrix()@ == rotation_y_spec(sin, cos),
            self.inverse_matrix()@ == self.forward_matrix().transpose_spec(),
        ensures
            self.is_consistent(),
    {
        T::lemma_neg(sin);
        lemma_units();
        lemma_turn(sin.as_int(), cos.as_int(), sin.neg_spec().as_int());
        let f = self.forward_matrix().as_ints();
        let i = self.inverse_matrix().as_ints();
        assert(i =~= transpose(f));
        assert(product(f, i) =~= identity());
        assert(product(i, f) =~= identity());
    }

    /// A rotation about the z axis and its transpose are inverse to each
    /// other, for a sine and a cosine whose squares add up to one.
    pub proof fn lemma_rotate_z_is_consistent(self, sin: T, cos: T)
        requires
            has_units::<T>(),
            sin.neg_req(),
            sin.as_int() * sin.as_int() + cos.as_int() * cos.as_int() == 1,
            self.forward_matrix()@ == rotation_z_spec(sin, cos),
            self.inverse_matrix()@ == self.forward_matrix().transpose_spec(),
        ensures
            self.is_consistent(),
    {
        T::lemma_neg(sin);
        lemma_units();
        lemma_turn(sin.as_int(), cos.as_int(), sin.neg_spec().as_int());
        let f = self.forward_matrix().as_ints();
        let i = self.inverse_matrix().as_ints();
        assert(i =~= transpose(f));
        assert(product(f, i) =~= identity());
        assert(product(i, f) =~= identity());
    }

    /// A scaling and the scaling by `rx`, `ry` and `rz` are inverse to each
    /// other where these are the reciprocals of the factors. Among the
    /// integers only 1 and -1 have one.
    pub proof fn lemma_scale_is_consistent(self, x: T, y: T, z: T, rx: T, ry: T, rz: T)
        requires
            has_units::<T>(),
            x.as_int() * rx.as_int() == 1,
            y.as_int() * ry.as_int() == 1,
            z.as_int() * rz.as_int() == 1,
            self.forward_matrix()@ == Matrix4x4::<T>::diag_spec(x, y, z, one_spec::<T>()),
            self.inverse_matrix()@ == Matrix4x4::<T>::diag_spec(rx, ry, rz, one_spec::<T>()),
        ensures
            self.is_consistent(),
    {
        lemma_units();
        assert(rx.as_int() * x.as_int() == 1) by (nonlinear_arith)
            requires
                x.as_int() * rx.as_int() == 1,
        ;
        assert(ry.as_int() * y.as_int() == 1) by (nonlinear_arith)
            requires
                y.as_int() * ry.as_int() == 1,
        ;
        assert(rz.as_int() * z.as_int() == 1) by (nonlinear_arith)
            requires
                z.as_int() * rz.as_int() == 1,
        ;
        let f = self.forward_matrix().as_ints();
        let i = self.inverse_matrix().as_ints();
        assert(product(f, i) =~= identity());
        assert(product(i, f) =~= identity());
    }

    /// A translation leaves every vector as it is.
    pub proof fn lemma_translate_keeps_vectors(self, delta: Vector3<T>, v: Vector3<T>)
        requires
            has_units::<T>(),
            self.forward_matrix()@ == translation_spec(delta.x, delta.y, delta.z),
        ensures
            self.forward_matrix().linear_row_req(0, v.x, v.y, v.z),
            self.forward_matrix().linear_row_req(1, v.x, v.y, v.z),
            self.forward_matrix().linear_row_req(2, v.x, v.y, v.z),
            self.forward_matrix().linear_row(0, v.x, v.y, v.z) == v.x,
            self.forward_matrix().linear_row(1, v.x, v.y, v.z) == v.y,
            self.forward_matrix().linear_row(2, v.x, v.y, v.z) == v.z,
    {
        let o = zero_spec::<T>();
        let l = one_spec::<T>();
        lemma_units();
        T::lemma_range(v.x);
        T::lemma_range(v.y);
        T::lemma_range(v.z);
        lemma_linear_row(l, o, o, v.x, v.y, v.z);
        lemma_linear_row(o, l, o, v.x, v.y, v.z);
        lemma_linear_row(o, o, l, v.x, v.y, v.z);
        T::lemma_injective(linear_row_spec(l, o, o, v.x, v.y, v.z), v.x);
        T::lemma_injective(linear_row_spec(o, l, o, v.x, v.y, v.z), v.y);
        T::lemma_injective(linear_row_spec(o, o, l, v.x, v.y, v.z), v.z);
    }
}

impl<T: Scalar + Signed + From<i8>> Transform<T> {
    /// A translation leaves every normal as it is.
    pub proof fn lemma_translate_keeps_normals(self, delta: Vector3<T>, n: Normal3<T>)
        requires
            has_units::<T>(),
            self.inverse_matrix()@ == translation_spec(delta.x, delta.y, delta.z),
        ensures
            self.inverse_matrix().linear_column_req(0, n.x, n.y, n.z),
            self.inverse_matrix().linear_column_req(1, n.x, n.y, n.z),
            self.inverse_matrix().linear_column_req(2, n.x, n.y, n.z),
            self.inverse_matrix().linear_column(0, n.x, n.y, n.z) == n.x,
            self.inverse_matrix().linear_column(1, n.x, n.y, n.z) == n.y,
            self.inverse_matrix().linear_column(2, n.x, n.y, n.z) == n.z,
    {
        let o = zero_spec::<T>();
        let l = one_spec::<T>();
        lemma_units();
        T::lemma_range(n.x);
        T::lemma_range(n.y);
        T::lemma_range(n.z);
        lemma_linear_row(l, o, o, n.x, n.y, n.z);
        lemma_linear_row(o, l, o, n.x, n.y, n.z);
        lemma_linear_row(o, o, l, n.x, n.y, n.z);
        T::lemma_injective(linear_row_spec(l, o, o, n.x, n.y, n.z), n.x);
        T::lemma_injective(linear_row_spec(o, l, o, n.x, n.y, n.z), n.y);
        T::lemma_injective(linear_row_spec(o, o, l, n.x, n.y, n.z), n.z);
    }
}

impl<T: Scalar + Signed> Transform<T> {
    /// The inverse-transpose rule: under a consistent transform that takes
    /// directions to directions, the image of a normal and the image of a
    /// vector have the dot product of the normal and the vector. A normal
    /// that is perpendicular to a surface stays perpendicular to its image.
    pub proof fn lemma_normals_stay_perpendicular(self, n: Normal3<T>, v: Vector3<T>)
        requires
            self.is_consistent(),
            keeps_directions(self.forward_matrix().as_ints()),
            self.forward_matrix().linear_row_req(0, v.x, v.y, v.z),
            self.forward_matrix().linear_row_req(1, v.x, v.y, v.z),
            self.forward_matrix().linear_row_req(2, v.x, v.y, v.z),
            self.inverse_matrix().linear_column_req(0, n.x, n.y, n.z),
            self.inverse_matrix().linear_column_req(1, n.x, n.y, n.z),
            self.inverse_matrix().linear_column_req(2, n.x, n.y, n.z),
        ensures
            dot3(
                (
                    self.inverse_matrix().linear_column(0, n.x, n.y, n.z).as_int(),
                    self.inverse_matrix().linear_column(1, n.x, n.y, n.z).as_int(),
                    self.inverse_matrix().linear_column(2, n.x, n.y, n.z).as_int(),
                ),
                (
                    self.forward_matrix().linear_row(0, v.x, v.y, v.z).as_int(),
                    self.forward_matrix().linear_row(1, v.x, v.y, v.z).as_int(),
                    self.forward_matrix().linear_row(2, v.x, v.y, v.z).as_int(),
                ),
            ) == dot3(
                (n.x.as_int(), n.y.as_int(), n.z.as_int()),
                (v.x.as_int(), v.y.as_int(), v.z.as_int()),
            ),
    {
        let f = self.forward_matrix();
        let i = self.inverse_matrix();
        lemma_linear_row(f.at(0, 0), f.at(0, 1), f.at(0, 2), v.x, v.y, v.z);
        lemma_linear_row(f.at(1, 0), f.at(1, 1), f.at(1, 2), v.x, v.y, v.z);
        lemma_linear_row(f.at(2, 0), f.at(2, 1), f.at(2, 2), v.x, v.y, v.z);
        lemma_linear_row(i.at(0, 0), i.at(1, 0), i.at(2, 0), n.x, n.y, n.z);
        lemma_linear_row(i.at(0, 1), i.at(1, 1), i.at(2, 1), n.x, n.y, n.z);
        lemma_linear_row(i.at(0, 2), i.at(1, 2), i.at(2, 2), n.x, n.y, n.z);
        lemma_normal_image_keeps_dot(
            f.as_ints(),
            i.as_ints(),
            (n.x.as_int(), n.y.as_int(), n.z.as_int()),
            (v.x.as_int(), v.y.as_int(), v.z.as_int()),
        );
    }
}

impl<T: Scalar + Signed + From<i8> + Div<Output = T>> Transform<T> {
    /// A translation by `delta` moves every point `p` to `p + delta`.
    pub proof fn lemma_translate_moves_points(self, delta: Vector3<T>, p: Point3<T>)
        requires
            has_units::<T>(),
            self.forward_matrix()@ == translation_spec(delta.x, delta.y, delta.z),
            p.add_req(delta),
        ensures
            self.position_req(p.x, p.y, p.z),
            self.position_image(p.x, p.y, p.z) == (
                p.add_spec(delta).x,
                p.add_spec(delta).y,
                p.add_spec(delta).z,
            ),
    {
        let o = zero_spec::<T>();
        let l = one_spec::<T>();
        lemma_units();
        T::lemma_range(p.x);
        T::lemma_range(p.y);
        T::lemma_range(p.z);
        T::lemma_add(p.x, delta.x);
        T::lemma_add(p.y, delta.y);
        T::lemma_add(p.z, delta.z);
        lemma_affine_row(l, o, o, delta.x, p.x, p.y, p.z);
        lemma_affine_row(o, l, o, delta.y, p.x, p.y, p.z);
        lemma_affine_row(o, o, l, delta.z, p.x, p.y, p.z);
        lemma_affine_row(o, o, o, l, p.x, p.y, p.z);
        let w = affine_row_spec(o, o, o, l, p.x, p.y, p.z);
        T::lemma_injective(w, l);
        T::lemma_eq(w, l);
        let xp = affine_row_spec(l, o, o, delta.x, p.x, p.y, p.z);
        let yp = affine_row_spec(o, l, o, delta.y, p.x, p.y, p.z);
        let zp = affine_row_spec(o, o, l, delta.z, p.x, p.y, p.z);
        T::lemma_injective(xp, p.x.add_spec(delta.x));
        T::lemma_injective(yp, p.y.add_spec(delta.y));
        T::lemma_injective(zp, p.z.add_spec(delta.z));
    }
}

} // verus!
