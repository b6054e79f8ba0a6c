//! Algebraic laws of the coordinate types over the signed integers, whose
//! arithmetic is exact. Each law holds wherever the operations it names are
//! defined, that is, wherever no coordinate leaves the scalar's range.
use super::{DotProduct, Normal3, Point2, Point3, Vector2, Vector3};
use crate::math::Lerp;
use crate::types::{has_units, one_spec, zero_spec, Scalar, Signed};
use vstd::prelude::*;
use vstd::std_specs::convert::FromSpec;
use vstd::std_specs::ops::{AddSpec, MulSpec, NegSpec, SubSpec};

verus! {

/// Adding a scalar and taking it away again gives back the first.
pub proof fn lemma_scalar_add_then_sub<T: Signed>(a: T, b: T)
    requires
        a.add_req(b),
    ensures
        a.add_spec(b).sub_req(b),
        a.add_spec(b).sub_spec(b) == a,
{
    T::lemma_add(a, b);
    T::lemma_sub(a.add_spec(b), b);
    T::lemma_range(a);
    T::lemma_injective(a.add_spec(b).sub_spec(b), a);
}

/// Taking a scalar away and adding it again gives back the first.
pub proof fn lemma_scalar_sub_then_add<T: Signed>(a: T, b: T)
    requires
        a.sub_req(b),
    ensures
        a.sub_spec(b).add_req(b),
        a.sub_spec(b).add_spec(b) == a,
{
    T::lemma_sub(a, b);
    T::lemma_add(a.sub_spec(b), b);
    T::lemma_range(a);
    T::lemma_injective(a.sub_spec(b).add_spec(b), a);
}

/// The sum of two vectors has, coordinate by coordinate, the sum of their
/// coordinates.
pub proof fn lemma_vector2_add_is_componentwise<T: Signed>(v0: Vector2<T>, v1: Vector2<T>)
    requires
        v0.add_req(v1),
    ensures
        v0.add_spec(v1).x.as_int() == v0.x.as_int() + v1.x.as_int(),
        v0.add_spec(v1).y.as_int() == v0.y.as_int() + v1.y.as_int(),
{
    T::lemma_add(v0.x, v1.x);
    T::lemma_add(v0.y, v1.y);
}

/// The sum of two vectors has, coordinate by coordinate, the sum of their
/// coordinates.
pub proof fn lemma_vector3_add_is_componentwise<T: Signed>(v0: Vector3<T>, v1: Vector3<T>)
    requires
        v0.add_req(v1),
    ensures
        v0.add_spec(v1).x.as_int() == v0.x.as_int() + v1.x.as_int(),
        v0.add_spec(v1).y.as_int() == v0.y.as_int() + v1.y.as_int(),
        v0.add_spec(v1).z.as_int() == v0.z.as_int() + v1.z.as_int(),
{
    T::lemma_add(v0.x, v1.x);
    T::lemma_add(v0.y, v1.y);
    T::lemma_add(v0.z, v1.z);
}

/// `-` undoes `+`: `(v0 + v1) - v1 == v0`.
pub proof fn lemma_vector2_add_then_sub<T: Signed>(v0: Vector2<T>, v1: Vector2<T>)
    requires
        v0.add_req(v1),
    ensures
        v0.add_spec(v1).sub_req(v1),
        v0.add_spec(v1).sub_spec(v1) == v0,
{
    lemma_scalar_add_then_sub(v0.x, v1.x);
    lemma_scalar_add_then_sub(v0.y, v1.y);
}

/// `+` undoes `-`: `(v0 - v1) + v1 == v0`.
pub proof fn lemma_vector2_sub_then_add<T: Signed>(v0: Vector2<T>, v1: Vector2<T>)
    requires
        v0.sub_req(v1),
    ensures
        v0.sub_spec(v1).add_req(v1),
        v0.sub_spec(v1).add_spec(v1) == v0,
{
    lemma_scalar_sub_then_add(v0.x, v1.x);
    lemma_scalar_sub_then_add(v0.y, v1.y);
}

/// `-` undoes `+`: `(v0 + v1) - v1 == v0`.
pub proof fn lemma_vector3_add_then_sub<T: Signed>(v0: Vector3<T>, v1: Vector3<T>)
    requires
        v0.add_req(v1),
    ensures
        v0.add_spec(v1).sub_req(v1),
        v0.add_spec(v1).sub_spec(v1) == v0,
{
    lemma_scalar_add_then_sub(v0.x, v1.x);
    lemma_scalar_add_then_sub(v0.y, v1.y);
    lemma_scalar_add_then_sub(v0.z, v1.z);
}

/// `+` undoes `-`: `(v0 - v1) + v1 == v0`.
pub proof fn lemma_vector3_sub_then_add<T: Signed>(v0: Vector3<T>, v1: Vector3<T>)
    requires
        v0.sub_req(v1),
    ensures
        v0.sub_spec(v1).add_req(v1),
        v0.sub_spec(v1).add_spec(v1) == v0,
{
    lemma_scalar_sub_then_add(v0.x, v1.x);
    lemma_scalar_sub_then_add(v0.y, v1.y);
    lemma_scalar_sub_then_add(v0.z, v1.z);
}

/// `-` undoes `+` for normals: `(n0 + n1) - n1 == n0`.
pub proof fn lemma_normal3_add_then_sub<T: Scalar + Signed>(n0: Normal3<T>, n1: Normal3<T>)
    requires
        n0.add_req(n1),
    ensures
        n0.add_spec(n1).sub_req(n1),
        n0.add_spec(n1).sub_spec(n1) == n0,
{
    lemma_scalar_add_then_sub(n0.x, n1.x);
    lemma_scalar_add_then_sub(n0.y, n1.y);
    lemma_scalar_add_then_sub(n0.z, n1.z);
}

/// Moving a point by a vector and back leaves it where it was:
/// `(p + v) - v == p`.
pub proof fn lemma_point3_add_then_sub<T: Scalar + Signed>(p: Point3<T>, v: Vector3<T>)
    requires
        p.add_req(v),
    ensures
        p.add_spec(v).sub_req(v),
        p.add_spec(v).sub_spec(v) == p,
{
    lemma_scalar_add_then_sub(p.x, v.x);
    lemma_scalar_add_then_sub(p.y, v.y);
    lemma_scalar_add_then_sub(p.z, v.z);
}

/// The displacement from `q` to `p` leads from `q` to `p`:
/// `q + (p - q) == p`.
pub proof fn lemma_point2_difference_leads_back<T: Scalar + Signed>(p: Point2<T>, q: Point2<T>)
    requires
        p.sub_req(q),
    ensures
        q.add_req(p.sub_spec(q)),
        q.add_spec(p.sub_spec(q)) == p,
{
    lemma_difference_leads_back(p.x, q.x);
    lemma_difference_leads_back(p.y, q.y);
}

/// The displacement from `q` to `p` leads from `q` to `p`:
/// `q + (p - q) == p`.
pub proof fn lemma_point3_difference_leads_back<T: Scalar + Signed>(p: Point3<T>, q: Point3<T>)
    requires
        p.sub_req(q),
    ensures
        q.add_req(p.sub_spec(q)),
        q.add_spec(p.sub_spec(q)) == p,
{
    lemma_difference_leads_back(p.x, q.x);
    lemma_difference_leads_back(p.y, q.y);
    lemma_difference_leads_back(p.z, q.z);
}

proof fn lemma_difference_leads_back<T: Signed>(a: T, b: T)
    requires
        a.sub_req(b),
    ensures
        b.add_req(a.sub_spec(b)),
        b.add_spec(a.sub_spec(b)) == a,
{
    T::lemma_sub(a, b);
    T::lemma_add(b, a.sub_spec(b));
    T::lemma_range(a);
    T::lemma_injective(b.add_spec(a.sub_spec(b)), a);
}

/// Interpolation starts at the first value and ends at the second: at the
/// parameter zero it gives `v0` and at one it gives `v1`.
pub proof fn lemma_lerp_endpoints<T: Signed + From<i8>>(v0: T, v1: T)
    requires
        has_units::<T>(),
    ensures
        T::lerp_req(zero_spec::<T>(), v0, v1),
        T::lerp_spec(zero_spec::<T>(), v0, v1) == v0,
        T::lerp_req(one_spec::<T>(), v0, v1),
        T::lerp_spec(one_spec::<T>(), v0, v1) == v1,
{
    let o = zero_spec::<T>();
    let l = one_spec::<T>();
    T::lemma_range(v0);
    T::lemma_range(v1);
    assert(l.as_int() * v0.as_int() == v0.as_int()) by (nonlinear_arith)
        requires
            l.as_int() == 1,
    ;
    assert(l.as_int() * v1.as_int() == v1.as_int()) by (nonlinear_arith)
        requires
            l.as_int() == 1,
    ;
    assert(o.as_int() * v0.as_int() == 0) by (nonlinear_arith)
        requires
            o.as_int() == 0,
    ;
    assert(o.as_int() * v1.as_int() == 0) by (nonlinear_arith)
        requires
            o.as_int() == 0,
    ;
    T::lemma_sub(l, o);
    T::lemma_sub(l, l);
    T::lemma_injective(l.sub_spec(o), l);
    T::lemma_injective(l.sub_spec(l), o);
    T::lemma_mul(l, v0);
    T::lemma_mul(o, v1);
    T::lemma_mul(o, v0);
    T::lemma_mul(l, v1);
    T::lemma_add(l.mul_spec(v0), o.mul_spec(v1));
    T::lemma_add(o.mul_spec(v0), l.mul_spec(v1));
    T::lemma_injective(l.mul_spec(v0).add_spec(o.mul_spec(v1)), v0);
    T::lemma_injective(o.mul_spec(v0).add_spec(l.mul_spec(v1)), v1);
}

/// One coordinate of a cross product and the same coordinate with the
/// operands exchanged and the new first one negated:
/// `a * d - b * c == (-c) * b - (-d) * a`.
proof fn lemma_cross_term<T: Signed>(a: T, b: T, c: T, d: T)
    requires
        a.mul_req(d),
        b.mul_req(c),
        a.mul_spec(d).sub_req(b.mul_spec(c)),
        c.neg_req(),
        d.neg_req(),
        c.neg_spec().mul_req(b),
        d.neg_spec().mul_req(a),
        c.neg_spec().mul_spec(b).sub_req(d.neg_spec().mul_spec(a)),
    ensures
        a.mul_spec(d).sub_spec(b.mul_spec(c)) == c.neg_spec().mul_spec(b).sub_spec(
            d.neg_spec().mul_spec(a),
        ),
{
    T::lemma_mul(a, d);
    T::lemma_mul(b, c);
    T::lemma_sub(a.mul_spec(d), b.mul_spec(c));
    T::lemma_neg(c);
    T::lemma_neg(d);
    T::lemma_mul(c.neg_spec(), b);
    T::lemma_mul(d.neg_spec(), a);
    T::lemma_sub(c.neg_spec().mul_spec(b), d.neg_spec().mul_spec(a));
    let (ai, bi, ci, di) = (a.as_int(), b.as_int(), c.as_int(), d.as_int());
    assert(ai * di - bi * ci == (-ci) * bi - (-di) * ai) by (nonlinear_arith);
    T::lemma_injective(
        a.mul_spec(d).sub_spec(b.mul_spec(c)),
        c.neg_spec().mul_spec(b).sub_spec(d.neg_spec().mul_spec(a)),
    );
}

/// The cross product is anticommutative: `v0 x v1 == (-v1) x v0`.
pub proof fn lemma_cross_anticommutative<T: Signed>(v0: Vector3<T>, v1: Vector3<T>)
    requires
        v0.cross_req(&v1),
        v1.neg_req(),
        v1.neg_spec().cross_req(&v0),
    ensures
        v0.cross_spec(&v1) == v1.neg_spec().cross_spec(&v0),
{
    lemma_cross_term(v0.y, v0.z, v1.y, v1.z);
    lemma_cross_term(v0.z, v0.x, v1.z, v1.x);
    lemma_cross_term(v0.x, v0.y, v1.x, v1.y);
}

/// `(b f - c e) a + (c d - a f) b + (a e - b d) c` is zero: what the dot
/// product of a cross product with its first operand comes to.
proof fn lemma_triple_product_vanishes(a: int, b: int, c: int, d: int, e: int, f: int)
    ensures
        (b * f - c * e) * a + (c * d - a * f) * b + (a * e - b * d) * c == 0,
        (b * f - c * e) * d + (c * d - a * f) * e + (a * e - b * d) * f == 0,
{
    assert((b * f - c * e) * a + (c * d - a * f) * b + (a * e - b * d) * c == 0)
        by (nonlinear_arith);
    assert((b * f - c * e) * d + (c * d - a * f) * e + (a * e - b * d) * f == 0)
        by (nonlinear_arith);
}

/// The coordinates of a cross product over the integers.
proof fn lemma_cross_as_ints<T: Signed>(v0: Vector3<T>, v1: Vector3<T>)
    requires
        v0.cross_req(&v1),
    ensures
        v0.cross_spec(&v1).x.as_int() == v0.y.as_int() * v1.z.as_int() - v0.z.as_int()
            * v1.y.as_int(),
        v0.cross_spec(&v1).y.as_int() == v0.z.as_int() * v1.x.as_int() - v0.x.as_int()
            * v1.z.as_int(),
        v0.cross_spec(&v1).z.as_int() == v0.x.as_int() * v1.y.as_int() - v0.y.as_int()
            * v1.x.as_int(),
{
    T::lemma_mul(v0.y, v1.z);
    T::lemma_mul(v0.z, v1.y);
    T::lemma_mul(v0.z, v1.x);
    T::lemma_mul(v0.x, v1.z);
    T::lemma_mul(v0.x, v1.y);
    T::lemma_mul(v0.y, v1.x);
    T::lemma_sub(v0.y.mul_spec(v1.z), v0.z.mul_spec(v1.y));
    T::lemma_sub(v0.z.mul_spec(v1.x), v0.x.mul_spec(v1.z));
    T::lemma_sub(v0.x.mul_spec(v1.y), v0.y.mul_spec(v1.x));
}

/// The dot product of two vectors over the integers.
proof fn lemma_dot_as_ints<T: Signed>(v0: Vector3<T>, v1: Vector3<T>)
    requires
        v0.dot_req(&v1),
    ensures
        v0.dot_spec(&v1).as_int() == v0.x.as_int() * v1.x.as_int() + v0.y.as_int()
            * v1.y.as_int() + v0.z.as_int() * v1.z.as_int(),
{
    T::lemma_mul(v0.x, v1.x);
    T::lemma_mul(v0.y, v1.y);
    T::lemma_mul(v0.z, v1.z);
    T::lemma_add(v0.x.mul_spec(v1.x), v0.y.mul_spec(v1.y));
    T::lemma_add(v0.x.mul_spec(v1.x).add_spec(v0.y.mul_spec(v1.y)), v0.z.mul_spec(v1.z));
}

/// The cross product of two vectors is perpendicular to both: its dot
/// product with either is zero.
pub proof fn lemma_cross_is_perpendicular<T: Signed>(v0: Vector3<T>, v1: Vector3<T>)
    requires
        v0.cross_req(&v1),
    ensures
        v0.cross_spec(&v1).dot_req(&v0) ==> v0.cross_spec(&v1).dot_spec(&v0).as_int() == 0,
        v0.cross_spec(&v1).dot_req(&v1) ==> v0.cross_spec(&v1).dot_spec(&v1).as_int() == 0,
{
    lemma_cross_as_ints(v0, v1);
    lemma_triple_product_vanishes(
        v0.x.as_int(),
        v0.y.as_int(),
        v0.z.as_int(),
        v1.x.as_int(),
        v1.y.as_int(),
        v1.z.as_int(),
    );
    if v0.cross_spec(&v1).dot_req(&v0) {
        lemma_dot_as_ints(v0.cross_spec(&v1), v0);
    }
    if v0.cross_spec(&v1).dot_req(&v1) {
        lemma_dot_as_ints(v0.cross_spec(&v1), v1);
    }
}

/// The dot product of two vectors does not depend on their order.
pub proof fn lemma_vector3_dot_symmetric<T: Signed>(v0: Vector3<T>, v1: Vector3<T>)
    requires
        v0.dot_req(&v1),
    ensures
        v1.dot_req(&v0),
        v1.dot_spec(&v0) == v0.dot_spec(&v1),
{
    T::lemma_mul(v0.x, v1.x);
    T::lemma_mul(v0.y, v1.y);
    T::lemma_mul(v0.z, v1.z);
    T::lemma_mul(v1.x, v0.x);
    T::lemma_mul(v1.y, v0.y);
    T::lemma_mul(v1.z, v0.z);
    assert(v0.x.as_int() * v1.x.as_int() == v1.x.as_int() * v0.x.as_int()) by (nonlinear_arith);
    assert(v0.y.as_int() * v1.y.as_int() == v1.y.as_int() * v0.y.as_int()) by (nonlinear_arith);
    assert(v0.z.as_int() * v1.z.as_int() == v1.z.as_int() * v0.z.as_int()) by (nonlinear_arith);
    T::lemma_injective(v0.x.mul_spec(v1.x), v1.x.mul_spec(v0.x));
    T::lemma_injective(v0.y.mul_spec(v1.y), v1.y.mul_spec(v0.y));
    T::lemma_injective(v0.z.mul_spec(v1.z), v1.z.mul_spec(v0.z));
}

/// The dot product of a normal and a vector is the same from either side.
pub proof fn lemma_mixed_dot_symmetric<T: Scalar + Signed>(n: Normal3<T>, v: Vector3<T>)
    requires
        n.dot_req(&v),
    ensures
        v.dot_req(&n),
        v.dot_spec(&n) == n.dot_spec(&v),
{
}

} // verus!
