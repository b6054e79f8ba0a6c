//! The algebra of 4x4 matrices of integers, each given by its sixteen
//! entries row after row. It is the model in which the laws of matrices
//! over the signed integers are stated.
use super::Matrix4x4;
use crate::types::Signed;
use vstd::prelude::*;

verus! {

/// Entry `(i, j)` of the product of `a` and `b`: row `i` of `a` times
/// column `j` of `b`.
pub open spec fn product_entry(a: Seq<int>, b: Seq<int>, i: int, j: int) -> int {
    a[4 * i] * b[j] + a[4 * i + 1] * b[4 + j] + a[4 * i + 2] * b[8 + j] + a[4 * i + 3] * b[12 + j]
}

/// The product of the matrices `a` and `b`.
pub open spec fn product(a: Seq<int>, b: Seq<int>) -> Seq<int> {
    Seq::new(16, |k: int| product_entry(a, b, k / 4, k % 4))
}

/// The identity matrix.
pub open spec fn identity() -> Seq<int> {
    seq![1, 0, 0, 0, 0, 1, 0, 0, 0, 0, 1, 0, 0, 0, 0, 1]
}

/// The transpose of the matrix `a`.
pub open spec fn transpose(a: Seq<int>) -> Seq<int> {
    Seq::new(16, |k: int| a[4 * (k % 4) + k / 4])
}

/// Whether `a` and `b` are inverse to each other: their product is the
/// identity, in either order.
pub open spec fn inverse_pair(a: Seq<int>, b: Seq<int>) -> bool {
    &&& a.len() == 16
    &&& b.len() == 16
    &&& product(a, b) == identity()
    &&& product(b, a) == identity()
}

/// Being inverse to each other does not depend on the order.
pub proof fn lemma_inverse_pair_symmetric(a: Seq<int>, b: Seq<int>)
    requires
        inverse_pair(a, b),
    ensures
        inverse_pair(b, a),
{
}

/// The transpose of a product is the product of the transposes in the
/// opposite order.
pub proof fn lemma_transpose_of_product(a: Seq<int>, b: Seq<int>)
    requires
        a.len() == 16,
        b.len() == 16,
    ensures
        transpose(product(a, b)) == product(transpose(b), transpose(a)),
{
    assert forall|x: int, y: int| #[trigger] (x * y) == y * x by {
        assert(x * y == y * x) by (nonlinear_arith);
    }
    assert(transpose(product(a, b)) =~= product(transpose(b), transpose(a)));
}

/// The transpose of the identity is the identity.
pub proof fn lemma_transpose_of_identity()
    ensures
        transpose(identity()) == identity(),
{
    assert(transpose(identity()) =~= identity());
}

/// The transposes of two matrices that are inverse to each other are
/// inverse to each other.
pub proof fn lemma_transposes_of_inverse_pair(a: Seq<int>, b: Seq<int>)
    requires
        inverse_pair(a, b),
    ensures
        inverse_pair(transpose(a), transpose(b)),
{
    lemma_transpose_of_product(a, b);
    lemma_transpose_of_product(b, a);
    lemma_transpose_of_identity();
}

/// Whether the last row of `m` begins with three zeros, as that of every
/// affine map does: `m` then takes directions to directions.
pub open spec fn keeps_directions(m: Seq<int>) -> bool {
    m[12] == 0 && m[13] == 0 && m[14] == 0
}

/// The dot product of two triples.
pub open spec fn dot3(a: (int, int, int), b: (int, int, int)) -> int {
    a.0 * b.0 + a.1 * b.1 + a.2 * b.2
}

/// The image of the direction `v` under `m`: the first three rows of `m`
/// applied to `(v, 0)`.
pub open spec fn direction_image(m: Seq<int>, v: (int, int, int)) -> (int, int, int) {
    (
        m[0] * v.0 + m[1] * v.1 + m[2] * v.2,
        m[4] * v.0 + m[5] * v.1 + m[6] * v.2,
        m[8] * v.0 + m[9] * v.1 + m[10] * v.2,
    )
}

/// The image of the normal `n` under the map whose inverse is `inv`: the
/// first three columns of `inv` applied to `(n, 0)`.
pub open spec fn normal_image(inv: Seq<int>, n: (int, int, int)) -> (int, int, int) {
    (
        inv[0] * n.0 + inv[4] * n.1 + inv[8] * n.2,
        inv[1] * n.0 + inv[5] * n.1 + inv[9] * n.2,
        inv[2] * n.0 + inv[6] * n.1 + inv[10] * n.2,
    )
}

/// A product of two products, with the factors paired the other way.
proof fn lemma_regroup(a: int, n: int, b: int, v: int)
    ensures
        (a * n) * (b * v) == (n * v) * (a * b),
{
    assert((a * n) * (b * v) == (n * v) * (a * b)) by (nonlinear_arith);
}

/// The product of two sums of three, multiplied out.
proof fn lemma_distribute(s0: int, s1: int, s2: int, t0: int, t1: int, t2: int)
    ensures
        (s0 + s1 + s2) * (t0 + t1 + t2) == s0 * t0 + s0 * t1 + s0 * t2 + s1 * t0 + s1 * t1 + s1
            * t2 + s2 * t0 + s2 * t1 + s2 * t2,
{
    assert((s0 + s1 + s2) * (t0 + t1 + t2) == s0 * t0 + s0 * t1 + s0 * t2 + s1 * t0 + s1 * t1 + s1
        * t2 + s2 * t0 + s2 * t1 + s2 * t2) by (nonlinear_arith);
}

/// The product of two sums of three products, multiplied out and grouped
/// by the factors that the sums share.
proof fn lemma_multiply_out(
    a0: int,
    a1: int,
    a2: int,
    b0: int,
    b1: int,
    b2: int,
    n: (int, int, int),
    v: (int, int, int),
)
    ensures
        (a0 * n.0 + a1 * n.1 + a2 * n.2) * (b0 * v.0 + b1 * v.1 + b2 * v.2) == (n.0 * v.0) * (a0
            * b0) + (n.0 * v.1) * (a0 * b1) + (n.0 * v.2) * (a0 * b2) + (n.1 * v.0) * (a1 * b0) + (
        n.1 * v.1) * (a1 * b1) + (n.1 * v.2) * (a1 * b2) + (n.2 * v.0) * (a2 * b0) + (n.2 * v.1)
            * (a2 * b1) + (n.2 * v.2) * (a2 * b2),
{
    lemma_distribute(a0 * n.0, a1 * n.1, a2 * n.2, b0 * v.0, b1 * v.1, b2 * v.2);
    lemma_regroup(a0, n.0, b0, v.0);
    lemma_regroup(a0, n.0, b1, v.1);
    lemma_regroup(a0, n.0, b2, v.2);
    lemma_regroup(a1, n.1, b0, v.0);
    lemma_regroup(a1, n.1, b1, v.1);
    lemma_regroup(a1, n.1, b2, v.2);
    lemma_regroup(a2, n.2, b0, v.0);
    lemma_regroup(a2, n.2, b1, v.1);
    lemma_regroup(a2, n.2, b2, v.2);
}

/// `x` times a sum of three is the sum of the three products, and `s` is
/// what the sum is known to be.
proof fn lemma_gather(x: int, c0: int, c1: int, c2: int, c3: int, s: int)
    requires
        c0 + c1 + c2 + c3 == s,
        c3 == 0,
    ensures
        x * c0 + x * c1 + x * c2 == x * s,
{
    assert(x * c0 + x * c1 + x * c2 == x * s) by (nonlinear_arith)
        requires
            c0 + c1 + c2 == s,
    ;
}

/// A normal and a direction keep their dot product when the direction goes
/// by a matrix and the normal by the transpose of its inverse. A normal
/// that is perpendicular to a surface thus stays perpendicular to it.
pub proof fn lemma_normal_image_keeps_dot(
    f: Seq<int>,
    i: Seq<int>,
    n: (int, int, int),
    v: (int, int, int),
)
    requires
        inverse_pair(f, i),
        keeps_directions(f),
    ensures
        dot3(normal_image(i, n), direction_image(f, v)) == dot3(n, v),
{
    let id = product(i, f);
    assert(id == identity());
    lemma_multiply_out(i[0], i[4], i[8], f[0], f[1], f[2], n, v);
    lemma_multiply_out(i[1], i[5], i[9], f[4], f[5], f[6], n, v);
    lemma_multiply_out(i[2], i[6], i[10], f[8], f[9], f[10], n, v);
    assert forall|x: int, y: int| y == 0 implies #[trigger] (x * y) == 0 by {
        assert(x * 0 == 0) by (nonlinear_arith);
    }
    assert forall|x: int, y: int| y == 1 implies #[trigger] (x * y) == x by {
        assert(x * 1 == x) by (nonlinear_arith);
    }
    assert(id[0] == product_entry(i, f, 0, 0) && id[1] == product_entry(i, f, 0, 1) && id[2]
        == product_entry(i, f, 0, 2));
    assert(id[4] == product_entry(i, f, 1, 0) && id[5] == product_entry(i, f, 1, 1) && id[6]
        == product_entry(i, f, 1, 2));
    assert(id[8] == product_entry(i, f, 2, 0) && id[9] == product_entry(i, f, 2, 1) && id[10]
        == product_entry(i, f, 2, 2));
    lemma_gather(n.0 * v.0, i[0] * f[0], i[1] * f[4], i[2] * f[8], i[3] * f[12], 1);
    lemma_gather(n.0 * v.1, i[0] * f[1], i[1] * f[5], i[2] * f[9], i[3] * f[13], 0);
    lemma_gather(n.0 * v.2, i[0] * f[2], i[1] * f[6], i[2] * f[10], i[3] * f[14], 0);
    lemma_gather(n.1 * v.0, i[4] * f[0], i[5] * f[4], i[6] * f[8], i[7] * f[12], 0);
    lemma_gather(n.1 * v.1, i[4] * f[1], i[5] * f[5], i[6] * f[9], i[7] * f[13], 1);
    lemma_gather(n.1 * v.2, i[4] * f[2], i[5] * f[6], i[6] * f[10], i[7] * f[14], 0);
    lemma_gather(n.2 * v.0, i[8] * f[0], i[9] * f[4], i[10] * f[8], i[11] * f[12], 0);
    lemma_gather(n.2 * v.1, i[8] * f[1], i[9] * f[5], i[10] * f[9], i[11] * f[13], 0);
    lemma_gather(n.2 * v.2, i[8] * f[2], i[9] * f[6], i[10] * f[10], i[11] * f[14], 1);
}

impl<T: Signed> Matrix4x4<T> {
    /// The integers that the entries stand for.
    pub open spec fn as_ints(self) -> Seq<int> {
        Seq::new(16, |k: int| self@[k].as_int())
    }
}

} // verus!
