//! Dense 4x4 matrices, stored row by row.
use crate::types::{one, one_spec, zero, zero_spec};
use std::ops::Index;
use vstd::prelude::*;
use vstd::std_specs::cmp::PartialEqSpec;
use vstd::std_specs::convert::FromSpec;

verus! {

/// A 4x4 matrix. Entry `(i, j)`, row `i` and column `j` counted from 0, is
/// entry `4 * i + j` of its view.
#[derive(Debug, Copy, Clone)]
pub struct Matrix4x4<T>([T; 16]);

impl<T> View for Matrix4x4<T> {
    type V = Seq<T>;

    /// The sixteen entries, row after row.
    closed spec fn view(&self) -> Seq<T> {
        self.0@
    }
}

impl<T> Matrix4x4<T> {
    /// The entry in row `i` and column `j`.
    pub open spec fn at(self, i: int, j: int) -> T {
        self@[4 * i + j]
    }

    /// A matrix has sixteen entries.
    pub proof fn lemma_len(self)
        ensures
            self@.len() == 16,
    {
    }
}

impl<T: Copy> Matrix4x4<T> {
    /// The matrix with the given entries, `m11` to `m14` being the first row.
    pub fn new(
        m11: T,
        m12: T,
        m13: T,
        m14: T,
        m21: T,
        m22: T,
        m23: T,
        m24: T,
        m31: T,
        m32: T,
        m33: T,
        m34: T,
        m41: T,
        m42: T,
        m43: T,
        m44: T,
    ) -> (m: Self)
        ensures
            m@ == seq![
                m11, m12, m13, m14,
                m21, m22, m23, m24,
                m31, m32, m33, m34,
                m41, m42, m43, m44,
            ],
    {
        let m = Matrix4x4(
            [m11, m12, m13, m14, m21, m22, m23, m24, m31, m32, m33, m34, m41, m42, m43, m44],
        );
        assert(m@ =~= seq![
            m11, m12, m13, m14,
            m21, m22, m23, m24,
            m31, m32, m33, m34,
            m41, m42, m43, m44,
        ]);
        m
    }

    /// The entry in row `i` and column `j`.
    pub fn get(&self, i: usize, j: usize) -> (x: T)
        requires
            i < 4,
            j < 4,
        ensures
            x == self.at(i as int, j as int),
    {
        self.0[j + 4 * i]
    }

    /// Puts `x` in row `i` and column `j`.
    pub fn set(&mut self, i: usize, j: usize, x: T)
        requires
            i < 4,
            j < 4,
        ensures
            final(self)@ == old(self)@.update(4 * i + j, x),
    {
        *self.get_mut(i, j) = x;
    }

    /// The place of the entry in row `i` and column `j`.
    pub fn get_mut(&mut self, i: usize, j: usize) -> (x: &mut T)
        requires
            i < 4,
            j < 4,
        ensures
            *x == old(self).at(i as int, j as int),
            final(self)@ == old(self)@.update(4 * i + j, *final(x)),
    {
        &mut self.0[j + 4 * i]
    }

    /// Exchanges the entry in row `i0` and column `j0` with the one in row
    /// `i1` and column `j1`.
    pub fn swap(&mut self, i0: usize, j0: usize, i1: usize, j1: usize)
        requires
            i0 < 4,
            j0 < 4,
            i1 < 4,
            j1 < 4,
        ensures
            final(self)@ == old(self)@.update(
                4 * i0 + j0,
                old(self).at(i1 as int, j1 as int),
            ).update(4 * i1 + j1, old(self).at(i0 as int, j0 as int)),
    {
        let a = self.0[j0 + 4 * i0];
        let b = self.0[j1 + 4 * i1];
        self.0[j0 + 4 * i0] = b;
        self.0[j1 + 4 * i1] = a;
    }

    /// The matrix with rows and columns exchanged.
    pub open spec fn transpose_spec(self) -> Seq<T> {
        Seq::new(16, |k: int| self.at(k % 4, k / 4))
    }

    /// Transposing twice gives back the matrix.
    pub proof fn lemma_transpose_twice(self, t: Self)
        requires
            t@ == self.transpose_spec(),
        ensures
            t.transpose_spec() == self@,
    {
        assert(t.transpose_spec() =~= self@);
    }

    /// The transpose: its entry `(i, j)` is entry `(j, i)` of `self`.
    pub fn transpose(&self) -> (t: Self)
        ensures
            t@ == self.transpose_spec(),
    {
        let mut m = *self;
        m.swap(0, 1, 1, 0);
        m.swap(0, 2, 2, 0);
        m.swap(0, 3, 3, 0);
        m.swap(1, 2, 2, 1);
        m.swap(1, 3, 3, 1);
        m.swap(2, 3, 3, 2);
        assert(m@ =~= self.transpose_spec());
        m
    }
}

impl<T: Copy + From<i8>> Matrix4x4<T> {
    /// The matrix whose entries are all zero.
    pub fn zero() -> (m: Self)
        ensures
            T::obeys_from_spec() ==> m@ == Seq::new(16, |k: int| zero_spec::<T>()),
    {
        let m = Matrix4x4([zero::<T>();16]);
        assert(T::obeys_from_spec() ==> m@ =~= Seq::new(16, |k: int| zero_spec::<T>()));
        m
    }

    /// The entries of the matrix with the given diagonal and zero elsewhere.
    pub open spec fn diag_spec(m11: T, m22: T, m33: T, m44: T) -> Seq<T> {
        let o = zero_spec::<T>();
        seq![
            m11, o, o, o,
            o, m22, o, o,
            o, o, m33, o,
            o, o, o, m44,
        ]
    }

    /// The matrix with the given diagonal and zero elsewhere.
    pub fn diag(m11: T, m22: T, m33: T, m44: T) -> (m: Self)
        ensures
            T::obeys_from_spec() ==> m@ == Self::diag_spec(m11, m22, m33, m44),
    {
        let mut m = Self::zero();
        m.set(0, 0, m11);
        m.set(1, 1, m22);
        m.set(2, 2, m33);
        m.set(3, 3, m44);
        assert(T::obeys_from_spec() ==> m@ =~= Self::diag_spec(m11, m22, m33, m44));
        m
    }

    /// The entries of the identity matrix.
    pub open spec fn identity_spec() -> Seq<T> {
        Self::diag_spec(one_spec::<T>(), one_spec::<T>(), one_spec::<T>(), one_spec::<T>())
    }

    /// The identity matrix: one on the diagonal and zero elsewhere.
    pub fn identity() -> (m: Self)
        ensures
            T::obeys_from_spec() ==> m@ == Self::identity_spec(),
    {
        Self::diag(one::<T>(), one::<T>(), one::<T>(), one::<T>())
    }
}

/// The zero matrix.
impl<T: Copy + From<i8>> Default for Matrix4x4<T> {
    fn default() -> (m: Self)
        ensures
            T::obeys_from_spec() ==> m@ == Seq::new(16, |k: int| zero_spec::<T>()),
    {
        Matrix4x4::zero()
    }
}

/// What the factorization backend reports of a call, by the convention of
/// LAPACK's `info`.
#[derive(Debug, Copy, Clone, PartialEq, Eq, Structural)]
pub enum BackendStatus {
    /// The call did its work.
    Success,
    /// The pivot with this number, counted from 1, is exactly zero: the
    /// matrix is singular and has no inverse.
    SingularPivot(u32),
    /// The argument with this number, counted from 1, had an invalid value.
    /// With matrices of a fixed size this does not happen; it is a fault of
    /// the program, not of its input.
    InvalidArgument(u32),
}

impl BackendStatus {
    /// Reads the status that the backend returned: zero for success, a
    /// positive number for a singular pivot, a negative one for an invalid
    /// argument.
    pub fn from_code(info: i32) -> (status: Self)
        ensures
            info == 0 ==> status == BackendStatus::Success,
            info > 0 ==> status == BackendStatus::SingularPivot(info as u32),
            info < 0 ==> status == BackendStatus::InvalidArgument((-info) as u32),
    {
        if info == 0 {
            BackendStatus::Success
        } else if info > 0 {
            BackendStatus::SingularPivot(info as u32)
        } else {
            BackendStatus::InvalidArgument((-(info as i64)) as u32)
        }
    }
}

/// Whether the sixteen entries `a` equal the sixteen entries `b`, place by
/// place, as the scalar's `==` has it.
pub open spec fn same_entries<T: PartialEq>(a: Seq<T>, b: Seq<T>) -> bool {
    forall|n: int| 0 <= n < 16 ==> (#[trigger] a[n]).eq_spec(&b[n])
}

/// Two matrices are equal when their entries are, place by place.
impl<T: PartialEq> PartialEq for Matrix4x4<T> {
    fn eq(&self, other: &Self) -> (r: bool) {
        let mut k: usize = 0;
        while k < 16
            invariant
                k <= 16,
                T::obeys_eq_spec() ==> forall|n: int|
                    0 <= n < k ==> (#[trigger] self@[n]).eq_spec(&other@[n]),
            decreases 16 - k,
        {
            if !(self.0[k] == other.0[k]) {
                assert(T::obeys_eq_spec() ==> !self@[k as int].eq_spec(&other@[k as int]));
                return false;
            }
            k += 1;
        }
        true
    }
}

impl<T: PartialEq> vstd::std_specs::cmp::PartialEqSpecImpl for Matrix4x4<T> {
    open spec fn obeys_eq_spec() -> bool {
        T::obeys_eq_spec()
    }

    open spec fn eq_spec(&self, other: &Self) -> bool {
        same_entries(self@, other@)
    }
}

/// `m[(i, j)]` is the entry in row `i` and column `j`, both below 4.
impl<T> Index<(usize, usize)> for Matrix4x4<T> {
    type Output = T;

    fn index(&self, at: (usize, usize)) -> (x: &T)
        ensures
            *x == self.at(at.0 as int, at.1 as int),
    {
        &self.0[at.1 + 4 * at.0]
    }
}

impl<T> vstd::std_specs::core::IndexSpecImpl<(usize, usize)> for Matrix4x4<T> {
    open spec fn index_req(&self, at: &(usize, usize)) -> bool {
        at.0 < 4 && at.1 < 4
    }
}

} // verus!
