//! The inverse of a 4×4 matrix by cofactor expansion.
//!
//! A matrix is taken to be singular when its determinant cannot be told from
//! rounding noise. The measure of that noise is the scale of the matrix: the
//! determinant's own expansion with every entry replaced by its magnitude and
//! every difference by a sum. The determinant counts as more than noise when
//! adding its magnitude to sixteen times the scale gives a value above
//! sixteen times the scale. The test scales with the entries and with the
//! scalar's precision; on exact scalars it is the test for a determinant
//! other than zero.

use crate::basic_types::{cross_defined, cross_of, dot_defined, dot_of, Tuple, Vec3, Vector};
use crate::matrix::{can_sum4, sum4, Matrix4};
use crate::scalar::{
    abs_defined, abs_of, can_diff, can_prod, can_quot, can_sum, diff, greater, prod, quot, sum,
    zero,
};
use core::ops::{Add, Div, Mul, Sub};
use vstd::prelude::*;
use vstd::std_specs::cmp::PartialOrdSpec;
use vstd::std_specs::convert::FromSpec;
use vstd::std_specs::ops::{AddSpec, DivSpec, MulSpec, SubSpec};

verus! {

/// Why a matrix has no inverse to give.
#[derive(Debug, Clone, Copy, PartialEq, Eq)]
pub enum MatrixError {
    /// The determinant is zero or lost in rounding noise.
    Singular,
}

/// The index of the `k`-th row (or column) that is left when row `gap` is
/// struck out.
pub open spec fn skip(k: int, gap: int) -> int {
    if k < gap {
        k
    } else {
        k + 1
    }
}

/// The three entries of row `r` that are left when column `j` is struck out.
pub open spec fn cut_row<T>(m: Matrix4<T>, r: int, j: int) -> (T, T, T) {
    (m.at(r, skip(0, j)), m.at(r, skip(1, j)), m.at(r, skip(2, j)))
}

/// The determinant of the 3×3 matrix with rows `a`, `b`, `c`: the triple
/// product `a · (b × c)`.
pub open spec fn det3_of<T: Add<Output = T> + Sub<Output = T> + Mul<Output = T>>(
    a: (T, T, T),
    b: (T, T, T),
    c: (T, T, T),
) -> T {
    dot_of(a, cross_of(b, c))
}

/// Every operation of `det3_of(a, b, c)` may be computed.
pub open spec fn det3_defined<T: Add<Output = T> + Sub<Output = T> + Mul<Output = T>>(
    a: (T, T, T),
    b: (T, T, T),
    c: (T, T, T),
) -> bool {
    cross_defined(b, c) && dot_defined(a, cross_of(b, c))
}

/// The determinant of `m` without row `i` and column `j`.
pub open spec fn minor_of<T: Add<Output = T> + Sub<Output = T> + Mul<Output = T>>(
    m: Matrix4<T>,
    i: int,
    j: int,
) -> T {
    det3_of(cut_row(m, skip(0, i), j), cut_row(m, skip(1, i), j), cut_row(m, skip(2, i), j))
}

/// Every operation of `minor_of(m, i, j)` may be computed.
pub open spec fn minor_defined<T: Add<Output = T> + Sub<Output = T> + Mul<Output = T>>(
    m: Matrix4<T>,
    i: int,
    j: int,
) -> bool {
    det3_defined(cut_row(m, skip(0, i), j), cut_row(m, skip(1, i), j), cut_row(m, skip(2, i), j))
}

/// The minor with the sign of its place: kept where `i + j` is even, taken
/// from zero where it is odd.
pub open spec fn cofactor_of<
    T: Add<Output = T> + Sub<Output = T> + Mul<Output = T> + From<i8>,
>(m: Matrix4<T>, i: int, j: int) -> T {
    if (i + j) % 2 == 0 {
        minor_of(m, i, j)
    } else {
        diff(zero::<T>(), minor_of(m, i, j))
    }
}

/// Every operation of `cofactor_of(m, i, j)` may be computed.
pub open spec fn cofactor_defined<
    T: Add<Output = T> + Sub<Output = T> + Mul<Output = T> + From<i8>,
>(m: Matrix4<T>, i: int, j: int) -> bool {
    &&& minor_defined(m, i, j)
    &&& (i + j) % 2 != 0 ==> can_diff(zero::<T>(), minor_of(m, i, j))
}

/// The `j`-th term of the determinant's expansion along the first row.
pub open spec fn term_of<T: Add<Output = T> + Sub<Output = T> + Mul<Output = T> + From<i8>>(
    m: Matrix4<T>,
    j: int,
) -> T {
    prod(m.at(0, j), cofactor_of(m, 0, j))
}

/// The determinant, expanded along the first row.
pub open spec fn det_of<T: Add<Output = T> + Sub<Output = T> + Mul<Output = T> + From<i8>>(
    m: Matrix4<T>,
) -> T {
    sum4(term_of(m, 0), term_of(m, 1), term_of(m, 2), term_of(m, 3))
}

/// `m` with every entry replaced by its magnitude.
pub open spec fn abs_matrix_of<T: Sub<Output = T> + PartialOrd + From<i8>>(
    m: Matrix4<T>,
) -> Matrix4<T> {
    Matrix4 {
        m: [
            [abs_of(m.at(0, 0)), abs_of(m.at(0, 1)), abs_of(m.at(0, 2)), abs_of(m.at(0, 3))],
            [abs_of(m.at(1, 0)), abs_of(m.at(1, 1)), abs_of(m.at(1, 2)), abs_of(m.at(1, 3))],
            [abs_of(m.at(2, 0)), abs_of(m.at(2, 1)), abs_of(m.at(2, 2)), abs_of(m.at(2, 3))],
            [abs_of(m.at(3, 0)), abs_of(m.at(3, 1)), abs_of(m.at(3, 2)), abs_of(m.at(3, 3))],
        ],
    }
}

/// The magnitude of each entry of row `i` may be computed.
pub open spec fn abs_row_defined<T: Sub<Output = T> + PartialOrd + From<i8>>(
    m: Matrix4<T>,
    i: int,
) -> bool {
    &&& abs_defined(m.at(i, 0))
    &&& abs_defined(m.at(i, 1))
    &&& abs_defined(m.at(i, 2))
    &&& abs_defined(m.at(i, 3))
}

/// The cross product with its differences replaced by sums.
pub open spec fn mix_of<T: Add<Output = T> + Mul<Output = T>>(a: (T, T, T), b: (T, T, T)) -> (
    T,
    T,
    T,
) {
    (
        sum(prod(a.1, b.2), prod(a.2, b.1)),
        sum(prod(a.2, b.0), prod(a.0, b.2)),
        sum(prod(a.0, b.1), prod(a.1, b.0)),
    )
}

/// Every operation of `mix_of(a, b)` may be computed.
pub open spec fn mix_defined<T: Add<Output = T> + Mul<Output = T>>(
    a: (T, T, T),
    b: (T, T, T),
) -> bool {
    &&& T::obeys_add_spec()
    &&& T::obeys_mul_spec()
    &&& can_prod(a.1, b.2) && can_prod(a.2, b.1) && can_sum(prod(a.1, b.2), prod(a.2, b.1))
    &&& can_prod(a.2, b.0) && can_prod(a.0, b.2) && can_sum(prod(a.2, b.0), prod(a.0, b.2))
    &&& can_prod(a.0, b.1) && can_prod(a.1, b.0) && can_sum(prod(a.0, b.1), prod(a.1, b.0))
}

/// The sum of the six products that the minor of the place `(0, j)` is made
/// of, all taken with a plus sign.
pub open spec fn plain_minor_of<T: Add<Output = T> + Mul<Output = T>>(m: Matrix4<T>, j: int) -> T {
    dot_of(cut_row(m, 1, j), mix_of(cut_row(m, 2, j), cut_row(m, 3, j)))
}

/// Every operation of `plain_minor_of(m, j)` may be computed.
pub open spec fn plain_minor_defined<T: Add<Output = T> + Mul<Output = T>>(
    m: Matrix4<T>,
    j: int,
) -> bool {
    &&& mix_defined(cut_row(m, 2, j), cut_row(m, 3, j))
    &&& dot_defined(cut_row(m, 1, j), mix_of(cut_row(m, 2, j), cut_row(m, 3, j)))
    &&& can_prod(m.at(0, j), plain_minor_of(m, j))
}

/// The sum of the twenty-four products that the determinant of `m` is made
/// of, all taken with a plus sign.
pub open spec fn plain_sum_of<T: Add<Output = T> + Mul<Output = T>>(m: Matrix4<T>) -> T {
    sum4(
        prod(m.at(0, 0), plain_minor_of(m, 0)),
        prod(m.at(0, 1), plain_minor_of(m, 1)),
        prod(m.at(0, 2), plain_minor_of(m, 2)),
        prod(m.at(0, 3), plain_minor_of(m, 3)),
    )
}

/// Every operation of `plain_sum_of(m)` may be computed.
pub open spec fn plain_sum_defined<T: Add<Output = T> + Mul<Output = T>>(m: Matrix4<T>) -> bool {
    &&& plain_minor_defined(m, 0)
    &&& plain_minor_defined(m, 1)
    &&& plain_minor_defined(m, 2)
    &&& plain_minor_defined(m, 3)
    &&& can_sum4(
        prod(m.at(0, 0), plain_minor_of(m, 0)),
        prod(m.at(0, 1), plain_minor_of(m, 1)),
        prod(m.at(0, 2), plain_minor_of(m, 2)),
        prod(m.at(0, 3), plain_minor_of(m, 3)),
    )
}

/// The scale of `m`: the determinant's expansion over the magnitudes of the
/// entries, with every difference replaced by a sum.
pub open spec fn scale_of<
    T: Add<Output = T> + Sub<Output = T> + Mul<Output = T> + PartialOrd + From<i8>,
>(m: Matrix4<T>) -> T {
    plain_sum_of(abs_matrix_of(m))
}

/// `x + x`.
pub open spec fn twice<T: Add<Output = T>>(x: T) -> T {
    sum(x, x)
}

/// Sixteen times the scale, by four doublings: what the determinant's
/// magnitude has to move to count as more than noise.
pub open spec fn guard_of<
    T: Add<Output = T> + Sub<Output = T> + Mul<Output = T> + PartialOrd + From<i8>,
>(m: Matrix4<T>) -> T {
    twice(twice(twice(twice(scale_of(m)))))
}

/// The determinant of `m` is more than noise: adding its magnitude to the
/// guard gives a value above the guard.
pub open spec fn invertible<
    T: Add<Output = T> + Sub<Output = T> + Mul<Output = T> + PartialOrd + From<i8>,
>(m: Matrix4<T>) -> bool {
    greater(sum(guard_of(m), abs_of(det_of(m))), guard_of(m))
}

/// Every operation of `det_of(m)` and of `invertible(m)` may be computed,
/// given the cofactors of the first row.
pub open spec fn det_defined<
    T: Add<Output = T> + Sub<Output = T> + Mul<Output = T> + PartialOrd + From<i8>,
>(m: Matrix4<T>) -> bool {
    let s = scale_of(m);
    &&& can_prod(m.at(0, 0), cofactor_of(m, 0, 0))
    &&& can_prod(m.at(0, 1), cofactor_of(m, 0, 1))
    &&& can_prod(m.at(0, 2), cofactor_of(m, 0, 2))
    &&& can_prod(m.at(0, 3), cofactor_of(m, 0, 3))
    &&& can_sum4(term_of(m, 0), term_of(m, 1), term_of(m, 2), term_of(m, 3))
    &&& abs_row_defined(m, 0)
    &&& abs_row_defined(m, 1)
    &&& abs_row_defined(m, 2)
    &&& abs_row_defined(m, 3)
    &&& plain_sum_defined(abs_matrix_of(m))
    &&& can_sum(s, s)
    &&& can_sum(twice(s), twice(s))
    &&& can_sum(twice(twice(s)), twice(twice(s)))
    &&& can_sum(twice(twice(twice(s))), twice(twice(twice(s))))
    &&& abs_defined(det_of(m))
    &&& can_sum(guard_of(m), abs_of(det_of(m)))
}

/// The four cofactors of row `i` may be computed.
pub open spec fn cofactors_defined<
    T: Add<Output = T> + Sub<Output = T> + Mul<Output = T> + From<i8>,
>(m: Matrix4<T>, i: int) -> bool {
    &&& cofactor_defined(m, i, 0)
    &&& cofactor_defined(m, i, 1)
    &&& cofactor_defined(m, i, 2)
    &&& cofactor_defined(m, i, 3)
}

/// The four cofactors of row `i` may be divided by the determinant.
pub open spec fn quotients_defined<
    T: Add<Output = T> + Sub<Output = T> + Mul<Output = T> + Div<Output = T> + From<i8>,
>(m: Matrix4<T>, i: int) -> bool {
    &&& can_quot(cofactor_of(m, i, 0), det_of(m))
    &&& can_quot(cofactor_of(m, i, 1), det_of(m))
    &&& can_quot(cofactor_of(m, i, 2), det_of(m))
    &&& can_quot(cofactor_of(m, i, 3), det_of(m))
}

/// The inverse by cofactors: the entry in row `i` and column `j` is the
/// cofactor of the place `(j, i)` divided by the determinant.
pub open spec fn inverse_of<
    T: Add<Output = T> + Sub<Output = T> + Mul<Output = T> + Div<Output = T> + From<i8>,
>(m: Matrix4<T>) -> Matrix4<T> {
    let d = det_of(m);
    Matrix4 {
        m: [
            [
                quot(cofactor_of(m, 0, 0), d),
                quot(cofactor_of(m, 1, 0), d),
                quot(cofactor_of(m, 2, 0), d),
                quot(cofactor_of(m, 3, 0), d),
            ],
            [
                quot(cofactor_of(m, 0, 1), d),
                quot(cofactor_of(m, 1, 1), d),
                quot(cofactor_of(m, 2, 1), d),
                quot(cofactor_of(m, 3, 1), d),
            ],
            [
                quot(cofactor_of(m, 0, 2), d),
                quot(cofactor_of(m, 1, 2), d),
                quot(cofactor_of(m, 2, 2), d),
                quot(cofactor_of(m, 3, 2), d),
            ],
            [
                quot(cofactor_of(m, 0, 3), d),
                quot(cofactor_of(m, 1, 3), d),
                quot(cofactor_of(m, 2, 3), d),
                quot(cofactor_of(m, 3, 3), d),
            ],
        ],
    }
}

/// Every operation that `inverse` performs on `m` may be computed, and the
/// scalar's operators, comparison and conversion are the ones it specifies.
pub open spec fn inverse_defined<
    T: Add<Output = T> + Sub<Output = T> + Mul<Output = T> + Div<Output = T> + PartialOrd + From<
        i8,
    >,
>(m: Matrix4<T>) -> bool {
    &&& T::obeys_add_spec()
    &&& T::obeys_sub_spec()
    &&& T::obeys_mul_spec()
    &&& T::obeys_div_spec()
    &&& T::obeys_partial_cmp_spec()
    &&& T::obeys_from_spec()
    &&& cofactors_defined(m, 0)
    &&& cofactors_defined(m, 1)
    &&& cofactors_defined(m, 2)
    &&& cofactors_defined(m, 3)
    &&& det_defined(m)
    &&& invertible(m) ==> {
        &&& quotients_defined(m, 0)
        &&& quotients_defined(m, 1)
        &&& quotients_defined(m, 2)
        &&& quotients_defined(m, 3)
    }
}

/// The index of the `k`-th row (or column) that is left without `gap`.
fn step(k: usize, gap: usize) -> (r: usize)
    requires
        k < 3,
        gap < 4,
    ensures
        r == skip(k as int, gap as int),
        r < 4,
{
    if k < gap {
        k
    } else {
        k + 1
    }
}

/// The magnitude of `x`.
fn magnitude_of<T>(x: T) -> (r: T) where T: Copy + Sub<Output = T> + PartialOrd + From<i8>
    requires
        T::obeys_sub_spec(),
        T::obeys_partial_cmp_spec(),
        T::obeys_from_spec(),
        abs_defined(x),
    ensures
        r == abs_of(x),
{
    let origin = T::from(0i8);
    if origin > x {
        origin - x
    } else {
        x
    }
}

impl<T> Matrix4<T> {
    /// Row `r` without column `j`, as a vector.
    fn cut(&self, r: usize, j: usize) -> (v: Vec3<T>) where T: Copy
        requires
            r < 4,
            j < 4,
        ensures
            v.coords() == cut_row(*self, r as int, j as int),
    {
        let row = self[r];
        Vec3::new(row[step(0, j)], row[step(1, j)], row[step(2, j)])
    }

    /// The cofactor of the place `(i, j)`.
    fn cofactor(&self, i: usize, j: usize) -> (r: T) where
        T: Copy + Add<Output = T> + Sub<Output = T> + Mul<Output = T> + From<i8>,

        requires
            i < 4,
            j < 4,
            T::obeys_sub_spec(),
            T::obeys_from_spec(),
            cofactor_defined(*self, i as int, j as int),
        ensures
            r == cofactor_of(*self, i as int, j as int),
    {
        let a = self.cut(step(0, i), j);
        let b = self.cut(step(1, i), j);
        let c = self.cut(step(2, i), j);
        let minor = Vec3::dot(&a, &b.cross(&c));
        if (i + j) % 2 == 0 {
            minor
        } else {
            T::from(0i8) - minor
        }
    }

    /// This matrix with every entry replaced by its magnitude.
    fn magnitudes(&self) -> (r: Self) where T: Copy + Sub<Output = T> + PartialOrd + From<i8>
        requires
            T::obeys_sub_spec(),
            T::obeys_partial_cmp_spec(),
            T::obeys_from_spec(),
            abs_row_defined(*self, 0),
            abs_row_defined(*self, 1),
            abs_row_defined(*self, 2),
            abs_row_defined(*self, 3),
        ensures
            r == abs_matrix_of(*self),
    {
        Self::new(
            magnitude_of(self[0][0]), magnitude_of(self[0][1]),
            magnitude_of(self[0][2]), magnitude_of(self[0][3]),
            magnitude_of(self[1][0]), magnitude_of(self[1][1]),
            magnitude_of(self[1][2]), magnitude_of(self[1][3]),
            magnitude_of(self[2][0]), magnitude_of(self[2][1]),
            magnitude_of(self[2][2]), magnitude_of(self[2][3]),
            magnitude_of(self[3][0]), magnitude_of(self[3][1]),
            magnitude_of(self[3][2]), magnitude_of(self[3][3]),
        )
    }

    /// The `j`-th term of the expansion along the first row, with every
    /// product taken with a plus sign.
    fn plain_term(&self, j: usize) -> (r: T) where T: Copy + Add<Output = T> + Mul<Output = T>
        requires
            j < 4,
            plain_minor_defined(*self, j as int),
        ensures
            r == prod(self.at(0, j as int), plain_minor_of(*self, j as int)),
    {
        let a = self.cut(1, j);
        let b = self.cut(2, j);
        let c = self.cut(3, j);
        let mixed = Vec3::new(
            b.y * c.z + b.z * c.y,
            b.z * c.x + b.x * c.z,
            b.x * c.y + b.y * c.x,
        );
        self[0][j] * Vec3::dot(&a, &mixed)
    }

    /// The sum of the products that the determinant is made of, all taken
    /// with a plus sign.
    fn plain_sum(&self) -> (r: T) where T: Copy + Add<Output = T> + Mul<Output = T>
        requires
            T::obeys_add_spec(),
            T::obeys_mul_spec(),
            plain_sum_defined(*self),
        ensures
            r == plain_sum_of(*self),
    {
        self.plain_term(0) + self.plain_term(1) + self.plain_term(2) + self.plain_term(3)
    }

    /// The cofactor of the place `(i, j)` over the determinant `det`.
    fn inverse_cell(&self, i: usize, j: usize, det: T) -> (r: T) where
        T: Copy + Add<Output = T> + Sub<Output = T> + Mul<Output = T> + Div<Output = T> + From<i8>,

        requires
            i < 4,
            j < 4,
            T::obeys_sub_spec(),
            T::obeys_div_spec(),
            T::obeys_from_spec(),
            cofactor_defined(*self, i as int, j as int),
            can_quot(cofactor_of(*self, i as int, j as int), det),
        ensures
            r == quot(cofactor_of(*self, i as int, j as int), det),
    {
        self.cofactor(i, j) / det
    }

    /// Replaces this matrix by its inverse, or reports that it has none and
    /// leaves it as it was.
    pub fn inverse(&mut self) -> (r: Result<(), MatrixError>) where
        T: Copy + Add<Output = T> + Sub<Output = T> + Mul<Output = T> + Div<Output = T>
            + PartialOrd + From<i8>,

        requires
            inverse_defined(*old(self)),
        ensures
            invertible(*old(self)) ==> r == Ok::<(), MatrixError>(()) && *final(self)
                == inverse_of(*old(self)),
            !invertible(*old(self)) ==> r == Err::<(), MatrixError>(MatrixError::Singular)
                && *final(self) == *old(self),
    {
        let t0 = self[0][0] * self.cofactor(0, 0);
        let t1 = self[0][1] * self.cofactor(0, 1);
        let t2 = self[0][2] * self.cofactor(0, 2);
        let t3 = self[0][3] * self.cofactor(0, 3);
        let det = t0 + t1 + t2 + t3;
        let scale = self.magnitudes().plain_sum();
        let s2 = scale + scale;
        let s4 = s2 + s2;
        let s8 = s4 + s4;
        let guard = s8 + s8;
        if guard + magnitude_of(det) > guard {
            let inv = Self::new(
                self.inverse_cell(0, 0, det), self.inverse_cell(1, 0, det),
                self.inverse_cell(2, 0, det), self.inverse_cell(3, 0, det),
                self.inverse_cell(0, 1, det), self.inverse_cell(1, 1, det),
                self.inverse_cell(2, 1, det), self.inverse_cell(3, 1, det),
                self.inverse_cell(0, 2, det), self.inverse_cell(1, 2, det),
                self.inverse_cell(2, 2, det), self.inverse_cell(3, 2, det),
                self.inverse_cell(0, 3, det), self.inverse_cell(1, 3, det),
                self.inverse_cell(2, 3, det), self.inverse_cell(3, 3, det),
            );
            *self = inv;
            Ok(())
        } else {
            Err(MatrixError::Singular)
        }
    }
}

} // verus!
