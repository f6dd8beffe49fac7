//! 4×4 matrices in row-major order and the transforms they apply to vectors
//! and points.

use crate::basic_types::{Point3, Tuple, Vec3};
use crate::scalar::{can_prod, can_quot, can_sum, can_sum3, prod, quot, sum, sum3};
use core::ops::{Add, Div, Index, IndexMut, Mul};
use vstd::prelude::*;
use vstd::std_specs::ops::{AddSpec, DivSpec, MulSpec, MulSpecImpl};

verus! {

/// A 4×4 matrix; `m[i][j]` is the entry in row `i` and column `j`.
pub struct Matrix4<T> {
    pub m: [[T; 4]; 4],
}

/// `i` and `j` name a row and a column of a 4×4 matrix.
pub open spec fn in_grid(i: int, j: int) -> bool {
    0 <= i < 4 && 0 <= j < 4
}

/// The four-term sum `a + b + c + d`, summed from the left.
pub open spec fn sum4<T: Add<Output = T>>(a: T, b: T, c: T, d: T) -> T {
    sum(sum3(a, b, c), d)
}

/// The four-term sum `a + b + c + d` may be computed from the left.
pub open spec fn can_sum4<T: Add<Output = T>>(a: T, b: T, c: T, d: T) -> bool {
    can_sum3(a, b, c) && can_sum(sum3(a, b, c), d)
}

/// Row `i` of `l` times column `j` of `r`.
pub open spec fn cell_of<T: Add<Output = T> + Mul<Output = T>>(
    l: Matrix4<T>,
    r: Matrix4<T>,
    i: int,
    j: int,
) -> T {
    sum4(
        prod(l.at(i, 0), r.at(0, j)),
        prod(l.at(i, 1), r.at(1, j)),
        prod(l.at(i, 2), r.at(2, j)),
        prod(l.at(i, 3), r.at(3, j)),
    )
}

/// Every operation of `cell_of(l, r, i, j)` may be computed.
pub open spec fn cell_defined<T: Add<Output = T> + Mul<Output = T>>(
    l: Matrix4<T>,
    r: Matrix4<T>,
    i: int,
    j: int,
) -> bool {
    &&& can_prod(l.at(i, 0), r.at(0, j))
    &&& can_prod(l.at(i, 1), r.at(1, j))
    &&& can_prod(l.at(i, 2), r.at(2, j))
    &&& can_prod(l.at(i, 3), r.at(3, j))
    &&& can_sum4(
        prod(l.at(i, 0), r.at(0, j)),
        prod(l.at(i, 1), r.at(1, j)),
        prod(l.at(i, 2), r.at(2, j)),
        prod(l.at(i, 3), r.at(3, j)),
    )
}

/// Row `i` of the product of `l` and `r`.
pub open spec fn row_of<T: Add<Output = T> + Mul<Output = T>>(
    l: Matrix4<T>,
    r: Matrix4<T>,
    i: int,
) -> [T; 4] {
    [cell_of(l, r, i, 0), cell_of(l, r, i, 1), cell_of(l, r, i, 2), cell_of(l, r, i, 3)]
}

/// Every cell of row `i` of the product may be computed.
pub open spec fn row_defined<T: Add<Output = T> + Mul<Output = T>>(
    l: Matrix4<T>,
    r: Matrix4<T>,
    i: int,
) -> bool {
    &&& cell_defined(l, r, i, 0)
    &&& cell_defined(l, r, i, 1)
    &&& cell_defined(l, r, i, 2)
    &&& cell_defined(l, r, i, 3)
}

/// The row-by-column product of `l` and `r`: the entry in row `i` and column
/// `j` is the sum over `k` of `l[i][k] * r[k][j]`.
pub open spec fn product_of<T: Add<Output = T> + Mul<Output = T>>(
    l: Matrix4<T>,
    r: Matrix4<T>,
) -> Matrix4<T> {
    Matrix4 { m: [row_of(l, r, 0), row_of(l, r, 1), row_of(l, r, 2), row_of(l, r, 3)] }
}

/// Every cell of the product of `l` and `r` may be computed.
pub open spec fn product_defined<T: Add<Output = T> + Mul<Output = T>>(
    l: Matrix4<T>,
    r: Matrix4<T>,
) -> bool {
    &&& T::obeys_add_spec()
    &&& T::obeys_mul_spec()
    &&& row_defined(l, r, 0)
    &&& row_defined(l, r, 1)
    &&& row_defined(l, r, 2)
    &&& row_defined(l, r, 3)
}

/// `m` with rows and columns exchanged.
pub open spec fn transpose_of<T>(m: Matrix4<T>) -> Matrix4<T> {
    Matrix4 {
        m: [
            [m.at(0, 0), m.at(1, 0), m.at(2, 0), m.at(3, 0)],
            [m.at(0, 1), m.at(1, 1), m.at(2, 1), m.at(3, 1)],
            [m.at(0, 2), m.at(1, 2), m.at(2, 2), m.at(3, 2)],
            [m.at(0, 3), m.at(1, 3), m.at(2, 3), m.at(3, 3)],
        ],
    }
}

/// Column `j` of the linear part of `m` applied to the triple `c`:
/// `c.0*m[0][j] + c.1*m[1][j] + c.2*m[2][j]`.
pub open spec fn linear_of<T: Add<Output = T> + Mul<Output = T>>(
    c: (T, T, T),
    m: Matrix4<T>,
    j: int,
) -> T {
    sum3(prod(c.0, m.at(0, j)), prod(c.1, m.at(1, j)), prod(c.2, m.at(2, j)))
}

/// Every operation of `linear_of(c, m, j)` may be computed.
pub open spec fn linear_defined<T: Add<Output = T> + Mul<Output = T>>(
    c: (T, T, T),
    m: Matrix4<T>,
    j: int,
) -> bool {
    &&& can_prod(c.0, m.at(0, j))
    &&& can_prod(c.1, m.at(1, j))
    &&& can_prod(c.2, m.at(2, j))
    &&& can_sum3(prod(c.0, m.at(0, j)), prod(c.1, m.at(1, j)), prod(c.2, m.at(2, j)))
}

/// Column `j` of `m` applied to the triple `c` as a point: the linear part
/// plus the translation `m[3][j]`.
pub open spec fn affine_of<T: Add<Output = T> + Mul<Output = T>>(
    c: (T, T, T),
    m: Matrix4<T>,
    j: int,
) -> T {
    sum(linear_of(c, m, j), m.at(3, j))
}

/// Every operation of `affine_of(c, m, j)` may be computed.
pub open spec fn affine_defined<T: Add<Output = T> + Mul<Output = T>>(
    c: (T, T, T),
    m: Matrix4<T>,
    j: int,
) -> bool {
    linear_defined(c, m, j) && can_sum(linear_of(c, m, j), m.at(3, j))
}

/// The point `c` transformed by `m`: the first three homogeneous coordinates
/// divided by the fourth.
pub open spec fn point_image<T: Add<Output = T> + Mul<Output = T> + Div<Output = T>>(
    c: (T, T, T),
    m: Matrix4<T>,
) -> (T, T, T) {
    let w = affine_of(c, m, 3);
    (quot(affine_of(c, m, 0), w), quot(affine_of(c, m, 1), w), quot(affine_of(c, m, 2), w))
}

/// Every operation of `point_image(c, m)` may be computed.
pub open spec fn point_image_defined<T: Add<Output = T> + Mul<Output = T> + Div<Output = T>>(
    c: (T, T, T),
    m: Matrix4<T>,
) -> bool {
    let w = affine_of(c, m, 3);
    &&& T::obeys_add_spec()
    &&& T::obeys_mul_spec()
    &&& T::obeys_div_spec()
    &&& affine_defined(c, m, 0)
    &&& affine_defined(c, m, 1)
    &&& affine_defined(c, m, 2)
    &&& affine_defined(c, m, 3)
    &&& can_quot(affine_of(c, m, 0), w)
    &&& can_quot(affine_of(c, m, 1), w)
    &&& can_quot(affine_of(c, m, 2), w)
}

/// The direction `c` transformed by the linear part of `m`.
pub open spec fn vector_image<T: Add<Output = T> + Mul<Output = T>>(
    c: (T, T, T),
    m: Matrix4<T>,
) -> (T, T, T) {
    (linear_of(c, m, 0), linear_of(c, m, 1), linear_of(c, m, 2))
}

/// Every operation of `vector_image(c, m)` may be computed.
pub open spec fn vector_image_defined<T: Add<Output = T> + Mul<Output = T>>(
    c: (T, T, T),
    m: Matrix4<T>,
) -> bool {
    &&& T::obeys_add_spec()
    &&& T::obeys_mul_spec()
    &&& linear_defined(c, m, 0)
    &&& linear_defined(c, m, 1)
    &&& linear_defined(c, m, 2)
}

impl<T> Matrix4<T> {
    /// The entry in row `i` and column `j`.
    pub open spec fn at(&self, i: int, j: int) -> T
        recommends
            in_grid(i, j),
    {
        self.m[i][j]
    }

    /// Builds a matrix from its sixteen entries, row by row.
    pub fn new(
        a: T,
        b: T,
        c: T,
        d: T,
        e: T,
        f: T,
        g: T,
        h: T,
        i: T,
        j: T,
        k: T,
        l: T,
        m: T,
        n: T,
        o: T,
        p: T,
    ) -> (r: Self) where T: Copy
        ensures
            r.m == [[a, b, c, d], [e, f, g, h], [i, j, k, l], [m, n, o, p]],
    {
        Self { m: [[a, b, c, d], [e, f, g, h], [i, j, k, l], [m, n, o, p]] }
    }

    /// The matrix whose sixteen entries are the scalar's default value.
    pub fn zeros() -> (r: Self) where T: Default
        ensures
            forall|i: int, j: int| in_grid(i, j) ==> T::default.ensures((), #[trigger] r.at(i, j)),
    {
        Self { ..Default::default() }
    }

    /// Exchanges rows and columns in place.
    pub fn transpose(&mut self) where T: Copy
        ensures
            *final(self) == transpose_of(*old(self)),
    {
        let tmp = Self::new(
            self[0][0], self[1][0], self[2][0], self[3][0],
            self[0][1], self[1][1], self[2][1], self[3][1],
            self[0][2], self[1][2], self[2][2], self[3][2],
            self[0][3], self[1][3], self[2][3], self[3][3],
        );
        *self = tmp;
    }

    /// This matrix with rows and columns exchanged.
    pub fn transposed(&self) -> (r: Self) where T: Copy
        ensures
            r == transpose_of(*self),
    {
        Self::new(
            self[0][0], self[1][0], self[2][0], self[3][0],
            self[0][1], self[1][1], self[2][1], self[3][1],
            self[0][2], self[1][2], self[2][2], self[3][2],
            self[0][3], self[1][3], self[2][3], self[3][3],
        )
    }
}

impl<T: Default> Default for Matrix4<T> {
    fn default() -> (r: Self)
        ensures
            forall|i: int, j: int| in_grid(i, j) ==> T::default.ensures((), #[trigger] r.at(i, j)),
    {
        Self {
            m: [
                [T::default(), T::default(), T::default(), T::default()],
                [T::default(), T::default(), T::default(), T::default()],
                [T::default(), T::default(), T::default(), T::default()],
                [T::default(), T::default(), T::default(), T::default()],
            ],
        }
    }
}

impl<T> vstd::std_specs::core::IndexSpecImpl<usize> for Matrix4<T> {
    open spec fn index_req(&self, index: &usize) -> bool {
        *index < 4
    }
}

/// `matrix[i]` is row `i`.
impl<T> Index<usize> for Matrix4<T> {
    type Output = [T; 4];

    fn index(&self, index: usize) -> (r: &[T; 4])
        ensures
            *r == self.m[index as int],
    {
        &self.m[index]
    }
}

/// One cell of the product: row `i` of `lhs` times column `j` of `rhs`.
fn cell<T>(lhs: &Matrix4<T>, rhs: &Matrix4<T>, i: usize, j: usize) -> (r: T) where
    T: Copy + Mul<Output = T> + Add<Output = T>,

    requires
        i < 4,
        j < 4,
        T::obeys_add_spec(),
        T::obeys_mul_spec(),
        cell_defined(*lhs, *rhs, i as int, j as int),
    ensures
        r == cell_of(*lhs, *rhs, i as int, j as int),
{
    let a = lhs[i];
    a[0] * rhs[0][j] + a[1] * rhs[1][j] + a[2] * rhs[2][j] + a[3] * rhs[3][j]
}

/// The row-by-column product `lhs * rhs`.
pub fn multiply<T>(lhs: &Matrix4<T>, rhs: &Matrix4<T>) -> (res: Matrix4<T>) where
    T: Default + Copy + Mul<Output = T> + Add<Output = T>,

    requires
        product_defined(*lhs, *rhs),
    ensures
        res == product_of(*lhs, *rhs),
{
    Matrix4::new(
        cell(lhs, rhs, 0, 0), cell(lhs, rhs, 0, 1), cell(lhs, rhs, 0, 2), cell(lhs, rhs, 0, 3),
        cell(lhs, rhs, 1, 0), cell(lhs, rhs, 1, 1), cell(lhs, rhs, 1, 2), cell(lhs, rhs, 1, 3),
        cell(lhs, rhs, 2, 0), cell(lhs, rhs, 2, 1), cell(lhs, rhs, 2, 2), cell(lhs, rhs, 2, 3),
        cell(lhs, rhs, 3, 0), cell(lhs, rhs, 3, 1), cell(lhs, rhs, 3, 2), cell(lhs, rhs, 3, 3),
    )
}

/// Transforms the point `p` by the whole of `m`, dividing by the homogeneous
/// coordinate.
pub fn mul_point_matrix<T>(p: &Point3<T>, m: &Matrix4<T>) -> (r: Point3<T>) where
    T: Copy + Mul<Output = T> + Add<Output = T> + Div<Output = T>,

    requires
        point_image_defined(p.coords(), *m),
    ensures
        r.coords() == point_image(p.coords(), *m),
{
    let x = p[0] * m[0][0] + p[1] * m[1][0] + p[2] * m[2][0] + m[3][0];
    let y = p[0] * m[0][1] + p[1] * m[1][1] + p[2] * m[2][1] + m[3][1];
    let z = p[0] * m[0][2] + p[1] * m[1][2] + p[2] * m[2][2] + m[3][2];
    let w = p[0] * m[0][3] + p[1] * m[1][3] + p[2] * m[2][3] + m[3][3];

    Point3::new(x / w, y / w, z / w)
}

/// Transforms the direction `v` by the linear part of `m`; the translation
/// row plays no part.
pub fn mul_vec_matrix<T>(v: &Vec3<T>, m: &Matrix4<T>) -> (r: Vec3<T>) where
    T: Copy + Mul<Output = T> + Add<Output = T> + Div<Output = T>,

    requires
        vector_image_defined(v.coords(), *m),
    ensures
        r.coords() == vector_image(v.coords(), *m),
{
    let x = v[0] * m[0][0] + v[1] * m[1][0] + v[2] * m[2][0];
    let y = v[0] * m[0][1] + v[1] * m[1][1] + v[2] * m[2][1];
    let z = v[0] * m[0][2] + v[1] * m[1][2] + v[2] * m[2][2];

    Vec3::new(x, y, z)
}

impl<T: Copy + Default + Add<Output = T> + Mul<Output = T>> MulSpecImpl for Matrix4<T> {
    open spec fn obeys_mul_spec() -> bool {
        true
    }

    open spec fn mul_req(self, rhs: Self) -> bool {
        product_defined(self, rhs)
    }

    open spec fn mul_spec(self, rhs: Self) -> Self {
        product_of(self, rhs)
    }
}

/// `*` between two matrices is the row-by-column product.
impl<T: Copy + Default + Add<Output = T> + Mul<Output = T>> Mul for Matrix4<T> {
    type Output = Self;

    fn mul(self, rhs: Self) -> (r: Self) {
        multiply(&self, &rhs)
    }
}

/// `matrix[i]` as a place to write row `i`.
impl<T> IndexMut<usize> for Matrix4<T> {
    fn index_mut(&mut self, index: usize) -> (r: &mut [T; 4])
        requires
            index < 4,
        ensures
            *r == old(self).m[index as int],
            final(self).m@ == old(self).m@.update(index as int, *final(r)),
    {
        &mut self.m[index]
    }
}

} // verus!
