//! What holds between the operations, for every vector, point and matrix.
//!
//! A law that rests on how the scalar's arithmetic behaves says so in its
//! `requires`.

use crate::basic_types::{cross_of, dot_of, length_of, normalized, Point3, Tuple, Vec3};
use crate::inverse::{det_of, guard_of, invertible};
use crate::matrix::{
    cell_of, in_grid, point_image, product_of, row_of, sum4, transpose_of, vector_image, Matrix4,
};
use crate::scalar::{
    abs_of, diff, difference_flips, greater, magnitude_is_positive, not_below, one,
    one_is_neutral, order_is_strict, prod, product_associates, product_commutes,
    product_distributes, quot, root, roots_are_definite, squares_are_definite, sum,
    sum_associates, sum_commutes, sum_moves_up, sums_are_definite, zero, zero_absorbs,
    zero_is_neutral, Sqrt,
};
use core::ops::{Add, Div, Mul, Sub};
use vstd::prelude::*;

verus! {

/// The triple with each component taken from zero.
pub open spec fn negated<T: Sub<Output = T> + From<i8>>(a: (T, T, T)) -> (T, T, T) {
    (diff(zero::<T>(), a.0), diff(zero::<T>(), a.1), diff(zero::<T>(), a.2))
}

/// The matrix with one on the diagonal and zero elsewhere.
pub open spec fn identity_of<T: From<i8>>() -> Matrix4<T> {
    let i = one::<T>();
    let o = zero::<T>();
    Matrix4 { m: [[i, o, o, o], [o, i, o, o], [o, o, i, o], [o, o, o, i]] }
}

/// The dot product does not depend on the order of its operands, where the
/// scalar's product does not.
pub proof fn lemma_dot_commutes<T: Add<Output = T> + Mul<Output = T>>(a: Vec3<T>, b: Vec3<T>)
    requires
        product_commutes::<T>(),
    ensures
        dot_of(a.coords(), b.coords()) == dot_of(b.coords(), a.coords()),
{
    assert(prod(a.x, b.x) == prod(b.x, a.x));
    assert(prod(a.y, b.y) == prod(b.y, a.y));
    assert(prod(a.z, b.z) == prod(b.z, a.z));
}

/// Exchanging the operands of the cross product negates it, where the
/// scalar's product commutes and a difference taken from zero is the
/// difference the other way round.
pub proof fn lemma_cross_anticommutes<T: Mul<Output = T> + Sub<Output = T> + From<i8>>(
    u: Vec3<T>,
    v: Vec3<T>,
)
    requires
        product_commutes::<T>(),
        difference_flips::<T>(),
    ensures
        cross_of(u.coords(), v.coords()) == negated(cross_of(v.coords(), u.coords())),
{
    let a = u.coords();
    let b = v.coords();
    assert(prod(a.1, b.2) == prod(b.2, a.1));
    assert(prod(a.2, b.1) == prod(b.1, a.2));
    assert(prod(a.2, b.0) == prod(b.0, a.2));
    assert(prod(a.0, b.2) == prod(b.2, a.0));
    assert(prod(a.0, b.1) == prod(b.1, a.0));
    assert(prod(a.1, b.0) == prod(b.0, a.1));
    assert(diff(zero::<T>(), diff(prod(b.1, a.2), prod(b.2, a.1))) == diff(
        prod(b.2, a.1),
        prod(b.1, a.2),
    ));
    assert(diff(zero::<T>(), diff(prod(b.2, a.0), prod(b.0, a.2))) == diff(
        prod(b.0, a.2),
        prod(b.2, a.0),
    ));
    assert(diff(zero::<T>(), diff(prod(b.0, a.1), prod(b.1, a.0))) == diff(
        prod(b.1, a.0),
        prod(b.0, a.1),
    ));
}

/// The magnitude of a vector is not below zero, and is zero for the zero
/// vector alone, where squares, sums and roots of the scalar are definite.
pub proof fn lemma_magnitude_is_definite<
    T: Add<Output = T> + Mul<Output = T> + Sqrt + PartialOrd + From<i8>,
>(v: Vec3<T>)
    requires
        squares_are_definite::<T>(),
        sums_are_definite::<T>(),
        roots_are_definite::<T>(),
    ensures
        not_below(length_of(v.coords()), zero::<T>()),
        length_of(v.coords()) == zero::<T>() <==> v.coords() == (
            zero::<T>(),
            zero::<T>(),
            zero::<T>(),
        ),
{
    let o = zero::<T>();
    let xx = prod(v.x, v.x);
    let yy = prod(v.y, v.y);
    let zz = prod(v.z, v.z);
    assert(not_below(xx, o) && (xx == o <==> v.x == o));
    assert(not_below(yy, o) && (yy == o <==> v.y == o));
    assert(not_below(zz, o) && (zz == o <==> v.z == o));
    let xy = sum(xx, yy);
    assert(not_below(xy, o) && (xy == o <==> xx == o && yy == o));
    let d = sum(xy, zz);
    assert(not_below(d, o) && (d == o <==> xy == o && zz == o));
    assert(d == dot_of(v.coords(), v.coords()));
    assert(not_below(root(d), o) && (root(d) == o <==> d == o));
}

/// The distance of a point from the origin is not below zero, and is zero
/// for the origin alone, where squares, sums and roots of the scalar are
/// definite.
pub proof fn lemma_distance_is_definite<
    T: Add<Output = T> + Mul<Output = T> + Sqrt + PartialOrd + From<i8>,
>(p: Point3<T>)
    requires
        squares_are_definite::<T>(),
        sums_are_definite::<T>(),
        roots_are_definite::<T>(),
    ensures
        not_below(length_of(p.coords()), zero::<T>()),
        length_of(p.coords()) == zero::<T>() <==> p.coords() == (
            zero::<T>(),
            zero::<T>(),
            zero::<T>(),
        ),
{
    lemma_magnitude_is_definite(Vec3 { x: p.x, y: p.y, z: p.z });
}

/// Normalizing leaves every triple whose length is not above zero as it is.
pub proof fn lemma_normalize_keeps_short<
    T: Add<Output = T> + Mul<Output = T> + Div<Output = T> + Sqrt + PartialOrd + From<i8>,
>(v: Vec3<T>)
    requires
        !greater(length_of(v.coords()), zero::<T>()),
    ensures
        normalized(v.coords()) == v.coords(),
{
}

/// Normalizing leaves a vector of length one as it is, where one is above
/// zero and neutral on the right of a product and of a quotient.
pub proof fn lemma_normalize_keeps_unit<
    T: Add<Output = T> + Mul<Output = T> + Div<Output = T> + Sqrt + PartialOrd + From<i8>,
>(v: Vec3<T>)
    requires
        one_is_neutral::<T>(),
        greater(one::<T>(), zero::<T>()),
        length_of(v.coords()) == one::<T>(),
    ensures
        normalized(v.coords()) == v.coords(),
{
    let i = one::<T>();
    assert(quot(i, i) == i);
    assert(prod(v.x, i) == v.x && prod(v.y, i) == v.y && prod(v.z, i) == v.z);
}

/// Normalizing the zero triple gives the zero triple, where zero times zero
/// and zero plus zero are zero, the root of zero is zero, and zero is not
/// above itself.
pub proof fn lemma_normalize_zero<
    T: Add<Output = T> + Mul<Output = T> + Div<Output = T> + Sqrt + PartialOrd + From<i8>,
>()
    requires
        zero_is_neutral::<T>(),
        zero_absorbs::<T>(),
        order_is_strict::<T>(),
        root(zero::<T>()) == zero::<T>(),
    ensures
        normalized((zero::<T>(), zero::<T>(), zero::<T>())) == (
            zero::<T>(),
            zero::<T>(),
            zero::<T>(),
        ),
{
    let o = zero::<T>();
    assert(prod(o, o) == o);
    assert(sum(o, o) == o);
    assert(dot_of((o, o, o), (o, o, o)) == o);
    assert(length_of((o, o, o)) == o);
    assert(!greater(o, o));
}

/// Transposing twice gives the matrix back.
pub proof fn lemma_transpose_twice<T>(m: Matrix4<T>)
    ensures
        transpose_of(transpose_of(m)) == m,
{
    let t = transpose_of(transpose_of(m));
    assert forall|i: int| 0 <= i < 4 implies t.m[i] == m.m[i] by {
        assert(t.m[i] =~= m.m[i]);
    }
    assert(t.m =~= m.m);
}

/// Transposing leaves a symmetric matrix as it is.
pub proof fn lemma_transpose_keeps_symmetric<T>(m: Matrix4<T>)
    requires
        forall|i: int, j: int| in_grid(i, j) ==> #[trigger] m.at(i, j) == m.at(j, i),
    ensures
        transpose_of(m) == m,
{
    let t = transpose_of(m);
    assert forall|i: int| 0 <= i < 4 implies t.m[i] == m.m[i] by {
        assert forall|j: int| 0 <= j < 4 implies t.m[i][j] == m.m[i][j] by {
            assert(m.at(i, j) == m.at(j, i));
        }
        assert(t.m[i] =~= m.m[i]);
    }
    assert(t.m =~= m.m);
}

/// The identity matrix maps every direction to itself, where zero and one
/// are neutral and zero absorbs.
pub proof fn lemma_identity_keeps_vector<
    T: Add<Output = T> + Mul<Output = T> + Div<Output = T> + From<i8>,
>(v: Vec3<T>)
    requires
        zero_is_neutral::<T>(),
        zero_absorbs::<T>(),
        one_is_neutral::<T>(),
    ensures
        vector_image(v.coords(), identity_of::<T>()) == v.coords(),
{
    let c = v.coords();
    let i = one::<T>();
    let o = zero::<T>();
    assert(prod(c.0, i) == c.0 && prod(c.1, i) == c.1 && prod(c.2, i) == c.2);
    assert(prod(c.0, o) == o && prod(c.1, o) == o && prod(c.2, o) == o);
    assert(sum(c.0, o) == c.0 && sum(c.1, o) == c.1 && sum(c.2, o) == c.2);
    assert(sum(o, c.1) == c.1 && sum(o, c.2) == c.2);
    assert(sum(o, o) == o);
}

/// The identity matrix maps every point to itself, where zero and one are
/// neutral and zero absorbs.
pub proof fn lemma_identity_keeps_point<
    T: Add<Output = T> + Mul<Output = T> + Div<Output = T> + From<i8>,
>(p: Point3<T>)
    requires
        zero_is_neutral::<T>(),
        zero_absorbs::<T>(),
        one_is_neutral::<T>(),
    ensures
        point_image(p.coords(), identity_of::<T>()) == p.coords(),
{
    let c = p.coords();
    let i = one::<T>();
    let o = zero::<T>();
    assert(prod(c.0, i) == c.0 && prod(c.1, i) == c.1 && prod(c.2, i) == c.2);
    assert(sum(o, c.1) == c.1 && sum(o, c.2) == c.2);
    assert(prod(c.0, o) == o && prod(c.1, o) == o && prod(c.2, o) == o);
    assert(sum(c.0, o) == c.0 && sum(c.1, o) == c.1 && sum(c.2, o) == c.2);
    assert(sum(o, o) == o);
    assert(sum(o, i) == i);
    assert(quot(c.0, i) == c.0 && quot(c.1, i) == c.1 && quot(c.2, i) == c.2);
}

/// A matrix whose determinant is zero is not invertible, where zero is
/// neutral in a sum and no scalar is above itself.
pub proof fn lemma_zero_determinant_is_singular<
    T: Add<Output = T> + Sub<Output = T> + Mul<Output = T> + PartialOrd + From<i8>,
>(m: Matrix4<T>)
    requires
        zero_is_neutral::<T>(),
        order_is_strict::<T>(),
        det_of(m) == zero::<T>(),
    ensures
        !invertible(m),
{
    let o = zero::<T>();
    let g = guard_of(m);
    assert(!greater(o, o));
    assert(abs_of(o) == o);
    assert(sum(g, o) == g);
    assert(!greater(g, g));
}

/// A matrix whose determinant is not zero is invertible, where every scalar
/// other than zero has a magnitude above zero and adding a scalar above zero
/// moves a sum up.
pub proof fn lemma_nonzero_determinant_is_invertible<
    T: Add<Output = T> + Sub<Output = T> + Mul<Output = T> + PartialOrd + From<i8>,
>(m: Matrix4<T>)
    requires
        magnitude_is_positive::<T>(),
        sum_moves_up::<T>(),
        det_of(m) != zero::<T>(),
    ensures
        invertible(m),
{
    let d = det_of(m);
    let g = guard_of(m);
    assert(greater(abs_of(d), zero::<T>()));
    assert(greater(sum(g, abs_of(d)), g));
}

/// `(a + b) + (c + d)` is `(a + c) + (b + d)`.
proof fn lemma_interchange<T: Add<Output = T>>(a: T, b: T, c: T, d: T)
    requires
        sum_associates::<T>(),
        sum_commutes::<T>(),
    ensures
        sum(sum(a, b), sum(c, d)) == sum(sum(a, c), sum(b, d)),
{
    reveal(sum_associates);
    reveal(sum_commutes);
    assert(sum(sum(a, b), sum(c, d)) == sum(a, sum(b, sum(c, d))));
    assert(sum(sum(b, c), d) == sum(b, sum(c, d)));
    assert(sum(b, c) == sum(c, b));
    assert(sum(sum(c, b), d) == sum(c, sum(b, d)));
    assert(sum(sum(a, c), sum(b, d)) == sum(a, sum(c, sum(b, d))));
}

/// A sum of four from the left is the sum of its two halves.
proof fn lemma_halves<T: Add<Output = T>>(a: T, b: T, c: T, d: T)
    requires
        sum_associates::<T>(),
    ensures
        sum4(a, b, c, d) == sum(sum(a, b), sum(c, d)),
{
    reveal(sum_associates);
    assert(sum(sum(sum(a, b), c), d) == sum(sum(a, b), sum(c, d)));
}

/// Two sums of four added together are the four sums of their pairs.
proof fn lemma_add_rows<T: Add<Output = T>>(p: (T, T, T, T), q: (T, T, T, T))
    requires
        sum_associates::<T>(),
        sum_commutes::<T>(),
    ensures
        sum(sum4(p.0, p.1, p.2, p.3), sum4(q.0, q.1, q.2, q.3)) == sum4(
            sum(p.0, q.0),
            sum(p.1, q.1),
            sum(p.2, q.2),
            sum(p.3, q.3),
        ),
{
    lemma_halves(p.0, p.1, p.2, p.3);
    lemma_halves(q.0, q.1, q.2, q.3);
    lemma_interchange(sum(p.0, p.1), sum(p.2, p.3), sum(q.0, q.1), sum(q.2, q.3));
    lemma_interchange(p.0, p.1, q.0, q.1);
    lemma_interchange(p.2, p.3, q.2, q.3);
    lemma_halves(sum(p.0, q.0), sum(p.1, q.1), sum(p.2, q.2), sum(p.3, q.3));
}

/// Sixteen scalars summed row by row are what they sum to column by column.
proof fn lemma_grid<T: Add<Output = T>>(
    p: (T, T, T, T),
    q: (T, T, T, T),
    r: (T, T, T, T),
    s: (T, T, T, T),
)
    requires
        sum_associates::<T>(),
        sum_commutes::<T>(),
    ensures
        sum4(
            sum4(p.0, p.1, p.2, p.3),
            sum4(q.0, q.1, q.2, q.3),
            sum4(r.0, r.1, r.2, r.3),
            sum4(s.0, s.1, s.2, s.3),
        ) == sum4(
            sum4(p.0, q.0, r.0, s.0),
            sum4(p.1, q.1, r.1, s.1),
            sum4(p.2, q.2, r.2, s.2),
            sum4(p.3, q.3, r.3, s.3),
        ),
{
    let pq = (sum(p.0, q.0), sum(p.1, q.1), sum(p.2, q.2), sum(p.3, q.3));
    let rs = (sum(r.0, s.0), sum(r.1, s.1), sum(r.2, s.2), sum(r.3, s.3));
    lemma_halves(
        sum4(p.0, p.1, p.2, p.3),
        sum4(q.0, q.1, q.2, q.3),
        sum4(r.0, r.1, r.2, r.3),
        sum4(s.0, s.1, s.2, s.3),
    );
    lemma_add_rows(p, q);
    lemma_add_rows(r, s);
    lemma_add_rows(pq, rs);
    lemma_halves(p.0, q.0, r.0, s.0);
    lemma_halves(p.1, q.1, r.1, s.1);
    lemma_halves(p.2, q.2, r.2, s.2);
    lemma_halves(p.3, q.3, r.3, s.3);
}

/// A sum of four times `x` is the sum of the four products with `x`, and
/// `x` times a sum of four likewise.
proof fn lemma_spread<T: Add<Output = T> + Mul<Output = T>>(a: T, b: T, c: T, d: T, x: T)
    requires
        product_distributes::<T>(),
    ensures
        prod(sum4(a, b, c, d), x) == sum4(prod(a, x), prod(b, x), prod(c, x), prod(d, x)),
        prod(x, sum4(a, b, c, d)) == sum4(prod(x, a), prod(x, b), prod(x, c), prod(x, d)),
{
    reveal(product_distributes);
    assert(prod(sum(sum(sum(a, b), c), d), x) == sum(prod(sum(sum(a, b), c), x), prod(d, x)));
    assert(prod(sum(sum(a, b), c), x) == sum(prod(sum(a, b), x), prod(c, x)));
    assert(prod(sum(a, b), x) == sum(prod(a, x), prod(b, x)));
    assert(prod(x, sum(sum(sum(a, b), c), d)) == sum(prod(x, sum(sum(a, b), c)), prod(x, d)));
    assert(prod(x, sum(sum(a, b), c)) == sum(prod(x, sum(a, b)), prod(x, c)));
    assert(prod(x, sum(a, b)) == sum(prod(x, a), prod(x, b)));
}

/// The product of the entries `a[i][l]`, `b[l][k]` and `c[k][j]`.
pub open spec fn path_of<T: Mul<Output = T>>(
    a: Matrix4<T>,
    b: Matrix4<T>,
    c: Matrix4<T>,
    i: int,
    l: int,
    k: int,
    j: int,
) -> T {
    prod(a.at(i, l), prod(b.at(l, k), c.at(k, j)))
}

/// An entry of a product is the cell it was built from.
proof fn lemma_product_entry<T: Add<Output = T> + Mul<Output = T>>(
    a: Matrix4<T>,
    b: Matrix4<T>,
    i: int,
    j: int,
)
    requires
        in_grid(i, j),
    ensures
        product_of(a, b).at(i, j) == cell_of(a, b, i, j),
{
    assert(product_of(a, b).m[i] == row_of(a, b, i));
    assert(row_of(a, b, i)[j] == cell_of(a, b, i, j));
}

/// The `k`-th term of a cell of `(a * b) * c`, as a sum over `l` of paths.
proof fn lemma_left_term<T: Add<Output = T> + Mul<Output = T>>(
    a: Matrix4<T>,
    b: Matrix4<T>,
    c: Matrix4<T>,
    i: int,
    k: int,
    j: int,
)
    requires
        in_grid(i, j),
        0 <= k < 4,
        product_associates::<T>(),
        product_distributes::<T>(),
    ensures
        prod(product_of(a, b).at(i, k), c.at(k, j)) == sum4(
            path_of(a, b, c, i, 0, k, j),
            path_of(a, b, c, i, 1, k, j),
            path_of(a, b, c, i, 2, k, j),
            path_of(a, b, c, i, 3, k, j),
        ),
{
    lemma_product_entry(a, b, i, k);
    let x = c.at(k, j);
    lemma_spread(
        prod(a.at(i, 0), b.at(0, k)),
        prod(a.at(i, 1), b.at(1, k)),
        prod(a.at(i, 2), b.at(2, k)),
        prod(a.at(i, 3), b.at(3, k)),
        x,
    );
    reveal(product_associates);
    assert(prod(prod(a.at(i, 0), b.at(0, k)), x) == path_of(a, b, c, i, 0, k, j));
    assert(prod(prod(a.at(i, 1), b.at(1, k)), x) == path_of(a, b, c, i, 1, k, j));
    assert(prod(prod(a.at(i, 2), b.at(2, k)), x) == path_of(a, b, c, i, 2, k, j));
    assert(prod(prod(a.at(i, 3), b.at(3, k)), x) == path_of(a, b, c, i, 3, k, j));
}

/// The `l`-th term of a cell of `a * (b * c)`, as a sum over `k` of paths.
proof fn lemma_right_term<T: Add<Output = T> + Mul<Output = T>>(
    a: Matrix4<T>,
    b: Matrix4<T>,
    c: Matrix4<T>,
    i: int,
    l: int,
    j: int,
)
    requires
        in_grid(i, j),
        0 <= l < 4,
        product_distributes::<T>(),
    ensures
        prod(a.at(i, l), product_of(b, c).at(l, j)) == sum4(
            path_of(a, b, c, i, l, 0, j),
            path_of(a, b, c, i, l, 1, j),
            path_of(a, b, c, i, l, 2, j),
            path_of(a, b, c, i, l, 3, j),
        ),
{
    lemma_product_entry(b, c, l, j);
    lemma_spread(
        prod(b.at(l, 0), c.at(0, j)),
        prod(b.at(l, 1), c.at(1, j)),
        prod(b.at(l, 2), c.at(2, j)),
        prod(b.at(l, 3), c.at(3, j)),
        a.at(i, l),
    );
}

/// Each cell of `(a * b) * c` is the same cell of `a * (b * c)`.
proof fn lemma_cell_associates<T: Add<Output = T> + Mul<Output = T>>(
    a: Matrix4<T>,
    b: Matrix4<T>,
    c: Matrix4<T>,
    i: int,
    j: int,
)
    requires
        in_grid(i, j),
        sum_associates::<T>(),
        sum_commutes::<T>(),
        product_associates::<T>(),
        product_distributes::<T>(),
    ensures
        cell_of(product_of(a, b), c, i, j) == cell_of(a, product_of(b, c), i, j),
{
    lemma_left_term(a, b, c, i, 0, j);
    lemma_left_term(a, b, c, i, 1, j);
    lemma_left_term(a, b, c, i, 2, j);
    lemma_left_term(a, b, c, i, 3, j);
    lemma_right_term(a, b, c, i, 0, j);
    lemma_right_term(a, b, c, i, 1, j);
    lemma_right_term(a, b, c, i, 2, j);
    lemma_right_term(a, b, c, i, 3, j);
    lemma_grid(
        (
            path_of(a, b, c, i, 0, 0, j),
            path_of(a, b, c, i, 1, 0, j),
            path_of(a, b, c, i, 2, 0, j),
            path_of(a, b, c, i, 3, 0, j),
        ),
        (
            path_of(a, b, c, i, 0, 1, j),
            path_of(a, b, c, i, 1, 1, j),
            path_of(a, b, c, i, 2, 1, j),
            path_of(a, b, c, i, 3, 1, j),
        ),
        (
            path_of(a, b, c, i, 0, 2, j),
            path_of(a, b, c, i, 1, 2, j),
            path_of(a, b, c, i, 2, 2, j),
            path_of(a, b, c, i, 3, 2, j),
        ),
        (
            path_of(a, b, c, i, 0, 3, j),
            path_of(a, b, c, i, 1, 3, j),
            path_of(a, b, c, i, 2, 3, j),
            path_of(a, b, c, i, 3, 3, j),
        ),
    );
}

/// The matrix product is associative, where the scalar's sum is associative
/// and commutative and its product is associative and distributes over the
/// sum.
pub proof fn lemma_product_associates<T: Add<Output = T> + Mul<Output = T>>(
    a: Matrix4<T>,
    b: Matrix4<T>,
    c: Matrix4<T>,
)
    requires
        sum_associates::<T>(),
        sum_commutes::<T>(),
        product_associates::<T>(),
        product_distributes::<T>(),
    ensures
        product_of(product_of(a, b), c) == product_of(a, product_of(b, c)),
{
    let left = product_of(product_of(a, b), c);
    let right = product_of(a, product_of(b, c));
    assert forall|i: int| 0 <= i < 4 implies left.m[i] == right.m[i] by {
        lemma_cell_associates(a, b, c, i, 0);
        lemma_cell_associates(a, b, c, i, 1);
        lemma_cell_associates(a, b, c, i, 2);
        lemma_cell_associates(a, b, c, i, 3);
        assert(left.m[i] == row_of(product_of(a, b), c, i));
        assert(right.m[i] == row_of(a, product_of(b, c), i));
        assert(left.m[i] =~= right.m[i]);
    }
    assert(left.m =~= right.m);
}

} // verus!
