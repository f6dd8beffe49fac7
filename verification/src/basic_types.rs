//! Vectors and points with three components.

use crate::scalar::{
    can_diff, can_prod, can_quot, can_sum, can_sum3, diff, greater, one, prod, quot, root, sum,
    sum3, zero, Sqrt,
};
use core::ops::{Add, Div, Index, IndexMut, Mul, Sub};
use vstd::prelude::*;
use vstd::std_specs::cmp::PartialOrdSpec;
use vstd::std_specs::convert::FromSpec;
use vstd::std_specs::ops::{
    AddSpec, AddSpecImpl, DivSpec, MulSpec, MulSpecImpl, SubSpec, SubSpecImpl,
};

verus! {

/// The dot product of two triples.
pub open spec fn dot_of<T: Add<Output = T> + Mul<Output = T>>(a: (T, T, T), b: (T, T, T)) -> T {
    sum3(prod(a.0, b.0), prod(a.1, b.1), prod(a.2, b.2))
}

/// Every operation of `dot_of(a, b)` may be computed.
pub open spec fn dot_defined<T: Add<Output = T> + Mul<Output = T>>(
    a: (T, T, T),
    b: (T, T, T),
) -> bool {
    &&& T::obeys_add_spec()
    &&& T::obeys_mul_spec()
    &&& can_prod(a.0, b.0)
    &&& can_prod(a.1, b.1)
    &&& can_prod(a.2, b.2)
    &&& can_sum3(prod(a.0, b.0), prod(a.1, b.1), prod(a.2, b.2))
}

/// The right-handed cross product of two triples.
pub open spec fn cross_of<T: Mul<Output = T> + Sub<Output = T>>(a: (T, T, T), b: (T, T, T)) -> (
    T,
    T,
    T,
) {
    (
        diff(prod(a.1, b.2), prod(a.2, b.1)),
        diff(prod(a.2, b.0), prod(a.0, b.2)),
        diff(prod(a.0, b.1), prod(a.1, b.0)),
    )
}

/// Every operation of `cross_of(a, b)` may be computed.
pub open spec fn cross_defined<T: Mul<Output = T> + Sub<Output = T>>(
    a: (T, T, T),
    b: (T, T, T),
) -> bool {
    &&& T::obeys_mul_spec()
    &&& T::obeys_sub_spec()
    &&& can_prod(a.1, b.2) && can_prod(a.2, b.1) && can_diff(prod(a.1, b.2), prod(a.2, b.1))
    &&& can_prod(a.2, b.0) && can_prod(a.0, b.2) && can_diff(prod(a.2, b.0), prod(a.0, b.2))
    &&& can_prod(a.0, b.1) && can_prod(a.1, b.0) && can_diff(prod(a.0, b.1), prod(a.1, b.0))
}

/// The Euclidean length of a triple: the root of its dot product with itself.
pub open spec fn length_of<T: Add<Output = T> + Mul<Output = T> + Sqrt>(a: (T, T, T)) -> T {
    root(dot_of(a, a))
}

/// Every operation of `length_of(a)` may be computed.
pub open spec fn length_defined<T: Add<Output = T> + Mul<Output = T> + Sqrt>(a: (T, T, T)) -> bool {
    dot_defined(a, a) && dot_of(a, a).sqrt_req()
}

/// The triple scaled to unit length; a triple whose length is not above zero
/// is left as it is.
pub open spec fn normalized<
    T: Add<Output = T> + Mul<Output = T> + Div<Output = T> + Sqrt + PartialOrd + From<i8>,
>(a: (T, T, T)) -> (T, T, T) {
    let len = length_of(a);
    if greater(len, zero::<T>()) {
        let inv = quot(one::<T>(), len);
        (prod(a.0, inv), prod(a.1, inv), prod(a.2, inv))
    } else {
        a
    }
}

/// Every operation of `normalized(a)` may be computed, and the scalar's
/// comparison and conversion are the ones it specifies.
pub open spec fn normalize_defined<
    T: Add<Output = T> + Mul<Output = T> + Div<Output = T> + Sqrt + PartialOrd + From<i8>,
>(a: (T, T, T)) -> bool {
    let len = length_of(a);
    let inv = quot(one::<T>(), len);
    &&& T::obeys_div_spec()
    &&& T::obeys_partial_cmp_spec()
    &&& T::obeys_from_spec()
    &&& length_defined(a)
    &&& greater(len, zero::<T>()) ==> {
        &&& can_quot(one::<T>(), len)
        &&& can_prod(a.0, inv)
        &&& can_prod(a.1, inv)
        &&& can_prod(a.2, inv)
    }
}

/// What vectors and points share: three components, built from three scalars
/// or all zero, and a way to scale them to unit length.
pub trait Tuple<T>: Sized {
    /// The components in the order x, y, z.
    spec fn coords(&self) -> (T, T, T);

    /// Builds the value whose components are `x`, `y` and `z`.
    fn new(x: T, y: T, z: T) -> (r: Self) where T: Copy
        ensures
            r.coords() == (x, y, z),
    ;

    /// Builds the value whose components are the scalar's default value.
    fn zeros() -> (r: Self) where T: Default
        ensures
            T::default.ensures((), r.coords().0),
            T::default.ensures((), r.coords().1),
            T::default.ensures((), r.coords().2),
    ;

    /// Scales the components by one over their length; where the length is
    /// not above zero, changes nothing.
    fn normalize(&mut self) where
        T: Copy + Add<Output = T> + Mul<Output = T> + Div<Output = T> + Sqrt + PartialOrd + From<i8>,

        requires
            normalize_defined(old(self).coords()),
        ensures
            final(self).coords() == normalized(old(self).coords()),
    ;
}

/// A free direction with a magnitude.
pub trait Vector<T>: Tuple<T> {
    /// The dot product `lhs.x*rhs.x + lhs.y*rhs.y + lhs.z*rhs.z`.
    fn dot(lhs: &Self, rhs: &Self) -> (r: T) where T: Copy + Add<Output = T> + Mul<Output = T>
        requires
            dot_defined(lhs.coords(), rhs.coords()),
        ensures
            r == dot_of(lhs.coords(), rhs.coords()),
    ;

    /// The right-handed cross product of this vector with `other`.
    fn cross(&self, other: &Self) -> (r: Self) where
        T: Copy + Add<Output = T> + Mul<Output = T> + Sub<Output = T>,

        requires
            cross_defined(self.coords(), other.coords()),
        ensures
            r.coords() == cross_of(self.coords(), other.coords()),
    ;

    /// The length of the vector: the root of its dot product with itself.
    fn magnitude(&self) -> (r: T) where T: Copy + Add<Output = T> + Mul<Output = T> + Sqrt
        requires
            length_defined(self.coords()),
        ensures
            r == length_of(self.coords()),
    ;
}

/// A fixed location in space.
pub trait Point<T>: Tuple<T> {
    /// The length of the vector from the origin to the point.
    fn distance_from_origin(&self) -> (r: T) where
        T: Copy + Add<Output = T> + Mul<Output = T> + Sqrt,

        requires
            length_defined(self.coords()),
        ensures
            r == length_of(self.coords()),
    ;
}

/// A vector with the components `x`, `y` and `z`.
#[derive(Clone, Copy, PartialEq)]
pub struct Vec3<T> {
    pub x: T,
    pub y: T,
    pub z: T,
}

/// A point with the coordinates `x`, `y` and `z`.
#[derive(Clone, Copy, PartialEq)]
pub struct Point3<T> {
    pub x: T,
    pub y: T,
    pub z: T,
}

impl<T> Tuple<T> for Vec3<T> {
    open spec fn coords(&self) -> (T, T, T) {
        (self.x, self.y, self.z)
    }

    fn new(x: T, y: T, z: T) -> (r: Self) where T: Copy {
        Self { x, y, z }
    }

    fn zeros() -> (r: Self) where T: Default {
        Self { ..Default::default() }
    }

    fn normalize(&mut self) where
        T: Copy + Add<Output = T> + Mul<Output = T> + Div<Output = T> + Sqrt + PartialOrd + From<i8>,
    {
        let len = self.magnitude();
        if len > T::from(0i8) {
            let inv_len = T::from(1i8) / len;
            self.x = self.x * inv_len;
            self.y = self.y * inv_len;
            self.z = self.z * inv_len;
        }
    }
}

impl<T> Vector<T> for Vec3<T> {
    fn dot(lhs: &Self, rhs: &Self) -> (r: T) where T: Copy + Add<Output = T> + Mul<Output = T> {
        lhs.x * rhs.x + lhs.y * rhs.y + lhs.z * rhs.z
    }

    fn cross(&self, other: &Self) -> (r: Self) where
        T: Copy + Add<Output = T> + Mul<Output = T> + Sub<Output = T>,
    {
        Self::new(
            self.y * other.z - self.z * other.y,
            self.z * other.x - self.x * other.z,
            self.x * other.y - self.y * other.x,
        )
    }

    fn magnitude(&self) -> (r: T) where T: Copy + Add<Output = T> + Mul<Output = T> + Sqrt {
        let value = self.x * self.x + self.y * self.y + self.z * self.z;
        value.sqrt()
    }
}

impl<T> Tuple<T> for Point3<T> {
    open spec fn coords(&self) -> (T, T, T) {
        (self.x, self.y, self.z)
    }

    fn new(x: T, y: T, z: T) -> (r: Self) where T: Copy {
        Self { x, y, z }
    }

    fn zeros() -> (r: Self) where T: Default {
        Self { ..Default::default() }
    }

    fn normalize(&mut self) where
        T: Copy + Add<Output = T> + Mul<Output = T> + Div<Output = T> + Sqrt + PartialOrd + From<i8>,
    {
        let len = self.distance_from_origin();
        if len > T::from(0i8) {
            let inv_len = T::from(1i8) / len;
            self.x = self.x * inv_len;
            self.y = self.y * inv_len;
            self.z = self.z * inv_len;
        }
    }
}

impl<T> Point<T> for Point3<T> {
    fn distance_from_origin(&self) -> (r: T) where
        T: Copy + Add<Output = T> + Mul<Output = T> + Sqrt,
    {
        let value = self.x * self.x + self.y * self.y + self.z * self.z;
        value.sqrt()
    }
}

impl<T> Vec3<T> {
    /// The component at `index`: 0 is x, 1 is y, 2 is z.
    pub open spec fn component(&self, index: usize) -> T
        recommends
            index < 3,
    {
        if index == 0 {
            self.x
        } else if index == 1 {
            self.y
        } else {
            self.z
        }
    }
}

impl<T> Vec3<T> {
    /// This vector with the component at `index` replaced by `value`.
    pub open spec fn with_component(self, index: usize, value: T) -> Self
        recommends
            index < 3,
    {
        if index == 0 {
            Vec3 { x: value, ..self }
        } else if index == 1 {
            Vec3 { y: value, ..self }
        } else {
            Vec3 { z: value, ..self }
        }
    }
}

impl<T> Point3<T> {
    /// This point with the component at `index` replaced by `value`.
    pub open spec fn with_component(self, index: usize, value: T) -> Self
        recommends
            index < 3,
    {
        if index == 0 {
            Point3 { x: value, ..self }
        } else if index == 1 {
            Point3 { y: value, ..self }
        } else {
            Point3 { z: value, ..self }
        }
    }
}

impl<T> Point3<T> {
    /// The component at `index`: 0 is x, 1 is y, 2 is z.
    pub open spec fn component(&self, index: usize) -> T
        recommends
            index < 3,
    {
        if index == 0 {
            self.x
        } else if index == 1 {
            self.y
        } else {
            self.z
        }
    }
}

impl<T: Add<Output = T>> AddSpecImpl for Vec3<T> {
    open spec fn obeys_add_spec() -> bool {
        T::obeys_add_spec()
    }

    open spec fn add_req(self, rhs: Self) -> bool {
        can_sum(self.x, rhs.x) && can_sum(self.y, rhs.y) && can_sum(self.z, rhs.z)
    }

    open spec fn add_spec(self, rhs: Self) -> Self {
        Vec3 { x: sum(self.x, rhs.x), y: sum(self.y, rhs.y), z: sum(self.z, rhs.z) }
    }
}

/// Componentwise sum.
impl<T: Add<Output = T>> Add for Vec3<T> {
    type Output = Self;

    fn add(self, rhs: Self) -> (r: Self) {
        Self { x: self.x + rhs.x, y: self.y + rhs.y, z: self.z + rhs.z }
    }
}

impl<T: Sub<Output = T>> SubSpecImpl for Vec3<T> {
    open spec fn obeys_sub_spec() -> bool {
        T::obeys_sub_spec()
    }

    open spec fn sub_req(self, rhs: Self) -> bool {
        can_diff(self.x, rhs.x) && can_diff(self.y, rhs.y) && can_diff(self.z, rhs.z)
    }

    open spec fn sub_spec(self, rhs: Self) -> Self {
        Vec3 { x: diff(self.x, rhs.x), y: diff(self.y, rhs.y), z: diff(self.z, rhs.z) }
    }
}

/// Componentwise difference.
impl<T: Sub<Output = T>> Sub for Vec3<T> {
    type Output = Self;

    fn sub(self, rhs: Self) -> (r: Self) {
        Self { x: self.x - rhs.x, y: self.y - rhs.y, z: self.z - rhs.z }
    }
}

impl<T: Copy + Add<Output = T> + Mul<Output = T> + Sub<Output = T>> MulSpecImpl for Vec3<T> {
    open spec fn obeys_mul_spec() -> bool {
        true
    }

    open spec fn mul_req(self, rhs: Self) -> bool {
        cross_defined(self.coords(), rhs.coords())
    }

    open spec fn mul_spec(self, rhs: Self) -> Self {
        let c = cross_of(self.coords(), rhs.coords());
        Vec3 { x: c.0, y: c.1, z: c.2 }
    }
}

/// `*` between two vectors is their cross product, not a componentwise
/// product.
impl<T: Copy + Add<Output = T> + Mul<Output = T> + Sub<Output = T>> Mul for Vec3<T> {
    type Output = Self;

    fn mul(self, rhs: Self) -> (r: Self) {
        self.cross(&rhs)
    }
}

impl<T: Add<Output = T>> AddSpecImpl for Point3<T> {
    open spec fn obeys_add_spec() -> bool {
        T::obeys_add_spec()
    }

    open spec fn add_req(self, rhs: Self) -> bool {
        can_sum(self.x, rhs.x) && can_sum(self.y, rhs.y) && can_sum(self.z, rhs.z)
    }

    open spec fn add_spec(self, rhs: Self) -> Self {
        Point3 { x: sum(self.x, rhs.x), y: sum(self.y, rhs.y), z: sum(self.z, rhs.z) }
    }
}

/// Componentwise sum.
impl<T: Add<Output = T>> Add for Point3<T> {
    type Output = Self;

    fn add(self, rhs: Self) -> (r: Self) {
        Self { x: self.x + rhs.x, y: self.y + rhs.y, z: self.z + rhs.z }
    }
}

impl<T: Sub<Output = T>> SubSpecImpl for Point3<T> {
    open spec fn obeys_sub_spec() -> bool {
        T::obeys_sub_spec()
    }

    open spec fn sub_req(self, rhs: Self) -> bool {
        can_diff(self.x, rhs.x) && can_diff(self.y, rhs.y) && can_diff(self.z, rhs.z)
    }

    open spec fn sub_spec(self, rhs: Self) -> Self {
        Point3 { x: diff(self.x, rhs.x), y: diff(self.y, rhs.y), z: diff(self.z, rhs.z) }
    }
}

/// Componentwise difference.
impl<T: Sub<Output = T>> Sub for Point3<T> {
    type Output = Self;

    fn sub(self, rhs: Self) -> (r: Self) {
        Self { x: self.x - rhs.x, y: self.y - rhs.y, z: self.z - rhs.z }
    }
}

impl<T> vstd::std_specs::core::IndexSpecImpl<usize> for Vec3<T> {
    open spec fn index_req(&self, index: &usize) -> bool {
        *index < 3
    }
}

impl<T> Index<usize> for Vec3<T> {
    type Output = T;

    fn index(&self, index: usize) -> (r: &T)
        ensures
            *r == self.component(index),
    {
        if index == 0 {
            &self.x
        } else if index == 1 {
            &self.y
        } else if index == 2 {
            &self.z
        } else {
            unreached()
        }
    }
}

impl<T> IndexMut<usize> for Vec3<T> {
    fn index_mut(&mut self, index: usize) -> (r: &mut T)
        requires
            index < 3,
        ensures
            *r == old(self).component(index),
            *final(self) == old(self).with_component(index, *final(r)),
    {
        if index == 0 {
            &mut self.x
        } else if index == 1 {
            &mut self.y
        } else if index == 2 {
            &mut self.z
        } else {
            unreached()
        }
    }
}

impl<T> vstd::std_specs::core::IndexSpecImpl<usize> for Point3<T> {
    open spec fn index_req(&self, index: &usize) -> bool {
        *index < 3
    }
}

impl<T> Index<usize> for Point3<T> {
    type Output = T;

    fn index(&self, index: usize) -> (r: &T)
        ensures
            *r == self.component(index),
    {
        if index == 0 {
            &self.x
        } else if index == 1 {
            &self.y
        } else if index == 2 {
            &self.z
        } else {
            unreached()
        }
    }
}

impl<T> IndexMut<usize> for Point3<T> {
    fn index_mut(&mut self, index: usize) -> (r: &mut T)
        requires
            index < 3,
        ensures
            *r == old(self).component(index),
            *final(self) == old(self).with_component(index, *final(r)),
    {
        if index == 0 {
            &mut self.x
        } else if index == 1 {
            &mut self.y
        } else if index == 2 {
            &mut self.z
        } else {
            unreached()
        }
    }
}

impl<T: Default> Default for Vec3<T> {
    fn default() -> (r: Self)
        ensures
            T::default.ensures((), r.x),
            T::default.ensures((), r.y),
            T::default.ensures((), r.z),
    {
        Self { x: T::default(), y: T::default(), z: T::default() }
    }
}

impl<T: Default> Default for Point3<T> {
    fn default() -> (r: Self)
        ensures
            T::default.ensures((), r.x),
            T::default.ensures((), r.y),
            T::default.ensures((), r.z),
    {
        Self { x: T::default(), y: T::default(), z: T::default() }
    }
}

} // verus!
