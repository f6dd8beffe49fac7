//! The arithmetic that a scalar type has to offer, short names for what each
//! operator computes, and the laws of arithmetic that a scalar may obey.

use core::cmp::Ordering;
use core::ops::{Add, Div, Mul, Sub};
use vstd::prelude::*;
use vstd::std_specs::cmp::PartialOrdSpec;
use vstd::std_specs::convert::FromSpec;
use vstd::std_specs::ops::{AddSpec, DivSpec, MulSpec, SubSpec};

verus! {

/// A scalar with a square root.
///
/// `sqrt_req` says on which values the root may be taken and `sqrt_spec`
/// which value it is; an implementation promises that `sqrt` computes it.
/// An implementation that says nothing takes the root of every value and
/// leaves open which value that is.
pub trait Sqrt: Sized {
    open spec fn sqrt_req(&self) -> bool {
        true
    }

    open spec fn sqrt_spec(&self) -> Self {
        arbitrary()
    }

    fn sqrt(&self) -> (r: Self)
        requires
            self.sqrt_req(),
        ensures
            r == self.sqrt_spec(),
    ;
}

/// The sum `a + b` as the scalar type specifies it.
pub open spec fn sum<T: Add<Output = T>>(a: T, b: T) -> T {
    a.add_spec(b)
}

/// The difference `a - b` as the scalar type specifies it.
pub open spec fn diff<T: Sub<Output = T>>(a: T, b: T) -> T {
    a.sub_spec(b)
}

/// The product `a * b` as the scalar type specifies it.
pub open spec fn prod<T: Mul<Output = T>>(a: T, b: T) -> T {
    a.mul_spec(b)
}

/// The quotient `a / b` as the scalar type specifies it.
pub open spec fn quot<T: Div<Output = T>>(a: T, b: T) -> T {
    a.div_spec(b)
}

/// The square root of `a` as the scalar type specifies it.
pub open spec fn root<T: Sqrt>(a: T) -> T {
    a.sqrt_spec()
}

/// `a > b` in the scalar's partial order.
pub open spec fn greater<T: PartialOrd>(a: T, b: T) -> bool {
    a.partial_cmp_spec(&b) == Some(Ordering::Greater)
}

/// `a + b` may be computed.
pub open spec fn can_sum<T: Add<Output = T>>(a: T, b: T) -> bool {
    a.add_req(b)
}

/// `a - b` may be computed.
pub open spec fn can_diff<T: Sub<Output = T>>(a: T, b: T) -> bool {
    a.sub_req(b)
}

/// `a * b` may be computed.
pub open spec fn can_prod<T: Mul<Output = T>>(a: T, b: T) -> bool {
    a.mul_req(b)
}

/// `a / b` may be computed.
pub open spec fn can_quot<T: Div<Output = T>>(a: T, b: T) -> bool {
    a.div_req(b)
}

/// The scalar's zero, converted from the integer 0.
pub open spec fn zero<T: From<i8>>() -> T {
    T::from_spec(0i8)
}

/// The scalar's one, converted from the integer 1.
pub open spec fn one<T: From<i8>>() -> T {
    T::from_spec(1i8)
}

/// The magnitude of `x`: `x` itself unless zero is above it, else `0 - x`.
pub open spec fn abs_of<T: Sub<Output = T> + PartialOrd + From<i8>>(x: T) -> T {
    if greater(zero::<T>(), x) {
        diff(zero::<T>(), x)
    } else {
        x
    }
}

/// `abs_of(x)` may be computed.
pub open spec fn abs_defined<T: Sub<Output = T> + PartialOrd + From<i8>>(x: T) -> bool {
    greater(zero::<T>(), x) ==> can_diff(zero::<T>(), x)
}

/// The three-term sum `a + b + c`, summed from the left.
pub open spec fn sum3<T: Add<Output = T>>(a: T, b: T, c: T) -> T {
    sum(sum(a, b), c)
}

/// The three-term sum `a + b + c` may be computed from the left.
pub open spec fn can_sum3<T: Add<Output = T>>(a: T, b: T, c: T) -> bool {
    can_sum(a, b) && can_sum(sum(a, b), c)
}

/// The product of two scalars does not depend on their order.
pub open spec fn product_commutes<T: Mul<Output = T>>() -> bool {
    forall|a: T, b: T| #[trigger] prod(a, b) == prod(b, a)
}

/// Taking a difference from zero exchanges its two sides: `0 - (a - b)` is
/// `b - a`.
pub open spec fn difference_flips<T: Sub<Output = T> + From<i8>>() -> bool {
    forall|a: T, b: T| diff(zero::<T>(), #[trigger] diff(a, b)) == diff(b, a)
}

/// Zero is neutral on both sides of a sum.
pub open spec fn zero_is_neutral<T: Add<Output = T> + From<i8>>() -> bool {
    &&& forall|a: T| #[trigger] sum(a, zero::<T>()) == a
    &&& forall|a: T| #[trigger] sum(zero::<T>(), a) == a
}

/// A product with zero on the right is zero.
pub open spec fn zero_absorbs<T: Mul<Output = T> + From<i8>>() -> bool {
    forall|a: T| #[trigger] prod(a, zero::<T>()) == zero::<T>()
}

/// One is neutral on the right of a product and of a quotient.
pub open spec fn one_is_neutral<T: Mul<Output = T> + Div<Output = T> + From<i8>>() -> bool {
    &&& forall|a: T| #[trigger] prod(a, one::<T>()) == a
    &&& forall|a: T| #[trigger] quot(a, one::<T>()) == a
}

/// No scalar is above itself.
pub open spec fn order_is_strict<T: PartialOrd>() -> bool {
    forall|a: T| !#[trigger] greater(a, a)
}

/// `a` is above `b` or equal to it in the scalar's partial order.
pub open spec fn not_below<T: PartialOrd>(a: T, b: T) -> bool {
    greater(a, b) || a.partial_cmp_spec(&b) == Some(Ordering::Equal)
}

/// A square is not below zero, and is zero for zero alone.
pub open spec fn squares_are_definite<T: Mul<Output = T> + PartialOrd + From<i8>>() -> bool {
    forall|a: T|
        not_below(#[trigger] prod(a, a), zero::<T>()) && (prod(a, a) == zero::<T>() <==> a
            == zero::<T>())
}

/// The sum of two scalars that are not below zero is not below zero, and is
/// zero where both are zero and nowhere else.
pub open spec fn sums_are_definite<T: Add<Output = T> + PartialOrd + From<i8>>() -> bool {
    forall|a: T, b: T|
        not_below(a, zero::<T>()) && not_below(b, zero::<T>()) ==> not_below(
            #[trigger] sum(a, b),
            zero::<T>(),
        ) && (sum(a, b) == zero::<T>() <==> a == zero::<T>() && b == zero::<T>())
}

/// The root of a scalar that is not below zero is not below zero, and is
/// zero for zero alone.
pub open spec fn roots_are_definite<T: Sqrt + PartialOrd + From<i8>>() -> bool {
    forall|a: T|
        not_below(a, zero::<T>()) ==> not_below(#[trigger] root(a), zero::<T>()) && (root(a)
            == zero::<T>() <==> a == zero::<T>())
}

/// A sum of three scalars does not depend on which two are added first.
#[verifier::opaque]
pub open spec fn sum_associates<T: Add<Output = T>>() -> bool {
    forall|a: T, b: T, c: T| #[trigger] sum(sum(a, b), c) == sum(a, sum(b, c))
}

/// The sum of two scalars does not depend on their order.
#[verifier::opaque]
pub open spec fn sum_commutes<T: Add<Output = T>>() -> bool {
    forall|a: T, b: T| #[trigger] sum(a, b) == sum(b, a)
}

/// A product of three scalars does not depend on which two are multiplied
/// first.
#[verifier::opaque]
pub open spec fn product_associates<T: Mul<Output = T>>() -> bool {
    forall|a: T, b: T, c: T| #[trigger] prod(prod(a, b), c) == prod(a, prod(b, c))
}

/// A product with a sum, on either side, is the sum of the products.
#[verifier::opaque]
pub open spec fn product_distributes<T: Add<Output = T> + Mul<Output = T>>() -> bool {
    &&& forall|a: T, b: T, c: T| #[trigger] prod(sum(a, b), c) == sum(prod(a, c), prod(b, c))
    &&& forall|a: T, b: T, c: T| #[trigger] prod(a, sum(b, c)) == sum(prod(a, b), prod(a, c))
}

/// Adding a scalar that is above zero gives a scalar above the one it was
/// added to.
pub open spec fn sum_moves_up<T: Add<Output = T> + PartialOrd + From<i8>>() -> bool {
    forall|a: T, b: T| greater(b, zero::<T>()) ==> greater(#[trigger] sum(a, b), a)
}

/// The magnitude of every scalar other than zero is above zero.
pub open spec fn magnitude_is_positive<T: Sub<Output = T> + PartialOrd + From<i8>>() -> bool {
    forall|a: T| a != zero::<T>() ==> greater(#[trigger] abs_of(a), zero::<T>())
}

} // verus!
