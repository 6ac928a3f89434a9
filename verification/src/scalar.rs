//! The numeric capability of the library.
//!
//! Every algorithm of the library is written over a scalar type that the
//! embedder chooses. A scalar is a value with a place in a total order and
//! with the usual arithmetic. The library never looks inside a scalar: it
//! only calls the operations below, and its contracts are stated over the
//! specification twin of each operation.
use vstd::prelude::*;

verus! {

/// Values that can be accumulated: a neutral element and an addition.
pub trait Additive: Copy + Sized {
    /// The neutral element.
    spec fn zero_spec() -> Self;

    /// The sum of two values.
    spec fn plus_spec(self, rhs: Self) -> Self;

    fn zero() -> (r: Self)
        ensures
            r == Self::zero_spec(),
    ;

    fn plus(self, rhs: Self) -> (r: Self)
        ensures
            r == self.plus_spec(rhs),
    ;
}

/// A scalar: a totally ordered value with arithmetic.
///
/// `rank` places every scalar on the integer line; two scalars compare as
/// their ranks do. A value that has no place in the order (a NaN of a
/// floating-point type) is not a scalar of this library.
pub trait Scalar: Additive {
    /// The place of the scalar in the total order.
    spec fn rank(self) -> i64;

    spec fn one_spec() -> Self;

    /// A scalar that no other scalar exceeds.
    spec fn infinity_spec() -> Self;

    /// The scalar that stands for a count of items.
    spec fn from_count_spec(n: usize) -> Self;

    spec fn minus_spec(self, rhs: Self) -> Self;

    spec fn times_spec(self, rhs: Self) -> Self;

    spec fn over_spec(self, rhs: Self) -> Self;

    spec fn negated_spec(self) -> Self;

    spec fn root_spec(self) -> Self;

    fn one() -> (r: Self)
        ensures
            r == Self::one_spec(),
    ;

    fn infinity() -> (r: Self)
        ensures
            r == Self::infinity_spec(),
    ;

    fn from_count(n: usize) -> (r: Self)
        ensures
            r == Self::from_count_spec(n),
    ;

    fn minus(self, rhs: Self) -> (r: Self)
        ensures
            r == self.minus_spec(rhs),
    ;

    fn times(self, rhs: Self) -> (r: Self)
        ensures
            r == self.times_spec(rhs),
    ;

    fn over(self, rhs: Self) -> (r: Self)
        ensures
            r == self.over_spec(rhs),
    ;

    fn negated(self) -> (r: Self)
        ensures
            r == self.negated_spec(),
    ;

    /// The square root.
    fn root(self) -> (r: Self)
        ensures
            r == self.root_spec(),
    ;

    /// Whether `self` comes strictly before `rhs` in the order.
    fn lt(self, rhs: Self) -> (r: bool)
        ensures
            r == (self.rank() < rhs.rank()),
    ;
}

/// The laws of exact arithmetic that the library's algebraic theorems rest on.
///
/// A scalar type whose arithmetic rounds (floating point) obeys them only
/// approximately and does not implement this trait.
pub trait ExactScalar: Scalar {
    proof fn law_plus_zero(a: Self)
        ensures
            a.plus_spec(Self::zero_spec()) == a,
            Self::zero_spec().plus_spec(a) == a,
    ;

    proof fn law_times_zero(a: Self)
        ensures
            a.times_spec(Self::zero_spec()) == Self::zero_spec(),
            Self::zero_spec().times_spec(a) == Self::zero_spec(),
    ;

    proof fn law_times_one(a: Self)
        ensures
            a.times_spec(Self::one_spec()) == a,
    ;

    proof fn law_plus_minus(a: Self, b: Self)
        ensures
            a.plus_spec(b.minus_spec(a)) == b,
    ;

    proof fn law_plus_negated(a: Self)
        ensures
            a.plus_spec(a.negated_spec()) == Self::zero_spec(),
    ;

    proof fn law_negated_negated(a: Self)
        ensures
            a.negated_spec().negated_spec() == a,
    ;

    proof fn law_zero_below_one()
        ensures
            Self::zero_spec().rank() < Self::one_spec().rank(),
    ;
}

} // verus!
