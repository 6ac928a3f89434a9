//! Vectors of the plane and of space over a scalar.
use vstd::prelude::*;
use crate::scalar::{Additive, ExactScalar, Scalar};

verus! {

/// A vector space over a scalar, with an inner product.
pub trait VectorSpace: Additive {
    type Scalar: Scalar;

    spec fn minus_spec(self, rhs: Self) -> Self;

    spec fn scaled_spec(self, factor: Self::Scalar) -> Self;

    spec fn negated_spec(self) -> Self;

    spec fn dot_spec(self, rhs: Self) -> Self::Scalar;

    /// The vector whose components all are `value`.
    spec fn from_value_spec(value: Self::Scalar) -> Self;

    fn from_value(value: Self::Scalar) -> (r: Self)
        ensures
            r == Self::from_value_spec(value),
    ;

    fn minus(self, rhs: Self) -> (r: Self)
        ensures
            r == self.minus_spec(rhs),
    ;

    fn scaled(self, factor: Self::Scalar) -> (r: Self)
        ensures
            r == self.scaled_spec(factor),
    ;

    fn negated(self) -> (r: Self)
        ensures
            r == self.negated_spec(),
    ;

    fn dot(self, rhs: Self) -> (r: Self::Scalar)
        ensures
            r == self.dot_spec(rhs),
    ;
}

/// The cross product: a scalar in the plane, a vector in space.
pub trait Cross: VectorSpace {
    type Output: Additive;

    spec fn cross_spec(self, rhs: Self) -> Self::Output;

    fn cross(self, rhs: Self) -> (r: Self::Output)
        ensures
            r == self.cross_spec(rhs),
    ;
}

/// The point a fraction `amount` of the way from `from` to `to`:
/// `from + (to - from) * amount`.
pub open spec fn lerp_spec<V: VectorSpace>(from: V, to: V, amount: V::Scalar) -> V {
    from.plus_spec(to.minus_spec(from).scaled_spec(amount))
}

pub fn lerp<V: VectorSpace>(from: V, to: V, amount: V::Scalar) -> (r: V)
    ensures
        r == lerp_spec(from, to, amount),
{
    from.plus(to.minus(from).scaled(amount))
}

/// The laws of a vector space over an exact scalar.
pub trait ExactVectorSpace: VectorSpace {
    proof fn law_plus_zero(a: Self)
        ensures
            a.plus_spec(Self::zero_spec()) == a,
            Self::zero_spec().plus_spec(a) == a,
    ;

    proof fn law_scaled_zero(a: Self)
        ensures
            a.scaled_spec(Self::Scalar::zero_spec()) == Self::zero_spec(),
            Self::zero_spec().scaled_spec(Self::Scalar::zero_spec()) == Self::zero_spec(),
    ;

    proof fn law_zero_scaled(factor: Self::Scalar)
        ensures
            Self::zero_spec().scaled_spec(factor) == Self::zero_spec(),
    ;

    proof fn law_scaled_one(a: Self)
        ensures
            a.scaled_spec(Self::Scalar::one_spec()) == a,
    ;

    proof fn law_plus_minus(a: Self, b: Self)
        ensures
            a.plus_spec(b.minus_spec(a)) == b,
    ;

    proof fn law_plus_negated(a: Self)
        ensures
            a.plus_spec(a.negated_spec()) == Self::zero_spec(),
    ;

    proof fn law_negated_negated(a: Self)
        ensures
            a.negated_spec().negated_spec() == a,
    ;
}

/// A vector of the plane.
#[derive(Clone, Copy, Debug, PartialEq)]
pub struct Vector2<S> {
    pub x: S,
    pub y: S,
}

/// A vector of space.
#[derive(Clone, Copy, Debug, PartialEq)]
pub struct Vector3<S> {
    pub x: S,
    pub y: S,
    pub z: S,
}

impl<S: Scalar> Vector2<S> {
    pub fn new(x: S, y: S) -> (r: Self)
        ensures
            r == (Vector2 { x, y }),
    {
        Vector2 { x, y }
    }

    /// The component along `axis`: `x` for 0, `y` otherwise.
    pub open spec fn component_spec(self, axis: int) -> S {
        if axis == 0 { self.x } else { self.y }
    }

    pub fn component(self, axis: usize) -> (r: S)
        ensures
            r == self.component_spec(axis as int),
    {
        if axis == 0 { self.x } else { self.y }
    }

    /// The squared length.
    pub open spec fn magnitude2_spec(self) -> S {
        self.dot_spec(self)
    }

    pub fn magnitude2(self) -> (r: S)
        ensures
            r == self.magnitude2_spec(),
    {
        self.dot(self)
    }

    /// The vector divided by its length.
    pub open spec fn normalized_spec(self) -> Self {
        let length = self.magnitude2_spec().root_spec();
        Vector2 { x: self.x.over_spec(length), y: self.y.over_spec(length) }
    }

    pub fn normalized(self) -> (r: Self)
        ensures
            r == self.normalized_spec(),
    {
        let length = self.magnitude2().root();
        Vector2 { x: self.x.over(length), y: self.y.over(length) }
    }
}

/// The vector triple product `(a x b) x c`, which in the plane is
/// `b * (a . c) - a * (b . c)`.
pub open spec fn triple_product_spec<S: Scalar>(a: Vector2<S>, b: Vector2<S>, c: Vector2<S>)
    -> Vector2<S> {
    let ac = a.dot_spec(c);
    let bc = b.dot_spec(c);
    Vector2 {
        x: b.x.times_spec(ac).minus_spec(a.x.times_spec(bc)),
        y: b.y.times_spec(ac).minus_spec(a.y.times_spec(bc)),
    }
}

pub fn triple_product<S: Scalar>(a: Vector2<S>, b: Vector2<S>, c: Vector2<S>) -> (r: Vector2<S>)
    ensures
        r == triple_product_spec(a, b, c),
{
    let ac = a.dot(c);
    let bc = b.dot(c);
    Vector2 { x: b.x.times(ac).minus(a.x.times(bc)), y: b.y.times(ac).minus(a.y.times(bc)) }
}

impl<S: Scalar> Additive for Vector2<S> {
    open spec fn zero_spec() -> Self {
        Vector2 { x: S::zero_spec(), y: S::zero_spec() }
    }

    open spec fn plus_spec(self, rhs: Self) -> Self {
        Vector2 { x: self.x.plus_spec(rhs.x), y: self.y.plus_spec(rhs.y) }
    }

    fn zero() -> (r: Self) {
        Vector2 { x: S::zero(), y: S::zero() }
    }

    fn plus(self, rhs: Self) -> (r: Self) {
        Vector2 { x: self.x.plus(rhs.x), y: self.y.plus(rhs.y) }
    }
}

impl<S: Scalar> VectorSpace for Vector2<S> {
    type Scalar = S;

    open spec fn minus_spec(self, rhs: Self) -> Self {
        Vector2 { x: self.x.minus_spec(rhs.x), y: self.y.minus_spec(rhs.y) }
    }

    open spec fn scaled_spec(self, factor: S) -> Self {
        Vector2 { x: self.x.times_spec(factor), y: self.y.times_spec(factor) }
    }

    open spec fn negated_spec(self) -> Self {
        Vector2 { x: self.x.negated_spec(), y: self.y.negated_spec() }
    }

    open spec fn dot_spec(self, rhs: Self) -> S {
        self.x.times_spec(rhs.x).plus_spec(self.y.times_spec(rhs.y))
    }

    open spec fn from_value_spec(value: S) -> Self {
        Vector2 { x: value, y: value }
    }

    fn from_value(value: S) -> (r: Self) {
        Vector2 { x: value, y: value }
    }

    fn minus(self, rhs: Self) -> (r: Self) {
        Vector2 { x: self.x.minus(rhs.x), y: self.y.minus(rhs.y) }
    }

    fn scaled(self, factor: S) -> (r: Self) {
        Vector2 { x: self.x.times(factor), y: self.y.times(factor) }
    }

    fn negated(self) -> (r: Self) {
        Vector2 { x: self.x.negated(), y: self.y.negated() }
    }

    fn dot(self, rhs: Self) -> (r: S) {
        self.x.times(rhs.x).plus(self.y.times(rhs.y))
    }
}

impl<S: Scalar> Cross for Vector2<S> {
    type Output = S;

    open spec fn cross_spec(self, rhs: Self) -> S {
        self.x.times_spec(rhs.y).minus_spec(self.y.times_spec(rhs.x))
    }

    fn cross(self, rhs: Self) -> (r: S) {
        self.x.times(rhs.y).minus(self.y.times(rhs.x))
    }
}

impl<S: ExactScalar> ExactVectorSpace for Vector2<S> {
    proof fn law_plus_zero(a: Self) {
        S::law_plus_zero(a.x);
        S::law_plus_zero(a.y);
    }

    proof fn law_scaled_zero(a: Self) {
        S::law_times_zero(a.x);
        S::law_times_zero(a.y);
        S::law_times_zero(S::zero_spec());
    }

    proof fn law_zero_scaled(factor: S) {
        S::law_times_zero(factor);
    }

    proof fn law_scaled_one(a: Self) {
        S::law_times_one(a.x);
        S::law_times_one(a.y);
    }

    proof fn law_plus_minus(a: Self, b: Self) {
        S::law_plus_minus(a.x, b.x);
        S::law_plus_minus(a.y, b.y);
    }

    proof fn law_plus_negated(a: Self) {
        S::law_plus_negated(a.x);
        S::law_plus_negated(a.y);
    }

    proof fn law_negated_negated(a: Self) {
        S::law_negated_negated(a.x);
        S::law_negated_negated(a.y);
    }
}

impl<S: Scalar> Vector3<S> {
    pub fn new(x: S, y: S, z: S) -> (r: Self)
        ensures
            r == (Vector3 { x, y, z }),
    {
        Vector3 { x, y, z }
    }

    /// The component along `axis`: `x` for 0, `y` for 1, `z` otherwise.
    pub open spec fn component_spec(self, axis: int) -> S {
        if axis == 0 {
            self.x
        } else if axis == 1 {
            self.y
        } else {
            self.z
        }
    }

    pub fn component(self, axis: usize) -> (r: S)
        ensures
            r == self.component_spec(axis as int),
    {
        if axis == 0 {
            self.x
        } else if axis == 1 {
            self.y
        } else {
            self.z
        }
    }
}

impl<S: Scalar> Vector3<S> {
    /// The squared length.
    pub open spec fn magnitude2_spec(self) -> S {
        self.dot_spec(self)
    }

    pub fn magnitude2(self) -> (r: S)
        ensures
            r == self.magnitude2_spec(),
    {
        self.dot(self)
    }

    /// The vector divided by its length.
    pub open spec fn normalized_spec(self) -> Self {
        let length = self.magnitude2_spec().root_spec();
        Vector3 {
            x: self.x.over_spec(length),
            y: self.y.over_spec(length),
            z: self.z.over_spec(length),
        }
    }

    pub fn normalized(self) -> (r: Self)
        ensures
            r == self.normalized_spec(),
    {
        let length = self.magnitude2().root();
        Vector3 { x: self.x.over(length), y: self.y.over(length), z: self.z.over(length) }
    }
}

impl<S: Scalar> Additive for Vector3<S> {
    open spec fn zero_spec() -> Self {
        Vector3 { x: S::zero_spec(), y: S::zero_spec(), z: S::zero_spec() }
    }

    open spec fn plus_spec(self, rhs: Self) -> Self {
        Vector3 {
            x: self.x.plus_spec(rhs.x),
            y: self.y.plus_spec(rhs.y),
            z: self.z.plus_spec(rhs.z),
        }
    }

    fn zero() -> (r: Self) {
        Vector3 { x: S::zero(), y: S::zero(), z: S::zero() }
    }

    fn plus(self, rhs: Self) -> (r: Self) {
        Vector3 { x: self.x.plus(rhs.x), y: self.y.plus(rhs.y), z: self.z.plus(rhs.z) }
    }
}

impl<S: Scalar> VectorSpace for Vector3<S> {
    type Scalar = S;

    open spec fn minus_spec(self, rhs: Self) -> Self {
        Vector3 {
            x: self.x.minus_spec(rhs.x),
            y: self.y.minus_spec(rhs.y),
            z: self.z.minus_spec(rhs.z),
        }
    }

    open spec fn scaled_spec(self, factor: S) -> Self {
        Vector3 {
            x: self.x.times_spec(factor),
            y: self.y.times_spec(factor),
            z: self.z.times_spec(factor),
        }
    }

    open spec fn negated_spec(self) -> Self {
        Vector3 { x: self.x.negated_spec(), y: self.y.negated_spec(), z: self.z.negated_spec() }
    }

    open spec fn dot_spec(self, rhs: Self) -> S {
        self.x.times_spec(rhs.x).plus_spec(self.y.times_spec(rhs.y)).plus_spec(
            self.z.times_spec(rhs.z),
        )
    }

    open spec fn from_value_spec(value: S) -> Self {
        Vector3 { x: value, y: value, z: value }
    }

    fn from_value(value: S) -> (r: Self) {
        Vector3 { x: value, y: value, z: value }
    }

    fn minus(self, rhs: Self) -> (r: Self) {
        Vector3 { x: self.x.minus(rhs.x), y: self.y.minus(rhs.y), z: self.z.minus(rhs.z) }
    }

    fn scaled(self, factor: S) -> (r: Self) {
        Vector3 { x: self.x.times(factor), y: self.y.times(factor), z: self.z.times(factor) }
    }

    fn negated(self) -> (r: Self) {
        Vector3 { x: self.x.negated(), y: self.y.negated(), z: self.z.negated() }
    }

    fn dot(self, rhs: Self) -> (r: S) {
        self.x.times(rhs.x).plus(self.y.times(rhs.y)).plus(self.z.times(rhs.z))
    }
}

impl<S: Scalar> Cross for Vector3<S> {
    type Output = Vector3<S>;

    open spec fn cross_spec(self, rhs: Self) -> Vector3<S> {
        Vector3 {
            x: self.y.times_spec(rhs.z).minus_spec(self.z.times_spec(rhs.y)),
            y: self.z.times_spec(rhs.x).minus_spec(self.x.times_spec(rhs.z)),
            z: self.x.times_spec(rhs.y).minus_spec(self.y.times_spec(rhs.x)),
        }
    }

    fn cross(self, rhs: Self) -> (r: Vector3<S>) {
        Vector3 {
            x: self.y.times(rhs.z).minus(self.z.times(rhs.y)),
            y: self.z.times(rhs.x).minus(self.x.times(rhs.z)),
            z: self.x.times(rhs.y).minus(self.y.times(rhs.x)),
        }
    }
}

impl<S: ExactScalar> ExactVectorSpace for Vector3<S> {
    proof fn law_plus_zero(a: Self) {
        S::law_plus_zero(a.x);
        S::law_plus_zero(a.y);
        S::law_plus_zero(a.z);
    }

    proof fn law_scaled_zero(a: Self) {
        S::law_times_zero(a.x);
        S::law_times_zero(a.y);
        S::law_times_zero(a.z);
        S::law_times_zero(S::zero_spec());
    }

    proof fn law_zero_scaled(factor: S) {
        S::law_times_zero(factor);
    }

    proof fn law_scaled_one(a: Self) {
        S::law_times_one(a.x);
        S::law_times_one(a.y);
        S::law_times_one(a.z);
    }

    proof fn law_plus_minus(a: Self, b: Self) {
        S::law_plus_minus(a.x, b.x);
        S::law_plus_minus(a.y, b.y);
        S::law_plus_minus(a.z, b.z);
    }

    proof fn law_plus_negated(a: Self) {
        S::law_plus_negated(a.x);
        S::law_plus_negated(a.y);
        S::law_plus_negated(a.z);
    }

    proof fn law_negated_negated(a: Self) {
        S::law_negated_negated(a.x);
        S::law_negated_negated(a.y);
        S::law_negated_negated(a.z);
    }
}

} // verus!
