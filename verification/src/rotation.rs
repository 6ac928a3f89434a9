//! Rotations that are exact over every scalar.
use vstd::prelude::*;
use crate::pose::{ExactRotation, Rotation};
use crate::scalar::{Additive, ExactScalar, Scalar};
use crate::vector::{ExactVectorSpace, Vector2, VectorSpace};

verus! {

/// The rotation of a body that never turns.
#[derive(Clone, Copy, Debug, PartialEq, Eq, Structural)]
pub struct NoRotation;

impl<V: VectorSpace> Rotation<V> for NoRotation {
    open spec fn one_spec() -> Self {
        NoRotation
    }

    open spec fn invert_spec(self) -> Self {
        NoRotation
    }

    open spec fn rotate_spec(self, v: V) -> V {
        v
    }

    open spec fn compose_spec(self, rhs: Self) -> Self {
        NoRotation
    }

    open spec fn interpolate_spec(self, other: Self, amount: V::Scalar) -> Self {
        NoRotation
    }

    open spec fn look_at_spec(direction: V, up: V) -> Self {
        NoRotation
    }

    fn one() -> (r: Self) {
        NoRotation
    }

    fn invert(self) -> (r: Self) {
        NoRotation
    }

    fn rotate_vector(self, v: V) -> (r: V) {
        v
    }

    fn compose(self, rhs: Self) -> (r: Self) {
        NoRotation
    }

    fn interpolate(self, other: Self, amount: V::Scalar) -> (r: Self) {
        NoRotation
    }

    fn look_at(direction: V, up: V) -> (r: Self) {
        NoRotation
    }
}

impl<V: ExactVectorSpace> ExactRotation<V> for NoRotation {
    proof fn law_compose_invert(r: Self) {
    }

    proof fn law_rotate_invert(r: Self, v: V) {
    }

    proof fn law_rotate_negated(r: Self, v: V) {
    }

    proof fn law_interpolate_ends(from: Self, to: Self) {
    }
}

/// A rotation of the plane by a whole number of quarter turns,
/// counter-clockwise.
#[derive(Clone, Copy, Debug, PartialEq, Eq, Structural)]
pub enum QuarterTurn {
    /// No turn.
    Zero,
    /// A quarter turn: x goes to y.
    One,
    /// A half turn.
    Two,
    /// Three quarter turns: y goes to x.
    Three,
}

impl QuarterTurn {
    /// The number of quarter turns, from 0 to 3.
    pub open spec fn count_spec(self) -> int {
        match self {
            QuarterTurn::Zero => 0,
            QuarterTurn::One => 1,
            QuarterTurn::Two => 2,
            QuarterTurn::Three => 3,
        }
    }

    /// The rotation by `count` quarter turns, counted modulo four.
    pub open spec fn from_count_spec(count: int) -> Self {
        if count % 4 == 0 {
            QuarterTurn::Zero
        } else if count % 4 == 1 {
            QuarterTurn::One
        } else if count % 4 == 2 {
            QuarterTurn::Two
        } else {
            QuarterTurn::Three
        }
    }

    pub fn count(self) -> (r: u8)
        ensures
            r == self.count_spec(),
    {
        match self {
            QuarterTurn::Zero => 0,
            QuarterTurn::One => 1,
            QuarterTurn::Two => 2,
            QuarterTurn::Three => 3,
        }
    }

    pub fn from_count(count: u8) -> (r: Self)
        ensures
            r == Self::from_count_spec(count as int),
    {
        let turns: u8 = count % 4;
        if turns == 0 {
            QuarterTurn::Zero
        } else if turns == 1 {
            QuarterTurn::One
        } else if turns == 2 {
            QuarterTurn::Two
        } else {
            QuarterTurn::Three
        }
    }
}

impl<S: Scalar> Rotation<Vector2<S>> for QuarterTurn {
    open spec fn one_spec() -> Self {
        QuarterTurn::Zero
    }

    open spec fn invert_spec(self) -> Self {
        Self::from_count_spec(4 - self.count_spec())
    }

    open spec fn rotate_spec(self, v: Vector2<S>) -> Vector2<S> {
        match self {
            QuarterTurn::Zero => v,
            QuarterTurn::One => Vector2 { x: v.y.negated_spec(), y: v.x },
            QuarterTurn::Two => Vector2 { x: v.x.negated_spec(), y: v.y.negated_spec() },
            QuarterTurn::Three => Vector2 { x: v.y, y: v.x.negated_spec() },
        }
    }

    open spec fn compose_spec(self, rhs: Self) -> Self {
        Self::from_count_spec(self.count_spec() + rhs.count_spec())
    }

    /// A quarter turn has no part: the rotation stays at `self` while
    /// `amount` is zero or less, and is `other` from there on.
    open spec fn interpolate_spec(self, other: Self, amount: S) -> Self {
        if S::zero_spec().rank() < amount.rank() {
            other
        } else {
            self
        }
    }

    /// The quarter turn that takes the x axis to the half axis nearest to
    /// `direction`: the x axis itself where no other is nearer, and its
    /// opposite before the y axis and its opposite.
    open spec fn look_at_spec(direction: Vector2<S>, up: Vector2<S>) -> Self {
        let x = direction.x.rank();
        let y = direction.y.rank();
        let back_x = direction.x.negated_spec().rank();
        let back_y = direction.y.negated_spec().rank();
        let forward = if x < back_x { back_x } else { x };
        if forward < y {
            QuarterTurn::One
        } else if forward < back_y {
            QuarterTurn::Three
        } else if x < back_x {
            QuarterTurn::Two
        } else {
            QuarterTurn::Zero
        }
    }

    fn one() -> (r: Self) {
        QuarterTurn::Zero
    }

    fn look_at(direction: Vector2<S>, up: Vector2<S>) -> (r: Self) {
        let back_x = direction.x.negated();
        let back_y = direction.y.negated();
        let backward = direction.x.lt(back_x);
        let forward = if backward { back_x } else { direction.x };
        if forward.lt(direction.y) {
            QuarterTurn::One
        } else if forward.lt(back_y) {
            QuarterTurn::Three
        } else if backward {
            QuarterTurn::Two
        } else {
            QuarterTurn::Zero
        }
    }

    fn invert(self) -> (r: Self) {
        Self::from_count(4 - self.count())
    }

    fn rotate_vector(self, v: Vector2<S>) -> (r: Vector2<S>) {
        match self {
            QuarterTurn::Zero => v,
            QuarterTurn::One => Vector2 { x: v.y.negated(), y: v.x },
            QuarterTurn::Two => Vector2 { x: v.x.negated(), y: v.y.negated() },
            QuarterTurn::Three => Vector2 { x: v.y, y: v.x.negated() },
        }
    }

    fn compose(self, rhs: Self) -> (r: Self) {
        Self::from_count(self.count() + rhs.count())
    }

    fn interpolate(self, other: Self, amount: S) -> (r: Self) {
        if S::zero().lt(amount) {
            other
        } else {
            self
        }
    }
}

impl<S: ExactScalar> ExactRotation<Vector2<S>> for QuarterTurn {
    proof fn law_compose_invert(r: Self) {
    }

    proof fn law_rotate_invert(r: Self, v: Vector2<S>) {
        S::law_negated_negated(v.x);
        S::law_negated_negated(v.y);
    }

    proof fn law_rotate_negated(r: Self, v: Vector2<S>) {
    }

    proof fn law_interpolate_ends(from: Self, to: Self) {
        S::law_zero_below_one();
    }
}

} // verus!
