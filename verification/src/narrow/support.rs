//! Support points of the Minkowski difference of two primitives.
use vstd::prelude::*;
use crate::collide::primitive::SupportFunction;
use crate::pose::Transform;
use crate::scalar::Additive;
use crate::vector::VectorSpace;

verus! {

/// A point of the Minkowski difference of two shapes, with the points of
/// the two shapes that it is the difference of.
#[derive(Clone, Copy, Debug, PartialEq)]
pub struct SupportPoint<V> {
    /// The point of the difference: `sup_a - sup_b`.
    pub v: V,
    /// The support point on the first shape.
    pub sup_a: V,
    /// The support point on the second shape.
    pub sup_b: V,
}

/// The support point of the difference of `left` and `right` in `direction`:
/// the point of `left` furthest in `direction` less the point of `right`
/// furthest against it.
pub open spec fn minkowski_spec<V, SL, TL, SR, TR>(
    left: &SL,
    left_transform: &TL,
    right: &SR,
    right_transform: &TR,
    direction: V,
) -> SupportPoint<V> where
    V: VectorSpace,
    TL: Transform<V>,
    TR: Transform<V>,
    SL: SupportFunction<V, TL>,
    SR: SupportFunction<V, TR>,
 {
    let l = left.support_point_spec(direction, left_transform);
    let r = right.support_point_spec(direction.negated_spec(), right_transform);
    SupportPoint { v: l.minus_spec(r), sup_a: l, sup_b: r }
}

impl<V: VectorSpace> SupportPoint<V> {
    /// The support point at the origin.
    pub fn new() -> (r: Self)
        ensures
            r == (SupportPoint { v: V::zero_spec(), sup_a: V::zero_spec(), sup_b: V::zero_spec() }),
    {
        SupportPoint { v: V::zero(), sup_a: V::zero(), sup_b: V::zero() }
    }

    pub fn from_minkowski<SL, TL, SR, TR>(
        left: &SL,
        left_transform: &TL,
        right: &SR,
        right_transform: &TR,
        direction: &V,
    ) -> (r: Self) where
        TL: Transform<V>,
        TR: Transform<V>,
        SL: SupportFunction<V, TL>,
        SR: SupportFunction<V, TR>,

        ensures
            r == minkowski_spec(left, left_transform, right, right_transform, *direction),
    {
        let l = left.support_point(direction, left_transform);
        let against = direction.negated();
        let r = right.support_point(&against, right_transform);
        SupportPoint { v: l.minus(r), sup_a: l, sup_b: r }
    }
}

} // verus!
