//! What the library asks of a collision primitive.
//!
//! The library holds no geometry of its own. A primitive is whatever gives a
//! bounding volume in its own frame and a support point in any direction.
use vstd::prelude::*;
use crate::bound::{
    max_of,
    max_spec,
    min_of,
    min_spec,
    overlap,
    transformed,
    transformed_spec,
    Aabb2,
    Aabb3,
    Bound,
};
use crate::scalar::Scalar;
use crate::vector::{Vector2, Vector3};
use crate::pose::Transform;
use crate::vector::VectorSpace;

verus! {

/// A primitive with a bounding volume.
pub trait HasAABB {
    /// The type of the bounding volume.
    type Aabb: Bound;

    spec fn get_bound_spec(&self) -> Self::Aabb;

    /// The bounding volume of the primitive in its own frame.
    fn get_bound(&self) -> (r: Self::Aabb)
        ensures
            r == self.get_bound_spec(),
    ;
}

/// The support function of a convex primitive.
pub trait SupportFunction<V: VectorSpace, T: Transform<V>> {
    spec fn support_point_spec(&self, direction: V, transform: &T) -> V;

    /// The point of the primitive, moved to the world by `transform`, that
    /// lies furthest in `direction`.
    fn support_point(&self, direction: &V, transform: &T) -> (r: V)
        ensures
            r == self.support_point_spec(*direction, transform),
    ;
}

/// The discrete intersection test of a primitive that a transform has
/// placed, against something that stays where it is.
pub trait DiscreteTransformed<V: VectorSpace, T: Transform<V>, RHS = Self> {
    spec fn intersects_transformed_spec(&self, other: &RHS, transform: &T) -> bool;

    /// Whether the primitive, placed by `transform`, intersects `other`.
    fn intersects_transformed(&self, other: &RHS, transform: &T) -> (r: bool)
        ensures
            r == self.intersects_transformed_spec(other, transform),
    ;
}

/// The continuous intersection test of a primitive that a transform has
/// placed, against something that stays where it is.
pub trait ContinuousTransformed<V: VectorSpace, T: Transform<V>, RHS = Self> {
    /// What the two have in common where they intersect.
    type Result;

    spec fn intersection_transformed_spec(&self, other: &RHS, transform: &T) -> Option<
        Self::Result,
    >;

    /// What the primitive, placed by `transform`, has in common with
    /// `other`; nothing where the two do not intersect.
    fn intersection_transformed(&self, other: &RHS, transform: &T) -> (r: Option<Self::Result>)
        ensures
            r == self.intersection_transformed_spec(other, transform),
    ;
}

/// A bounding volume that a transform has placed intersects another where
/// the volume around its moved corners does.
impl<B: Bound, T: Transform<B::Point>> DiscreteTransformed<B::Point, T, B> for B {
    open spec fn intersects_transformed_spec(&self, other: &B, transform: &T) -> bool {
        overlap(&transformed_spec(self, transform), other)
    }

    fn intersects_transformed(&self, other: &B, transform: &T) -> (r: bool) {
        transformed(self, transform).intersects(other)
    }
}

/// The box that two boxes of the plane have in common, where they intersect:
/// it begins where the later of the two begins, and ends where the earlier
/// ends.
pub open spec fn common2<S: Scalar>(a: Aabb2<S>, b: Aabb2<S>) -> Aabb2<S> {
    Aabb2 {
        min: Vector2 { x: max_spec(a.min.x, b.min.x), y: max_spec(a.min.y, b.min.y) },
        max: Vector2 { x: min_spec(a.max.x, b.max.x), y: min_spec(a.max.y, b.max.y) },
    }
}

/// The box that two boxes of space have in common, where they intersect.
pub open spec fn common3<S: Scalar>(a: Aabb3<S>, b: Aabb3<S>) -> Aabb3<S> {
    Aabb3 {
        min: Vector3 {
            x: max_spec(a.min.x, b.min.x),
            y: max_spec(a.min.y, b.min.y),
            z: max_spec(a.min.z, b.min.z),
        },
        max: Vector3 {
            x: min_spec(a.max.x, b.max.x),
            y: min_spec(a.max.y, b.max.y),
            z: min_spec(a.max.z, b.max.z),
        },
    }
}

impl<S: Scalar, T: Transform<Vector2<S>>> ContinuousTransformed<Vector2<S>, T> for Aabb2<S> {
    type Result = Aabb2<S>;

    open spec fn intersection_transformed_spec(&self, other: &Aabb2<S>, transform: &T) -> Option<
        Aabb2<S>,
    > {
        let placed = transformed_spec(self, transform);
        if overlap(&placed, other) {
            Some(common2(placed, *other))
        } else {
            None
        }
    }

    fn intersection_transformed(&self, other: &Aabb2<S>, transform: &T) -> (r: Option<Aabb2<S>>) {
        let placed = transformed(self, transform);
        if placed.intersects(other) {
            Some(
                Aabb2 {
                    min: Vector2 {
                        x: max_of(placed.min.x, other.min.x),
                        y: max_of(placed.min.y, other.min.y),
                    },
                    max: Vector2 {
                        x: min_of(placed.max.x, other.max.x),
                        y: min_of(placed.max.y, other.max.y),
                    },
                },
            )
        } else {
            None
        }
    }
}

impl<S: Scalar, T: Transform<Vector3<S>>> ContinuousTransformed<Vector3<S>, T> for Aabb3<S> {
    type Result = Aabb3<S>;

    open spec fn intersection_transformed_spec(&self, other: &Aabb3<S>, transform: &T) -> Option<
        Aabb3<S>,
    > {
        let placed = transformed_spec(self, transform);
        if overlap(&placed, other) {
            Some(common3(placed, *other))
        } else {
            None
        }
    }

    fn intersection_transformed(&self, other: &Aabb3<S>, transform: &T) -> (r: Option<Aabb3<S>>) {
        let placed = transformed(self, transform);
        if placed.intersects(other) {
            Some(
                Aabb3 {
                    min: Vector3 {
                        x: max_of(placed.min.x, other.min.x),
                        y: max_of(placed.min.y, other.min.y),
                        z: max_of(placed.min.z, other.min.z),
                    },
                    max: Vector3 {
                        x: min_of(placed.max.x, other.max.x),
                        y: min_of(placed.max.y, other.max.y),
                        z: min_of(placed.max.z, other.max.z),
                    },
                },
            )
        } else {
            None
        }
    }
}

/// A collision primitive: a bounding volume and a support function over the
/// points that the volume bounds.
pub trait Primitive<T: Transform<<Self::Aabb as Bound>::Point>>: HasAABB + SupportFunction<
    <Self::Aabb as Bound>::Point,
    T,
> {

}

impl<P, T> Primitive<T> for P where
    P: HasAABB + SupportFunction<<P::Aabb as Bound>::Point, T>,
    T: Transform<<P::Aabb as Bound>::Point>,
 {

}

} // verus!
