//! The rectangle: the simplest primitive with corners.
use vstd::prelude::*;
use crate::bound::Aabb2;
use crate::collide::primitive::{HasAABB, SupportFunction};
use crate::pose::Transform;
use crate::scalar::{Additive, Scalar};
use crate::vector::{Vector2, VectorSpace};

verus! {

/// A rectangle around the origin of its own frame, with its sides along
/// the axes.
#[derive(Clone, Copy, Debug, PartialEq)]
pub struct Rectangle<S> {
    half_dim: Vector2<S>,
}

/// The corner of the rectangle with the number `k`, counter-clockwise from
/// the corner whose coordinates both are positive.
pub open spec fn corner_spec<S: Scalar>(half_dim: Vector2<S>, k: int) -> Vector2<S> {
    if k == 0 {
        half_dim
    } else if k == 1 {
        Vector2 { x: half_dim.x.negated_spec(), y: half_dim.y }
    } else if k == 2 {
        Vector2 { x: half_dim.x.negated_spec(), y: half_dim.y.negated_spec() }
    } else {
        Vector2 { x: half_dim.x, y: half_dim.y.negated_spec() }
    }
}

/// The corner among the first `count` that lies furthest in `direction`,
/// with how far it lies: the first of them that none lies further than.
/// Before any corner was looked at, it is the origin, infinitely far back.
pub open spec fn furthest_corner<S: Scalar>(
    half_dim: Vector2<S>,
    direction: Vector2<S>,
    count: int,
) -> (Vector2<S>, S)
    decreases count,
{
    if count <= 0 {
        (Vector2::zero_spec(), S::infinity_spec().negated_spec())
    } else {
        let best = furthest_corner(half_dim, direction, count - 1);
        let corner = corner_spec(half_dim, count - 1);
        let reach = corner.dot_spec(direction);
        if best.1.rank() < reach.rank() {
            (corner, reach)
        } else {
            best
        }
    }
}

/// The direction in the frame of a primitive that `transform` has placed:
/// `direction` turned back by the transform, and `direction` itself where
/// the transform cannot be undone.
pub open spec fn local_direction<V: VectorSpace, T: Transform<V>>(transform: &T, direction: V)
    -> V {
    match transform.inverse_transform_vector_spec(direction) {
        Some(local) => local,
        None => direction,
    }
}

impl<S: Scalar> Rectangle<S> {
    /// Half the width and half the height.
    pub closed spec fn half_dim_spec(&self) -> Vector2<S> {
        self.half_dim
    }

    /// The rectangle of the given width and height.
    pub fn new(dim_x: S, dim_y: S) -> (r: Self)
        ensures
            r.half_dim_spec() == (Vector2 {
                x: dim_x.over_spec(S::one_spec().plus_spec(S::one_spec())),
                y: dim_y.over_spec(S::one_spec().plus_spec(S::one_spec())),
            }),
    {
        let two = S::one().plus(S::one());
        Rectangle { half_dim: Vector2 { x: dim_x.over(two), y: dim_y.over(two) } }
    }

    pub fn half_dim(&self) -> (r: &Vector2<S>)
        ensures
            *r == self.half_dim_spec(),
    {
        &self.half_dim
    }

    fn corner(&self, k: usize) -> (r: Vector2<S>)
        ensures
            r == corner_spec(self.half_dim_spec(), k as int),
    {
        if k == 0 {
            self.half_dim
        } else if k == 1 {
            Vector2 { x: self.half_dim.x.negated(), y: self.half_dim.y }
        } else if k == 2 {
            Vector2 { x: self.half_dim.x.negated(), y: self.half_dim.y.negated() }
        } else {
            Vector2 { x: self.half_dim.x, y: self.half_dim.y.negated() }
        }
    }
}

impl<S: Scalar> HasAABB for Rectangle<S> {
    type Aabb = Aabb2<S>;

    /// The box from the corner opposite to the first to the first corner.
    open spec fn get_bound_spec(&self) -> Aabb2<S> {
        Aabb2::new_spec(self.half_dim_spec().negated_spec(), self.half_dim_spec())
    }

    fn get_bound(&self) -> (r: Aabb2<S>) {
        Aabb2::new(self.half_dim.negated(), self.half_dim)
    }
}

impl<S: Scalar, T: Transform<Vector2<S>>> SupportFunction<Vector2<S>, T> for Rectangle<S> {
    /// The corner that lies furthest in the direction, as seen from the
    /// frame of the rectangle, placed in the world.
    open spec fn support_point_spec(&self, direction: Vector2<S>, transform: &T) -> Vector2<S> {
        transform.transform_point_spec(
            furthest_corner(self.half_dim_spec(), local_direction(transform, direction), 4).0,
        )
    }

    fn support_point(&self, direction: &Vector2<S>, transform: &T) -> (r: Vector2<S>) {
        let local = match transform.inverse_transform_vector(*direction) {
            Some(local) => local,
            None => *direction,
        };
        let mut best = Vector2::zero();
        let mut reach = S::infinity().negated();
        let mut k: usize = 0;
        while k < 4
            invariant
                k <= 4,
                (best, reach) == furthest_corner(self.half_dim_spec(), local, k as int),
            decreases 4 - k,
        {
            let corner = self.corner(k);
            let dot = corner.dot(local);
            if reach.lt(dot) {
                best = corner;
                reach = dot;
            }
            k += 1;
        }
        transform.transform_point(best)
    }
}

} // verus!
