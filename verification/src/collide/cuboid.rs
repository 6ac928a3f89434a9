//! The cuboid: the simplest primitive of space with corners.
use vstd::prelude::*;
use crate::bound::Aabb3;
use crate::collide::primitive::{HasAABB, SupportFunction};
use crate::collide::rectangle::local_direction;
use crate::pose::Transform;
use crate::scalar::{Additive, Scalar};
use crate::vector::{Vector3, VectorSpace};

verus! {

/// A cuboid around the origin of its own frame, with its sides along the
/// axes.
#[derive(Clone, Copy, Debug, PartialEq)]
pub struct Cuboid<S> {
    half_dim: Vector3<S>,
}

/// The corner of the cuboid with the number `k` from 0 to 7: with `k`
/// written in binary, the corner lies on the negative side along x where
/// the last digit is one, along y where the middle digit is one, and along
/// z where the first digit is one.
pub open spec fn corner_spec<S: Scalar>(half_dim: Vector3<S>, k: int) -> Vector3<S> {
    Vector3 {
        x: if k % 2 == 0 { half_dim.x } else { half_dim.x.negated_spec() },
        y: if (k / 2) % 2 == 0 { half_dim.y } else { half_dim.y.negated_spec() },
        z: if k / 4 == 0 { half_dim.z } else { half_dim.z.negated_spec() },
    }
}

/// The corner among the first `count` that lies furthest in `direction`,
/// with how far it lies: the first of them that none lies further than.
/// Before any corner was looked at, it is the origin, infinitely far back.
pub open spec fn furthest_corner<S: Scalar>(
    half_dim: Vector3<S>,
    direction: Vector3<S>,
    count: int,
) -> (Vector3<S>, S)
    decreases count,
{
    if count <= 0 {
        (Vector3::zero_spec(), S::infinity_spec().negated_spec())
    } else {
        let best = furthest_corner(half_dim, direction, count - 1);
        let corner = corner_spec(half_dim, count - 1);
        let reach = corner.dot_spec(direction);
        if best.1.rank() < reach.rank() {
            (corner, reach)
        } else {
            best
        }
    }
}

impl<S: Scalar> Cuboid<S> {
    /// Half the width, half the height and half the depth.
    pub closed spec fn half_dim_spec(&self) -> Vector3<S> {
        self.half_dim
    }

    /// The cuboid of the given width, height and depth.
    pub fn new(dim_x: S, dim_y: S, dim_z: S) -> (r: Self)
        ensures
            r.half_dim_spec() == (Vector3 {
                x: dim_x.over_spec(S::one_spec().plus_spec(S::one_spec())),
                y: dim_y.over_spec(S::one_spec().plus_spec(S::one_spec())),
                z: dim_z.over_spec(S::one_spec().plus_spec(S::one_spec())),
            }),
    {
        let two = S::one().plus(S::one());
        Cuboid { half_dim: Vector3 { x: dim_x.over(two), y: dim_y.over(two), z: dim_z.over(two) } }
    }

    pub fn half_dim(&self) -> (r: &Vector3<S>)
        ensures
            *r == self.half_dim_spec(),
    {
        &self.half_dim
    }

    fn corner(&self, k: usize) -> (r: Vector3<S>)
        ensures
            r == corner_spec(self.half_dim_spec(), k as int),
    {
        Vector3 {
            x: if k % 2 == 0 { self.half_dim.x } else { self.half_dim.x.negated() },
            y: if (k / 2) % 2 == 0 { self.half_dim.y } else { self.half_dim.y.negated() },
            z: if k / 4 == 0 { self.half_dim.z } else { self.half_dim.z.negated() },
        }
    }
}

impl<S: Scalar> HasAABB for Cuboid<S> {
    type Aabb = Aabb3<S>;

    /// The box from the corner opposite to the first to the first corner.
    open spec fn get_bound_spec(&self) -> Aabb3<S> {
        Aabb3::new_spec(self.half_dim_spec().negated_spec(), self.half_dim_spec())
    }

    fn get_bound(&self) -> (r: Aabb3<S>) {
        Aabb3::new(self.half_dim.negated(), self.half_dim)
    }
}

impl<S: Scalar, T: Transform<Vector3<S>>> SupportFunction<Vector3<S>, T> for Cuboid<S> {
    /// The corner that lies furthest in the direction, as seen from the
    /// frame of the cuboid, placed in the world.
    open spec fn support_point_spec(&self, direction: Vector3<S>, transform: &T) -> Vector3<S> {
        transform.transform_point_spec(
            furthest_corner(self.half_dim_spec(), local_direction(transform, direction), 8).0,
        )
    }

    fn support_point(&self, direction: &Vector3<S>, transform: &T) -> (r: Vector3<S>) {
        let local = match transform.inverse_transform_vector(*direction) {
            Some(local) => local,
            None => *direction,
        };
        let mut best = Vector3::zero();
        let mut reach = S::infinity().negated();
        let mut k: usize = 0;
        while k < 8
            invariant
                k <= 8,
                (best, reach) == furthest_corner(self.half_dim_spec(), local, k as int),
            decreases 8 - k,
        {
            let corner = self.corner(k);
            let dot = corner.dot(local);
            if reach.lt(dot) {
                best = corner;
                reach = dot;
            }
            k += 1;
        }
        transform.transform_point(best)
    }
}

} // verus!
