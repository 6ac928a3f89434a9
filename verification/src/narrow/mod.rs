//! Narrow phase collision detection: from two shapes whose bounds intersect
//! to the contact between them, if there is one.
use vstd::prelude::*;
use crate::bound::Bound;
use crate::collide::primitive::{HasAABB, SupportFunction};
use crate::collide::shape::{takes_part, CollisionShape};
use crate::collide::Contact;
use crate::pose::Transform;

pub mod epa2d;
pub mod epa3d;
pub mod gjk;
pub mod gjk3;
pub mod simplex2d;
pub mod simplex3d;
pub mod support;

pub use self::epa2d::EPA2;
pub use self::epa3d::EPA3;
pub use self::gjk::GJK2;
pub use self::gjk3::GJK3;
pub use self::support::SupportPoint;

verus! {

/// A narrow phase algorithm.
pub trait NarrowPhase<P, T> where
    P: HasAABB + SupportFunction<<P::Aabb as Bound>::Point, T>,
    T: Transform<<P::Aabb as Bound>::Point>,
 {
    /// The contact between two shapes at the given poses.
    spec fn collide_spec(
        &self,
        left: &CollisionShape<P, T>,
        left_transform: &T,
        right: &CollisionShape<P, T>,
        right_transform: &T,
    ) -> Option<Contact<<P::Aabb as Bound>::Point>>;

    /// The contact between two shapes that move within the frame, each from
    /// its start pose to its end pose.
    spec fn collide_continuous_spec(
        &self,
        left: &CollisionShape<P, T>,
        left_start: &T,
        left_end: &T,
        right: &CollisionShape<P, T>,
        right_start: &T,
        right_end: &T,
    ) -> Option<Contact<<P::Aabb as Bound>::Point>>;

    /// Checks whether two shapes collide, and gives the contact if they do.
    /// A shape that is disabled or has no primitive collides with nothing.
    fn collide(
        &self,
        left: &CollisionShape<P, T>,
        left_transform: &T,
        right: &CollisionShape<P, T>,
        right_transform: &T,
    ) -> (r: Option<Contact<<P::Aabb as Bound>::Point>>)
        ensures
            r == self.collide_spec(left, left_transform, right, right_transform),
            !takes_part(left) || !takes_part(right) ==> r is None,
    ;

    /// Checks whether two shapes collide on their way to the poses of the
    /// next frame. A shape without a pose for the next frame stays where
    /// it is; where both have none, this is `collide`.
    fn collide_continuous(
        &self,
        left: &CollisionShape<P, T>,
        left_start: &T,
        left_end: Option<&T>,
        right: &CollisionShape<P, T>,
        right_start: &T,
        right_end: Option<&T>,
    ) -> (r: Option<Contact<<P::Aabb as Bound>::Point>>)
        ensures
            left_end is None && right_end is None ==> r == self.collide_spec(
                left,
                left_start,
                right,
                right_start,
            ),
            left_end is Some || right_end is Some ==> r == self.collide_continuous_spec(
                left,
                left_start,
                match left_end {
                    Some(end) => end,
                    None => left_start,
                },
                right,
                right_start,
                match right_end {
                    Some(end) => end,
                    None => right_start,
                },
            ),
            !takes_part(left) || !takes_part(right) ==> r is None,
    ;
}

} // verus!
