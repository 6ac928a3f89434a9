//! The forces that act on a body between two integrations.
use vstd::prelude::*;
use crate::pose::{BodyPose, Rotation, Transform};
use crate::scalar::Additive;
use crate::vector::{Cross, VectorSpace};

verus! {

/// The force accumulator of a rigid body: the sum of the forces and the sum
/// of the torques applied since they were last consumed.
pub struct ForceAccumulator<F, T> {
    force: F,
    torque: T,
}

impl<F: Additive, T: Additive> ForceAccumulator<F, T> {
    /// The force accumulated so far.
    pub closed spec fn force_spec(&self) -> F {
        self.force
    }

    /// The torque accumulated so far.
    pub closed spec fn torque_spec(&self) -> T {
        self.torque
    }

    /// An accumulator that holds no force and no torque.
    pub fn new() -> (r: Self)
        ensures
            r.force_spec() == F::zero_spec(),
            r.torque_spec() == T::zero_spec(),
    {
        ForceAccumulator { force: F::zero(), torque: T::zero() }
    }

    /// Adds a force.
    pub fn add_force(&mut self, force: F)
        ensures
            final(self).force_spec() == old(self).force_spec().plus_spec(force),
            final(self).torque_spec() == old(self).torque_spec(),
    {
        self.force = self.force.plus(force);
    }

    /// Adds a torque.
    pub fn add_torque(&mut self, torque: T)
        ensures
            final(self).torque_spec() == old(self).torque_spec().plus_spec(torque),
            final(self).force_spec() == old(self).force_spec(),
    {
        self.torque = self.torque.plus(torque);
    }

    /// Takes the accumulated force out, which leaves none.
    pub fn consume_force(&mut self) -> (r: F)
        ensures
            r == old(self).force_spec(),
            final(self).force_spec() == F::zero_spec(),
            final(self).torque_spec() == old(self).torque_spec(),
    {
        let v = self.force;
        self.force = F::zero();
        v
    }

    /// Takes the accumulated torque out, which leaves none.
    pub fn consume_torque(&mut self) -> (r: T)
        ensures
            r == old(self).torque_spec(),
            final(self).torque_spec() == T::zero_spec(),
            final(self).force_spec() == old(self).force_spec(),
    {
        let v = self.torque;
        self.torque = T::zero();
        v
    }
}

/// The lever arm of a force applied at `position` to a body at `pose`: from
/// where the pose puts the origin of the body to `position`.
pub open spec fn lever_spec<F: VectorSpace, R: Rotation<F>>(position: F, pose: &BodyPose<F, R>)
    -> F {
    position.minus_spec(pose.transform_point_spec(F::zero_spec()))
}

impl<F: Cross<Output = T>, T: Additive> ForceAccumulator<F, T> {
    /// Adds a force that acts on the point `position` of the world, on a
    /// body at `pose`: the force itself, and as torque the cross product of
    /// the lever arm with the force.
    pub fn add_force_at_point<R: Rotation<F>>(
        &mut self,
        force: F,
        position: F,
        pose: &BodyPose<F, R>,
    )
        ensures
            final(self).force_spec() == old(self).force_spec().plus_spec(force),
            final(self).torque_spec() == old(self).torque_spec().plus_spec(
                lever_spec(position, pose).cross_spec(force),
            ),
    {
        let current_pos = pose.transform_point(F::zero());
        let r = position.minus(current_pos);
        self.add_force(force);
        self.add_torque(r.cross(force));
    }
}

} // verus!
