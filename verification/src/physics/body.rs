//! What a rigid body is made of: velocity, mass and material.
use vstd::prelude::*;
use crate::bound::{min_of, min_spec};
use crate::pose::{BodyPose, Rotation};
use crate::rotation::NoRotation;
use crate::scalar::{Additive, Scalar};
use crate::vector::{Vector3, VectorSpace};

verus! {

/// A rotation that an angular velocity can be applied to.
pub trait ApplyAngular<S: Scalar, A>: Sized {
    /// The rotation after turning with the angular velocity `velocity` for
    /// the time `dt`.
    spec fn apply_spec(&self, velocity: A, dt: S) -> Self;

    fn apply(&self, velocity: &A, dt: S) -> (r: Self)
        ensures
            r == self.apply_spec(*velocity, dt),
    ;
}

impl<S: Scalar, A> ApplyAngular<S, A> for NoRotation {
    open spec fn apply_spec(&self, velocity: A, dt: S) -> Self {
        NoRotation
    }

    fn apply(&self, velocity: &A, dt: S) -> (r: Self) {
        NoRotation
    }
}

/// The law of an angular velocity that is applied exactly: no angular
/// velocity, no turn.
pub trait ExactApplyAngular<S: Scalar, A: Additive>: ApplyAngular<S, A> {
    proof fn law_apply_zero(rotation: Self, dt: S)
        ensures
            rotation.apply_spec(A::zero_spec(), dt) == rotation,
    ;
}

impl<S: Scalar, A: Additive> ExactApplyAngular<S, A> for NoRotation {
    proof fn law_apply_zero(rotation: Self, dt: S) {
    }
}

/// The inverse inertia of a body: what turns a torque into an angular
/// acceleration.
pub trait Inertia<R, A>: Copy + Sized {
    /// The inverse inertia in the world frame, for a body turned by
    /// `orientation`.
    spec fn tensor_spec(self, orientation: R) -> Self;

    /// The angular acceleration that the torque `torque` causes.
    spec fn applied_spec(self, torque: A) -> A;

    fn tensor(self, orientation: &R) -> (r: Self)
        ensures
            r == self.tensor_spec(*orientation),
    ;

    fn applied(self, torque: A) -> (r: A)
        ensures
            r == self.applied_spec(torque),
    ;
}

/// In the plane the inertia is a scalar, the same however the body is
/// turned.
impl<S: Scalar, R> Inertia<R, S> for S {
    open spec fn tensor_spec(self, orientation: R) -> Self {
        self
    }

    open spec fn applied_spec(self, torque: S) -> S {
        self.times_spec(torque)
    }

    fn tensor(self, orientation: &R) -> (r: Self) {
        self
    }

    fn applied(self, torque: S) -> (r: S) {
        self.times(torque)
    }
}

/// In space a scalar is the inertia of a body that turns as easily about
/// every axis, the same however the body is turned.
impl<S: Scalar, R> Inertia<R, Vector3<S>> for S {
    open spec fn tensor_spec(self, orientation: R) -> Self {
        self
    }

    open spec fn applied_spec(self, torque: Vector3<S>) -> Vector3<S> {
        torque.scaled_spec(self)
    }

    fn tensor(self, orientation: &R) -> (r: Self) {
        self
    }

    fn applied(self, torque: Vector3<S>) -> (r: Vector3<S>) {
        torque.scaled(self)
    }
}

/// The velocity of a body: linear and angular.
#[derive(Clone, Copy, Debug, PartialEq)]
pub struct Velocity<L, A> {
    pub linear: L,
    pub angular: A,
}

impl<L: VectorSpace, A: Additive> Velocity<L, A> {
    /// The velocity of a body at rest.
    pub fn new() -> (r: Self)
        ensures
            r == (Velocity { linear: L::zero_spec(), angular: A::zero_spec() }),
    {
        Velocity { linear: L::zero(), angular: A::zero() }
    }

    pub fn from_parts(linear: L, angular: A) -> (r: Self)
        ensures
            r == (Velocity { linear, angular }),
    {
        Velocity { linear, angular }
    }

    /// The pose that a body at `pose` has after moving with this velocity
    /// for the time `dt`: moved by `linear * dt` and turned as the angular
    /// velocity turns the rotation in that time.
    pub open spec fn apply_spec<R: Rotation<L> + ApplyAngular<L::Scalar, A>>(
        &self,
        pose: &BodyPose<L, R>,
        dt: L::Scalar,
    ) -> BodyPose<L, R> {
        BodyPose::new_spec(
            pose.position_spec().plus_spec(self.linear.scaled_spec(dt)),
            pose.rotation_spec().apply_spec(self.angular, dt),
        )
    }

    pub fn apply<R: Rotation<L> + ApplyAngular<L::Scalar, A>>(
        &self,
        pose: &BodyPose<L, R>,
        dt: L::Scalar,
    ) -> (r: BodyPose<L, R>)
        ensures
            r == self.apply_spec(pose, dt),
    {
        BodyPose::new(
            pose.position().plus(self.linear.scaled(dt)),
            pose.rotation().apply(&self.angular, dt),
        )
    }
}

/// The mass of a body, held as its inverse. A body whose inverse mass
/// ranks with zero is static: nothing moves it.
#[derive(Clone, Copy, Debug, PartialEq)]
pub struct Mass<S, I> {
    pub inverse_mass: S,
    pub inverse_inertia: I,
}

impl<S: Scalar, I> Mass<S, I> {
    pub fn new(inverse_mass: S, inverse_inertia: I) -> (r: Self)
        ensures
            r == (Mass { inverse_mass, inverse_inertia }),
    {
        Mass { inverse_mass, inverse_inertia }
    }

    /// Whether the body is static: its inverse mass ranks with zero.
    pub open spec fn is_static_spec(&self) -> bool {
        self.inverse_mass.rank() == S::zero_spec().rank()
    }

    pub fn is_static(&self) -> (r: bool)
        ensures
            r == self.is_static_spec(),
    {
        !self.inverse_mass.lt(S::zero()) && !S::zero().lt(self.inverse_mass)
    }
}

/// The material of a body.
#[derive(Clone, Copy, Debug, PartialEq)]
pub struct Material<S> {
    /// How much of the closing speed a bounce gives back, from 0 to 1.
    pub restitution: S,
}

impl<S: Scalar> Material<S> {
    pub fn new(restitution: S) -> (r: Self)
        ensures
            r.restitution == restitution,
    {
        Material { restitution }
    }

    /// The restitution of a contact between two materials: that of the
    /// less bouncy of them.
    pub fn combined_restitution(&self, other: &Self) -> (r: S)
        ensures
            r == min_spec(self.restitution, other.restitution),
    {
        min_of(self.restitution, other.restitution)
    }
}

} // verus!
