//! The step to the next frame: semi-implicit Euler integration.
//!
//! The forces first change the velocity of the next frame, and the new
//! velocity then moves the pose.
use vstd::prelude::*;
use crate::physics::body::{ApplyAngular, ExactApplyAngular, Inertia, Mass, Velocity};
use crate::physics::force::ForceAccumulator;
use crate::pose::{BodyPose, NextFrame, Rotation};
use crate::scalar::{Additive, Scalar};
use crate::vector::{ExactVectorSpace, Vector3, VectorSpace};

verus! {

/// An angular quantity: a scalar in the plane, a vector in space.
pub trait Angular<S: Scalar>: Additive {
    /// The quantity times the scalar `factor`.
    spec fn scaled_by_spec(self, factor: S) -> Self;

    /// The quantity less `rhs`.
    spec fn less_spec(self, rhs: Self) -> Self;

    fn scaled_by(self, factor: S) -> (r: Self)
        ensures
            r == self.scaled_by_spec(factor),
    ;

    fn less(self, rhs: Self) -> (r: Self)
        ensures
            r == self.less_spec(rhs),
    ;
}

impl<S: Scalar> Angular<S> for S {
    open spec fn scaled_by_spec(self, factor: S) -> Self {
        self.times_spec(factor)
    }

    open spec fn less_spec(self, rhs: Self) -> Self {
        self.minus_spec(rhs)
    }

    fn scaled_by(self, factor: S) -> (r: Self) {
        self.times(factor)
    }

    fn less(self, rhs: Self) -> (r: Self) {
        self.minus(rhs)
    }
}

impl<S: Scalar> Angular<S> for Vector3<S> {
    open spec fn scaled_by_spec(self, factor: S) -> Self {
        self.scaled_spec(factor)
    }

    open spec fn less_spec(self, rhs: Self) -> Self {
        self.minus_spec(rhs)
    }

    fn scaled_by(self, factor: S) -> (r: Self) {
        self.scaled(factor)
    }

    fn less(self, rhs: Self) -> (r: Self) {
        self.minus(rhs)
    }
}

/// The velocity that the accumulated force and torque give a body after
/// the time `dt`: `linear + force * inverse_mass * dt`, and
/// `angular + inertia * torque * dt` with the inverse inertia of the world
/// frame. A static body keeps its velocity.
pub open spec fn integrated_velocity<V, A, I, R>(
    velocity: Velocity<V, A>,
    rotation: R,
    force: V,
    torque: A,
    mass: Mass<V::Scalar, I>,
    dt: V::Scalar,
) -> Velocity<V, A> where V: VectorSpace, A: Angular<V::Scalar>, I: Inertia<R, A> {
    if mass.is_static_spec() {
        velocity
    } else {
        Velocity {
            linear: velocity.linear.plus_spec(
                force.scaled_spec(mass.inverse_mass).scaled_spec(dt),
            ),
            angular: velocity.angular.plus_spec(
                mass.inverse_inertia.tensor_spec(rotation).applied_spec(torque).scaled_by_spec(dt),
            ),
        }
    }
}

/// A static body keeps its velocity, whatever force and torque act on it.
pub proof fn lemma_static_body_keeps_velocity<V, A, I, R>(
    velocity: Velocity<V, A>,
    rotation: R,
    force: V,
    torque: A,
    mass: Mass<V::Scalar, I>,
    dt: V::Scalar,
) where V: VectorSpace, A: Angular<V::Scalar>, I: Inertia<R, A>
    requires
        mass.is_static_spec(),
    ensures
        integrated_velocity(velocity, rotation, force, torque, mass, dt) == velocity,
{
}

/// A body without velocity keeps its position and its rotation.
pub proof fn lemma_body_at_rest_keeps_pose<V, A, R>(pose: BodyPose<V, R>, dt: V::Scalar) where
    V: ExactVectorSpace,
    A: Additive,
    R: Rotation<V> + ExactApplyAngular<V::Scalar, A>,

    ensures
        (Velocity::<V, A> { linear: V::zero_spec(), angular: A::zero_spec() }).apply_spec(
            &pose,
            dt,
        ) == BodyPose::<V, R>::new_spec(pose.position_spec(), pose.rotation_spec()),
        pose.consistent() && pose.is_dirty() ==> (Velocity::<V, A> {
            linear: V::zero_spec(),
            angular: A::zero_spec(),
        }).apply_spec(&pose, dt) == pose,
{
    V::law_zero_scaled(dt);
    V::law_plus_zero(pose.position_spec());
    R::law_apply_zero(pose.rotation_spec(), dt);
    if pose.consistent() && pose.is_dirty() {
        BodyPose::<V, R>::lemma_new_of_own_parts(pose);
    }
}

/// Integrates the forces on one body into its velocity of the next frame,
/// and takes them out of the accumulator. A static body is left as it is,
/// with what its accumulator holds.
pub fn integrate<V, A, I, R>(
    next_velocity: &mut NextFrame<Velocity<V, A>>,
    next_pose: &NextFrame<BodyPose<V, R>>,
    force: &mut ForceAccumulator<V, A>,
    mass: &Mass<V::Scalar, I>,
    dt: V::Scalar,
) where V: VectorSpace, A: Angular<V::Scalar>, I: Inertia<R, A>, R: Rotation<V>
    ensures
        final(next_velocity).value == integrated_velocity(
            old(next_velocity).value,
            next_pose.value.rotation_spec(),
            old(force).force_spec(),
            old(force).torque_spec(),
            *mass,
            dt,
        ),
        mass.is_static_spec() ==> *final(force) == *old(force),
        !mass.is_static_spec() ==> final(force).force_spec() == V::zero_spec()
            && final(force).torque_spec() == A::zero_spec(),
{
    if mass.is_static() {
        return ;
    }
    let a = force.consume_force().scaled(mass.inverse_mass);
    let linear = next_velocity.value.linear.plus(a.scaled(dt));
    let a = mass.inverse_inertia.tensor(next_pose.value.rotation()).applied(
        force.consume_torque(),
    );
    let angular = next_velocity.value.angular.plus(a.scaled_by(dt));
    next_velocity.value = Velocity { linear, angular };
}

/// The smallest of four lengths.
pub open spec fn shortest(a: int, b: int, c: int, d: int) -> int {
    let ab = if a < b { a } else { b };
    let cd = if c < d { c } else { d };
    if ab < cd { ab } else { cd }
}

/// Integrates the forces on every body into its velocity of the next
/// frame. The body `i` is made of the entries at `i` of the four lists; a
/// body that lacks one of them is left as it is.
pub fn next_frame_integration<V, A, I, R>(
    next_velocities: &mut Vec<NextFrame<Velocity<V, A>>>,
    next_poses: &Vec<NextFrame<BodyPose<V, R>>>,
    forces: &mut Vec<ForceAccumulator<V, A>>,
    masses: &Vec<Mass<V::Scalar, I>>,
    dt: V::Scalar,
) where V: VectorSpace, A: Angular<V::Scalar>, I: Inertia<R, A>, R: Rotation<V>
    ensures
        final(next_velocities)@.len() == old(next_velocities)@.len(),
        final(forces)@.len() == old(forces)@.len(),
        forall|i: int|
            0 <= i < shortest(
                old(next_velocities)@.len() as int,
                next_poses@.len() as int,
                old(forces)@.len() as int,
                masses@.len() as int,
            ) ==> (#[trigger] final(next_velocities)@[i]).value == integrated_velocity(
                old(next_velocities)@[i].value,
                next_poses@[i].value.rotation_spec(),
                old(forces)@[i].force_spec(),
                old(forces)@[i].torque_spec(),
                masses@[i],
                dt,
            ),
        forall|i: int|
            0 <= i < shortest(
                old(next_velocities)@.len() as int,
                next_poses@.len() as int,
                old(forces)@.len() as int,
                masses@.len() as int,
            ) ==> {
                &&& masses@[i].is_static_spec() ==> #[trigger] final(forces)@[i]
                    == old(forces)@[i]
                &&& !masses@[i].is_static_spec() ==> final(forces)@[i].force_spec()
                    == V::zero_spec() && final(forces)@[i].torque_spec() == A::zero_spec()
            },
        forall|i: int|
            shortest(
                old(next_velocities)@.len() as int,
                next_poses@.len() as int,
                old(forces)@.len() as int,
                masses@.len() as int,
            ) <= i < old(next_velocities)@.len() ==> #[trigger] final(next_velocities)@[i]
                == old(next_velocities)@[i],
        forall|i: int|
            shortest(
                old(next_velocities)@.len() as int,
                next_poses@.len() as int,
                old(forces)@.len() as int,
                masses@.len() as int,
            ) <= i < old(forces)@.len() ==> #[trigger] final(forces)@[i] == old(forces)@[i],
{
    let mut n = next_velocities.len();
    if next_poses.len() < n {
        n = next_poses.len();
    }
    if forces.len() < n {
        n = forces.len();
    }
    if masses.len() < n {
        n = masses.len();
    }
    let mut i: usize = 0;
    while i < n
        invariant
            n == shortest(
                old(next_velocities)@.len() as int,
                next_poses@.len() as int,
                old(forces)@.len() as int,
                masses@.len() as int,
            ),
            i <= n,
            next_velocities@.len() == old(next_velocities)@.len(),
            forces@.len() == old(forces)@.len(),
            forall|k: int|
                0 <= k < i ==> (#[trigger] next_velocities@[k]).value == integrated_velocity(
                    old(next_velocities)@[k].value,
                    next_poses@[k].value.rotation_spec(),
                    old(forces)@[k].force_spec(),
                    old(forces)@[k].torque_spec(),
                    masses@[k],
                    dt,
                ),
            forall|k: int|
                0 <= k < i ==> {
                    &&& masses@[k].is_static_spec() ==> #[trigger] forces@[k] == old(forces)@[k]
                    &&& !masses@[k].is_static_spec() ==> forces@[k].force_spec() == V::zero_spec()
                        && forces@[k].torque_spec() == A::zero_spec()
                },
            forall|k: int|
                i <= k < next_velocities@.len() ==> #[trigger] next_velocities@[k]
                    == old(next_velocities)@[k],
            forall|k: int| i <= k < forces@.len() ==> #[trigger] forces@[k] == old(forces)@[k],
        decreases n - i,
    {
        integrate(&mut next_velocities[i], &next_poses[i], &mut forces[i], &masses[i], dt);
        i += 1;
    }
}

/// Moves every body to its pose of the next frame: the pose that its
/// velocity of the next frame gives it after the time `dt`. The body `i`
/// is made of the entries at `i` of the three lists; a body that lacks one
/// of them is left as it is.
pub fn next_frame_pose<V, A, R>(
    next_velocities: &Vec<NextFrame<Velocity<V, A>>>,
    poses: &Vec<BodyPose<V, R>>,
    next_poses: &mut Vec<NextFrame<BodyPose<V, R>>>,
    dt: V::Scalar,
) where V: VectorSpace, A: Additive, R: Rotation<V> + ApplyAngular<V::Scalar, A>
    ensures
        final(next_poses)@.len() == old(next_poses)@.len(),
        forall|i: int|
            0 <= i < old(next_poses)@.len() ==> (#[trigger] final(next_poses)@[i]).value == (if i
                < next_velocities@.len() && i < poses@.len() {
                next_velocities@[i].value.apply_spec(&poses@[i], dt)
            } else {
                old(next_poses)@[i].value
            }),
{
    let mut n = next_velocities.len();
    if poses.len() < n {
        n = poses.len();
    }
    if next_poses.len() < n {
        n = next_poses.len();
    }
    let mut i: usize = 0;
    while i < n
        invariant
            i <= n,
            n <= next_velocities@.len(),
            n <= poses@.len(),
            n <= next_poses@.len(),
            n == next_velocities@.len() || n == poses@.len() || n == next_poses@.len(),
            next_poses@.len() == old(next_poses)@.len(),
            forall|k: int|
                0 <= k < i ==> (#[trigger] next_poses@[k]).value == next_velocities@[k].value.apply_spec(
                    &poses@[k],
                    dt,
                ),
            forall|k: int|
                i <= k < next_poses@.len() ==> #[trigger] next_poses@[k] == old(next_poses)@[k],
        decreases n - i,
    {
        let moved = next_velocities[i].value.apply(&poses[i], dt);
        next_poses[i].value = moved;
        i += 1;
    }
}

/// The commit of a frame: what was computed for the next frame becomes the
/// current state.
#[derive(Clone, Copy, Debug, Default)]
pub struct CurrentFrameUpdateSystem;

impl CurrentFrameUpdateSystem {
    pub fn new() -> (r: Self) {
        CurrentFrameUpdateSystem
    }

    /// Overwrites each current value with the value of the next frame.
    /// A current value without a next one stays.
    pub fn commit<T: Copy>(&self, current: &mut Vec<T>, next: &Vec<NextFrame<T>>)
        ensures
            final(current)@.len() == old(current)@.len(),
            forall|i: int|
                0 <= i < old(current)@.len() ==> #[trigger] final(current)@[i] == (if i
                    < next@.len() {
                    next@[i].value
                } else {
                    old(current)@[i]
                }),
    {
        let mut n = current.len();
        if next.len() < n {
            n = next.len();
        }
        let mut i: usize = 0;
        while i < n
            invariant
                i <= n,
                n <= next@.len(),
                n <= current@.len(),
                n == next@.len() || n == current@.len(),
                current@.len() == old(current)@.len(),
                forall|k: int| 0 <= k < i ==> #[trigger] current@[k] == next@[k].value,
                forall|k: int| i <= k < current@.len() ==> #[trigger] current@[k] == old(current)@[k],
            decreases n - i,
        {
            current[i] = next[i].value;
            i += 1;
        }
    }

    /// Commits the poses and the velocities of the next frame.
    pub fn run<V, R, A>(
        &mut self,
        velocities: &mut Vec<Velocity<V, A>>,
        next_velocities: &Vec<NextFrame<Velocity<V, A>>>,
        poses: &mut Vec<BodyPose<V, R>>,
        next_poses: &Vec<NextFrame<BodyPose<V, R>>>,
    ) where V: VectorSpace, R: Rotation<V>, A: Additive
        ensures
            final(poses)@.len() == old(poses)@.len(),
            final(velocities)@.len() == old(velocities)@.len(),
            forall|i: int|
                0 <= i < old(poses)@.len() ==> #[trigger] final(poses)@[i] == (if i
                    < next_poses@.len() {
                    next_poses@[i].value
                } else {
                    old(poses)@[i]
                }),
            forall|i: int|
                0 <= i < old(velocities)@.len() ==> #[trigger] final(velocities)@[i] == (if i
                    < next_velocities@.len() {
                    next_velocities@[i].value
                } else {
                    old(velocities)@[i]
                }),
    {
        self.commit(poses, next_poses);
        self.commit(velocities, next_velocities);
    }
}

} // verus!
