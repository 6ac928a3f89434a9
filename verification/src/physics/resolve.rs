//! Contact resolution by impulse.
//!
//! Where two bodies close in on each other at a contact, an impulse along
//! the contact normal changes their velocities so that they part with the
//! closing speed times the restitution, and each body is moved out of the
//! other along the normal, by its share of the penetration depth.
use vstd::prelude::*;
use crate::bound::{min_of, min_spec};
use crate::collide::{CollisionStrategy, Contact};
use crate::physics::body::{Inertia, Mass, Material, Velocity};
use crate::physics::simple::Angular;
use crate::pose::{BodyPose, Rotation};
use crate::scalar::{Additive, Scalar};
use crate::vector::{Cross, Vector2, Vector3, VectorSpace};

verus! {

/// An angular quantity that can be crossed with a vector: the velocity
/// that a point at `r` from the center has when the body turns.
pub trait Spin<V: VectorSpace>: Sized {
    spec fn spin_spec(self, r: V) -> V;

    fn spin(self, r: V) -> (v: V)
        ensures
            v == self.spin_spec(r),
    ;
}

/// In the plane a turn by `w` moves the point at `(x, y)` with the velocity
/// `(-w * y, w * x)`.
impl<S: Scalar> Spin<Vector2<S>> for S {
    open spec fn spin_spec(self, r: Vector2<S>) -> Vector2<S> {
        Vector2 { x: self.times_spec(r.y).negated_spec(), y: self.times_spec(r.x) }
    }

    fn spin(self, r: Vector2<S>) -> (v: Vector2<S>) {
        Vector2 { x: self.times(r.y).negated(), y: self.times(r.x) }
    }
}

impl<S: Scalar> Spin<Vector3<S>> for Vector3<S> {
    open spec fn spin_spec(self, r: Vector3<S>) -> Vector3<S> {
        self.cross_spec(r)
    }

    fn spin(self, r: Vector3<S>) -> (v: Vector3<S>) {
        self.cross(r)
    }
}

/// What contact resolution reads and changes of a body.
pub struct ResolveData<V: VectorSpace, A, I, R: Rotation<V>> {
    pub velocity: Velocity<V, A>,
    pub pose: BodyPose<V, R>,
    pub mass: Mass<V::Scalar, I>,
    pub material: Material<V::Scalar>,
}

/// The velocity of the point at `r` from the center of a body.
pub open spec fn point_velocity<V: VectorSpace, A: Spin<V>>(velocity: Velocity<V, A>, r: V) -> V {
    velocity.linear.plus_spec(velocity.angular.spin_spec(r))
}

/// What a body adds to the denominator of the impulse by its inertia:
/// `n . ((inertia * (r x n)) x r)`.
pub open spec fn angular_share<V, A, I, R>(inertia: I, r: V, n: V) -> V::Scalar where
    V: Cross<Output = A>,
    A: Angular<V::Scalar> + Spin<V>,
    I: Inertia<R, A>,
 {
    n.dot_spec(inertia.applied_spec(r.cross_spec(n)).spin_spec(r))
}

/// The speed along the normal at which the second body moves away from the
/// first at the contact point.
pub open spec fn normal_speed<V, A, I, R>(
    contact: Contact<V>,
    a: ResolveData<V, A, I, R>,
    b: ResolveData<V, A, I, R>,
) -> V::Scalar where
    V: Cross<Output = A>,
    A: Angular<V::Scalar> + Spin<V>,
    I: Inertia<R, A>,
    R: Rotation<V>,
 {
    let r_a = contact.contact_point.minus_spec(a.pose.position_spec());
    let r_b = contact.contact_point.minus_spec(b.pose.position_spec());
    point_velocity(b.velocity, r_b).minus_spec(point_velocity(a.velocity, r_a)).dot_spec(
        contact.normal,
    )
}

/// The size of the impulse:
/// `-(1 + e) * v_n / (m_a + m_b + share_a + share_b)`, with `e` the lesser
/// restitution, `v_n` the normal speed, `m` the inverse masses and `share`
/// the angular shares.
pub open spec fn impulse_size<V, A, I, R>(
    contact: Contact<V>,
    a: ResolveData<V, A, I, R>,
    b: ResolveData<V, A, I, R>,
) -> V::Scalar where
    V: Cross<Output = A>,
    A: Angular<V::Scalar> + Spin<V>,
    I: Inertia<R, A>,
    R: Rotation<V>,
 {
    let r_a = contact.contact_point.minus_spec(a.pose.position_spec());
    let r_b = contact.contact_point.minus_spec(b.pose.position_spec());
    let e = min_spec(a.material.restitution, b.material.restitution);
    let denominator = a.mass.inverse_mass.plus_spec(b.mass.inverse_mass).plus_spec(
        angular_share::<V, A, I, R>(
            a.mass.inverse_inertia.tensor_spec(a.pose.rotation_spec()),
            r_a,
            contact.normal,
        ),
    ).plus_spec(
        angular_share::<V, A, I, R>(
            b.mass.inverse_inertia.tensor_spec(b.pose.rotation_spec()),
            r_b,
            contact.normal,
        ),
    );
    V::Scalar::one_spec().plus_spec(e).negated_spec().times_spec(
        normal_speed(contact, a, b),
    ).over_spec(denominator)
}

/// Whether the contact changes anything: it carries a manifold, the bodies
/// close in on each other, and not both are static.
pub open spec fn resolves<V, A, I, R>(
    contact: Contact<V>,
    a: ResolveData<V, A, I, R>,
    b: ResolveData<V, A, I, R>,
) -> bool where
    V: Cross<Output = A>,
    A: Angular<V::Scalar> + Spin<V>,
    I: Inertia<R, A>,
    R: Rotation<V>,
 {
    &&& contact.strategy == CollisionStrategy::FullResolution
    &&& !(V::Scalar::zero_spec().rank() < normal_speed(contact, a, b).rank())
    &&& !(a.mass.is_static_spec() && b.mass.is_static_spec())
}

/// The velocity of a body after the impulse `impulse`, which acts at `r`
/// from its center: `linear + impulse * inverse_mass` and
/// `angular + inertia * (r x impulse)`.
pub open spec fn pushed_velocity<V, A, I, R>(body: ResolveData<V, A, I, R>, r: V, impulse: V)
    -> Velocity<V, A> where
    V: Cross<Output = A>,
    A: Angular<V::Scalar> + Spin<V>,
    I: Inertia<R, A>,
    R: Rotation<V>,
 {
    Velocity {
        linear: body.velocity.linear.plus_spec(impulse.scaled_spec(body.mass.inverse_mass)),
        angular: body.velocity.angular.plus_spec(
            body.mass.inverse_inertia.tensor_spec(body.pose.rotation_spec()).applied_spec(
                r.cross_spec(impulse),
            ),
        ),
    }
}

/// The position of a body after it was moved along `direction` by its
/// share of the penetration depth: `depth * inverse_mass / total`.
pub open spec fn corrected_position<V, A, I, R>(
    body: ResolveData<V, A, I, R>,
    direction: V,
    depth: V::Scalar,
    total: V::Scalar,
) -> V where V: VectorSpace, R: Rotation<V> {
    body.pose.position_spec().plus_spec(
        direction.scaled_spec(depth.times_spec(body.mass.inverse_mass).over_spec(total)),
    )
}

/// Resolves the contact between the bodies `a` and `b`, the normal of the
/// contact pointing from `a` to `b`.
///
/// Nothing changes where the contact carries no manifold, where the bodies
/// move apart at the contact point, or where both are static. Else the
/// impulse along the normal pushes `b` and, reversed, `a`; and `b` is moved
/// along the normal and `a` against it, each by its share of the
/// penetration depth. A static body is left as it is.
pub fn resolve_contact<V, A, I, R>(
    contact: &Contact<V>,
    a: &mut ResolveData<V, A, I, R>,
    b: &mut ResolveData<V, A, I, R>,
) where
    V: Cross<Output = A>,
    A: Angular<V::Scalar> + Spin<V>,
    I: Inertia<R, A>,
    R: Rotation<V>,

    ensures
        final(a).mass == old(a).mass,
        final(b).mass == old(b).mass,
        final(a).material == old(a).material,
        final(b).material == old(b).material,
        final(a).pose.rotation_spec() == old(a).pose.rotation_spec(),
        final(b).pose.rotation_spec() == old(b).pose.rotation_spec(),
        !resolves(*contact, *old(a), *old(b)) ==> *final(a) == *old(a) && *final(b) == *old(b),
        old(a).mass.is_static_spec() ==> *final(a) == *old(a),
        old(b).mass.is_static_spec() ==> *final(b) == *old(b),
        resolves(*contact, *old(a), *old(b)) ==> {
            let impulse = contact.normal.scaled_spec(impulse_size(*contact, *old(a), *old(b)));
            let total = old(a).mass.inverse_mass.plus_spec(old(b).mass.inverse_mass);
            &&& !old(a).mass.is_static_spec() ==> final(a).velocity == pushed_velocity(
                *old(a),
                contact.contact_point.minus_spec(old(a).pose.position_spec()),
                impulse.negated_spec(),
            ) && final(a).pose.position_spec() == corrected_position(
                *old(a),
                contact.normal.negated_spec(),
                contact.penetration_depth,
                total,
            ) && final(a).pose.is_dirty()
            &&& !old(b).mass.is_static_spec() ==> final(b).velocity == pushed_velocity(
                *old(b),
                contact.contact_point.minus_spec(old(b).pose.position_spec()),
                impulse,
            ) && final(b).pose.position_spec() == corrected_position(
                *old(b),
                contact.normal,
                contact.penetration_depth,
                total,
            ) && final(b).pose.is_dirty()
        },
{
    match contact.strategy {
        CollisionStrategy::CollisionOnly => {
            return ;
        },
        CollisionStrategy::FullResolution => {},
    }
    let a_static = a.mass.is_static();
    let b_static = b.mass.is_static();
    if a_static && b_static {
        return ;
    }
    let n = contact.normal;
    let r_a = contact.contact_point.minus(*a.pose.position());
    let r_b = contact.contact_point.minus(*b.pose.position());
    let v_a = a.velocity.linear.plus(a.velocity.angular.spin(r_a));
    let v_b = b.velocity.linear.plus(b.velocity.angular.spin(r_b));
    let v_n = v_b.minus(v_a).dot(n);
    if V::Scalar::zero().lt(v_n) {
        return ;
    }
    let e = min_of(a.material.restitution, b.material.restitution);
    let inertia_a = a.mass.inverse_inertia.tensor(a.pose.rotation());
    let inertia_b = b.mass.inverse_inertia.tensor(b.pose.rotation());
    let total = a.mass.inverse_mass.plus(b.mass.inverse_mass);
    let share_a = n.dot(inertia_a.applied(r_a.cross(n)).spin(r_a));
    let share_b = n.dot(inertia_b.applied(r_b.cross(n)).spin(r_b));
    let denominator = total.plus(share_a).plus(share_b);
    let j = V::Scalar::one().plus(e).negated().times(v_n).over(denominator);
    let impulse = n.scaled(j);
    let depth = contact.penetration_depth;
    if !a_static {
        let against = impulse.negated();
        let linear = a.velocity.linear.plus(against.scaled(a.mass.inverse_mass));
        let angular = a.velocity.angular.plus(inertia_a.applied(r_a.cross(against)));
        a.velocity = Velocity { linear, angular };
        let position = a.pose.position().plus(
            n.negated().scaled(depth.times(a.mass.inverse_mass).over(total)),
        );
        a.pose.set_position(position);
    }
    if !b_static {
        let linear = b.velocity.linear.plus(impulse.scaled(b.mass.inverse_mass));
        let angular = b.velocity.angular.plus(inertia_b.applied(r_b.cross(impulse)));
        b.velocity = Velocity { linear, angular };
        let position = b.pose.position().plus(
            n.scaled(depth.times(b.mass.inverse_mass).over(total)),
        );
        b.pose.set_position(position);
    }
}

} // verus!
