//! Collision shapes and the contacts found between them.
use vstd::prelude::*;
use crate::scalar::Additive;
use crate::vector::VectorSpace;

pub mod cuboid;
pub mod primitive;
pub mod rectangle;
pub mod shape;

pub use self::cuboid::Cuboid;
pub use self::primitive::{
    ContinuousTransformed,
    DiscreteTransformed,
    HasAABB,
    Primitive,
    SupportFunction,
};
pub use self::rectangle::Rectangle;
pub use self::shape::{CollisionPrimitive, CollisionShape, ContainerShapeWrapper};

verus! {

/// The strategy by which a collision is resolved. A shape asks for one, and
/// each contact tells which one it was found with.
#[derive(Clone, Copy, Debug, PartialEq, Eq, Structural)]
pub enum CollisionStrategy {
    /// The contact carries a normal, a penetration depth and a contact point.
    FullResolution,
    /// The contact only tells that the shapes collide; its normal, depth and
    /// point mean nothing.
    CollisionOnly,
}

/// The manifold of a single contact.
#[derive(Clone, Copy, Debug, PartialEq)]
pub struct Contact<V: VectorSpace> {
    /// The strategy that the contact was found with.
    pub strategy: CollisionStrategy,
    /// The collision normal; only with `FullResolution`.
    pub normal: V,
    /// The penetration depth; only with `FullResolution`.
    pub penetration_depth: V::Scalar,
    /// The contact point in world coordinates; only with `FullResolution`.
    pub contact_point: V,
}

impl<V: VectorSpace> Contact<V> {
    /// A contact with a zero normal, depth and point.
    pub fn new(strategy: CollisionStrategy) -> (r: Self)
        ensures
            r == (Contact {
                strategy,
                normal: V::zero_spec(),
                penetration_depth: V::Scalar::zero_spec(),
                contact_point: V::zero_spec(),
            }),
    {
        Self::new_impl(strategy, V::zero(), V::Scalar::zero())
    }

    /// A contact with the given normal and depth, and a zero contact point.
    pub fn new_impl(strategy: CollisionStrategy, normal: V, penetration_depth: V::Scalar) -> (r:
        Self)
        ensures
            r == (Contact { strategy, normal, penetration_depth, contact_point: V::zero_spec() }),
    {
        Self::new_with_point(strategy, normal, penetration_depth, V::zero())
    }

    /// A contact with the given normal, depth and contact point.
    pub fn new_with_point(
        strategy: CollisionStrategy,
        normal: V,
        penetration_depth: V::Scalar,
        contact_point: V,
    ) -> (r: Self)
        ensures
            r == (Contact { strategy, normal, penetration_depth, contact_point }),
    {
        Contact { strategy, normal, penetration_depth, contact_point }
    }
}

/// All the contacts found between two bodies in one pass.
pub struct ContactSet<ID, V: VectorSpace> {
    /// The ids of the two colliding bodies.
    pub bodies: (ID, ID),
    /// The contacts between them.
    pub contacts: Vec<Contact<V>>,
}

impl<ID, V: VectorSpace> ContactSet<ID, V> {
    pub fn new(bodies: (ID, ID), contacts: Vec<Contact<V>>) -> (r: Self)
        ensures
            r.bodies == bodies,
            r.contacts == contacts,
    {
        ContactSet { bodies, contacts }
    }

    /// The set of one contact that has no manifold yet.
    pub fn new_single(strategy: CollisionStrategy, bodies: (ID, ID)) -> (r: Self)
        ensures
            r.bodies == bodies,
            r.contacts@ == seq![
                Contact::<V> {
                    strategy,
                    normal: V::zero_spec(),
                    penetration_depth: V::Scalar::zero_spec(),
                    contact_point: V::zero_spec(),
                },
            ],
    {
        let mut contacts: Vec<Contact<V>> = Vec::new();
        contacts.push(Contact::new(strategy));
        Self::new(bodies, contacts)
    }
}

/// What the collision pipeline reports for each contact: the two bodies and
/// the contact between them.
pub struct ContactEvent<ID, V: VectorSpace> {
    /// The ids of the two colliding bodies.
    pub bodies: (ID, ID),
    /// The contact between them.
    pub contact: Contact<V>,
}

impl<ID, V: VectorSpace> ContactEvent<ID, V> {
    pub fn new(bodies: (ID, ID), contact: Contact<V>) -> (r: Self)
        ensures
            r == (ContactEvent { bodies, contact }),
    {
        ContactEvent { bodies, contact }
    }

    /// The event of a contact that has no manifold.
    pub fn new_single(strategy: CollisionStrategy, bodies: (ID, ID)) -> (r: Self)
        ensures
            r.bodies == bodies,
            r.contact == (Contact::<V> {
                strategy,
                normal: V::zero_spec(),
                penetration_depth: V::Scalar::zero_spec(),
                contact_point: V::zero_spec(),
            }),
    {
        Self::new(bodies, Contact::new(strategy))
    }
}

} // verus!
