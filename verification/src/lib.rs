//! A rigid-body collision detection and impulse resolution library.
//!
//! Each simulation tick the library finds the pairs of bodies that may
//! collide (the broad phase), finds the contacts between them (the narrow
//! phase), and moves the bodies on: forces change velocities, velocities
//! change poses.
//!
//! The library is generic over the arithmetic it runs on: see [`scalar`].
pub mod bound;
pub mod broad;
pub mod collide;
pub mod lattice;
pub mod narrow;
pub mod physics;
pub mod pose;
pub mod rotation;
pub mod scalar;
pub mod systems;
pub mod vector;

pub use crate::broad::{BroadCollisionData, BroadPhase, BruteForce, SweepAndPrune};
pub use crate::collide::{
    CollisionPrimitive,
    CollisionShape,
    CollisionStrategy,
    Contact,
    ContactEvent,
    ContactSet,
    Primitive,
};
pub use crate::narrow::{NarrowPhase, EPA2, EPA3, GJK2, GJK3};
pub use crate::physics::{
    next_frame_integration,
    next_frame_pose,
    resolve_contact,
    CurrentFrameUpdateSystem,
    ForceAccumulator,
    Mass,
    Material,
    ResolveData,
    Velocity,
};
pub use crate::pose::{BodyPose, NextFrame};
pub use crate::systems::{BasicCollisionSystem, SpatialCollisionSystem};
