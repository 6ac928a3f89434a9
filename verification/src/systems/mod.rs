//! The collision detection systems: the steps of one tick, from the poses
//! of the bodies to the contact events.
pub mod basic;
pub mod candidates;
pub mod spatial;

pub use self::basic::BasicCollisionSystem;
pub use self::spatial::SpatialCollisionSystem;
