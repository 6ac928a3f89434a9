//! Rigid body physics: forces, velocities, and the step from one frame to
//! the next.
pub mod body;
pub mod force;
pub mod resolve;
pub mod simple;

pub use self::body::{ApplyAngular, ExactApplyAngular, Inertia, Mass, Material, Velocity};
pub use self::force::ForceAccumulator;
pub use self::resolve::{resolve_contact, ResolveData};
pub use self::simple::{next_frame_integration, next_frame_pose, CurrentFrameUpdateSystem};
