//! A two-paddle arena: the scene that is spawned at startup, and the per-frame
//! systems that turn held keys into paddle velocities, spawn extra balls and
//! list the entities for a position dump. The physics engine that moves the
//! bodies lives outside this crate; the types here describe what it is given.

pub mod keys;
pub mod movement;
pub mod scene;
