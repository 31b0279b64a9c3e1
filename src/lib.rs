//! Verified model of a jointed ragdoll character and of how its torso is
//! steered from held keys.
pub mod movement;
pub mod skeleton;
