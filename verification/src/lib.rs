//! Kinematics of a voxel-world entity, in fixed-point arithmetic.
//!
//! A [`skeleton::Skeleton`] is the body of one entity: a box with a position
//! and a velocity. Once per simulation step its driver states what the
//! entity wants (`try_walk`, `try_jump`) and then calls `tick`, which applies
//! gravity, moves the body against the static geometry of the world and
//! lifts it if it is stuck. The world is known only through
//! [`world::CollisionOracle`], a single query that says whether a box touches
//! anything solid.
//!
//! Every number is a [`fixed::Fixed`]: millionths of a unit in an `i64`,
//! with saturating arithmetic, so that every operation is total and gives
//! the same result on every machine.

pub mod fixed;
pub mod vector;
pub mod bounds;
pub mod world;
pub mod frame;
pub mod skeleton;
pub mod laws;
pub mod commands;
pub mod avatar;
