//! Motion-control decisions of the Nova humanoid body layer.
//!
//! The library holds the parts of the controller that decide rather than
//! measure: how commands from the cognitive layer are accepted, how the
//! control loop moves between gait, end-to-end and reset modes, which slot
//! every actuated joint uses, how foot contacts follow collision events, and
//! how raw robot state is laid out for the controller. Joint angles and
//! velocities are carried as an opaque scalar type `S`; the library never
//! computes with them, it only routes them.

pub mod command;
pub mod contact;
pub mod control;
pub mod input;
pub mod joints;
pub mod sensors;
