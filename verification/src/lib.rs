//! Verified core of a six-axis robot kinematics toolkit: the argument
//! validation, mode parsing and configuration rules that sit between a
//! scripting front end and the OPW kinematics, collision and planning engines.
//!
//! Floating-point inputs are handled as their IEEE 754 bit patterns
//! (`u64` for binary64, `u32` for binary32), so that every rule that only
//! classifies or orders a number can be stated and proved exactly.

pub mod ieee754;
pub mod error;
pub mod validate;
pub mod text;
pub mod check_mode;
pub mod mesh;
pub mod safety;
pub mod robot;
pub mod kinematic_model;
pub mod parallelogram;
pub mod annotated_joints;
pub mod planners;
pub mod constraints;
pub mod jacobian;
