//! A reactive decision engine for a small robot-soccer team.
//!
//! Every agent is driven by a behavior tree that is evaluated once per
//! simulation frame on a snapshot of what the agent sees. The tree, the
//! conditions over snapshots and the coordinator that ticks one tree per
//! agent live in [`strategy`]; [`game_engine`] keeps the state of a match and
//! [`robot_control`] turns targets into velocity commands.
//!
//! The crate works in fixed-point units throughout: lengths are whole
//! millimetres, speeds are millimetres per second, times are microseconds,
//! angles are milliradians and quantities of the unit interval are
//! thousandths.

pub mod fixed_point;
pub mod game_engine;
pub mod robot_control;
pub mod strategy;
pub mod types;
