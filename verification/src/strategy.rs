//! Decision making: situation snapshots, predicates over them, behavior
//! trees and the plays built from them.

pub mod behavior;
pub mod plays;
pub mod situation;

pub use situation::RobotSituation;
