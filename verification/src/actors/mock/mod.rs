//! Simulated actors, for running the system without a launch monitor or a simulator.

pub mod launch;
pub mod randomclub;
