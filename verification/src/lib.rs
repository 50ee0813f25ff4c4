//! A deterministic swarm-flight simulator.

pub mod drone;
pub mod fixed;
pub mod laws;
pub mod swarm;
