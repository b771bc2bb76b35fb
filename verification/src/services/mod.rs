//! Core services: spec generation support and project scaffolding.

pub mod generator;
pub mod scaffold;
