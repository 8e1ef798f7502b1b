//! The food-collecting arena agent.

pub mod action;
pub mod raw;
pub mod memory;
pub mod agent;
pub mod feature;
