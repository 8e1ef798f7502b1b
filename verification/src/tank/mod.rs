//! The tank agent.

pub mod action;
pub mod info;
pub mod reward;
pub mod dataset;
