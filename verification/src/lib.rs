//! Verified decision logic of two game-playing reinforcement-learning agents.
//!
//! * [`pyr`]: an agent that moves a player around an arena to collect food.
//! * [`tank`]: a tank agent trained with deep Q-learning.
//!
//! The neural networks, tensors and floating-point feature extraction live
//! outside this crate; here stand the rules that decide actions, rewards,
//! memory and training schedules.

pub mod pyr;
pub mod tank;
mod rng;
