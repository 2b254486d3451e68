//! Replay of a mined transaction: the decisions that rebuild the state
//! right before it ran and classify what its execution returned.

pub mod types;
pub mod resolver;
pub mod environment;
pub mod plan;
pub mod outcome;
pub mod driver;
pub mod laws;
