//! An autonomous agent controller driven by an emotional state machine.
//!
//! The agent occupies one of four moods; each tick the mood selects an action
//! routine, and after the routine a probabilistic transition policy may move
//! the agent to another mood, announcing the change over a FIFO command queue
//! that an audio worker drains asynchronously.

pub mod agent;
pub mod channel;
pub mod mood;
mod rolls;
pub mod routines;

pub use agent::BMO;
pub use mood::Command;
pub use mood::Mood;
pub use mood::Sound;
