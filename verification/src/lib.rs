//! Chat inference pipeline: prompt templating, greedy autoregressive
//! decoding driven as an event/command state machine, and post-processing
//! that separates a model's "thought" segment from the user-visible answer.
//!
//! The model runtime itself (context allocation, batched decode, the
//! tokenizer) lives outside this crate; callers run those calls and feed
//! their outcomes back as events.

pub mod api;
pub mod engine;
pub mod error;
pub mod prompt;
pub mod sampling;
pub mod thoughts;
