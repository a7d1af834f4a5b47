//! Conversational inference-session control: prompt templates, the per-turn
//! state machine of the interactive loop, the outcome of a single-shot run and
//! the progress protocol of a quantizing transform.

pub mod prompt;
pub mod controller;
pub mod inference;
pub mod progress;
