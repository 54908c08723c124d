//! Scheduling and playback decisions for an audio announcement player.
//!
//! The library decides when a scheduled task fires and drives a playlist run
//! as a state machine; the surrounding program performs the store queries,
//! device calls and waits that the decisions ask for.
pub mod clock;
pub mod history;
pub mod matcher;
pub mod sequencer;
pub mod task;
