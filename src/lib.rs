//! A four-phase blink sequencer for two LEDs.
//!
//! The sequencer owns one phase counter. Each step performs the action due in
//! the current phase and advances the phase modulo four:
//! LED A on, LED B on, LED A off, LED B off, and round again.
pub mod schedule;
pub mod sequencer;

pub use sequencer::{blinky_ratchet, Action, Sequencer};
