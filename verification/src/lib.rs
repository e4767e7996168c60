//! Acquisition core for HX711-class load-cell converters.
//!
//! The converter is read by bit-banging: a clock output is pulsed and a data
//! input is sampled once per pulse. This crate holds every decision of that
//! protocol and proves it; it never touches a pin itself. A harness owns the
//! two pins and a delay source, performs each [`machine::Action`] the core
//! asks for and hands back the [`machine::Event`] that resulted.
//!
//! - [`sample`]: raw and signed samples, sign extension.
//! - [`bits`]: the bit assembler and its round-trip laws.
//! - [`gain`]: channel and gain selection by trailing pulses.
//! - [`config`]: the options of an acquisition and their validation.
//! - [`error`]: what can end a cycle early.
//! - [`machine`]: the state machine that drives a conversion cycle.
//! - [`cycle`]: the laws of whole cycles: pulse counts, the exact waveform,
//!   the idle clock level and the bound on waiting.

pub mod bits;
pub mod config;
pub mod cycle;
pub mod error;
pub mod gain;
pub mod machine;
pub mod sample;
