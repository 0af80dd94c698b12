//! Software pulse-width modulation for three LED channels (red, green, blue).
//!
//! A shared configuration store holds the brightness level of each channel
//! and the frame rate. The engine takes a snapshot of the store once per
//! period and says which outputs to change and how long to wait, so that each
//! channel is lit for a share of its step that is proportional to its level.
//! The library touches no hardware and never sleeps: the caller carries out
//! the actions it is given.

pub mod config;
pub mod plan;
pub mod rgb;
pub mod timing;

pub use crate::config::ConfigStore;
pub use crate::plan::Action;
pub use crate::rgb::Rgb;

use vstd::prelude::*;

verus! {

/// Number of discrete brightness steps in one channel's PWM period.
pub const LEVELS: u32 = 16;

/// Number of channels: red, green and blue.
pub const CHANNELS: usize = 3;

/// One brightness level per channel, in the order red, green, blue.
pub type LevelTriple = [u32; CHANNELS];

} // verus!
