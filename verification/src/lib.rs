//! Brightness and frame-rate control for a three-channel RGB LED.
//!
//! A knob and two buttons select and set one of four parameters: the
//! brightness level of the red, green or blue channel, or the frame rate of
//! the display. Two cooperative tasks share those parameters: the input
//! controller in [`ui`] decides what to write, and the renderer in [`rgb`]
//! turns what it reads into the on and off times of one frame. The rules of
//! both are stated and proved here; the hardware and the scheduler stay with
//! the program that uses this library.

use vstd::prelude::*;

pub mod knob;
pub mod rgb;
pub mod shared;
pub mod status;
pub mod ui;

pub use knob::quantize;
pub use rgb::{frame, Phase};
pub use shared::{SharedState, Write};
pub use ui::{Change, Startup, Target, Ui, UiState};

verus! {

/// Number of available levels
pub const LEVELS: u32 = 16;

} // verus!
