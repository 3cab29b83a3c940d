//! Configuration constants of the controller.
use vstd::prelude::*;

verus! {

/// Period of a timer-driven display refresh, in milliseconds.
pub const DISPLAY_UPDATE_PERIOD: u32 = 50;

/// Period of the telemetry report, in milliseconds.
pub const SERIAL_UPDATE_PERIOD: u32 = 500;

/// Largest raw reading the potentiometers produce; anything above counts as
/// this value.
pub const MAX_ANALOG_VALUE: u16 = 770;

/// An analog input never really reads zero. Every raw reading below this
/// value is taken as zero volume.
pub const ZERO_CUTOFF: u16 = 35;

/// Number of potentiometer channels.
pub const INPUT_COUNT: usize = 4;

/// Conversions averaged into one reading of a channel.
pub const SAMPLES_PER_READING: u32 = 128;

/// Pause after each pass over all channels, in milliseconds.
pub const SAMPLING_PAUSE: u32 = 50;

/// Time the panel stays lit after a redraw, in seconds.
pub const DISPLAY_ON_TIME: u32 = 10;

} // verus!
