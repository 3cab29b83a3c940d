//! Control core of an analog volume-mixer controller.
//!
//! Potentiometer readings are cleaned and averaged ([`sampler`]), mapped onto
//! output ranges ([`scaler`]), shown as bars on a small bitmap panel
//! ([`display`]) and reported as a telemetry line ([`telemetry`]).
//! [`scheduler`] holds the decisions that tie the sampling loop to the
//! timer-driven tasks. The library performs no I/O: it tells its caller what
//! to send to the panel, the timers and the serial line.
pub mod display;
pub mod geometry;
pub mod globals;
pub mod sampler;
pub mod scaler;
pub mod scheduler;
pub mod telemetry;
pub mod text;

pub use display::{DisplayState, DisplayStatus};
pub use scaler::{scale_analog_input_to_100, scale_analog_input_to_1023, scale_to_range};
