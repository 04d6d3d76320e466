//! Verified decisions of a few Servo widgets and helpers: the scrollbar
//! gutter of scroll containers, the `<input type=range>` slider (dragging,
//! keyboard stepping, thumb measurement, step precision), and the
//! `unity://` smoke protocol handler.

pub mod range_input;
pub mod scrollbar;
pub mod step_format;
pub mod unity_smoke;
