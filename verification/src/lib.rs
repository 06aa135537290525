//! Core logic of a mood-display firmware: a sampling state machine that turns
//! periodic sensor readings into a two-state mood and a report byte, and a
//! charlieplex matrix driver that renders the current mood as a fixed sequence
//! of GPIO register writes.
//!
//! Hardware access (ADC, RTC, UART, the GPIO ports themselves) lives outside
//! this crate; the library decides what to write and when, as verified data.

pub mod matrix;
pub mod mood;
