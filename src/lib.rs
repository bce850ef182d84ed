//! A three-lamp traffic signal as a verified state machine.
//!
//! The library decides, tick by tick, what the red, orange and green lines
//! must do and how long to wait; a driver performs those line operations and
//! the wait on real hardware.
pub mod lamps;
pub mod phase;
pub mod controller;
pub mod laws;
