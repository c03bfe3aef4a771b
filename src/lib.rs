//! A fixed-length countdown timer: a three-phase state machine driven by
//! frames from a host event loop, and the screen it shows in each phase.

pub mod display;
pub mod laws;
pub mod timer;
