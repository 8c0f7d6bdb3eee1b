//! A single-window application lifecycle, modelled as a three-state machine.
//!
//! The machine starts uninitialized, acquires exactly one window when the
//! host grants UI access, and is destroyed when that window is asked to
//! close. All decisions are pure functions of the current state and the
//! incoming event; the host (an OS event loop) performs the requested
//! side effects and feeds their outcomes back in.

pub mod lifecycle;
