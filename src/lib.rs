//! A non-blocking digital-input debouncer with a tick-driven millisecond clock,
//! plus the small signal helpers that feed it on a microcontroller.
pub mod clock;
pub mod debounce;
pub mod rng;
pub mod signal;
