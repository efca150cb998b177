//! Timing primitives: the tick counter, the blocking delay and the polled timer.

pub mod delay;
pub mod systick;
pub mod timer;
