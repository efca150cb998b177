//! Protocol engine for an HD44780 character display behind an I2C GPIO
//! expander, together with the tick-based timing primitives it relies on.
//!
//! Nothing in this crate touches hardware. The display driver turns each
//! operation into the exact list of bus transactions and waits that have to be
//! played, in order, on the I2C bus; the timing types take the current tick as
//! an argument. The firmware around the crate owns the bus, the tick
//! interrupt and the busy loops.

pub mod system;
pub mod drivers;
