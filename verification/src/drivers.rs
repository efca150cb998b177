//! Device drivers.

pub mod hd44780;
pub mod lcd;
