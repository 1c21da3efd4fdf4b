//! Animation and layout engine of a flip-card clock.
//!
//! The engine is pure: every entry point takes the instant, the wall-clock
//! reading and the configuration as arguments and returns plain values, so a
//! front end only has to read the clocks and draw what it is handed.
//!
//! Instants are readings of a monotonic clock in whole milliseconds, lengths
//! are whole pixels, and fractional settings are carried in thousandths.

pub mod board;
pub mod board_layout;
pub mod cells;
pub mod clock;
pub mod compositor;
pub mod config;
pub mod digit;
pub mod layout;
pub mod progress;
pub mod render;
pub mod zone;
