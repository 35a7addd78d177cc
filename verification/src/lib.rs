//! A terminal dashboard's logic: where on the globe the machine is, what the
//! screen shows of it, and how the event loop answers keys and the clock.
//!
//! Coordinates are whole numbers of ten-thousandths of a degree, times are
//! whole nanoseconds on a monotonic clock. The program around this library
//! reads the network, the keyboard and the clock and draws the screen.

pub mod app;
pub mod canvas;
pub mod decimal;
pub mod event_loop;
pub mod location;
pub mod ui;
