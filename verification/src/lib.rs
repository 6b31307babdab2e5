//! A small always-on-top world-clock overlay, as a verified library.
//!
//! The library holds the logic of the overlay: formatting a time of day,
//! reading the wall clock for a fixed roster of timezones, tiling the window
//! canvas into one panel per clock, and the frameless-window drag handshake.
//! A thin GUI shell around it owns the window and the painting.

pub mod chrome;
pub mod frame;
pub mod layout;
pub mod text;
pub mod timefmt;
pub mod zones;
