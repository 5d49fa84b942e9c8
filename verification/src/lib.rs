//! The decisions behind a GPUI window on Android: touch gestures, key events,
//! the input-method queue, the soft keyboard, window insets and the display.
//!
//! Every function here works on plain values. Coordinates are carried as the bit
//! patterns of single-precision numbers, so the library compares them exactly and
//! leaves the arithmetic to its caller; clocks are carried as nanosecond counts.

pub mod callback;
pub mod display;
pub mod geometry;
pub mod ime;
pub mod input;
pub mod insets;
pub mod keyboard;
pub mod touch;
pub mod velocity;
pub mod window;
