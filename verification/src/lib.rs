//! Core of a terminal chat client for a serial link.
//!
//! Three workers share a transcript, an input line, a shutdown flag and the
//! viewport size: one reads the serial port, one reads the keyboard, one
//! redraws the screen. This crate holds everything those workers decide and
//! compute; reading, writing, sleeping and locking are left to the caller.

pub mod keyboard;
pub mod layout;
pub mod screen;
pub mod serial;
pub mod session;
pub mod store;
pub mod text;
pub mod window;
