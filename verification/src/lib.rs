//! Verified core of a screen capture and screen streaming backend.
//!
//! The crate decides; the program around it touches the operating system.
//! Enumeration snapshots, pointer positions, raw frames and clock readings come
//! in as plain values, and what goes out is again plain: the entries to list,
//! the index of the monitor or window to capture, the encoded payload for the
//! user interface, and the next move of the streaming loop.

pub mod display;
pub mod error;
pub mod frame;
pub mod transport;
pub mod codec;
pub mod target;
pub mod flag;
pub mod stream;
pub mod session;
