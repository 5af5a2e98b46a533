//! Grows an in-memory byte buffer one cluster at a time until the allocator
//! refuses, and describes the single status line that reports the progress.
//!
//! The crate holds the rules: the buffer with its exact reservations, the
//! texts and terminal sequences of the status line, the driver that decides
//! when to reserve, when to render and when to stop, and the fill loop counted
//! in iterations. Writing to the terminal is left to the caller, which performs
//! the commands the driver hands out.

pub mod buffer;
pub mod decimal;
pub mod error;
pub mod status;
pub mod terminal;
pub mod driver;
pub mod progress;
