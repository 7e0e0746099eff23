//! An asynchronous, buffered file logger: callers hand text messages to a
//! bounded queue, and a single writer appends one line per message to a file.
//!
//! This crate holds the logger's rules: how a line is built, what the bounded
//! queue accepts and in which order it gives messages back, what the writer
//! does with each event, and when closing the handle may complete.

pub mod channel;
mod clock;
pub mod laws;
pub mod logger;
pub mod message;

pub use logger::LogFast;
