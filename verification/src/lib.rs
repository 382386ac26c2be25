//! Core of a receipt-printer notification hub: normalized print jobs, the
//! byte-level encoder for the printer's control protocol, the bounded FIFO
//! job queue with its dispatcher, and the protocol state machines of the
//! three notification source adapters (conditional poll, session poll, and
//! persistent stream).
//!
//! Network and stream I/O, JSON decoding and task plumbing live outside this
//! crate; everything here is plain logic on plain values, and is verified.

mod bytebuf;
pub mod dispatch;
pub mod poll;
pub mod printer;
pub mod session;
pub mod stream;
pub mod text;
pub mod timestamp;
