//! Client-side protocol logic for a live-chat ("danmaku") stream.
//!
//! The crate covers the byte-level frame codec, the message model, payload
//! decompression, the splitting of a decompressed body into its concatenated
//! sub-frames, the dispatch of inbound messages to typed events, the session
//! state machine and the single-session supervisor rules. Sockets, timers and
//! the event sink stay with the caller: every function here maps plain values
//! to plain values.

pub mod auth;
pub mod buffer;
pub mod codec;
pub mod commands;
pub mod connection;
pub mod demux;
pub mod event;
pub mod message;
pub mod utils;
pub mod wire;
