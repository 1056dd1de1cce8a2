//! A bidirectional clipboard synchronisation bridge.
//!
//! The bridge mirrors the text of a local clipboard to a per-user broker topic
//! and mirrors text delivered on that topic back into the local clipboard,
//! without ever publishing a change that it applied itself.
//!
//! The library holds the decisions and leaves input and output to its caller:
//!
//! - [`dedup`] decides whether a text read from the clipboard is new;
//! - [`message`] holds the values that travel, and their wire format;
//! - [`config`] derives the topic, the client identity and the certificate
//!   file names from the startup configuration;
//! - [`model`] is the bridge as a mathematical state machine;
//! - [`bridge`] is the executable bridge, proved to follow the model;
//! - [`laws`] states what holds of every bridge, loop prevention first.
//!
//! Everything is verified but the decoding of UTF-8, which is left to the
//! standard library and trusted to accept exactly the valid encodings.

pub mod dedup;
pub mod message;
pub mod config;
pub mod model;
pub mod bridge;
pub mod laws;
