//! Mirrors the currently playing track into a chat client's rich-presence
//! display: a provider chain picks the best "now playing" snapshot, an event
//! engine decides what to publish, and a framed local protocol carries it to
//! the peer process.

pub mod bytes;
pub mod command;
pub mod config;
pub mod engine;
pub mod frame;
pub mod model;
pub mod providers;
pub mod rpc;
pub mod urls;
