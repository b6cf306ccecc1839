//! Latency benchmark client for a request/response trading protocol.
//!
//! One session authenticates, subscribes, and then creates and cancels
//! orders in a cycle, measuring the time between each request and its
//! response.
//!
//! - `config`: the settings of a client, read from property text
//! - `protocol`: the messages of the protocol and their JSON text
//! - `tracker`: correlation of responses with requests, and the statistics
//! - `histogram`: the latency histogram
//! - `client`: the session as a state machine
//! - `text`, `number`: character-level helpers

pub mod client;
pub mod config;
pub mod histogram;
pub mod number;
pub mod protocol;
pub mod text;
pub mod tracker;

pub use client::HftClient;
pub use config::Config;
pub use tracker::LatencyTracker;
