//! The logic behind three clients of a game client that runs on this machine: what they
//! send, how they read what comes back, and what their two event streams do.
//!
//! - [`model`]: the typed vocabulary of both APIs, read from JSON
//! - [`ws`]: the push stream of the control API's websocket, and its subscribe requests
//! - [`ingame`]: the telemetry endpoint's addresses and answers, and the engine that turns
//!   polling it into one ordered stream of events
//! - [`rest`]: the addresses of the control API
//! - [`utils`]: the control API's credentials
//! - [`error`]: what can go wrong
//! - [`json`] and [`text`]: reading documents, reading and writing text
//!
//! Nothing here opens a socket, sends a request or waits. The stream engines are state
//! machines: they are told what happened and answer with what to do.

pub mod error;
pub mod ingame;
pub mod json;
pub mod model;
pub mod rest;
pub mod text;
pub mod utils;
pub mod ws;
