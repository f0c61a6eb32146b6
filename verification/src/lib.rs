//! Verified core of a desktop supervisor for a single local backend process
//! ("the engine") and a stateless proxy gateway that forwards structured
//! requests to the engine's loopback HTTP API.
//!
//! The library holds the logic worth proving: the engine handle's
//! single-slot state machine, the gateway's request shaping (endpoints,
//! JSON bodies, timeouts) and its error classification, and the text
//! building for configuration and project scaffolding. All actual I/O
//! (process spawn, HTTP, filesystem) lives outside the library and hands
//! plain values in and out.

pub mod config;
pub mod errors;
pub mod gateway;
pub mod handle;
pub mod text;
