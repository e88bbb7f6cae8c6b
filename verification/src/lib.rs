//! Core logic of a local redirection proxy for a networked game client.
//!
//! The crate models the discovery-protocol frame codec, the tagged-field
//! body format, the redirector responder state machine, the reverse-proxy
//! and tunnel request builders, and the session supervisor that owns one
//! session's listeners at a time. All socket, timer and UI work lives in
//! the surrounding binary; this library holds the decisions and formats.

pub mod bytes;
pub mod config;
pub mod constants;
pub mod fields;
pub mod host_lookup;
pub mod http;
pub mod notification;
pub mod overlay;
pub mod packet;
pub mod pattern;
pub mod proxy;
pub mod redirector;
pub mod supervisor;
pub mod target;
pub mod tunnel;
pub mod ui;
