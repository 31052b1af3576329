//! Core of a real-time text chat relay.
//!
//! Clients connect, register a display name and exchange short texts that
//! are passed on to all other clients. This crate holds what is decided along
//! the way, each function with a machine-checked contract:
//!
//! - [`message`]: the envelope and its JSON wire format;
//! - [`registration`]: the rules for display names;
//! - [`notices`]: what the relay says to a client in its own name;
//! - [`session`]: the per-connection state machine;
//! - [`relay`]: the session at work between transport frames, wire texts and
//!   the bus;
//! - [`guarantees`]: what holds of every session, proved;
//! - [`json`], [`text`], [`error`]: what the others stand on.
//!
//! Waiting on sockets and channels is left to the program that uses the
//! crate: it feeds a session one event at a time and sends what comes back.

pub mod error;
pub mod guarantees;
pub mod json;
pub mod message;
pub mod notices;
pub mod registration;
pub mod relay;
pub mod session;
pub mod text;
