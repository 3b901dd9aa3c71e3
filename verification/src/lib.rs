//! Session lifecycle and key-space management for sessions kept in Redis.
//!
//! The crate decides *what* is sent to the backend and *what* an answer
//! means; sending is left to the caller. Every lifecycle operation is a pair
//! of steps: one that builds the [`Command`] to send, and one that turns the
//! backend's answer into the operation's result.

pub mod backend;
pub mod error;
pub mod laws;
pub mod namespace;
pub mod outside;
pub mod store;

pub use backend::{Command, CommandView, CountReply};
pub use error::Error;
pub use store::RedisSessionStore;
