//! A client library for the Mumble voice-chat protocol: TCP message framing,
//! the message-type table, client configuration, and the state that the
//! server synchronisation phase builds up.

pub mod client;
pub mod error;
pub mod messages;
pub mod proto;
pub mod roster;
pub mod version;

pub use client::{Channel, ClientConfig, ServerInfo, User, DEFAULT_PORT};
pub use error::MumbleError;
pub use proto::MessageType;
