//! The content of the protobuf messages that the client sends and the ones
//! whose content the synchronisation phase reads, as plain values. Encoding
//! them to and decoding them from protobuf bytes happens outside this
//! library; the framing of those bytes is in [`crate::proto`].

use vstd::prelude::*;

use crate::proto::MessageType;

verus! {

/// The client's `Version` message.
#[derive(Debug)]
pub struct Version {
    pub version_v1: Option<u32>,
    pub version_v2: Option<u64>,
    pub release: Option<String>,
    pub os: Option<String>,
    pub os_version: Option<String>,
}

/// The client's `Authenticate` message.
#[derive(Debug)]
pub struct Authenticate {
    pub username: Option<String>,
    pub password: Option<String>,
    pub tokens: Vec<String>,
    pub opus: Option<bool>,
    pub client_type: Option<i32>,
}

/// A `Ping` message.
#[derive(Debug)]
pub struct Ping {
    pub timestamp: Option<u64>,
}

/// A `TextMessage` addressed to channels.
#[derive(Debug)]
pub struct TextMessage {
    pub channel_id: Vec<u32>,
    pub message: String,
}

/// The fields of a `UserState` message that this library reads or sets.
#[derive(Debug)]
pub struct UserState {
    pub session: Option<u32>,
    pub name: Option<String>,
    pub channel_id: Option<u32>,
    pub mute: Option<bool>,
    pub deaf: Option<bool>,
}

/// The fields of a `ChannelState` message that this library reads.
#[derive(Debug)]
pub struct ChannelState {
    pub channel_id: Option<u32>,
    pub parent: Option<u32>,
    pub name: Option<String>,
    pub description: Option<String>,
    pub temporary: Option<bool>,
    pub position: Option<i32>,
}

/// The fields of a `ServerSync` message that this library reads.
#[derive(Debug)]
pub struct ServerSync {
    pub session: Option<u32>,
    pub max_bandwidth: Option<u32>,
    pub welcome_text: Option<String>,
}

/// The fields of a `Reject` message that this library reads.
#[derive(Debug)]
pub struct Reject {
    pub reason: Option<String>,
}

/// The UDP encryption parameters of a `CryptSetup` message: the key and the
/// client and server nonces.
#[derive(Debug)]
pub struct CryptSetup {
    pub key: Option<Vec<u8>>,
    pub client_nonce: Option<Vec<u8>>,
    pub server_nonce: Option<Vec<u8>>,
}

/// A message received during the synchronisation phase, with the content
/// that the phase acts on.
#[derive(Debug)]
pub enum SyncMessage {
    ChannelState(ChannelState),
    UserState(UserState),
    ServerSync(ServerSync),
    Reject(Reject),
    CryptSetup(CryptSetup),
    /// A message of another type: it changes nothing that the phase records.
    Other(MessageType),
}

/// The text an optional string field holds, or the empty text when it is absent.
pub open spec fn text_or_empty(o: Option<String>) -> Seq<char> {
    match o {
        Some(s) => s@,
        None => Seq::empty(),
    }
}

/// The value an optional field holds, or `default` when it is absent.
pub open spec fn value_or<T>(o: Option<T>, default: T) -> T {
    match o {
        Some(v) => v,
        None => default,
    }
}

/// The text of an optional string field, or an empty string when it is absent.
pub fn string_or_empty(o: Option<String>) -> (s: String)
    ensures
        s@ == text_or_empty(o),
{
    match o {
        Some(s) => s,
        None => String::new(),
    }
}

} // verus!
