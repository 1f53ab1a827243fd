//! Errors reported by the library.

use vstd::prelude::*;

verus! {

/// `std::io::Error`, carried through unchanged inside [`MumbleError::Io`].
#[verifier::external_type_specification]
#[verifier::external_body]
pub struct ExIoError(std::io::Error);

/// `rustls::Error`, carried through unchanged inside [`MumbleError::Tls`].
#[verifier::external_type_specification]
#[verifier::external_body]
pub struct ExTlsError(rustls::Error);

/// `prost::DecodeError`, carried through unchanged inside [`MumbleError::ProtobufDecode`].
#[verifier::external_type_specification]
#[verifier::external_body]
pub struct ExDecodeError(prost::DecodeError);

/// `prost::EncodeError`, carried through unchanged inside [`MumbleError::ProtobufEncode`].
#[verifier::external_type_specification]
#[verifier::external_body]
pub struct ExEncodeError(prost::EncodeError);

/// Errors that can occur when using the Mumble client library.
#[derive(Debug)]
pub enum MumbleError {
    /// An I/O error occurred on the underlying TCP or TLS stream.
    Io(std::io::Error),
    /// A TLS handshake or certificate error.
    Tls(rustls::Error),
    /// A protocol buffer decode error.
    ProtobufDecode(prost::DecodeError),
    /// A protocol buffer encode error.
    ProtobufEncode(prost::EncodeError),
    /// An unknown or unexpected message type was received.
    UnknownMessageType(u16),
    /// The server rejected the connection.
    Rejected(String),
    /// The connection was closed before the operation completed.
    ConnectionClosed,
    /// An invalid server address or DNS name was supplied.
    InvalidAddress(String),
    /// The server sync was not received before a timeout or disconnection.
    SyncTimeout,
}

} // verus!
