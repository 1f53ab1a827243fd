//! TCP message framing for the Mumble protocol.
//!
//! Each Mumble message on the TCP channel is prefixed with a 6-byte header:
//!   - 2 bytes: message type (big-endian u16)
//!   - 4 bytes: payload length in bytes (big-endian u32)
//!
//! Followed immediately by the payload bytes (a Protocol Buffers encoded message).

use vstd::prelude::*;

use crate::error::MumbleError;

verus! {

/// The size of the framing header (type u16 + length u32).
pub const HEADER_SIZE: usize = 6;

/// The largest message-type code that the protocol defines.
pub const MAX_MESSAGE_TYPE: u16 = 25;

/// Mumble TCP message type identifiers as defined in the protocol, in the
/// order of their codes (the first variant has code 0).
#[derive(Debug, Clone, Copy, PartialEq, Eq, Structural)]
pub enum MessageType {
    Version,
    UdpTunnel,
    Authenticate,
    Ping,
    Reject,
    ServerSync,
    ChannelRemove,
    ChannelState,
    UserRemove,
    UserState,
    BanList,
    TextMessage,
    PermissionDenied,
    Acl,
    QueryUsers,
    CryptSetup,
    ContextActionModify,
    ContextAction,
    UserList,
    VoiceTarget,
    PermissionQuery,
    CodecVersion,
    UserStats,
    RequestBlob,
    ServerConfig,
    SuggestConfig,
}

/// The wire code of a message type.
pub open spec fn type_code(t: MessageType) -> u16 {
    match t {
        MessageType::Version => 0,
        MessageType::UdpTunnel => 1,
        MessageType::Authenticate => 2,
        MessageType::Ping => 3,
        MessageType::Reject => 4,
        MessageType::ServerSync => 5,
        MessageType::ChannelRemove => 6,
        MessageType::ChannelState => 7,
        MessageType::UserRemove => 8,
        MessageType::UserState => 9,
        MessageType::BanList => 10,
        MessageType::TextMessage => 11,
        MessageType::PermissionDenied => 12,
        MessageType::Acl => 13,
        MessageType::QueryUsers => 14,
        MessageType::CryptSetup => 15,
        MessageType::ContextActionModify => 16,
        MessageType::ContextAction => 17,
        MessageType::UserList => 18,
        MessageType::VoiceTarget => 19,
        MessageType::PermissionQuery => 20,
        MessageType::CodecVersion => 21,
        MessageType::UserStats => 22,
        MessageType::RequestBlob => 23,
        MessageType::ServerConfig => 24,
        MessageType::SuggestConfig => 25,
    }
}

/// The message type that a wire code names, if any.
pub open spec fn message_type_of(code: u16) -> Option<MessageType> {
    match code {
        0 => Some(MessageType::Version),
        1 => Some(MessageType::UdpTunnel),
        2 => Some(MessageType::Authenticate),
        3 => Some(MessageType::Ping),
        4 => Some(MessageType::Reject),
        5 => Some(MessageType::ServerSync),
        6 => Some(MessageType::ChannelRemove),
        7 => Some(MessageType::ChannelState),
        8 => Some(MessageType::UserRemove),
        9 => Some(MessageType::UserState),
        10 => Some(MessageType::BanList),
        11 => Some(MessageType::TextMessage),
        12 => Some(MessageType::PermissionDenied),
        13 => Some(MessageType::Acl),
        14 => Some(MessageType::QueryUsers),
        15 => Some(MessageType::CryptSetup),
        16 => Some(MessageType::ContextActionModify),
        17 => Some(MessageType::ContextAction),
        18 => Some(MessageType::UserList),
        19 => Some(MessageType::VoiceTarget),
        20 => Some(MessageType::PermissionQuery),
        21 => Some(MessageType::CodecVersion),
        22 => Some(MessageType::UserStats),
        23 => Some(MessageType::RequestBlob),
        24 => Some(MessageType::ServerConfig),
        25 => Some(MessageType::SuggestConfig),
        _ => None,
    }
}

impl MessageType {
    /// The wire code of this message type.
    pub fn code(self) -> (c: u16)
        ensures
            c == type_code(self),
            c <= MAX_MESSAGE_TYPE,
    {
        match self {
            MessageType::Version => 0,
            MessageType::UdpTunnel => 1,
            MessageType::Authenticate => 2,
            MessageType::Ping => 3,
            MessageType::Reject => 4,
            MessageType::ServerSync => 5,
            MessageType::ChannelRemove => 6,
            MessageType::ChannelState => 7,
            MessageType::UserRemove => 8,
            MessageType::UserState => 9,
            MessageType::BanList => 10,
            MessageType::TextMessage => 11,
            MessageType::PermissionDenied => 12,
            MessageType::Acl => 13,
            MessageType::QueryUsers => 14,
            MessageType::CryptSetup => 15,
            MessageType::ContextActionModify => 16,
            MessageType::ContextAction => 17,
            MessageType::UserList => 18,
            MessageType::VoiceTarget => 19,
            MessageType::PermissionQuery => 20,
            MessageType::CodecVersion => 21,
            MessageType::UserStats => 22,
            MessageType::RequestBlob => 23,
            MessageType::ServerConfig => 24,
            MessageType::SuggestConfig => 25,
        }
    }
}

/// What decoding a wire code gives: the message type it names, or
/// `UnknownMessageType` carrying the code.
pub open spec fn decode_message_type(code: u16) -> Result<MessageType, MumbleError> {
    match message_type_of(code) {
        Some(t) => Ok(t),
        None => Err(MumbleError::UnknownMessageType(code)),
    }
}

impl TryFrom<u16> for MessageType {
    type Error = MumbleError;

    /// Look up the message type with the given wire code.
    fn try_from(value: u16) -> (r: Result<MessageType, MumbleError>)
        ensures
            r == decode_message_type(value),
    {
        match value {
            0 => Ok(MessageType::Version),
            1 => Ok(MessageType::UdpTunnel),
            2 => Ok(MessageType::Authenticate),
            3 => Ok(MessageType::Ping),
            4 => Ok(MessageType::Reject),
            5 => Ok(MessageType::ServerSync),
            6 => Ok(MessageType::ChannelRemove),
            7 => Ok(MessageType::ChannelState),
            8 => Ok(MessageType::UserRemove),
            9 => Ok(MessageType::UserState),
            10 => Ok(MessageType::BanList),
            11 => Ok(MessageType::TextMessage),
            12 => Ok(MessageType::PermissionDenied),
            13 => Ok(MessageType::Acl),
            14 => Ok(MessageType::QueryUsers),
            15 => Ok(MessageType::CryptSetup),
            16 => Ok(MessageType::ContextActionModify),
            17 => Ok(MessageType::ContextAction),
            18 => Ok(MessageType::UserList),
            19 => Ok(MessageType::VoiceTarget),
            20 => Ok(MessageType::PermissionQuery),
            21 => Ok(MessageType::CodecVersion),
            22 => Ok(MessageType::UserStats),
            23 => Ok(MessageType::RequestBlob),
            24 => Ok(MessageType::ServerConfig),
            25 => Ok(MessageType::SuggestConfig),
            t => Err(MumbleError::UnknownMessageType(t)),
        }
    }
}

impl vstd::std_specs::convert::TryFromSpecImpl<u16> for MessageType {
    open spec fn obeys_try_from_spec() -> bool {
        true
    }

    open spec fn try_from_spec(v: u16) -> Result<MessageType, MumbleError> {
        decode_message_type(v)
    }
}

/// The two bytes of `v`, most significant first.
pub open spec fn be16(v: u16) -> Seq<u8> {
    seq![(v / 0x100) as u8, (v % 0x100) as u8]
}

/// The four bytes of `v`, most significant first.
pub open spec fn be32(v: u32) -> Seq<u8> {
    seq![
        (v / 0x100_0000) as u8,
        (v / 0x1_0000 % 0x100) as u8,
        (v / 0x100 % 0x100) as u8,
        (v % 0x100) as u8,
    ]
}

/// The length that the header carries for a payload of `n` bytes: the
/// header field is 32 bits wide, so only the low 32 bits of `n` are kept.
pub open spec fn wire_length(n: nat) -> u32 {
    (n % 0x1_0000_0000) as u32
}

/// The 6-byte header announcing a message of type `t` with `len` payload bytes.
pub open spec fn header_bytes(t: MessageType, len: u32) -> Seq<u8> {
    be16(type_code(t)) + be32(len)
}

/// The complete frame carrying `payload` as a message of type `t`.
pub open spec fn frame_bytes(t: MessageType, payload: Seq<u8>) -> Seq<u8> {
    header_bytes(t, wire_length(payload.len())) + payload
}

/// The type code that a header announces (its first two bytes, big-endian).
pub open spec fn header_code(h: Seq<u8>) -> u16 {
    (h[0] * 0x100 + h[1]) as u16
}

/// The payload length that a header announces (bytes 2..6, big-endian).
pub open spec fn header_length(h: Seq<u8>) -> u32 {
    (h[2] * 0x100_0000 + h[3] * 0x1_0000 + h[4] * 0x100 + h[5]) as u32
}

/// What reading a header out of the bytes `h` gives: the connection counts as
/// closed when fewer than six bytes are there; otherwise the announced type
/// (or `UnknownMessageType`) and the announced payload length.
pub open spec fn parse_header_spec(h: Seq<u8>) -> Result<(MessageType, usize), MumbleError> {
    if h.len() < HEADER_SIZE {
        Err(MumbleError::ConnectionClosed)
    } else {
        match decode_message_type(header_code(h)) {
            Ok(t) => Ok((t, header_length(h) as usize)),
            Err(e) => Err(e),
        }
    }
}

/// Build the 6-byte header for a message of type `msg_type` with a payload
/// of `len` bytes.
pub fn encode_header(msg_type: MessageType, len: u32) -> (r: Vec<u8>)
    ensures
        r@ == header_bytes(msg_type, len),
{
    let code = msg_type.code();
    let mut r: Vec<u8> = Vec::with_capacity(HEADER_SIZE);
    r.push((code / 0x100) as u8);
    r.push((code % 0x100) as u8);
    r.push((len / 0x100_0000) as u8);
    r.push((len / 0x1_0000 % 0x100) as u8);
    r.push((len / 0x100 % 0x100) as u8);
    r.push((len % 0x100) as u8);
    assert(r@ =~= header_bytes(msg_type, len));
    r
}

/// Read the message type and payload length out of a frame header.
///
/// `header` holds the bytes that could be read; fewer than six of them mean
/// that the stream ended inside the header.
pub fn parse_header(header: &[u8]) -> (r: Result<(MessageType, usize), MumbleError>)
    ensures
        r == parse_header_spec(header@),
{
    if header.len() < HEADER_SIZE {
        return Err(MumbleError::ConnectionClosed);
    }
    let code: u16 = (header[0] as u16) * 0x100 + (header[1] as u16);
    let len: u32 = (header[2] as u32) * 0x100_0000 + (header[3] as u32) * 0x1_0000
        + (header[4] as u32) * 0x100 + (header[5] as u32);
    match MessageType::try_from(code) {
        Ok(t) => Ok((t, len as usize)),
        Err(e) => Err(e),
    }
}

/// A raw Mumble TCP frame (type + payload bytes).
#[derive(Debug, Clone)]
pub struct Frame {
    pub message_type: MessageType,
    pub payload: Vec<u8>,
}

impl Frame {
    /// Frame an encoded protobuf message: the header announcing its type and
    /// length, followed by the payload bytes, ready to send.
    pub fn encode(msg_type: MessageType, payload: &[u8]) -> (r: Vec<u8>)
        ensures
            r@ == frame_bytes(msg_type, payload@),
    {
        let len: u32 = (payload.len() as u64 % 0x1_0000_0000u64) as u32;
        let mut r = encode_header(msg_type, len);
        r.extend_from_slice(payload);
        assert(r@ =~= frame_bytes(msg_type, payload@));
        r
    }
}

/// Reading back what was written: on a stream that holds a frame followed
/// by any further bytes, the header at the front names the frame's type and
/// payload length, the bytes after the header are the payload, and the
/// stream continues with the further bytes; this holds for every payload
/// whose length fits the 32-bit length field.
pub proof fn lemma_read_after_write(t: MessageType, payload: Seq<u8>, rest: Seq<u8>)
    requires
        payload.len() <= u32::MAX,
    ensures
        parse_header_spec(frame_bytes(t, payload) + rest) == Ok::<(MessageType, usize), MumbleError>(
            (t, payload.len() as usize),
        ),
        (frame_bytes(t, payload) + rest).subrange(
            HEADER_SIZE as int,
            HEADER_SIZE + payload.len(),
        ) == payload,
        (frame_bytes(t, payload) + rest).skip(HEADER_SIZE + payload.len()) == rest,
{
    let f = frame_bytes(t, payload) + rest;
    assert(f.subrange(HEADER_SIZE as int, HEADER_SIZE + payload.len()) =~= payload);
    assert(f.skip(HEADER_SIZE + payload.len()) =~= rest);
    assert(decode_message_type(header_code(f)) == Ok::<MessageType, MumbleError>(t));
}

/// Every message type survives the trip through its wire code, and every
/// code that decodes names the type whose code it is.
pub proof fn lemma_message_type_roundtrip(t: MessageType, code: u16)
    ensures
        decode_message_type(type_code(t)) == Ok::<MessageType, MumbleError>(t),
        decode_message_type(code) is Ok <==> code <= MAX_MESSAGE_TYPE,
        decode_message_type(code) matches Ok(u) ==> type_code(u) == code,
{
}

/// A header that reads successfully is exactly the header that encoding its
/// type and length produces: encoding and reading headers are inverse.
pub proof fn lemma_header_canonical(h: Seq<u8>)
    requires
        parse_header_spec(h) is Ok,
    ensures
        header_bytes(parse_header_spec(h)->Ok_0.0, parse_header_spec(h)->Ok_0.1 as u32)
            == h.take(HEADER_SIZE as int),
{
    assert(header_bytes(parse_header_spec(h)->Ok_0.0, parse_header_spec(h)->Ok_0.1 as u32)
        =~= h.take(HEADER_SIZE as int));
}

/// Whether an I/O error reports that the stream ended before the expected
/// bytes were read: its kind is `std::io::ErrorKind::UnexpectedEof`.
pub uninterp spec fn io_error_is_eof(e: std::io::Error) -> bool;

/// Calls `std::io::Error::kind` and tells whether it is `UnexpectedEof`. The
/// contract claims only that the answer is a function of the error value,
/// named [`io_error_is_eof`].
#[verifier::external_body]
fn is_unexpected_eof(e: &std::io::Error) -> (r: bool)
    ensures
        r == io_error_is_eof(*e),
{
    matches!(e.kind(), std::io::ErrorKind::UnexpectedEof)
}

/// The library error for a failed read of frame bytes, given whether the
/// stream ended before the bytes were complete: an early end means that the
/// connection was closed; any other failure is reported as it is.
pub fn read_error_from(e: std::io::Error, ended_early: bool) -> (r: MumbleError)
    ensures
        ended_early ==> r is ConnectionClosed,
        !ended_early ==> r == MumbleError::Io(e),
{
    if ended_early {
        MumbleError::ConnectionClosed
    } else {
        MumbleError::Io(e)
    }
}

/// The library error for a failed read of frame bytes: `ConnectionClosed`
/// when the stream ended early, otherwise the I/O error itself.
pub fn read_error(e: std::io::Error) -> (r: MumbleError)
    ensures
        io_error_is_eof(e) ==> r is ConnectionClosed,
        !io_error_is_eof(e) ==> r == MumbleError::Io(e),
{
    let ended_early = is_unexpected_eof(&e);
    read_error_from(e, ended_early)
}

} // verus!
