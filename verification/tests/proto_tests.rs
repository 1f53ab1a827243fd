//! Framing and message-type tests.

use mumble_client::proto::{
    encode_header, parse_header, read_error, read_error_from, Frame, HEADER_SIZE,
};
use mumble_client::{MessageType, MumbleError};
use prost::bytes::{Buf, BufMut};
use prost::encoding::{DecodeContext, WireType};
use prost::Message;

/// A `Ping` message with the two fields these tests set, encoded the way
/// the Mumble protocol numbers them (timestamp = 1, tcp_packets = 7).
#[derive(Debug, Default, Clone, PartialEq)]
struct Ping {
    timestamp: Option<u64>,
    tcp_packets: Option<u32>,
}

impl Message for Ping {
    fn encode_raw(&self, buf: &mut impl BufMut) {
        if let Some(v) = self.timestamp {
            prost::encoding::uint64::encode(1, &v, buf);
        }
        if let Some(v) = self.tcp_packets {
            prost::encoding::uint32::encode(7, &v, buf);
        }
    }

    fn merge_field(
        &mut self,
        tag: u32,
        wire_type: WireType,
        buf: &mut impl Buf,
        ctx: DecodeContext,
    ) -> Result<(), prost::DecodeError> {
        match tag {
            1 => prost::encoding::uint64::merge(
                wire_type,
                self.timestamp.get_or_insert(0),
                buf,
                ctx,
            ),
            7 => prost::encoding::uint32::merge(
                wire_type,
                self.tcp_packets.get_or_insert(0),
                buf,
                ctx,
            ),
            _ => prost::encoding::skip_field(wire_type, tag, buf, ctx),
        }
    }

    fn encoded_len(&self) -> usize {
        self.timestamp.map_or(0, |v| prost::encoding::uint64::encoded_len(1, &v))
            + self.tcp_packets.map_or(0, |v| prost::encoding::uint32::encoded_len(7, &v))
    }

    fn clear(&mut self) {
        *self = Ping::default();
    }
}

fn decode_ping(frame: &Frame) -> Ping {
    Ping::decode(&frame.payload[..]).unwrap()
}

#[test]
fn test_message_type_roundtrip() {
    for t in 0u16..=25 {
        let mt = MessageType::try_from(t).expect("valid type");
        assert_eq!(mt as u16, t);
    }
}

#[test]
fn test_unknown_message_type() {
    assert!(MessageType::try_from(255).is_err());
}

#[test]
fn test_frame_encode_decode_ping() {
    let ping = Ping {
        timestamp: Some(12345),
        ..Default::default()
    };
    let encoded = Frame::encode(MessageType::Ping, &ping.encode_to_vec());
    // Header: type=3, length
    assert_eq!(u16::from_be_bytes([encoded[0], encoded[1]]), 3);
    let len = u32::from_be_bytes([encoded[2], encoded[3], encoded[4], encoded[5]]) as usize;
    assert_eq!(len, ping.encoded_len());

    // Decode back
    let payload = encoded[HEADER_SIZE..].to_vec();
    let frame = Frame {
        message_type: MessageType::Ping,
        payload,
    };
    let decoded = decode_ping(&frame);
    assert_eq!(decoded.timestamp, Some(12345));
}

#[test]
fn test_proto_framing_correctness() {
    let ping = Ping {
        timestamp: Some(0xDEAD_BEEF),
        tcp_packets: Some(5),
    };
    let encoded = Frame::encode(MessageType::Ping, &ping.encode_to_vec());

    // Validate header bytes.
    let msg_type = u16::from_be_bytes([encoded[0], encoded[1]]);
    let payload_len = u32::from_be_bytes([encoded[2], encoded[3], encoded[4], encoded[5]]);
    assert_eq!(msg_type, MessageType::Ping as u16);
    assert_eq!(payload_len as usize, ping.encoded_len());

    // Decode the payload.
    let payload = encoded[6..].to_vec();
    let frame = Frame {
        message_type: MessageType::Ping,
        payload,
    };
    let decoded = decode_ping(&frame);
    assert_eq!(decoded.timestamp, Some(0xDEAD_BEEF));
    assert_eq!(decoded.tcp_packets, Some(5));
}

#[test]
fn message_type_codes_follow_the_protocol_table() {
    assert_eq!(MessageType::Version.code(), 0);
    assert_eq!(MessageType::Ping.code(), 3);
    assert_eq!(MessageType::ServerSync.code(), 5);
    assert_eq!(MessageType::TextMessage.code(), 11);
    assert_eq!(MessageType::SuggestConfig.code(), 25);
    for t in 0u16..=25 {
        assert_eq!(MessageType::try_from(t).unwrap().code(), t);
    }
}

#[test]
fn unknown_message_type_carries_the_code() {
    match MessageType::try_from(26) {
        Err(MumbleError::UnknownMessageType(26)) => {}
        other => panic!("unexpected {:?}", other),
    }
    match MessageType::try_from(u16::MAX) {
        Err(MumbleError::UnknownMessageType(c)) => assert_eq!(c, u16::MAX),
        other => panic!("unexpected {:?}", other),
    }
}

#[test]
fn header_bytes_are_big_endian() {
    assert_eq!(
        encode_header(MessageType::TextMessage, 0x0102_0304),
        vec![0x00, 0x0B, 0x01, 0x02, 0x03, 0x04]
    );
    assert_eq!(
        encode_header(MessageType::SuggestConfig, u32::MAX),
        vec![0x00, 0x19, 0xFF, 0xFF, 0xFF, 0xFF]
    );
}

#[test]
fn frame_is_header_then_payload() {
    let frame = Frame::encode(MessageType::UserState, &[9, 8, 7]);
    assert_eq!(frame, vec![0x00, 0x09, 0, 0, 0, 3, 9, 8, 7]);
    let empty = Frame::encode(MessageType::Version, &[]);
    assert_eq!(empty, vec![0, 0, 0, 0, 0, 0]);
}

#[test]
fn read_after_write_gives_back_type_and_payload() {
    let payload: Vec<u8> = (0..300u32).map(|i| (i % 251) as u8).collect();
    let frame = Frame::encode(MessageType::ChannelState, &payload);
    let (t, len) = parse_header(&frame).unwrap();
    assert_eq!(t, MessageType::ChannelState);
    assert_eq!(len, 300);
    assert_eq!(&frame[HEADER_SIZE..HEADER_SIZE + len], &payload[..]);
}

#[test]
fn parse_header_reads_type_and_length() {
    let (t, len) = parse_header(&[0x00, 0x07, 0x00, 0x01, 0x00, 0x02]).unwrap();
    assert_eq!(t, MessageType::ChannelState);
    assert_eq!(len, 0x0001_0002);
    // Bytes after the header are not looked at.
    let (t, len) = parse_header(&[0x00, 0x03, 0, 0, 0, 1, 0xAA]).unwrap();
    assert_eq!(t, MessageType::Ping);
    assert_eq!(len, 1);
}

#[test]
fn short_header_means_connection_closed() {
    assert!(matches!(parse_header(&[]), Err(MumbleError::ConnectionClosed)));
    assert!(matches!(
        parse_header(&[0, 3, 0, 0, 0]),
        Err(MumbleError::ConnectionClosed)
    ));
}

#[test]
fn header_with_unknown_type_is_refused() {
    assert!(matches!(
        parse_header(&[0x01, 0x00, 0, 0, 0, 0]),
        Err(MumbleError::UnknownMessageType(256))
    ));
}

#[test]
fn read_errors_map_early_end_to_connection_closed() {
    let e = std::io::Error::new(std::io::ErrorKind::UnexpectedEof, "eof");
    assert!(matches!(read_error_from(e, true), MumbleError::ConnectionClosed));
    let e = std::io::Error::new(std::io::ErrorKind::Other, "boom");
    match read_error_from(e, false) {
        MumbleError::Io(e) => assert_eq!(e.kind(), std::io::ErrorKind::Other),
        other => panic!("unexpected {:?}", other),
    }
}

#[test]
fn read_error_looks_at_the_error_kind() {
    let eof = std::io::Error::new(std::io::ErrorKind::UnexpectedEof, "eof");
    assert!(matches!(read_error(eof), MumbleError::ConnectionClosed));
    let broken = std::io::Error::new(std::io::ErrorKind::BrokenPipe, "pipe");
    match read_error(broken) {
        MumbleError::Io(e) => assert_eq!(e.kind(), std::io::ErrorKind::BrokenPipe),
        other => panic!("unexpected {:?}", other),
    }
}
