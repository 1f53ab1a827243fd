# mumble_client

A client library for the Mumble voice-chat protocol, verified with Verus.

- `src/` — the verified library:
  - `proto.rs`: the message-type table, the 6-byte frame header
    (big-endian type and length), framing and header parsing, and the laws
    that reading a frame gives back what writing it produced.
  - `version.rs`: the v1/v2 version words and the recovery of their fields.
  - `roster.rs`: keyed lists (channels by id, users by session) and the laws
    of recording an entry: keys stay unique, and the list read as a map is
    the old map with the entry inserted.
  - `messages.rs`: the content of the protobuf messages as plain values.
  - `client.rs`: client configuration, the messages the client sends, and
    the step function of the server-synchronisation phase.
  - `error.rs`: the library's error type.
- `app/` — the async client: TLS/TCP connection, protobuf encoding and
  decoding of the messages, the read/write of frames on the stream, and the
  loops that drive the library's decisions.
- `tests/` — tests of the library.
