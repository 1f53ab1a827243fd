//! Configuration, version words and outgoing messages.

use mumble_client::client::{
    client_version, make_version_v1, make_version_v2, ping_message, text_message,
    CLIENT_TYPE_BOT,
};
use mumble_client::{ClientConfig, ServerInfo, DEFAULT_PORT};

#[test]
fn test_version_v1_encoding() {
    assert_eq!(make_version_v1(1, 2, 0), 0x0001_0200);
    assert_eq!(make_version_v1(1, 5, 0), 0x0001_0500);
}

#[test]
fn test_version_v2_encoding() {
    let v = make_version_v2(1, 5, 0, 0);
    let major = (v >> 48) & 0xFFFF;
    let minor = (v >> 32) & 0xFFFF;
    let patch = (v >> 16) & 0xFFFF;
    assert_eq!(major, 1);
    assert_eq!(minor, 5);
    assert_eq!(patch, 0);
}

#[test]
fn test_client_config_builder() {
    let cfg = ClientConfig::new("localhost", "bot")
        .with_port(64738)
        .with_password("secret")
        .with_token("vip")
        .accept_invalid_certs();

    assert_eq!(cfg.host, "localhost");
    assert_eq!(cfg.port, 64738);
    assert_eq!(cfg.username, "bot");
    assert_eq!(cfg.password.as_deref(), Some("secret"));
    assert_eq!(cfg.tokens, vec!["vip"]);
    assert!(cfg.accept_invalid_certs);
}

#[test]
fn version_words_recover_their_fields() {
    let v = make_version_v1(1, 4, 287 % 256);
    assert_eq!(v >> 16, 1);
    assert_eq!((v >> 8) & 0xFF, 4);
    assert_eq!(v & 0xFF, 31);
    let w = make_version_v2(1, 4, 287, 9);
    assert_eq!(w, 0x0001_0004_011F_0009);
    assert_eq!(w & 0xFFFF, 9);
    assert_eq!(make_version_v2(0xFFFF, 0xFFFF, 0xFFFF, 0xFFFF), u64::MAX);
}

#[test]
fn version_v1_fields_overlap_when_too_wide() {
    // A minor number wider than its field spills into the major field.
    assert_eq!(make_version_v1(1, 0x1FF, 0), 0x0001_FF00 | 0x0001_0000);
    assert_eq!(make_version_v1(0x1_0001, 0, 0), 0x0001_0000);
}

#[test]
fn config_defaults() {
    let cfg = ClientConfig::new("mumble.example.com", "MyBot");
    assert_eq!(cfg.host, "mumble.example.com");
    assert_eq!(cfg.port, DEFAULT_PORT);
    assert_eq!(cfg.port, 64738);
    assert_eq!(cfg.username, "MyBot");
    assert_eq!(cfg.password, None);
    assert!(cfg.tokens.is_empty());
    assert!(!cfg.accept_invalid_certs);
}

#[test]
fn tokens_accumulate_in_order() {
    let cfg = ClientConfig::new("h", "u")
        .with_token("vip-channel-password")
        .with_token("admin-channel-password")
        .with_port(64739);
    assert_eq!(cfg.tokens, vec!["vip-channel-password", "admin-channel-password"]);
    assert_eq!(cfg.port, 64739);
    assert_eq!(cfg.host, "h");
}

#[test]
fn authenticate_message_carries_the_credentials() {
    let cfg = ClientConfig::new("h", "RegisteredUser")
        .with_password("mypassword")
        .with_token("t1")
        .with_token("t2");
    let a = cfg.authenticate_message();
    assert_eq!(a.username.as_deref(), Some("RegisteredUser"));
    assert_eq!(a.password.as_deref(), Some("mypassword"));
    assert_eq!(a.tokens, vec!["t1", "t2"]);
    assert_eq!(a.opus, Some(true));
    assert_eq!(a.client_type, Some(CLIENT_TYPE_BOT));
    assert_eq!(a.client_type, Some(1));
    let anonymous = ClientConfig::new("h", "bot").authenticate_message();
    assert_eq!(anonymous.password, None);
    assert!(anonymous.tokens.is_empty());
}

#[test]
fn client_version_announces_1_5_0() {
    let v = client_version("linux");
    assert_eq!(v.version_v1, Some(0x0001_0500));
    assert_eq!(v.version_v2, Some(0x0001_0005_0000_0000));
    assert_eq!(v.release.as_deref(), Some("mumble-rust-client/0.1.0"));
    assert_eq!(v.os.as_deref(), Some("linux"));
    assert_eq!(v.os_version.as_deref(), Some("unknown"));
}

#[test]
fn outgoing_messages() {
    assert_eq!(ping_message(99).timestamp, Some(99));
    let t = text_message(vec![0, 3], "Hello, world!");
    assert_eq!(t.channel_id, vec![0, 3]);
    assert_eq!(t.message, "Hello, world!");
    let mut info = ServerInfo::default();
    info.session = 42;
    let m = info.move_request(1);
    assert_eq!(m.session, Some(42));
    assert_eq!(m.channel_id, Some(1));
    assert!(m.name.is_none() && m.mute.is_none() && m.deaf.is_none());
}

#[test]
fn server_info_default_is_empty() {
    let info = ServerInfo::default();
    assert_eq!(info.session, 0);
    assert_eq!(info.max_bandwidth, 0);
    assert_eq!(info.welcome_text, "");
}
