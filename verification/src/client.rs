//! Client configuration, the records that server synchronisation produces,
//! and the decisions of the client: which messages it sends and how each
//! message received during synchronisation changes what it knows.

use vstd::prelude::*;

use crate::error::MumbleError;
use crate::proto::MessageType;
use crate::messages::{
    string_or_empty, text_or_empty, value_or, Authenticate, ChannelState, CryptSetup, Ping, Reject,
    ServerSync,
    SyncMessage, TextMessage, UserState, Version,
};
use crate::roster::{
    key_map, keys_unique, lemma_upsert_keeps_keys_unique, lemma_upsert_key_map, upsert, upserted,
    Keyed,
};
pub use crate::version::{make_version_v1, make_version_v2};
use crate::version::{version_v1_word, version_v2_word};

verus! {

/// The default Mumble server TCP port.
pub const DEFAULT_PORT: u16 = 64738;

/// Keepalive ping interval in seconds (Mumble servers disconnect after 30 s
/// without a ping).
pub const PING_INTERVAL_SECS: u64 = 15;

/// The client type that `Authenticate` announces: a bot.
pub const CLIENT_TYPE_BOT: i32 = 1;

/// Configuration for connecting to a Mumble server.
#[derive(Debug, Clone)]
pub struct ClientConfig {
    /// Server hostname or IP address.
    pub host: String,
    /// Server TCP port (default: [`DEFAULT_PORT`]).
    pub port: u16,
    /// Username to authenticate with.
    pub username: String,
    /// Optional server or user password.
    pub password: Option<String>,
    /// Optional access tokens (ACL group passwords).
    pub tokens: Vec<String>,
    /// Accept self-signed / untrusted server certificates.
    pub accept_invalid_certs: bool,
}

impl ClientConfig {
    /// Create a minimal config with only the required fields.
    pub fn new(host: &str, username: &str) -> (c: Self)
        ensures
            c.host@ == host@,
            c.port == DEFAULT_PORT,
            c.username@ == username@,
            c.password is None,
            c.tokens@.len() == 0,
            !c.accept_invalid_certs,
    {
        ClientConfig {
            host: host.to_owned(),
            port: DEFAULT_PORT,
            username: username.to_owned(),
            password: None,
            tokens: Vec::new(),
            accept_invalid_certs: false,
        }
    }

    /// Set the port.
    pub fn with_port(self, port: u16) -> (c: Self)
        ensures
            c == (ClientConfig { port, ..self }),
    {
        let mut c = self;
        c.port = port;
        c
    }

    /// Set the password.
    pub fn with_password(self, password: &str) -> (c: Self)
        ensures
            c.password matches Some(p) && p@ == password@,
            c.host == self.host,
            c.port == self.port,
            c.username == self.username,
            c.tokens == self.tokens,
            c.accept_invalid_certs == self.accept_invalid_certs,
    {
        let mut c = self;
        c.password = Some(password.to_owned());
        c
    }

    /// Add an access token.
    pub fn with_token(self, token: &str) -> (c: Self)
        ensures
            c.tokens@.len() == self.tokens@.len() + 1,
            c.tokens@.drop_last() == self.tokens@,
            c.tokens@.last()@ == token@,
            c.host == self.host,
            c.port == self.port,
            c.username == self.username,
            c.password == self.password,
            c.accept_invalid_certs == self.accept_invalid_certs,
    {
        let mut c = self;
        c.tokens.push(token.to_owned());
        assert(c.tokens@.drop_last() =~= self.tokens@);
        c
    }

    /// Allow self-signed certificates (useful for testing against local servers).
    pub fn accept_invalid_certs(self) -> (c: Self)
        ensures
            c == (ClientConfig { accept_invalid_certs: true, ..self }),
    {
        let mut c = self;
        c.accept_invalid_certs = true;
        c
    }
}

/// Information received from the server during the synchronisation phase.
#[derive(Debug, Clone)]
pub struct ServerInfo {
    /// The session ID assigned to this client.
    pub session: u32,
    /// Maximum allowed bandwidth in bits per second.
    pub max_bandwidth: u32,
    /// Welcome message from the server.
    pub welcome_text: String,
}

impl Default for ServerInfo {
    fn default() -> (r: Self)
        ensures
            r.session == 0,
            r.max_bandwidth == 0,
            r.welcome_text@ == Seq::<char>::empty(),
    {
        ServerInfo { session: 0, max_bandwidth: 0, welcome_text: String::new() }
    }
}

/// A channel present on the server after synchronisation.
#[derive(Debug, Clone)]
pub struct Channel {
    pub channel_id: u32,
    pub parent: u32,
    pub name: String,
    pub description: String,
    pub temporary: bool,
    pub position: i32,
}

/// A user present on the server after synchronisation.
#[derive(Debug, Clone)]
pub struct User {
    pub session: u32,
    pub name: String,
    pub channel_id: u32,
    pub muted: bool,
    pub deafened: bool,
}

impl Keyed for Channel {
    open spec fn key_of(&self) -> u32 {
        self.channel_id
    }

    fn key(&self) -> (k: u32) {
        self.channel_id
    }
}

impl Keyed for User {
    open spec fn key_of(&self) -> u32 {
        self.session
    }

    fn key(&self) -> (k: u32) {
        self.session
    }
}

/// `c` is the channel that the state message `cs` describes: every absent
/// field takes its default (0, empty text, `false`).
pub open spec fn channel_from_state(cs: ChannelState, c: Channel) -> bool {
    &&& c.channel_id == value_or(cs.channel_id, 0)
    &&& c.parent == value_or(cs.parent, 0)
    &&& c.name@ == text_or_empty(cs.name)
    &&& c.description@ == text_or_empty(cs.description)
    &&& c.temporary == value_or(cs.temporary, false)
    &&& c.position == value_or(cs.position, 0)
}

/// `u` is the user that the state message `us` describes: every absent
/// field takes its default (0, empty text, `false`).
pub open spec fn user_from_state(us: UserState, u: User) -> bool {
    &&& u.session == value_or(us.session, 0)
    &&& u.name@ == text_or_empty(us.name)
    &&& u.channel_id == value_or(us.channel_id, 0)
    &&& u.muted == value_or(us.mute, false)
    &&& u.deafened == value_or(us.deaf, false)
}

impl Channel {
    /// The channel that a `ChannelState` message describes.
    pub fn from_state(cs: ChannelState) -> (c: Channel)
        ensures
            channel_from_state(cs, c),
    {
        Channel {
            channel_id: cs.channel_id.unwrap_or(0),
            parent: cs.parent.unwrap_or(0),
            name: string_or_empty(cs.name),
            description: string_or_empty(cs.description),
            temporary: cs.temporary.unwrap_or(false),
            position: cs.position.unwrap_or(0),
        }
    }
}

impl User {
    /// The user that a `UserState` message describes.
    pub fn from_state(us: UserState) -> (u: User)
        ensures
            user_from_state(us, u),
    {
        User {
            session: us.session.unwrap_or(0),
            name: string_or_empty(us.name),
            channel_id: us.channel_id.unwrap_or(0),
            muted: us.mute.unwrap_or(false),
            deafened: us.deaf.unwrap_or(false),
        }
    }
}

/// What the synchronisation phase reads out of a frame of a given type.
#[derive(Debug, Clone, Copy, PartialEq, Eq, Structural)]
pub enum SyncPayload {
    /// Decode a `ChannelState` and record the channel.
    ChannelState,
    /// Decode a `UserState` and record the user.
    UserState,
    /// Decode a `ServerSync`: synchronisation is complete.
    ServerSync,
    /// Decode a `Reject`: the server refused the connection.
    Reject,
    /// Decode a `CryptSetup` and keep its key and nonces for UDP use.
    CryptSetup,
    /// Decode the server's `Version` to report its release.
    ServerVersion,
    /// Decode a `PermissionDenied` to report its reason.
    PermissionDenied,
    /// Nothing is read (`CodecVersion`, and every other type).
    Skip,
}

/// What the synchronisation phase reads out of a frame of type `t`.
pub open spec fn sync_payload_of(t: MessageType) -> SyncPayload {
    match t {
        MessageType::ChannelState => SyncPayload::ChannelState,
        MessageType::UserState => SyncPayload::UserState,
        MessageType::ServerSync => SyncPayload::ServerSync,
        MessageType::Reject => SyncPayload::Reject,
        MessageType::CryptSetup => SyncPayload::CryptSetup,
        MessageType::Version => SyncPayload::ServerVersion,
        MessageType::PermissionDenied => SyncPayload::PermissionDenied,
        _ => SyncPayload::Skip,
    }
}

/// Decide what to read out of a frame received during synchronisation.
pub fn sync_payload(t: MessageType) -> (p: SyncPayload)
    ensures
        p == sync_payload_of(t),
{
    match t {
        MessageType::ChannelState => SyncPayload::ChannelState,
        MessageType::UserState => SyncPayload::UserState,
        MessageType::ServerSync => SyncPayload::ServerSync,
        MessageType::Reject => SyncPayload::Reject,
        MessageType::CryptSetup => SyncPayload::CryptSetup,
        MessageType::Version => SyncPayload::ServerVersion,
        MessageType::PermissionDenied => SyncPayload::PermissionDenied,
        _ => SyncPayload::Skip,
    }
}

/// Where the synchronisation phase stands after a message.
#[derive(Debug, Clone, Copy, PartialEq, Eq, Structural)]
pub enum SyncStatus {
    /// More messages are expected before the server is synchronised.
    Pending,
    /// `ServerSync` arrived: the client is ready.
    Synced,
}

/// The reason that a `Reject` carries, or "no reason given" when it carries none.
pub open spec fn reject_reason(reason: Option<String>) -> Seq<char> {
    match reason {
        Some(s) => s@,
        None => "no reason given"@,
    }
}

/// One step of the synchronisation phase: what receiving `msg` does to the
/// server information and the channel and user lists, and what it returns.
///
/// - `ChannelState` / `UserState`: the described channel (user) is recorded
///   in its list; the phase goes on.
/// - `ServerSync`: the server information is set from it; the phase is over.
/// - `Reject`: the phase fails with `Rejected` and the server's reason.
/// - `CryptSetup`: its key and nonces are kept (the last ones received
///   replace earlier ones) for later UDP use; the phase goes on.
/// - anything else changes nothing; the phase goes on.
pub open spec fn sync_step(
    info: ServerInfo,
    channels: Seq<Channel>,
    users: Seq<User>,
    crypt: Option<CryptSetup>,
    msg: SyncMessage,
    new_info: ServerInfo,
    new_channels: Seq<Channel>,
    new_users: Seq<User>,
    new_crypt: Option<CryptSetup>,
    r: Result<SyncStatus, MumbleError>,
) -> bool {
    match msg {
        SyncMessage::ChannelState(cs) => {
            &&& r == Ok::<SyncStatus, MumbleError>(SyncStatus::Pending)
            &&& exists|c: Channel|
                channel_from_state(cs, c) && new_channels == #[trigger] upserted(channels, c)
            &&& new_users == users
            &&& new_info == info
            &&& new_crypt == crypt
        },
        SyncMessage::UserState(us) => {
            &&& r == Ok::<SyncStatus, MumbleError>(SyncStatus::Pending)
            &&& exists|u: User| user_from_state(us, u) && new_users == #[trigger] upserted(users, u)
            &&& new_channels == channels
            &&& new_info == info
            &&& new_crypt == crypt
        },
        SyncMessage::ServerSync(ss) => {
            &&& r == Ok::<SyncStatus, MumbleError>(SyncStatus::Synced)
            &&& new_info.session == value_or(ss.session, 0)
            &&& new_info.max_bandwidth == value_or(ss.max_bandwidth, 0)
            &&& new_info.welcome_text@ == text_or_empty(ss.welcome_text)
            &&& new_channels == channels
            &&& new_users == users
            &&& new_crypt == crypt
        },
        SyncMessage::Reject(rj) => {
            &&& r matches Err(MumbleError::Rejected(reason)) && reason@ == reject_reason(rj.reason)
            &&& new_info == info
            &&& new_crypt == crypt
            &&& new_channels == channels
            &&& new_users == users
        },
        SyncMessage::CryptSetup(cs) => {
            &&& r == Ok::<SyncStatus, MumbleError>(SyncStatus::Pending)
            &&& new_crypt == Some(cs)
            &&& new_info == info
            &&& new_channels == channels
            &&& new_users == users
        },
        SyncMessage::Other(_) => {
            &&& r == Ok::<SyncStatus, MumbleError>(SyncStatus::Pending)
            &&& new_info == info
            &&& new_crypt == crypt
            &&& new_channels == channels
            &&& new_users == users
        },
    }
}

/// Act on one message received during synchronisation.
pub fn apply_sync_message(
    info: &mut ServerInfo,
    channels: &mut Vec<Channel>,
    users: &mut Vec<User>,
    crypt: &mut Option<CryptSetup>,
    msg: SyncMessage,
) -> (r: Result<SyncStatus, MumbleError>)
    ensures
        sync_step(
            *old(info),
            old(channels)@,
            old(users)@,
            *old(crypt),
            msg,
            *final(info),
            final(channels)@,
            final(users)@,
            *final(crypt),
            r,
        ),
{
    match msg {
        SyncMessage::ChannelState(cs) => {
            let c = Channel::from_state(cs);
            upsert(channels, c);
            Ok(SyncStatus::Pending)
        },
        SyncMessage::UserState(us) => {
            let u = User::from_state(us);
            upsert(users, u);
            Ok(SyncStatus::Pending)
        },
        SyncMessage::ServerSync(ss) => {
            info.session = ss.session.unwrap_or(0);
            info.max_bandwidth = ss.max_bandwidth.unwrap_or(0);
            info.welcome_text = string_or_empty(ss.welcome_text);
            Ok(SyncStatus::Synced)
        },
        SyncMessage::Reject(rj) => {
            let reason = match rj.reason {
                Some(s) => s,
                None => "no reason given".to_owned(),
            };
            Err(MumbleError::Rejected(reason))
        },
        SyncMessage::CryptSetup(cs) => {
            *crypt = Some(cs);
            Ok(SyncStatus::Pending)
        },
        SyncMessage::Other(_) => Ok(SyncStatus::Pending),
    }
}

/// The lists that synchronisation builds never name a channel id or a user
/// session twice: every step keeps that true.
pub proof fn lemma_sync_step_keeps_keys_unique(
    info: ServerInfo,
    channels: Seq<Channel>,
    users: Seq<User>,
    crypt: Option<CryptSetup>,
    msg: SyncMessage,
    new_info: ServerInfo,
    new_channels: Seq<Channel>,
    new_users: Seq<User>,
    new_crypt: Option<CryptSetup>,
    r: Result<SyncStatus, MumbleError>,
)
    requires
        keys_unique(channels),
        keys_unique(users),
        sync_step(
            info,
            channels,
            users,
            crypt,
            msg,
            new_info,
            new_channels,
            new_users,
            new_crypt,
            r,
        ),
    ensures
        keys_unique(new_channels),
        keys_unique(new_users),
{
    match msg {
        SyncMessage::ChannelState(cs) => {
            let c = choose|c: Channel|
                channel_from_state(cs, c) && new_channels == #[trigger] upserted(channels, c);
            lemma_upsert_keeps_keys_unique(channels, c);
        },
        SyncMessage::UserState(us) => {
            let u = choose|u: User| user_from_state(us, u) && new_users == #[trigger] upserted(users, u);
            lemma_upsert_keeps_keys_unique(users, u);
        },
        _ => {},
    }
}

/// The `Version` message that the client opens the handshake with: protocol
/// version 1.5.0 in both encodings, this library's release name, the given
/// operating system name, and "unknown" as the OS version.
pub fn client_version(os: &str) -> (v: Version)
    ensures
        v.version_v1 == Some(version_v1_word(1, 5, 0)),
        v.version_v2 == Some(version_v2_word(1, 5, 0, 0)),
        v.release matches Some(r) && r@ == "mumble-rust-client/0.1.0"@,
        v.os matches Some(o) && o@ == os@,
        v.os_version matches Some(o) && o@ == "unknown"@,
{
    Version {
        version_v1: Some(make_version_v1(1, 5, 0)),
        version_v2: Some(make_version_v2(1, 5, 0, 0)),
        release: Some("mumble-rust-client/0.1.0".to_owned()),
        os: Some(os.to_owned()),
        os_version: Some("unknown".to_owned()),
    }
}

impl ClientConfig {
    /// The `Authenticate` message for this configuration: its username,
    /// password and tokens, Opus support, and the bot client type.
    pub fn authenticate_message(&self) -> (a: Authenticate)
        ensures
            a.username == Some(self.username),
            a.password == self.password,
            a.tokens@ == self.tokens@,
            a.opus == Some(true),
            a.client_type == Some(CLIENT_TYPE_BOT),
    {
        Authenticate {
            username: Some(self.username.clone()),
            password: self.password.clone(),
            tokens: self.tokens.clone(),
            opus: Some(true),
            client_type: Some(CLIENT_TYPE_BOT),
        }
    }
}

/// The `Ping` message carrying the given timestamp.
pub fn ping_message(timestamp: u64) -> (p: Ping)
    ensures
        p.timestamp == Some(timestamp),
{
    Ping { timestamp: Some(timestamp) }
}

/// The `TextMessage` that sends `message` to the given channels.
pub fn text_message(channel_ids: Vec<u32>, message: &str) -> (t: TextMessage)
    ensures
        t.channel_id == channel_ids,
        t.message@ == message@,
{
    TextMessage { channel_id: channel_ids, message: message.to_owned() }
}

impl ServerInfo {
    /// The `UserState` message that asks to move this client's session to
    /// the given channel; it sets no other field.
    pub fn move_request(&self, channel_id: u32) -> (u: UserState)
        ensures
            u.session == Some(self.session),
            u.channel_id == Some(channel_id),
            u.name is None,
            u.mute is None,
            u.deaf is None,
    {
        UserState {
            session: Some(self.session),
            name: None,
            channel_id: Some(channel_id),
            mute: None,
            deaf: None,
        }
    }
}

/// The error that ends the synchronisation phase when reading the next frame
/// fails: a connection that closes before `ServerSync` arrived means that the
/// server sync was not received (`SyncTimeout`); any other failure is
/// reported as it is.
pub fn sync_read_error(e: MumbleError) -> (r: MumbleError)
    ensures
        e is ConnectionClosed ==> r is SyncTimeout,
        !(e is ConnectionClosed) ==> r == e,
{
    match e {
        MumbleError::ConnectionClosed => MumbleError::SyncTimeout,
        other => other,
    }
}

/// A `ChannelState` received during synchronisation records, under its
/// channel id (0 when absent), a channel that carries every field of the
/// message: the parent, name, description, temporary flag and position it
/// names, and 0, empty text or `false` for those it leaves out. Every other
/// channel id keeps what it had, and the phase goes on.
pub proof fn lemma_channel_state_recorded(
    info: ServerInfo,
    channels: Seq<Channel>,
    users: Seq<User>,
    crypt: Option<CryptSetup>,
    cs: ChannelState,
    new_info: ServerInfo,
    new_channels: Seq<Channel>,
    new_users: Seq<User>,
    new_crypt: Option<CryptSetup>,
    r: Result<SyncStatus, MumbleError>,
    id: u32,
)
    requires
        sync_step(
            info,
            channels,
            users,
            crypt,
            SyncMessage::ChannelState(cs),
            new_info,
            new_channels,
            new_users,
            new_crypt,
            r,
        ),
        cs.channel_id == Some(id) || (cs.channel_id is None && id == 0),
    ensures
        r is Ok && r->Ok_0 == SyncStatus::Pending,
        key_map(new_channels).dom().contains(id),
        key_map(new_channels)[id].channel_id == id,
        forall|p: u32| cs.parent == Some(p) ==> key_map(new_channels)[id].parent == p,
        cs.parent is None ==> key_map(new_channels)[id].parent == 0,
        forall|n: String| cs.name == Some(n) ==> key_map(new_channels)[id].name@ == n@,
        cs.name is None ==> key_map(new_channels)[id].name@.len() == 0,
        forall|d: String|
            cs.description == Some(d) ==> key_map(new_channels)[id].description@ == d@,
        cs.description is None ==> key_map(new_channels)[id].description@.len() == 0,
        forall|b: bool| cs.temporary == Some(b) ==> key_map(new_channels)[id].temporary == b,
        cs.temporary is None ==> !key_map(new_channels)[id].temporary,
        forall|q: i32| cs.position == Some(q) ==> key_map(new_channels)[id].position == q,
        cs.position is None ==> key_map(new_channels)[id].position == 0,
        key_map(new_channels).remove(id) =~= key_map(channels).remove(id),
        new_users == users,
        new_info == info,
{
    let c = choose|c: Channel|
        channel_from_state(cs, c) && new_channels == #[trigger] upserted(channels, c);
    lemma_upsert_key_map(channels, c);
    assert(key_map(new_channels).remove(id) =~= key_map(channels).remove(id));
}

/// A `UserState` received during synchronisation records, under its session
/// (0 when absent), a user that carries every field of the message: the
/// name, channel, mute flag and deaf flag it names, each taken from its own
/// field, and empty text, 0 or `false` for those it leaves out. Every other
/// session keeps what it had, and the phase goes on.
pub proof fn lemma_user_state_recorded(
    info: ServerInfo,
    channels: Seq<Channel>,
    users: Seq<User>,
    crypt: Option<CryptSetup>,
    us: UserState,
    new_info: ServerInfo,
    new_channels: Seq<Channel>,
    new_users: Seq<User>,
    new_crypt: Option<CryptSetup>,
    r: Result<SyncStatus, MumbleError>,
    session: u32,
)
    requires
        sync_step(
            info,
            channels,
            users,
            crypt,
            SyncMessage::UserState(us),
            new_info,
            new_channels,
            new_users,
            new_crypt,
            r,
        ),
        us.session == Some(session) || (us.session is None && session == 0),
    ensures
        r is Ok && r->Ok_0 == SyncStatus::Pending,
        key_map(new_users).dom().contains(session),
        key_map(new_users)[session].session == session,
        forall|n: String| us.name == Some(n) ==> key_map(new_users)[session].name@ == n@,
        us.name is None ==> key_map(new_users)[session].name@.len() == 0,
        forall|ch: u32| us.channel_id == Some(ch) ==> key_map(new_users)[session].channel_id == ch,
        us.channel_id is None ==> key_map(new_users)[session].channel_id == 0,
        forall|m: bool| us.mute == Some(m) ==> key_map(new_users)[session].muted == m,
        us.mute is None ==> !key_map(new_users)[session].muted,
        forall|d: bool| us.deaf == Some(d) ==> key_map(new_users)[session].deafened == d,
        us.deaf is None ==> !key_map(new_users)[session].deafened,
        key_map(new_users).remove(session) =~= key_map(users).remove(session),
        new_channels == channels,
        new_info == info,
{
    let u = choose|u: User| user_from_state(us, u) && new_users == #[trigger] upserted(users, u);
    lemma_upsert_key_map(users, u);
    assert(key_map(new_users).remove(session) =~= key_map(users).remove(session));
}

/// A `ServerSync` ends synchronisation and sets the server information to
/// exactly what it carries: the session, the maximum bandwidth (any value)
/// and the welcome text it names, and 0 or empty text for those it leaves
/// out. The channel and user lists and the UDP keys are untouched.
pub proof fn lemma_server_sync_sets_info(
    info: ServerInfo,
    channels: Seq<Channel>,
    users: Seq<User>,
    crypt: Option<CryptSetup>,
    ss: ServerSync,
    new_info: ServerInfo,
    new_channels: Seq<Channel>,
    new_users: Seq<User>,
    new_crypt: Option<CryptSetup>,
    r: Result<SyncStatus, MumbleError>,
)
    requires
        sync_step(
            info,
            channels,
            users,
            crypt,
            SyncMessage::ServerSync(ss),
            new_info,
            new_channels,
            new_users,
            new_crypt,
            r,
        ),
    ensures
        r is Ok && r->Ok_0 == SyncStatus::Synced,
        forall|s: u32| ss.session == Some(s) ==> new_info.session == s,
        ss.session is None ==> new_info.session == 0,
        forall|b: u32| ss.max_bandwidth == Some(b) ==> new_info.max_bandwidth == b,
        ss.max_bandwidth is None ==> new_info.max_bandwidth == 0,
        forall|w: String| ss.welcome_text == Some(w) ==> new_info.welcome_text@ == w@,
        ss.welcome_text is None ==> new_info.welcome_text@.len() == 0,
        new_channels == channels,
        new_users == users,
        new_crypt == crypt,
{
}

/// Synchronisation decodes a frame as a given message exactly when the frame
/// has that message's type: only `ChannelState` frames are read as channel
/// states, only `UserState` frames as user states, and so on for
/// `ServerSync`, `Reject`, `CryptSetup`, `Version` and `PermissionDenied`;
/// every other type is skipped.
pub proof fn lemma_sync_payload_by_type(t: MessageType)
    ensures
        (sync_payload_of(t) == SyncPayload::ChannelState) <==> (t == MessageType::ChannelState),
        (sync_payload_of(t) == SyncPayload::UserState) <==> (t == MessageType::UserState),
        (sync_payload_of(t) == SyncPayload::ServerSync) <==> (t == MessageType::ServerSync),
        (sync_payload_of(t) == SyncPayload::Reject) <==> (t == MessageType::Reject),
        (sync_payload_of(t) == SyncPayload::CryptSetup) <==> (t == MessageType::CryptSetup),
        (sync_payload_of(t) == SyncPayload::ServerVersion) <==> (t == MessageType::Version),
        (sync_payload_of(t) == SyncPayload::PermissionDenied) <==> (t
            == MessageType::PermissionDenied),
        (sync_payload_of(t) == SyncPayload::Skip) <==> !(t == MessageType::ChannelState || t
            == MessageType::UserState || t == MessageType::ServerSync || t == MessageType::Reject
            || t == MessageType::CryptSetup || t == MessageType::Version || t
            == MessageType::PermissionDenied),
{
}

/// A `Reject` fails synchronisation with `Rejected`, carrying the server's
/// reason when it gives one and "no reason given" otherwise, and changes
/// nothing that the client knows.
pub proof fn lemma_reject_fails(
    info: ServerInfo,
    channels: Seq<Channel>,
    users: Seq<User>,
    crypt: Option<CryptSetup>,
    rj: Reject,
    new_info: ServerInfo,
    new_channels: Seq<Channel>,
    new_users: Seq<User>,
    new_crypt: Option<CryptSetup>,
    r: Result<SyncStatus, MumbleError>,
)
    requires
        sync_step(
            info,
            channels,
            users,
            crypt,
            SyncMessage::Reject(rj),
            new_info,
            new_channels,
            new_users,
            new_crypt,
            r,
        ),
    ensures
        r matches Err(MumbleError::Rejected(_)),
        forall|why: String|
            rj.reason == Some(why) ==> (r matches Err(MumbleError::Rejected(reason)) && reason@
                == why@),
        rj.reason is None ==> (r matches Err(MumbleError::Rejected(reason)) && reason@
            == "no reason given"@),
        new_info == info,
        new_channels == channels,
        new_users == users,
        new_crypt == crypt,
{
}

/// A `CryptSetup` keeps exactly the key and nonces it carries, in place of
/// any kept before; any message of a type the phase does not act on changes
/// nothing. Both let the phase go on.
pub proof fn lemma_crypt_setup_kept_and_others_ignored(
    info: ServerInfo,
    channels: Seq<Channel>,
    users: Seq<User>,
    crypt: Option<CryptSetup>,
    msg: SyncMessage,
    new_info: ServerInfo,
    new_channels: Seq<Channel>,
    new_users: Seq<User>,
    new_crypt: Option<CryptSetup>,
    r: Result<SyncStatus, MumbleError>,
)
    requires
        sync_step(info, channels, users, crypt, msg, new_info, new_channels, new_users, new_crypt, r),
        msg is CryptSetup || msg is Other,
    ensures
        r is Ok && r->Ok_0 == SyncStatus::Pending,
        msg matches SyncMessage::CryptSetup(cs) ==> (new_crypt matches Some(k) && k.key == cs.key
            && k.client_nonce == cs.client_nonce && k.server_nonce == cs.server_nonce),
        msg is Other ==> new_crypt == crypt,
        new_info == info,
        new_channels == channels,
        new_users == users,
{
}

} // verus!
