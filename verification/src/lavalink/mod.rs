//! The Lavalink client's logic: the node information, the addresses of its
//! websocket and REST API, the websocket key and the handling of the
//! messages the websocket sends.
use vstd::prelude::*;

use base64::prelude::BASE64_STANDARD;
use base64::Engine;

use crate::config::LavalinkConfig;
use crate::text::{decimal, decimal_chars, push_all, push_str, string_from_chars};

pub mod rest;
pub mod websocket;

verus! {

/// The state of the connection to a Lavalink node.
#[derive(Debug, Clone, Copy, PartialEq, Eq, Structural)]
pub enum LavalinkConnection {
    /// The websocket is closed.
    Disconnected,
    /// The websocket is open, and no session was received yet.
    Connecting,
    /// A session was received.
    Connected,
}

/// What is needed to connect to a Lavalink node.
#[derive(Debug, Clone)]
pub struct LavalinkNodeInfo {
    /// The address of the node, `host:port`.
    pub host: String,
    /// The password of the node.
    pub password: String,
    /// Whether to connect with TLS.
    pub tls: bool,
}

impl LavalinkNodeInfo {
    /// The node that a configuration entry describes.
    pub fn from(config: LavalinkConfig) -> (r: Self)
        ensures
            r.host == config.address,
            r.password == config.password,
            r.tls == config.tls,
    {
        LavalinkNodeInfo { host: config.address, password: config.password, tls: config.tls }
    }
}

/// The address of the websocket of a node: `ws://host/v3/websocket`, or
/// `wss://` with TLS.
pub open spec fn websocket_uri_text(tls: bool, host: Seq<char>) -> Seq<char> {
    (if tls {
        "wss"@
    } else {
        "ws"@
    }) + "://"@ + host + "/v3/websocket"@
}

/// The base address of the REST API of a node: `http://host/v3`, or
/// `https://` with TLS.
pub open spec fn rest_base_text(tls: bool, host: Seq<char>) -> Seq<char> {
    (if tls {
        "https"@
    } else {
        "http"@
    }) + "://"@ + host + "/v3"@
}

/// `true` or `false`, as `bool::to_string` writes them.
pub open spec fn bool_text(b: bool) -> Seq<char> {
    if b {
        "true"@
    } else {
        "false"@
    }
}

/// The address that updates the player of a guild:
/// `<base>/sessions/<session>/players/<guild>?noReplace=<bool>`.
pub open spec fn player_update_uri_text(
    tls: bool,
    host: Seq<char>,
    session_id: Seq<char>,
    guild_id: Seq<char>,
    no_replace: bool,
) -> Seq<char> {
    rest_base_text(tls, host) + "/sessions/"@ + session_id + "/players/"@ + guild_id
        + "?noReplace="@ + bool_text(no_replace)
}

/// The address of the player of a guild: `<base>/sessions/<session>/players/<guild>`.
pub open spec fn player_uri_text(
    tls: bool,
    host: Seq<char>,
    session_id: Seq<char>,
    guild_id: Seq<char>,
) -> Seq<char> {
    rest_base_text(tls, host) + "/sessions/"@ + session_id + "/players/"@ + guild_id
}

/// The address that loads tracks: `<base>/loadtracks?identifier=<identifier>`.
pub open spec fn load_tracks_uri_text(tls: bool, host: Seq<char>, identifier: Seq<char>) -> Seq<
    char,
> {
    rest_base_text(tls, host) + "/loadtracks?identifier="@ + identifier
}

/// Appends the scheme part of an address.
pub(crate) fn push_scheme(out: &mut Vec<char>, tls: bool, secure: &str, plain: &str)
    ensures
        final(out)@ == old(out)@ + (if tls {
            secure@
        } else {
            plain@
        }) + "://"@,
{
    if tls {
        push_str(out, secure);
    } else {
        push_str(out, plain);
    }
    push_str(out, "://");
}

/// Builds the address of the websocket of a node.
pub fn websocket_uri(tls: bool, host: &str) -> (r: String)
    ensures
        r@ == websocket_uri_text(tls, host@),
{
    let mut out: Vec<char> = Vec::new();
    push_scheme(&mut out, tls, "wss", "ws");
    push_str(&mut out, host);
    push_str(&mut out, "/v3/websocket");
    assert(out@ =~= websocket_uri_text(tls, host@));
    string_from_chars(&out)
}

/// Builds the base address of the REST API of a node.
pub fn rest_base(tls: bool, host: &str) -> (r: Vec<char>)
    ensures
        r@ == rest_base_text(tls, host@),
{
    let mut out: Vec<char> = Vec::new();
    push_scheme(&mut out, tls, "https", "http");
    push_str(&mut out, host);
    push_str(&mut out, "/v3");
    assert(out@ =~= rest_base_text(tls, host@));
    out
}

/// Builds the address that updates the player of a guild.
pub fn player_update_uri(tls: bool, host: &str, session_id: &str, guild_id: &str, no_replace: bool) -> (r: String)
    ensures
        r@ == player_update_uri_text(tls, host@, session_id@, guild_id@, no_replace),
{
    let mut out = rest_base(tls, host);
    push_str(&mut out, "/sessions/");
    push_str(&mut out, session_id);
    push_str(&mut out, "/players/");
    push_str(&mut out, guild_id);
    push_str(&mut out, "?noReplace=");
    if no_replace {
        push_str(&mut out, "true");
    } else {
        push_str(&mut out, "false");
    }
    assert(out@ =~= player_update_uri_text(tls, host@, session_id@, guild_id@, no_replace));
    string_from_chars(&out)
}

/// Builds the address of the player of a guild.
pub fn player_uri(tls: bool, host: &str, session_id: &str, guild_id: &str) -> (r: String)
    ensures
        r@ == player_uri_text(tls, host@, session_id@, guild_id@),
{
    let mut out = rest_base(tls, host);
    push_str(&mut out, "/sessions/");
    push_str(&mut out, session_id);
    push_str(&mut out, "/players/");
    push_str(&mut out, guild_id);
    assert(out@ =~= player_uri_text(tls, host@, session_id@, guild_id@));
    string_from_chars(&out)
}

/// Builds the address that loads the tracks of an identifier.
pub fn load_tracks_uri(tls: bool, host: &str, identifier: &str) -> (r: String)
    ensures
        r@ == load_tracks_uri_text(tls, host@, identifier@),
{
    let mut out = rest_base(tls, host);
    push_str(&mut out, "/loadtracks?identifier=");
    push_str(&mut out, identifier);
    assert(out@ =~= load_tracks_uri_text(tls, host@, identifier@));
    string_from_chars(&out)
}

/// The character of the standard Base64 alphabet for a six-bit value:
/// `A`-`Z`, `a`-`z`, `0`-`9`, `+` and `/`.
pub open spec fn base64_char(value: int) -> char {
    if value < 26 {
        ('A' as int + value) as char
    } else if value < 52 {
        ('a' as int + value - 26) as char
    } else if value < 62 {
        ('0' as int + value - 52) as char
    } else if value == 62 {
        '+'
    } else {
        '/'
    }
}

/// The standard Base64 text, with padding, of the bytes: each group of
/// three bytes gives four characters of six bits each; a last group of two
/// bytes gives three characters and `=`, of one byte two characters and
/// `==`.
pub open spec fn base64_text(bytes: Seq<u8>) -> Seq<char>
    decreases bytes.len(),
{
    if bytes.len() == 0 {
        seq![]
    } else if bytes.len() == 1 {
        let a = bytes[0] as int;
        seq![base64_char(a / 4), base64_char((a % 4) * 16), '=', '=']
    } else if bytes.len() == 2 {
        let a = bytes[0] as int;
        let b = bytes[1] as int;
        seq![base64_char(a / 4), base64_char((a % 4) * 16 + b / 16), base64_char((b % 16) * 4), '=']
    } else {
        let a = bytes[0] as int;
        let b = bytes[1] as int;
        let c = bytes[2] as int;
        seq![
            base64_char(a / 4),
            base64_char((a % 4) * 16 + b / 16),
            base64_char((b % 16) * 4 + c / 64),
            base64_char(c % 64),
        ] + base64_text(bytes.subrange(3, bytes.len() as int))
    }
}

/// Base64 turns every group of up to three bytes into four characters.
pub proof fn lemma_base64_length(bytes: Seq<u8>)
    ensures
        base64_text(bytes).len() == (bytes.len() + 2) / 3 * 4,
    decreases bytes.len(),
{
    if bytes.len() > 2 {
        lemma_base64_length(bytes.subrange(3, bytes.len() as int));
    }
}

/// Encodes bytes in standard Base64.
///
/// Trusted: calls `Engine::encode` of `base64::prelude::BASE64_STANDARD`
/// (the standard alphabet, with padding); the contract claims that the text
/// is [`base64_text`] of the bytes.
#[verifier::external_body]
fn encode_base64(bytes: &Vec<u8>) -> (r: String)
    ensures
        r@ == base64_text(bytes@),
{
    BASE64_STANDARD.encode(bytes)
}

/// Sixteen random bytes.
///
/// Trusted: calls `rand::random` for a `[u8; 16]`; the contract claims only
/// that sixteen bytes come back.
#[verifier::external_body]
fn random_bytes16() -> (r: Vec<u8>)
    ensures
        r@.len() == 16,
{
    let bytes: [u8; 16] = rand::random();
    bytes.to_vec()
}

/// Generates the key of a websocket handshake: sixteen random bytes in
/// Base64, twenty-four characters.
pub fn generate_key() -> (r: String)
    ensures
        exists|bytes: Seq<u8>| bytes.len() == 16 && r@ == base64_text(bytes),
        r@.len() == 24,
{
    let bytes = random_bytes16();
    proof {
        lemma_base64_length(bytes@);
    }
    encode_base64(&bytes)
}

/// The operations the websocket sends.
#[derive(Debug, Clone, Copy, PartialEq, Eq, Structural)]
pub enum LavalinkOpType {
    /// The session is ready.
    Ready,
    /// The state of a player.
    PlayerUpdate,
    /// The statistics of the node.
    Stats,
    /// An event of a player.
    Event,
}

/// The events the websocket sends.
#[derive(Debug, Clone, Copy, PartialEq, Eq, Structural)]
pub enum LavalinkEventType {
    /// A track started.
    TrackStartEvent,
    /// A track ended.
    TrackEndEvent,
    /// A track threw an exception.
    TrackExceptionEvent,
    /// A track got stuck.
    TrackStuckEvent,
    /// The voice websocket was closed.
    WebSocketClosedEvent,
}

/// What the client does with a websocket message.
#[derive(Debug, Clone, Copy, PartialEq, Eq, Structural)]
pub enum SocketAction {
    /// Keep the session, mark the node connected and call `lavalink_ready`.
    Ready,
    /// Call `lavalink_track_start`.
    TrackStart,
    /// Call `lavalink_track_end`.
    TrackEnd,
    /// Nothing to do.
    Ignore,
}

/// Decides what to do with a websocket message, given its operation and, for
/// an event, its type: a ready session, a track start and a track end are
/// handled, anything else is ignored.
pub fn socket_action(op: LavalinkOpType, event: Option<LavalinkEventType>) -> (r: SocketAction)
    ensures
        r == (match op {
            LavalinkOpType::Ready => SocketAction::Ready,
            LavalinkOpType::Event => match event {
                Some(LavalinkEventType::TrackStartEvent) => SocketAction::TrackStart,
                Some(LavalinkEventType::TrackEndEvent) => SocketAction::TrackEnd,
                _ => SocketAction::Ignore,
            },
            _ => SocketAction::Ignore,
        }),
{
    match op {
        LavalinkOpType::Ready => SocketAction::Ready,
        LavalinkOpType::Event => match event {
            Some(LavalinkEventType::TrackStartEvent) => SocketAction::TrackStart,
            Some(LavalinkEventType::TrackEndEvent) => SocketAction::TrackEnd,
            _ => SocketAction::Ignore,
        },
        _ => SocketAction::Ignore,
    }
}

/// The operations of the websocket that the simple client reads.
#[derive(Debug, Clone, Copy, PartialEq, Eq, Structural)]
pub enum LavalinkSocketOpType {
    /// The session is ready.
    Ready,
    /// The state of a player.
    PlayerUpdate,
    /// The statistics of the node.
    Stats,
    /// An event of a player.
    Event,
}

/// Sent when the session is ready.
#[derive(Debug, Clone)]
pub struct LavalinkSocketReady {
    /// Whether a session was resumed.
    pub resumed: bool,
    /// The Lavalink session ID.
    pub session_id: String,
}

/// Receives the session of the simple client.
pub trait HydrogenLavalinkHandler {
    /// Called when the session is ready.
    fn lavalink_ready(&self, message: LavalinkSocketReady) {
    }
}

/// The voice state sent by the simple client.
#[derive(Debug, Clone)]
pub struct LavalinkRestVoiceState {
    /// The Discord voice token.
    pub token: String,
    /// The Discord voice endpoint.
    pub endpoint: String,
    /// The Discord voice session ID.
    pub session_id: String,
    /// Whether the player is connected. Response only.
    pub connected: bool,
    /// Roundtrip latency to the voice gateway. Response only.
    pub ping: i32,
}

/// The player update sent by the simple client.
#[derive(Debug, Clone)]
pub struct LavalinkRestUpdatePlayer {
    /// The encoded track to play.
    pub encoded_track: Option<Option<String>>,
    /// The identifier of the track to play.
    pub identifier: Option<Option<String>>,
    /// The track position in milliseconds.
    pub position: Option<i32>,
    /// The track end time in milliseconds.
    pub end_time: Option<i32>,
    /// The player volume.
    pub volume: Option<i32>,
    /// Whether the player is paused.
    pub paused: Option<bool>,
    /// The voice state to connect with.
    pub voice: Option<LavalinkRestVoiceState>,
}

/// The player received by the simple client.
#[derive(Debug, Clone)]
pub struct LavalinkRestPlayer {
    /// The guild ID of the player.
    pub guild_id: String,
    /// The track being played.
    pub track: Option<LavalinkRestTrack>,
    /// The volume of the player.
    pub volume: i32,
    /// Whether the player is paused.
    pub paused: bool,
    /// The voice state of the player.
    pub voice: LavalinkRestVoiceState,
}

/// A track received by the simple client.
#[derive(Debug, Clone)]
pub struct LavalinkRestTrack {
    /// The encoded track.
    pub encoded: String,
    /// The encoded track, under its older name.
    pub track: String,
    /// Information about the track.
    pub info: LavalinkRestTrackInfo,
}

/// Information about a track received by the simple client.
#[derive(Debug, Clone)]
pub struct LavalinkRestTrackInfo {
    /// The track identifier.
    pub identifier: String,
    /// Whether the track is seekable.
    pub is_seekable: bool,
    /// The track author.
    pub author: String,
    /// The track length in milliseconds.
    pub length: i32,
    /// Whether the track is a stream.
    pub is_stream: bool,
    /// The position in milliseconds.
    pub position: i32,
    /// The track title.
    pub title: String,
    /// The track URI.
    pub uri: Option<String>,
    /// The track source name.
    pub source_name: String,
}

/// A guild ID written in decimal, as the REST paths hold it.
pub fn guild_text(guild_id: u64) -> (r: String)
    ensures
        r@ == decimal(guild_id as nat),
{
    string_from_chars(&decimal_chars(guild_id))
}

} // verus!
