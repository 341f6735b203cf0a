//! The requests and responses of the Lavalink REST API.
use vstd::prelude::*;

use crate::hydrolink::common::Exception;
use crate::text::owned;

verus! {

/// Error response of the REST API.
#[derive(Debug, Clone)]
pub struct ErrorResponse {
    /// The timestamp of the error in milliseconds since the epoch.
    pub timestamp: u64,
    /// The HTTP status code.
    pub status: u16,
    /// The HTTP status code message.
    pub error: String,
    /// The stack trace of the error, when asked for.
    pub trace: Option<String>,
    /// The error message.
    pub message: String,
    /// The request path.
    pub path: String,
}

/// The voice state that Lavalink uses to connect to the voice chat.
#[derive(Debug, Clone)]
pub struct VoiceState {
    /// The Discord voice token.
    pub token: String,
    /// The Discord voice endpoint.
    pub endpoint: String,
    /// The Discord voice session ID.
    pub session_id: String,
    /// Whether the player is connected. Response only.
    pub connected: bool,
    /// Roundtrip latency in milliseconds, -1 if not connected. Response only.
    pub ping: i32,
}

impl VoiceState {
    /// A voice state to send to Lavalink.
    pub fn new(token: &str, endpoint: &str, session_id: &str) -> (r: Self)
        ensures
            r.token@ == token@,
            r.endpoint@ == endpoint@,
            r.session_id@ == session_id@,
            !r.connected,
            r.ping == 0,
    {
        Self {
            token: owned(token),
            endpoint: owned(endpoint),
            session_id: owned(session_id),
            connected: false,
            ping: 0,
        }
    }
}

/// A single audio track.
#[derive(Debug, Clone)]
pub struct Track {
    /// The encoded track data.
    pub encoded: String,
    /// The encoded track data, under its older name.
    pub track: String,
    /// Information about the track.
    pub info: TrackInfo,
}

/// Information about an audio track.
#[derive(Debug, Clone)]
pub struct TrackInfo {
    /// The track identifier.
    pub identifier: String,
    /// Whether the track is seekable.
    pub is_seekable: bool,
    /// The track author.
    pub author: String,
    /// The track length in milliseconds.
    pub length: u32,
    /// Whether the track is a stream.
    pub is_stream: bool,
    /// The track position in milliseconds.
    pub position: u32,
    /// The track title.
    pub title: String,
    /// The track URI.
    pub uri: Option<String>,
    /// The track source name.
    pub source_name: String,
}

/// The response to a request that loads tracks.
#[derive(Debug, Clone)]
pub struct TrackLoading {
    /// Information about the playlist, when one was loaded.
    pub playlist_info: PlaylistInfo,
    /// The tracks that were loaded.
    pub tracks: Vec<Track>,
    /// The exception the load failed with.
    pub exception: Option<Exception>,
    /// The type of the result.
    pub load_type: LoadResultType,
}

/// The type of result that was loaded.
#[derive(Debug, Clone, Copy, PartialEq, Eq, Structural)]
pub enum LoadResultType {
    /// A track has been loaded.
    TrackLoaded,
    /// A playlist has been loaded.
    PlaylistLoaded,
    /// A search result has been loaded.
    SearchResult,
    /// Nothing matched the identifier.
    NoMatches,
    /// Loading failed.
    LoadFailed,
}

/// Information about a playlist.
#[derive(Debug, Clone)]
pub struct PlaylistInfo {
    /// The name of the playlist.
    pub name: Option<String>,
    /// The selected track of the playlist, -1 if none.
    pub selected_track: Option<i32>,
}

/// Request and response of a session update.
#[derive(Debug, Clone)]
pub struct UpdateSession {
    /// The key to resume this session later.
    pub resuming_key: Option<Option<String>>,
    /// The timeout in seconds.
    pub timeout: Option<u32>,
}

/// Information about a Lavalink server.
#[derive(Debug, Clone)]
pub struct Info {
    /// The version of the server.
    pub version: Version,
    /// When the server was built, in milliseconds since the epoch.
    pub build_time: u64,
    /// The git information of the build.
    pub git: Git,
    /// The JVM version.
    pub jvm: String,
    /// The Lavaplayer version.
    pub lavaplayer: String,
    /// The enabled source managers.
    pub source_managers: Vec<String>,
    /// The enabled filters.
    pub filters: Vec<String>,
    /// The enabled plugins.
    pub plugins: Vec<Plugin>,
}

/// A semantic version.
#[derive(Debug, Clone)]
pub struct Version {
    /// The full version.
    pub semver: String,
    /// The major version.
    pub major: u8,
    /// The minor version.
    pub minor: u8,
    /// The patch version.
    pub patch: u8,
    /// The pre-release identifiers.
    pub pre_release: Option<String>,
    /// The build metadata.
    pub build: Option<String>,
}

/// The branch and commit a server was built from.
#[derive(Debug, Clone)]
pub struct Git {
    /// The branch.
    pub branch: String,
    /// The commit.
    pub commit: String,
    /// When the commit was made, in milliseconds since the epoch.
    pub commit_time: u64,
}

/// A plugin of a server.
#[derive(Debug, Clone)]
pub struct Plugin {
    /// The name of the plugin.
    pub name: String,
    /// The version of the plugin.
    pub version: String,
}

/// The status of the route planner.
#[derive(Debug, Clone)]
pub struct RoutePlannerStatus {
    /// The route planner used.
    pub class: Option<RoutePlannerType>,
    /// Its details.
    pub details: Option<Details>,
}

/// The strategies of the route planner.
#[derive(Debug, Clone, Copy, PartialEq, Eq, Structural)]
pub enum RoutePlannerType {
    /// The address is switched on ban.
    Rotating,
    /// The address is switched on clock update.
    Nano,
    /// The address is switched on clock update and the block on ban.
    RotatingNano,
    /// The address is chosen at random per request.
    Balancing,
}

/// Details of the route planner.
#[derive(Debug, Clone)]
pub struct Details {
    /// The block of addresses used.
    pub ip_block: IPBlock,
    /// The failing addresses.
    pub failing_addresses: Vec<FailingAddress>,
    /// The number of rotations.
    pub rotate_index: String,
    /// The current offset in the block.
    pub ip_index: String,
    /// The current address.
    pub current_address: String,
    /// The current offset in the block, for the nano strategies.
    pub current_address_index: String,
    /// The block from which addresses are chosen.
    pub block_index: String,
}

/// A block of addresses.
#[derive(Debug, Clone)]
pub struct IPBlock {
    /// The type of the block.
    pub ip_type: IPBlockType,
    /// The size of the block.
    pub size: String,
}

/// The version of the addresses of a block.
#[derive(Debug, Clone, Copy, PartialEq, Eq, Structural)]
pub enum IPBlockType {
    /// IPv4.
    Inet4,
    /// IPv6.
    Inet6,
}

/// An address that failed and when.
#[derive(Debug, Clone)]
pub struct FailingAddress {
    /// The address.
    pub failing_address: String,
    /// When it failed, in milliseconds since the epoch.
    pub failing_timestamp: u64,
    /// When it failed, written out.
    pub failing_time: String,
}

/// Request to unmark a failed address.
#[derive(Debug, Clone)]
pub struct RoutePlannerFailedAddress {
    /// The address to unmark.
    pub address: String,
}

} // verus!
