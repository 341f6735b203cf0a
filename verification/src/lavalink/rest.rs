//! The requests and responses of the Lavalink REST API.
use vstd::prelude::*;

use crate::text::{copy_opt_string, owned};

verus! {

/// Error response of the Lavalink REST API.
#[derive(Debug, Clone)]
pub struct LavalinkErrorResponse {
    /// The timestamp of the error in milliseconds since the epoch.
    pub timestamp: i64,
    /// The HTTP status code.
    pub status: i32,
    /// The HTTP status code message.
    pub error: String,
    /// The stack trace of the error, when asked for.
    pub trace: Option<String>,
    /// The error message.
    pub message: String,
    /// The request path.
    pub path: String,
}

/// The voice state that Lavalink uses to connect to the voice chat.
#[derive(Debug, Clone)]
pub struct LavalinkVoiceState {
    /// The Discord voice token.
    pub token: String,
    /// The Discord voice endpoint.
    pub endpoint: String,
    /// The Discord voice session ID.
    pub session_id: String,
    /// Whether the player is connected. Response only.
    pub connected: bool,
    /// Roundtrip latency to the voice gateway. Response only.
    pub ping: i32,
}

impl LavalinkVoiceState {
    /// A voice state to send to Lavalink.
    pub fn new(token: &str, endpoint: &str, session_id: &str) -> (r: Self)
        ensures
            r.token@ == token@,
            r.endpoint@ == endpoint@,
            r.session_id@ == session_id@,
            !r.connected,
            r.ping == 0,
    {
        Self {
            token: owned(token),
            endpoint: owned(endpoint),
            session_id: owned(session_id),
            connected: false,
            ping: 0,
        }
    }
}

/// A request that updates a player; the fields left `None` are not sent.
#[derive(Debug, Clone)]
pub struct LavalinkUpdatePlayer {
    /// The encoded track to play; `Some(None)` stops the current track.
    pub encoded_track: Option<Option<String>>,
    /// The identifier of the track to play.
    pub identifier: Option<String>,
    /// The track position in milliseconds.
    pub position: Option<i32>,
    /// The track end time in milliseconds.
    pub end_time: Option<i32>,
    /// The player volume.
    pub volume: Option<i32>,
    /// Whether the player is paused.
    pub paused: Option<bool>,
    /// The voice state to connect with.
    pub voice: Option<LavalinkVoiceState>,
}

/// Whether the request asks for nothing.
pub open spec fn update_is_empty(u: LavalinkUpdatePlayer) -> bool {
    &&& u.encoded_track is None
    &&& u.identifier is None
    &&& u.position is None
    &&& u.end_time is None
    &&& u.volume is None
    &&& u.paused is None
    &&& u.voice is None
}

impl LavalinkUpdatePlayer {
    /// A request that changes nothing.
    pub fn new() -> (r: Self)
        ensures
            update_is_empty(r),
    {
        Self {
            encoded_track: None,
            identifier: None,
            end_time: None,
            paused: None,
            position: None,
            voice: None,
            volume: None,
        }
    }

    /// Asks to play the encoded track, unless an identifier was given.
    pub fn encoded_track(&mut self, encoded_track: &str) -> (r: &mut Self)
        ensures
            old(self).identifier is None ==> (r.encoded_track matches Some(Some(t)) && t@
                == encoded_track@),
            old(self).identifier is Some ==> r.encoded_track == old(self).encoded_track,
            r.identifier == old(self).identifier,
            r.position == old(self).position,
            r.end_time == old(self).end_time,
            r.volume == old(self).volume,
            r.paused == old(self).paused,
            r.voice == old(self).voice,
            *final(self) == *final(r),
    {
        if self.identifier.is_none() {
            self.encoded_track = Some(Some(owned(encoded_track)));
        }
        self
    }

    /// Asks to connect with the voice state.
    pub fn voice_state(&mut self, voice_state: LavalinkVoiceState) -> (r: &mut Self)
        ensures
            *r == (LavalinkUpdatePlayer { voice: Some(voice_state), ..*old(self) }),
            *final(self) == *final(r),
    {
        self.voice = Some(voice_state);
        self
    }

    /// Asks to seek to the position.
    pub fn position(&mut self, position: i32) -> (r: &mut Self)
        ensures
            *r == (LavalinkUpdatePlayer { position: Some(position), ..*old(self) }),
            *final(self) == *final(r),
    {
        self.position = Some(position);
        self
    }

    /// Asks to pause or resume.
    pub fn paused(&mut self, paused: bool) -> (r: &mut Self)
        ensures
            *r == (LavalinkUpdatePlayer { paused: Some(paused), ..*old(self) }),
            *final(self) == *final(r),
    {
        self.paused = Some(paused);
        self
    }
}

/// A player of a guild in a Lavalink session.
#[derive(Debug, Clone)]
pub struct LavalinkPlayer {
    /// The guild ID of the player.
    pub guild_id: String,
    /// The track being played.
    pub track: Option<LavalinkTrack>,
    /// The volume of the player.
    pub volume: i32,
    /// Whether the player is paused.
    pub paused: bool,
    /// The voice state of the player.
    pub voice: LavalinkVoiceState,
}

/// An audio track.
#[derive(Debug)]
pub struct LavalinkTrack {
    /// The encoded track.
    pub encoded: String,
    /// The encoded track, under its older name.
    pub track: String,
    /// Information about the track.
    pub info: LavalinkTrackInfo,
}

impl Clone for LavalinkTrack {
    fn clone(&self) -> (r: Self)
        ensures
            r == *self,
    {
        LavalinkTrack {
            encoded: self.encoded.clone(),
            track: self.track.clone(),
            info: self.info.clone(),
        }
    }
}

/// Information about an audio track.
#[derive(Debug)]
pub struct LavalinkTrackInfo {
    /// The track identifier.
    pub identifier: String,
    /// Whether the track is seekable.
    pub is_seekable: bool,
    /// The track author.
    pub author: String,
    /// The track length in milliseconds.
    pub length: i32,
    /// Whether the track is a stream.
    pub is_stream: bool,
    /// The position in milliseconds.
    pub position: i32,
    /// The track title.
    pub title: String,
    /// The track URI.
    pub uri: Option<String>,
    /// The track source name.
    pub source_name: String,
}

impl Clone for LavalinkTrackInfo {
    fn clone(&self) -> (r: Self)
        ensures
            r == *self,
    {
        LavalinkTrackInfo {
            identifier: self.identifier.clone(),
            is_seekable: self.is_seekable,
            author: self.author.clone(),
            length: self.length,
            is_stream: self.is_stream,
            position: self.position,
            title: self.title.clone(),
            uri: copy_opt_string(&self.uri),
            source_name: self.source_name.clone(),
        }
    }
}

/// The response to a request that loads tracks.
#[derive(Debug, Clone)]
pub struct LavalinkTrackLoading {
    /// Information about the playlist loaded.
    pub playlist_info: LavalinkPlaylistInfo,
    /// The tracks loaded.
    pub tracks: Vec<LavalinkTrack>,
    /// The exception the load failed with.
    pub exception: Option<LavalinkException>,
    /// The type of the result.
    pub load_type: LavalinkLoadResultType,
}

/// The type of result of a load.
#[derive(Debug, Clone, Copy, PartialEq, Eq, Structural)]
pub enum LavalinkLoadResultType {
    /// A track has been loaded.
    TrackLoaded,
    /// A playlist has been loaded.
    PlaylistLoaded,
    /// A search result has been loaded.
    SearchResult,
    /// Nothing matched the identifier.
    NoMatches,
    /// Loading failed.
    LoadFailed,
}

/// Information about a playlist.
#[derive(Debug, Clone)]
pub struct LavalinkPlaylistInfo {
    /// The name of the playlist.
    pub name: Option<String>,
    /// The track selected in the playlist.
    pub selected_track: Option<i32>,
}

/// An exception produced by Lavalink.
#[derive(Debug, Clone)]
pub struct LavalinkException {
    /// The message of the exception.
    pub message: Option<String>,
    /// The severity of the exception.
    pub severity: LavalinkSeverity,
    /// The cause of the exception.
    pub cause: String,
}

/// The severity of an exception.
#[derive(Debug, Clone, Copy, PartialEq, Eq, Structural)]
pub enum LavalinkSeverity {
    /// The cause is known and expected.
    Common,
    /// The cause may come from outside.
    Suspicious,
    /// The cause is an issue of the library or unknown.
    Fault,
}

} // verus!
