//! The messages a Lavalink server sends through the websocket.
use vstd::prelude::*;

use super::common::Exception;

verus! {

/// Sent when the connection is established.
#[derive(Debug, Clone)]
pub struct Ready {
    /// Whether a session was resumed.
    pub resumed: bool,
    /// The Lavalink session ID of this connection.
    pub session_id: String,
}

/// Sent every few seconds with the state of the player of a guild.
#[derive(Debug, Clone)]
pub struct PlayerUpdate {
    /// The guild ID of the player.
    pub guild_id: String,
    /// The player state.
    pub state: PlayerState,
}

/// The state of a player.
#[derive(Debug, Clone, Copy, PartialEq, Eq, Structural)]
pub struct PlayerState {
    /// Unix timestamp in milliseconds.
    pub time: u64,
    /// The position of the track in milliseconds.
    pub position: Option<u32>,
    /// Whether Lavalink is connected to the voice gateway.
    pub connected: bool,
    /// The ping to the Discord voice server in milliseconds, -1 if not connected.
    pub ping: i16,
}

/// A track started playing.
#[derive(Debug, Clone)]
pub struct TrackStartEvent {
    /// The guild ID.
    pub guild_id: String,
    /// The encoded track.
    pub encoded_track: String,
}

/// A track ended.
#[derive(Debug, Clone)]
pub struct TrackEndEvent {
    /// The guild ID.
    pub guild_id: String,
    /// The encoded track.
    pub encoded_track: String,
    /// Why the track ended.
    pub reason: TrackEndReason,
}

/// Why a track ended.
#[derive(Debug, Clone, Copy, PartialEq, Eq, Structural)]
pub enum TrackEndReason {
    /// The track finished playing; the next may start.
    Finished,
    /// The track failed to load; the next may start.
    LoadFailed,
    /// The track was stopped.
    Stopped,
    /// The track was replaced.
    Replaced,
    /// The track was cleaned up.
    Cleanup,
}

/// A track threw an exception.
#[derive(Debug, Clone)]
pub struct TrackExceptionEvent {
    /// The guild ID.
    pub guild_id: String,
    /// The encoded track.
    pub encoded_track: String,
    /// The exception.
    pub exception: Exception,
}

/// A track got stuck.
#[derive(Debug, Clone)]
pub struct TrackStuckEvent {
    /// The guild ID.
    pub guild_id: String,
    /// The encoded track.
    pub encoded_track: String,
    /// The threshold in milliseconds that was exceeded.
    pub threshold_ms: u32,
}

/// A connection between Lavalink and Discord was closed.
#[derive(Debug, Clone)]
pub struct WebSocketClosedEvent {
    /// The guild ID.
    pub guild_id: String,
    /// The Discord close event code.
    pub code: u16,
    /// The close reason.
    pub reason: String,
    /// Whether Discord closed the connection.
    pub by_remote: bool,
}

} // verus!
