//! The messages of the Lavalink websocket.
use vstd::prelude::*;

verus! {

/// Sent by Lavalink when the connection is established.
#[derive(Debug, Clone)]
pub struct LavalinkReadyEvent {
    /// Whether a session was resumed.
    pub resumed: bool,
    /// The Lavalink session ID.
    pub session_id: String,
}

} // verus!
