//! Statistics and exceptions reported by a Lavalink server.
use vstd::prelude::*;

verus! {

/// Memory usage of a Lavalink server.
#[derive(Debug, Clone, Copy, PartialEq, Eq, Structural)]
pub struct Memory {
    /// The amount of free memory in bytes.
    pub free: i32,
    /// The amount of used memory in bytes.
    pub used: i32,
    /// The amount of allocated memory in bytes.
    pub allocated: i32,
    /// The amount of reservable memory in bytes.
    pub reservable: i32,
}

/// Frames sent by a Lavalink server to Discord.
#[derive(Debug, Clone, Copy, PartialEq, Eq, Structural)]
pub struct FrameStats {
    /// The amount of frames sent to Discord.
    pub sent: i32,
    /// The amount of frames that were nulled.
    pub nulled: i32,
    /// The amount of frames that were deficit.
    pub deficit: i32,
}

/// An exception produced by a Lavalink server.
#[derive(Debug, Clone)]
pub struct Exception {
    /// The message of the exception.
    pub message: Option<String>,
    /// The severity of the exception.
    pub severity: Severity,
    /// The cause of the exception.
    pub cause: String,
}

/// The severity of an exception.
#[derive(Debug, Clone, Copy, PartialEq, Eq, Structural)]
pub enum Severity {
    /// The cause is known and expected.
    Common,
    /// The cause may come from outside.
    Suspicious,
    /// The cause is an issue of the library, or unknown.
    Fault,
}

} // verus!
