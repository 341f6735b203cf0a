//! The operation and event types of the websocket messages, and what the
//! message parser does with each.
use vstd::prelude::*;

verus! {

/// The operations a Lavalink server emits.
#[derive(Debug, Clone, Copy, PartialEq, Eq, Structural)]
pub enum OPType {
    /// The connection is established.
    Ready,
    /// The state of a player.
    PlayerUpdate,
    /// The statistics of the node.
    Stats,
    /// An event of a player or of the voice connection.
    Event,
}

/// The part of a websocket message that tells its operation.
#[derive(Debug, Clone, Copy, PartialEq, Eq, Structural)]
pub struct WebsocketMessage {
    /// The operation.
    pub op: OPType,
}

/// The events a Lavalink server emits.
#[derive(Debug, Clone, Copy, PartialEq, Eq, Structural)]
pub enum EventType {
    /// A track started playing.
    TrackStart,
    /// A track ended.
    TrackEnd,
    /// A track threw an exception.
    TrackException,
    /// A track got stuck.
    TrackStuck,
    /// The voice websocket was closed.
    WebSocketClosed,
}

/// The part of an event message that tells its type.
#[derive(Debug, Clone, Copy, PartialEq, Eq, Structural)]
pub struct Event {
    /// The type of event.
    pub event_type: EventType,
}

/// The handler call that a websocket message leads to.
#[derive(Debug, Clone, Copy, PartialEq, Eq, Structural)]
pub enum HandlerCall {
    /// `ready`, after keeping the session ID.
    Ready,
    /// `player_update`.
    PlayerUpdate,
    /// `stats`.
    Stats,
    /// `track_start_event`.
    TrackStart,
    /// `track_end_event`.
    TrackEnd,
    /// `track_exception_event`.
    TrackException,
    /// `track_stuck_event`.
    TrackStuck,
    /// `websocket_closed_event`.
    WebSocketClosed,
    /// The message is skipped.
    Skip,
}

/// Decides which handler a message calls, given its operation and, for an
/// event, its type as read from the message; an event whose type could not
/// be read is skipped.
pub fn handler_call(message: WebsocketMessage, event: Option<Event>) -> (r: HandlerCall)
    ensures
        r == (match message.op {
            OPType::Ready => HandlerCall::Ready,
            OPType::PlayerUpdate => HandlerCall::PlayerUpdate,
            OPType::Stats => HandlerCall::Stats,
            OPType::Event => match event {
                None => HandlerCall::Skip,
                Some(e) => match e.event_type {
                    EventType::TrackStart => HandlerCall::TrackStart,
                    EventType::TrackEnd => HandlerCall::TrackEnd,
                    EventType::TrackException => HandlerCall::TrackException,
                    EventType::TrackStuck => HandlerCall::TrackStuck,
                    EventType::WebSocketClosed => HandlerCall::WebSocketClosed,
                },
            },
        }),
{
    match message.op {
        OPType::Ready => HandlerCall::Ready,
        OPType::PlayerUpdate => HandlerCall::PlayerUpdate,
        OPType::Stats => HandlerCall::Stats,
        OPType::Event => match event {
            None => HandlerCall::Skip,
            Some(e) => match e.event_type {
                EventType::TrackStart => HandlerCall::TrackStart,
                EventType::TrackEnd => HandlerCall::TrackEnd,
                EventType::TrackException => HandlerCall::TrackException,
                EventType::TrackStuck => HandlerCall::TrackStuck,
                EventType::WebSocketClosed => HandlerCall::WebSocketClosed,
            },
        },
    }
}

} // verus!
