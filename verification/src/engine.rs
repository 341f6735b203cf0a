//! The items of a Lavalink engine's queue.
use std::convert::Infallible;

use vstd::prelude::*;

use crate::hydrolink::rest::{Track as LavalinkTrack, TrackInfo};
use crate::queue::{ToTrack, Track as QueueTrack};
use crate::text::copy_opt_string;

verus! {

/// A track of the queue of a Lavalink engine: what Lavalink plays and what
/// the users see.
#[derive(Debug)]
pub struct LavalinkMusic {
    /// The track as Lavalink encodes it.
    pub encoded_track: String,
    /// The track as the users see it.
    pub track: QueueTrack,
}

impl Clone for LavalinkMusic {
    fn clone(&self) -> (r: Self)
        ensures
            r == *self,
    {
        LavalinkMusic { encoded_track: self.encoded_track.clone(), track: self.track.clone() }
    }
}

impl LavalinkMusic {
    /// The music that plays `value` at the request of `requester_id`.
    pub fn new(value: LavalinkTrack, requester_id: u64) -> (r: Self)
        ensures
            r.encoded_track == value.encoded,
            r.track == (QueueTrack {
                length: value.info.length,
                author: value.info.author,
                title: value.info.title,
                uri: value.info.uri,
                thumbnail_uri: None,
                requester_id,
            }),
    {
        LavalinkMusic {
            encoded_track: value.encoded,
            track: QueueTrack {
                length: value.info.length,
                author: value.info.author,
                title: value.info.title,
                uri: value.info.uri,
                thumbnail_uri: None,
                requester_id,
            },
        }
    }
}

impl ToTrack for LavalinkMusic {
    /// The track is kept with the music: describing it never fails.
    type Error = Infallible;

    open spec fn track_spec(&self) -> Result<QueueTrack, Infallible> {
        Ok(self.track)
    }

    fn track(&self) -> (r: Result<QueueTrack, Infallible>) {
        Ok(self.track.clone())
    }
}

/// A track of the queue of a Lavalink engine, with the user that requested
/// it.
#[derive(Debug)]
pub struct Track {
    /// The track as Lavalink describes it.
    pub track: LavalinkTrack,
    /// The user that requested the track.
    pub requester_id: u64,
}

impl Clone for Track {
    fn clone(&self) -> (r: Self)
        ensures
            r == *self,
    {
        Track { track: copy_lavalink_track(&self.track), requester_id: self.requester_id }
    }
}

/// A copy of a Lavalink track.
fn copy_lavalink_track(t: &LavalinkTrack) -> (r: LavalinkTrack)
    ensures
        r == *t,
{
    LavalinkTrack {
        encoded: t.encoded.clone(),
        track: t.track.clone(),
        info: TrackInfo {
            identifier: t.info.identifier.clone(),
            is_seekable: t.info.is_seekable,
            author: t.info.author.clone(),
            length: t.info.length,
            is_stream: t.info.is_stream,
            position: t.info.position,
            title: t.info.title.clone(),
            uri: copy_opt_string(&t.info.uri),
            source_name: t.info.source_name.clone(),
        },
    }
}

/// The track that the users see for a Lavalink track.
pub open spec fn track_view(t: Track) -> QueueTrack {
    QueueTrack {
        length: t.track.info.length,
        author: t.track.info.author,
        title: t.track.info.title,
        uri: t.track.info.uri,
        thumbnail_uri: None,
        requester_id: t.requester_id,
    }
}

impl Track {
    /// The track as the users see it.
    pub fn into(self) -> (r: QueueTrack)
        ensures
            r == track_view(self),
    {
        QueueTrack {
            length: self.track.info.length,
            author: self.track.info.author,
            title: self.track.info.title,
            uri: self.track.info.uri,
            thumbnail_uri: None,
            requester_id: self.requester_id,
        }
    }
}

impl ToTrack for Track {
    /// The track is built from what Lavalink described: it never fails.
    type Error = Infallible;

    open spec fn track_spec(&self) -> Result<QueueTrack, Infallible> {
        Ok(track_view(*self))
    }

    fn track(&self) -> (r: Result<QueueTrack, Infallible>) {
        Ok(self.clone().into())
    }
}

} // verus!
