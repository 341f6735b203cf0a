//! The music player of a guild: its queue, the position of the track that
//! plays, and the decisions taken on skip, previous, next, pause and play.
//! The calls to Lavalink are made by the caller, as the decisions ask.
use vstd::prelude::*;

use crate::chance::random_index;
use crate::lavalink::rest::{
    update_is_empty, LavalinkLoadResultType, LavalinkTrack, LavalinkTrackLoading,
    LavalinkUpdatePlayer, LavalinkVoiceState,
};
use crate::text::{copy_opt_string, push_str, string_from_chars};
use crate::{HYDROGEN_QUEUE_LIMIT, HYDROGEN_SEARCH_PREFIX};

verus! {

/// How the player moves on when a track ends.
#[derive(Debug, Clone, Copy, PartialEq, Eq, Structural)]
pub enum LoopType {
    /// Plays the next track, and stops after the last one.
    Autostart,
    /// Moves to the next track without playing it.
    NoAutostart,
    /// Plays the same track again.
    Music,
    /// Plays the next track, and starts over after the last one.
    Queue,
    /// Plays a track drawn at random.
    Random,
}

/// A track of the queue.
#[derive(Debug)]
pub struct HydrogenMusic {
    /// The track as Lavalink encodes it.
    pub encoded_track: String,
    /// The track length in milliseconds.
    pub length: i32,
    /// The track author.
    pub author: String,
    /// The track title.
    pub title: String,
    /// The track URI.
    pub uri: Option<String>,
    /// The user that requested the track.
    pub requester_id: u64,
}

impl Clone for HydrogenMusic {
    fn clone(&self) -> (r: Self)
        ensures
            r == *self,
    {
        HydrogenMusic {
            encoded_track: self.encoded_track.clone(),
            length: self.length,
            author: self.author.clone(),
            title: self.title.clone(),
            uri: copy_opt_string(&self.uri),
            requester_id: self.requester_id,
        }
    }
}

impl HydrogenMusic {
    /// The music that plays `track` at the request of `requester_id`.
    pub fn from(track: LavalinkTrack, requester_id: u64) -> (r: Self)
        ensures
            r == music_of(track, requester_id),
    {
        HydrogenMusic {
            encoded_track: track.encoded,
            length: track.info.length,
            author: track.info.author,
            title: track.info.title,
            uri: track.info.uri,
            requester_id,
        }
    }
}

/// The music that plays `track` at the request of `requester_id`.
pub open spec fn music_of(track: LavalinkTrack, requester_id: u64) -> HydrogenMusic {
    HydrogenMusic {
        encoded_track: track.encoded,
        length: track.info.length,
        author: track.info.author,
        title: track.info.title,
        uri: track.info.uri,
        requester_id,
    }
}

/// The outcome of a play request.
#[derive(Debug, Clone)]
pub struct HydrogenPlayCommand {
    /// The track that plays now, or else the first track added.
    pub track: Option<HydrogenMusic>,
    /// How many tracks were added.
    pub count: usize,
    /// Whether a track started to play.
    pub playing: bool,
    /// Whether the queue limit cut the request short.
    pub truncated: bool,
}

/// The outcome of a seek request.
#[derive(Debug, Clone)]
pub struct HydrogenSeekCommand {
    /// The position in milliseconds.
    pub position: i32,
    /// The track length in milliseconds.
    pub total: i32,
    /// The track that plays.
    pub track: HydrogenMusic,
}

/// What was added to the queue by a play request.
#[derive(Debug, Clone, Copy)]
pub struct Enqueued {
    /// The position of the first track added, the queue length before.
    pub starting_index: usize,
    /// Whether the queue limit cut the request short.
    pub truncated: bool,
}

/// What to ask Lavalink to pause or resume.
#[derive(Debug, Clone)]
pub struct PausePlan {
    /// The update to send to the player Lavalink has, if it has one.
    pub update: Option<LavalinkUpdatePlayer>,
    /// Whether to start playing the current track afterwards.
    pub start_playing: bool,
}

/// The state of a player.
pub struct PlayerModel {
    /// The tracks, in order.
    pub queue: Seq<HydrogenMusic>,
    /// The position of the current track.
    pub index: int,
    /// Whether the player is paused.
    pub paused: bool,
    /// How the player moves on.
    pub loop_type: LoopType,
}

impl PlayerModel {
    /// What every player keeps: at most the queue limit of tracks, and the
    /// current position on a track or just past the last one.
    pub open spec fn well_formed(self) -> bool {
        &&& self.queue.len() <= HYDROGEN_QUEUE_LIMIT
        &&& 0 <= self.index <= self.queue.len()
    }

    /// The current track, if the position is on one.
    pub open spec fn now(self) -> Option<HydrogenMusic> {
        if 0 <= self.index < self.queue.len() {
            Some(self.queue[self.index])
        } else {
            None
        }
    }

    /// The track at `i`, if there is one.
    pub open spec fn track_at(self, i: int) -> Option<HydrogenMusic> {
        if 0 <= i < self.queue.len() {
            Some(self.queue[i])
        } else {
            None
        }
    }

    /// The position after a skip: the next one, or the first after the last.
    pub open spec fn skipped(self) -> int {
        if self.index + 1 >= self.queue.len() {
            0
        } else {
            self.index + 1
        }
    }

    /// The position after going back: the previous one, or the last before
    /// the first.
    pub open spec fn returned(self) -> int {
        if self.index == 0 {
            self.queue.len() - 1
        } else {
            self.index - 1
        }
    }

    /// Whether moving on can be done without an error: the queue is only
    /// empty when the same track repeats or the queue starts over.
    pub open spec fn can_move_on(self) -> bool {
        self.queue.len() > 0 || self.loop_type == LoopType::Music || self.loop_type
            == LoopType::Queue
    }

    /// The state after a track ends, with `drawn` as the position drawn at
    /// random, and whether the current track is then to be played.
    pub open spec fn moved_on(self, drawn: int) -> (PlayerModel, bool) {
        let len = self.queue.len();
        match self.loop_type {
            LoopType::NoAutostart => {
                let i = if self.index + 1 >= len {
                    len - 1
                } else {
                    self.index + 1
                };
                (PlayerModel { index: i, paused: true, ..self }, false)
            },
            LoopType::Music => (self, true),
            LoopType::Random => (PlayerModel { index: drawn, ..self }, true),
            _ => {
                if self.index + 1 < len {
                    (PlayerModel { index: self.index + 1, ..self }, true)
                } else if self.loop_type == LoopType::Queue {
                    (PlayerModel { index: 0, ..self }, true)
                } else {
                    (PlayerModel { index: len - 1, paused: true, ..self }, false)
                }
            },
        }
    }

    /// The tracks a play request adds: the first one of a search result,
    /// every one otherwise, as many as the queue limit lets in.
    pub open spec fn added(self, loaded: Seq<LavalinkTrack>, search: bool, requester_id: u64) -> Seq<
        HydrogenMusic,
    > {
        let wanted = if search {
            loaded.take(1)
        } else {
            loaded
        };
        let room = HYDROGEN_QUEUE_LIMIT - self.queue.len();
        let n = if wanted.len() > room {
            room
        } else {
            wanted.len() as int
        };
        wanted.take(n).map_values(|t: LavalinkTrack| music_of(t, requester_id))
    }

    /// The position a play request starts from: the selected track of a
    /// playlist, counted from the first track added, when it is in the
    /// queue; else the first track added.
    pub open spec fn start_position(self, starting_index: int, selected_track: Option<i32>) -> int {
        let offset: int = match selected_track {
            Some(s) => if s >= 0 {
                s as int
            } else {
                0
            },
            None => 0,
        };
        if starting_index + offset >= self.queue.len() {
            starting_index
        } else {
            starting_index + offset
        }
    }
}

/// The state of the music player of a guild.
pub struct HydrogenPlayer {
    /// The tracks, in order.
    queue: Vec<HydrogenMusic>,
    /// The position of the current track.
    index: usize,
    /// Whether the player is paused.
    paused: bool,
    /// How the player moves on.
    loop_type: LoopType,
    /// The locale of the guild.
    guild_locale: String,
    /// The text channel the player reports in.
    text_channel_id: u64,
}

impl View for HydrogenPlayer {
    type V = PlayerModel;

    closed spec fn view(&self) -> PlayerModel {
        PlayerModel {
            queue: self.queue@,
            index: self.index as int,
            paused: self.paused,
            loop_type: self.loop_type,
        }
    }
}

/// Whether `u` asks for nothing but to play `encoded` with `voice`, paused
/// or not.
pub open spec fn is_play_update(
    u: LavalinkUpdatePlayer,
    encoded: Seq<char>,
    voice: LavalinkVoiceState,
    paused: bool,
) -> bool {
    &&& u.encoded_track matches Some(Some(t)) && t@ == encoded
    &&& u.paused == Some(paused)
    &&& u.voice == Some(voice)
    &&& u.identifier is None
    &&& u.position is None
    &&& u.end_time is None
    &&& u.volume is None
}

/// Whether `u` asks for nothing but to pause (`paused`) or resume.
pub open spec fn is_pause_update(u: LavalinkUpdatePlayer, paused: bool) -> bool {
    &&& u.paused == Some(paused)
    &&& update_is_empty(LavalinkUpdatePlayer { paused: None, ..u })
}

/// The identifier that searches for `music`.
pub open spec fn search_text(music: Seq<char>) -> Seq<char> {
    HYDROGEN_SEARCH_PREFIX@ + music
}

/// The identifier that searches for `music`, used when loading it as it
/// stands finds nothing.
pub fn search_query(music: &str) -> (r: String)
    ensures
        r@ == search_text(music@),
{
    let mut out: Vec<char> = Vec::new();
    push_str(&mut out, HYDROGEN_SEARCH_PREFIX);
    push_str(&mut out, music);
    string_from_chars(&out)
}

/// Whether loading a query as it stands brought no track, so that it is
/// loaded again as a search (see `search_query`).
pub fn needs_search(loaded: &LavalinkTrackLoading) -> (r: bool)
    ensures
        r == (loaded.tracks@.len() == 0),
{
    loaded.tracks.len() == 0
}

/// Whether Lavalink plays nothing in the guild, so that a play request
/// starts the tracks it added: `player` is `None` when Lavalink has no
/// player for the guild (it answers "not found"), else whether its player
/// has a current track.
pub fn lavalink_not_playing(player: Option<bool>) -> (r: bool)
    ensures
        r == (match player {
            None => true,
            Some(has_track) => !has_track,
        }),
{
    match player {
        None => true,
        Some(has_track) => !has_track,
    }
}

impl HydrogenPlayer {
    /// Whether this player keeps what every player keeps.
    pub open spec fn well_formed(&self) -> bool {
        self@.well_formed()
    }

    /// The locale of the guild.
    pub closed spec fn locale(&self) -> Seq<char> {
        self.guild_locale@
    }

    /// The text channel the player reports in.
    pub closed spec fn channel(&self) -> u64 {
        self.text_channel_id
    }

    /// A player with an empty queue, not paused, that plays the queue once.
    pub fn new(guild_locale: &str, text_channel_id: u64) -> (r: Self)
        ensures
            r.well_formed(),
            r@ == (PlayerModel {
                queue: Seq::empty(),
                index: 0,
                paused: false,
                loop_type: LoopType::Autostart,
            }),
            r.locale() == guild_locale@,
            r.channel() == text_channel_id,
    {
        HydrogenPlayer {
            queue: Vec::new(),
            index: 0,
            paused: false,
            loop_type: LoopType::Autostart,
            guild_locale: guild_locale.to_owned(),
            text_channel_id,
        }
    }

    /// How the player moves on.
    pub fn loop_type(&self) -> (r: LoopType)
        ensures
            r == self@.loop_type,
    {
        self.loop_type
    }

    /// Whether the player can move on after a track ends: its queue has a
    /// track, or the same track or the whole queue repeats.
    pub fn can_move_on(&self) -> (r: bool)
        ensures
            r == self@.can_move_on(),
    {
        self.queue.len() > 0 || self.loop_type == LoopType::Music || self.loop_type
            == LoopType::Queue
    }

    /// Sets how the player moves on.
    pub fn set_loop_type(&mut self, loop_type: LoopType)
        ensures
            final(self)@ == (PlayerModel { loop_type, ..old(self)@ }),
            final(self).locale() == old(self).locale(),
            final(self).channel() == old(self).channel(),
    {
        self.loop_type = loop_type;
    }

    /// Whether the player is paused.
    pub fn pause(&self) -> (r: bool)
        ensures
            r == self@.paused,
    {
        self.paused
    }

    /// Records that the player is paused or not, once Lavalink was told.
    pub fn set_paused(&mut self, paused: bool)
        ensures
            final(self)@ == (PlayerModel { paused, ..old(self)@ }),
            final(self).locale() == old(self).locale(),
            final(self).channel() == old(self).channel(),
    {
        self.paused = paused;
    }

    /// The locale of the guild.
    pub fn guild_locale(&self) -> (r: String)
        ensures
            r@ == self.locale(),
    {
        self.guild_locale.clone()
    }

    /// The text channel the player reports in.
    pub fn text_channel_id(&self) -> (r: u64)
        ensures
            r == self.channel(),
    {
        self.text_channel_id
    }

    /// The current track, if the position is on one.
    pub fn now(&self) -> (r: Option<HydrogenMusic>)
        ensures
            r == self@.now(),
    {
        if self.index < self.queue.len() {
            Some(self.queue[self.index].clone())
        } else {
            None
        }
    }

    /// A copy of the queue.
    pub fn queue(&self) -> (r: Vec<HydrogenMusic>)
        ensures
            r@ == self@.queue,
    {
        let mut out: Vec<HydrogenMusic> = Vec::new();
        let mut k: usize = 0;
        while k < self.queue.len()
            invariant
                k <= self.queue@.len(),
                out@ == self.queue@.take(k as int),
            decreases self.queue@.len() - k,
        {
            out.push(self.queue[k].clone());
            k = k + 1;
            assert(out@ =~= self.queue@.take(k as int));
        }
        assert(self.queue@.take(self.queue@.len() as int) =~= self.queue@);
        out
    }

    /// Moves to the next track, or to the first after the last, and returns
    /// the track there; the caller then starts playing it.
    pub fn skip(&mut self) -> (r: Option<HydrogenMusic>)
        requires
            old(self).well_formed(),
        ensures
            final(self).well_formed(),
            final(self)@ == (PlayerModel { index: old(self)@.skipped(), ..old(self)@ }),
            r == final(self)@.now(),
            final(self).locale() == old(self).locale(),
            final(self).channel() == old(self).channel(),
    {
        let next = self.index + 1;
        if next >= self.queue.len() {
            self.index = 0;
        } else {
            self.index = next;
        }
        self.now()
    }

    /// Moves to the previous track, or to the last before the first, and
    /// returns the track there; the caller then starts playing it.
    pub fn prev(&mut self) -> (r: Option<HydrogenMusic>)
        requires
            old(self).well_formed(),
            old(self)@.queue.len() > 0,
        ensures
            final(self).well_formed(),
            final(self)@ == (PlayerModel { index: old(self)@.returned(), ..old(self)@ }),
            r == final(self)@.now(),
            final(self).locale() == old(self).locale(),
            final(self).channel() == old(self).channel(),
    {
        if self.index == 0 {
            self.index = self.queue.len() - 1;
        } else {
            self.index = self.index - 1;
        }
        self.now()
    }

    /// Moves on after a track ended, with `drawn` as the position drawn at
    /// random when the loop type is random; returns whether the caller is
    /// to start playing the current track.
    pub fn advance(&mut self, drawn: usize) -> (r: bool)
        requires
            old(self).well_formed(),
            old(self)@.can_move_on(),
            old(self)@.loop_type == LoopType::Random ==> drawn < old(self)@.queue.len(),
        ensures
            final(self).well_formed(),
            (final(self)@, r) == old(self)@.moved_on(drawn as int),
            final(self).locale() == old(self).locale(),
            final(self).channel() == old(self).channel(),
    {
        let len = self.queue.len();
        match self.loop_type {
            LoopType::NoAutostart => {
                let next = self.index + 1;
                if next >= len {
                    self.index = len - 1;
                } else {
                    self.index = next;
                }
                self.paused = true;
                false
            },
            LoopType::Music => true,
            LoopType::Random => {
                self.index = drawn;
                true
            },
            _ => {
                let next = self.index + 1;
                if next < len {
                    self.index = next;
                    true
                } else if self.loop_type == LoopType::Queue {
                    self.index = 0;
                    true
                } else {
                    self.index = len - 1;
                    self.paused = true;
                    false
                }
            },
        }
    }

    /// Moves on after a track ended, drawing the next position at random
    /// when the loop type is random; returns whether the caller is to start
    /// playing the current track.
    pub fn next(&mut self) -> (r: bool)
        requires
            old(self).well_formed(),
            old(self)@.can_move_on(),
        ensures
            final(self).well_formed(),
            exists|drawn: int|
                #![trigger old(self)@.moved_on(drawn)]
                (old(self)@.loop_type == LoopType::Random ==> 0 <= drawn < old(self)@.queue.len())
                    && (final(self)@, r) == old(self)@.moved_on(drawn),
            final(self).locale() == old(self).locale(),
            final(self).channel() == old(self).channel(),
    {
        let drawn = if self.loop_type == LoopType::Random {
            random_index(self.queue.len())
        } else {
            0
        };
        let r = self.advance(drawn);
        assert((self@, r) == old(self)@.moved_on(drawn as int));
        r
    }

    /// The update that starts playing the current track with `voice`, if
    /// the position is on a track.
    pub fn playing_update(&self, voice: LavalinkVoiceState) -> (r: Option<LavalinkUpdatePlayer>)
        ensures
            self@.now() is None ==> r is None,
            self@.now() matches Some(m) ==> (r matches Some(u) && is_play_update(
                u,
                m.encoded_track@,
                voice,
                self@.paused,
            )),
    {
        if self.index < self.queue.len() {
            let mut update = LavalinkUpdatePlayer::new();
            update.encoded_track(self.queue[self.index].encoded_track.as_str()).voice_state(
                voice,
            ).paused(self.paused);
            Some(update)
        } else {
            None
        }
    }

    /// What to ask Lavalink to pause (`paused`) or resume, where
    /// `lavalink_player` is whether Lavalink has a player for the guild and,
    /// if so, whether it has a track: an existing player is told; one
    /// without a track that resumes is also given the current track; with no
    /// player, resuming starts playing the current track.
    pub fn pause_plan(
        &self,
        paused: bool,
        lavalink_player: Option<bool>,
        voice: LavalinkVoiceState,
    ) -> (r: PausePlan)
        ensures
            r.start_playing == (lavalink_player is None && !paused),
            lavalink_player is None ==> r.update is None,
            lavalink_player matches Some(has_track) ==> (r.update matches Some(u) && {
                if !has_track && !paused && self@.now() is Some {
                    is_play_update(u, self@.now()->0.encoded_track@, voice, paused)
                } else {
                    is_pause_update(u, paused)
                }
            }),
    {
        let mut update = LavalinkUpdatePlayer::new();
        update.paused(paused);
        match lavalink_player {
            Some(has_track) => {
                if !has_track && !paused && self.index < self.queue.len() {
                    update.encoded_track(self.queue[self.index].encoded_track.as_str()).voice_state(
                        voice,
                    );
                }
                PausePlan { update: Some(update), start_playing: false }
            },
            None => PausePlan { update: None, start_playing: !paused },
        }
    }

    /// Adds the tracks that `loaded` brought at the request of
    /// `requester_id`: the first one of a search result, every one
    /// otherwise, as many as the queue limit lets in. Returns `None`, and
    /// adds nothing, for a search that found nothing.
    pub fn enqueue(&mut self, loaded: &LavalinkTrackLoading, requester_id: u64) -> (r: Option<
        Enqueued,
    >)
        requires
            old(self).well_formed(),
        ensures
            final(self).well_formed(),
            final(self).locale() == old(self).locale(),
            final(self).channel() == old(self).channel(),
            ({
                let search = loaded.load_type == LavalinkLoadResultType::SearchResult;
                if search && loaded.tracks@.len() == 0 {
                    r is None && final(self)@ == old(self)@
                } else {
                    let wanted = if search {
                        1
                    } else {
                        loaded.tracks@.len() as int
                    };
                    let room = HYDROGEN_QUEUE_LIMIT - old(self)@.queue.len();
                    &&& r matches Some(e)
                    &&& e.starting_index == old(self)@.queue.len()
                    &&& e.truncated == (wanted > room)
                    &&& final(self)@ == (PlayerModel {
                        queue: old(self)@.queue + old(self)@.added(
                            loaded.tracks@,
                            search,
                            requester_id,
                        ),
                        ..old(self)@
                    })
                }
            }),
    {
        let search = loaded.load_type == LavalinkLoadResultType::SearchResult;
        if search && loaded.tracks.len() == 0 {
            return None;
        }
        let ghost start = self.queue@;
        let ghost m0 = self@;
        let ghost wanted_seq = if search {
            loaded.tracks@.take(1)
        } else {
            loaded.tracks@
        };
        let wanted: usize = if search {
            1
        } else {
            loaded.tracks.len()
        };
        let starting_index = self.queue.len();
        let mut truncated = false;
        let mut k: usize = 0;
        let ghost locale = self.guild_locale@;
        let ghost channel = self.text_channel_id;
        while k < wanted
            invariant_except_break
                k <= wanted,
                !truncated,
            invariant
                wanted == wanted_seq.len(),
                wanted_seq.len() <= loaded.tracks@.len(),
                forall|j: int| 0 <= j < wanted_seq.len() ==> wanted_seq[j] == loaded.tracks@[j],
                self.queue@ == start + wanted_seq.take(k as int).map_values(
                    |t: LavalinkTrack| music_of(t, requester_id),
                ),
                start.len() + k <= HYDROGEN_QUEUE_LIMIT,
                self.index == m0.index,
                self.paused == m0.paused,
                self.loop_type == m0.loop_type,
                self.guild_locale@ == locale,
                self.text_channel_id == channel,
            ensures
                truncated ==> start.len() + k == HYDROGEN_QUEUE_LIMIT && k < wanted,
                !truncated ==> k == wanted,
            decreases wanted - k,
        {
            if self.queue.len() < HYDROGEN_QUEUE_LIMIT {
                let music = HydrogenMusic::from(loaded.tracks[k].clone(), requester_id);
                self.queue.push(music);
                k = k + 1;
                assert(wanted_seq.take(k as int).map_values(
                    |t: LavalinkTrack| music_of(t, requester_id),
                ) =~= wanted_seq.take((k - 1) as int).map_values(
                    |t: LavalinkTrack| music_of(t, requester_id),
                ).push(music_of(wanted_seq[k - 1], requester_id)));
            } else {
                truncated = true;
                break;
            }
        }
        proof {
            if !truncated {
                assert(wanted_seq.take(k as int) =~= wanted_seq);
            }
            assert(m0.added(loaded.tracks@, search, requester_id) =~= wanted_seq.take(
                k as int,
            ).map_values(|t: LavalinkTrack| music_of(t, requester_id)));
        }
        Some(Enqueued { starting_index, truncated })
    }

    /// Moves to where a play request starts from: the selected track of a
    /// playlist, counted from the first track added, when it is in the
    /// queue, else the first track added. Returns whether there is a track
    /// there for the caller to start playing.
    pub fn start_from(&mut self, starting_index: usize, selected_track: Option<i32>) -> (r: bool)
        requires
            old(self).well_formed(),
            starting_index <= old(self)@.queue.len(),
        ensures
            final(self).well_formed(),
            final(self)@ == (PlayerModel {
                index: old(self)@.start_position(starting_index as int, selected_track),
                ..old(self)@
            }),
            r == (final(self)@.now() is Some),
            final(self).locale() == old(self).locale(),
            final(self).channel() == old(self).channel(),
    {
        let offset: usize = match selected_track {
            Some(s) => if s >= 0 {
                s as usize
            } else {
                0
            },
            None => 0,
        };
        let index = starting_index + offset;
        if index >= self.queue.len() {
            self.index = starting_index;
        } else {
            self.index = index;
        }
        self.index < self.queue.len()
    }

    /// The outcome of a play request whose tracks were added from
    /// `starting_index` on: the track that plays, if one `started`, else the
    /// first track added.
    pub fn play_command(&self, starting_index: usize, started: bool, truncated: bool) -> (r:
        HydrogenPlayCommand)
        requires
            self.well_formed(),
            starting_index <= self@.queue.len(),
        ensures
            r.track == (if started {
                self@.now()
            } else {
                self@.track_at(starting_index as int)
            }),
            r.count == self@.queue.len() - starting_index,
            r.playing == started,
            r.truncated == truncated,
    {
        let track = if started {
            self.now()
        } else if starting_index < self.queue.len() {
            Some(self.queue[starting_index].clone())
        } else {
            None
        };
        HydrogenPlayCommand {
            track,
            count: self.queue.len() - starting_index,
            playing: started,
            truncated,
        }
    }

    /// The outcome of a seek, given the position and length of the track
    /// that Lavalink plays, if it plays one.
    pub fn seek_command(&self, lavalink_track: Option<(i32, i32)>) -> (r: Option<
        HydrogenSeekCommand,
    >)
        ensures
            (lavalink_track is None || self@.now() is None) ==> r is None,
            lavalink_track matches Some((position, total)) ==> (self@.now() matches Some(m) ==> r
                == Some(HydrogenSeekCommand { position, total, track: m })),
    {
        match lavalink_track {
            Some((position, total)) => match self.now() {
                Some(track) => Some(HydrogenSeekCommand { position, total, track }),
                None => None,
            },
            None => None,
        }
    }
}

/// Skipping and then going back, or going back and then skipping, comes
/// back to the track that played.
pub proof fn lemma_skip_prev_inverse(m: PlayerModel)
    requires
        m.well_formed(),
        0 <= m.index < m.queue.len(),
    ensures
        (PlayerModel { index: m.skipped(), ..m }).returned() == m.index,
        (PlayerModel { index: m.returned(), ..m }).skipped() == m.index,
{
}

/// When a track ends: the same track plays again with the music loop, the
/// next one or the first one plays with the queue loop, and nothing plays,
/// the player pausing, with no autostart.
pub proof fn lemma_loop_types(m: PlayerModel, drawn: int)
    requires
        m.well_formed(),
        m.can_move_on(),
    ensures
        m.loop_type == LoopType::Music ==> m.moved_on(drawn) == (m, true),
        m.loop_type == LoopType::Queue ==> m.moved_on(drawn).1 && m.moved_on(drawn).0.index == (
        if m.index + 1 < m.queue.len() {
            m.index + 1
        } else {
            0
        }),
        m.loop_type == LoopType::NoAutostart ==> !m.moved_on(drawn).1 && m.moved_on(
            drawn,
        ).0.paused,
        m.loop_type == LoopType::Random ==> m.moved_on(drawn).1 && m.moved_on(drawn).0.index
            == drawn,
{
}

} // verus!
