//! A queue of tracks kept in memory, for any engine that has none of its
//! own: which track plays now, how the next one is chosen, how new tracks
//! are added and how the queue is shuffled.
use vstd::prelude::*;

use crate::chance::random_index;
use crate::text::copy_opt_string;

verus! {

/// Information about a track in the queue.
#[derive(Debug, PartialEq, Eq)]
pub struct Track {
    /// Track length in seconds.
    pub length: u32,
    /// The user that requested this track.
    pub requester_id: u64,
    /// Track title.
    pub title: String,
    /// Author of this track.
    pub author: String,
    /// URI where the users can find this track.
    pub uri: Option<String>,
    /// URI of the thumbnail of this track.
    pub thumbnail_uri: Option<String>,
}

impl Clone for Track {
    fn clone(&self) -> (r: Self)
        ensures
            r == *self,
    {
        Track {
            length: self.length,
            requester_id: self.requester_id,
            title: self.title.clone(),
            author: self.author.clone(),
            uri: copy_opt_string(&self.uri),
            thumbnail_uri: copy_opt_string(&self.thumbnail_uri),
        }
    }
}

/// Where and what was added to the queue.
#[derive(Debug, Clone)]
pub struct QueueAdd {
    /// The tracks that were added.
    pub track: Vec<Track>,
    /// The position in the queue of the first track added.
    pub offset: usize,
    /// Whether the queue's size limit was reached.
    pub truncated: bool,
}

/// The track that plays now.
#[derive(Debug, Clone)]
pub struct TrackPlaying {
    /// The playback position in seconds.
    pub position: usize,
    /// The track length in seconds.
    pub total: usize,
    /// The track.
    pub track: Track,
    /// The position of the track in the queue.
    pub index: usize,
}

/// A simple representation of a Discord voice state.
#[derive(Debug, Clone)]
pub struct VoiceState {
    /// The voice channel of this voice state.
    pub channel_id: Option<u64>,
    /// The session of this voice state.
    pub session_id: String,
    /// The token of this voice state.
    pub token: Option<String>,
}

/// Something that the queue can describe as a [`Track`], fetching it if
/// need be.
pub trait ToTrack {
    /// What fetching the track of an item can fail with.
    type Error;

    /// The track that describes this item, or why it cannot be had.
    spec fn track_spec(&self) -> Result<Track, Self::Error>;

    /// Describes this item as a track.
    fn track(&self) -> (r: Result<Track, Self::Error>)
        ensures
            r == self.track_spec(),
    ;
}

/// The tracks that describe `items`, in order, when each item gives one;
/// else the error of the first item that fails.
pub open spec fn tracks_of<T: ToTrack>(items: Seq<T>) -> Result<Seq<Track>, T::Error>
    decreases items.len(),
{
    if items.len() == 0 {
        Ok(Seq::empty())
    } else {
        match tracks_of(items.drop_last()) {
            Err(e) => Err(e),
            Ok(tracks) => match items.last().track_spec() {
                Ok(t) => Ok(tracks.push(t)),
                Err(e) => Err(e),
            },
        }
    }
}

/// Once an item fails, the tracks of every longer prefix fail with its
/// error.
proof fn lemma_first_error_stays<T: ToTrack>(items: Seq<T>, i: int, j: int)
    requires
        0 <= i <= j <= items.len(),
        tracks_of(items.take(i)) is Err,
    ensures
        tracks_of(items.take(j)) == tracks_of(items.take(i)),
    decreases j - i,
{
    if j > i {
        lemma_first_error_stays(items, i, j - 1);
        assert(items.take(j).drop_last() =~= items.take(j - 1));
    }
}

/// The tracks of the first `k` items, then of one item more.
proof fn lemma_tracks_step<T: ToTrack>(items: Seq<T>, k: int)
    requires
        0 <= k < items.len(),
    ensures
        tracks_of(items.take(k + 1)) == (match tracks_of(items.take(k)) {
            Err(e) => Err(e),
            Ok(tracks) => match items[k].track_spec() {
                Ok(t) => Ok(tracks.push(t)),
                Err(e) => Err(e),
            },
        }),
{
    assert(items.take(k + 1).drop_last() =~= items.take(k));
    assert(items.take(k + 1).last() == items[k]);
}

/// The state of a queue.
pub struct QueueModel<T> {
    /// The items, in order.
    pub items: Seq<T>,
    /// The position of the current item.
    pub index: int,
    /// How many items the queue can hold.
    pub max_size: int,
    /// Whether the current item repeats.
    pub repeat_music: bool,
    /// Whether the next item is drawn at random.
    pub random_next: bool,
    /// Whether the queue starts over after its last item.
    pub cyclic_queue: bool,
    /// Whether the next item plays by itself.
    pub autoplay: bool,
}

impl<T> QueueModel<T> {
    /// What every queue keeps: at most `max_size` items, and the current
    /// position on an item, or at the start of an empty queue.
    pub open spec fn well_formed(self) -> bool {
        &&& self.items.len() <= self.max_size
        &&& (0 <= self.index < self.items.len() || (self.index == 0 && self.items.len() == 0))
    }

    /// Whether moving on stops at the last item instead of playing on.
    pub open spec fn stops_at_end(self) -> bool {
        &&& !self.repeat_music
        &&& !self.random_next
        &&& self.index + 1 >= self.items.len()
        &&& !self.cyclic_queue
    }

    /// The position after moving on, where `drawn` is the position drawn at
    /// random when the next item is random.
    pub open spec fn next_position(self, drawn: int) -> int {
        if self.repeat_music {
            self.index
        } else if self.random_next {
            drawn
        } else if self.index + 1 < self.items.len() {
            self.index + 1
        } else if self.cyclic_queue {
            0
        } else {
            self.items.len() - 1
        }
    }

    /// Whether moving on can be done without an error: the queue is only
    /// empty when the current item repeats or the queue starts over.
    pub open spec fn can_move_on(self) -> bool {
        self.items.len() > 0 || self.repeat_music || (!self.random_next && self.cyclic_queue)
    }

    /// What moving on gives: with `drawn` as the random position, the state
    /// becomes `after` and the call returns `r`, a clone of the item that
    /// plays now, or `None` when nothing plays by itself.
    pub open spec fn moved_on(self, drawn: int, after: QueueModel<T>, r: Option<T>) -> bool where
        T: Clone,
     {
        let i = self.next_position(drawn);
        &&& after == (QueueModel { index: i, ..self })
        &&& if self.autoplay && !self.stops_at_end() && 0 <= i < self.items.len() {
            r matches Some(t) && cloned(self.items[i], t)
        } else {
            r is None
        }
    }
}

/// The order in which drawing `picks[k]` from the items left, each time
/// moving the last item into the hole, takes the items out.
pub open spec fn shuffled<A>(items: Seq<A>, picks: Seq<usize>) -> Seq<A>
    decreases items.len(),
{
    if items.len() == 0 {
        Seq::empty()
    } else {
        let i = if (picks[0] as int) < items.len() {
            picks[0] as int
        } else {
            0
        };
        seq![items[i]] + shuffled(items.update(i, items.last()).drop_last(), picks.drop_first())
    }
}

/// Whether each of `picks` is a position among the items left at its turn.
pub open spec fn picks_fit(len: nat, picks: Seq<usize>) -> bool {
    &&& picks.len() >= len
    &&& forall|k: int| 0 <= k < len ==> (#[trigger] picks[k]) < len - k
}

/// Taking an item out as `swap_remove` does leaves the other items.
proof fn lemma_swap_remove_multiset<A>(s: Seq<A>, i: int)
    requires
        0 <= i < s.len(),
    ensures
        s.update(i, s.last()).drop_last().to_multiset() == s.to_multiset().remove(s[i]),
{
    broadcast use vstd::seq_lib::group_to_multiset_ensures;
    broadcast use vstd::multiset::group_multiset_properties;

    let last = s.len() - 1;
    if i == last {
        assert(s.update(i, s.last()) =~= s);
        assert(s.drop_last() =~= s.remove(last));
    } else {
        let u = s.update(i, s.last());
        assert(u.drop_last() =~= u.remove(last));
        assert(u[last] == s.last());
        assert(u.to_multiset() == s.to_multiset().insert(s.last()).remove(s[i]));
        assert(u.remove(last).to_multiset() == u.to_multiset().remove(s.last()));
        assert(s.to_multiset().count(s.last()) > 0) by {
            assert(s.contains(s.last()));
        }
        assert(s.to_multiset().count(s[i]) > 0) by {
            assert(s.contains(s[i]));
        }
        assert(s.to_multiset().insert(s.last()).remove(s[i]).remove(s.last())
            =~= s.to_multiset().remove(s[i]));
    }
}

/// Shuffling keeps every item, as many times as it was there.
pub proof fn lemma_shuffled_is_permutation<A>(items: Seq<A>, picks: Seq<usize>)
    ensures
        shuffled(items, picks).to_multiset() == items.to_multiset(),
        shuffled(items, picks).len() == items.len(),
    decreases items.len(),
{
    broadcast use vstd::seq_lib::group_to_multiset_ensures;
    broadcast use vstd::multiset::group_multiset_properties;

    if items.len() > 0 {
        let i = if (picks[0] as int) < items.len() {
            picks[0] as int
        } else {
            0
        };
        let rest = items.update(i, items.last()).drop_last();
        lemma_shuffled_is_permutation(rest, picks.drop_first());
        lemma_swap_remove_multiset(items, i);
        let tail = shuffled(rest, picks.drop_first());
        vstd::seq_lib::lemma_multiset_commutative(seq![items[i]], tail);
        assert(seq![items[i]].to_multiset() =~= vstd::multiset::Multiset::empty().insert(items[i])) by {
            assert(seq![items[i]] =~= Seq::<A>::empty().push(items[i]));
        }
        assert(items.to_multiset().count(items[i]) > 0) by {
            assert(items.contains(items[i]));
        }
        assert(shuffled(items, picks).to_multiset() =~= items.to_multiset());
    }
}

/// A queue of items kept in memory, with the position of the one that plays
/// now and the rules for moving on.
pub struct Queue<T> {
    /// The items, in order.
    queue: Vec<T>,
    /// Whether the index is kept when moving on.
    repeat_music: bool,
    /// Whether the index is drawn at random when moving on.
    random_next: bool,
    /// Whether the index goes back to zero after the last item.
    cyclic_queue: bool,
    /// Whether the next item plays as soon as the index moves.
    autoplay: bool,
    /// The position of the current item.
    index: usize,
    /// How many items the queue can hold.
    max_size: usize,
}

impl<T> View for Queue<T> {
    type V = QueueModel<T>;

    closed spec fn view(&self) -> QueueModel<T> {
        QueueModel {
            items: self.queue@,
            index: self.index as int,
            max_size: self.max_size as int,
            repeat_music: self.repeat_music,
            random_next: self.random_next,
            cyclic_queue: self.cyclic_queue,
            autoplay: self.autoplay,
        }
    }
}

/// The capacity of a vector.
///
/// Trusted: calls `Vec::capacity`, which std documents as the number of
/// elements the vector can hold without reallocating; the contract claims
/// only that it is at least the length.
#[verifier::external_body]
fn vec_capacity<T>(v: &Vec<T>) -> (r: usize)
    ensures
        r >= v.len(),
{
    v.capacity()
}

impl<T: ToTrack + Clone> Queue<T> {
    /// Whether this queue keeps what every queue keeps.
    pub open spec fn well_formed(&self) -> bool {
        self@.well_formed()
    }

    /// Creates an empty queue that can hold `max_size` items, with autoplay
    /// on and every other rule off.
    pub fn new(max_size: usize) -> (r: Self)
        ensures
            r.well_formed(),
            r@ == (QueueModel::<T> {
                items: Seq::empty(),
                index: 0,
                max_size: max_size as int,
                repeat_music: false,
                random_next: false,
                cyclic_queue: false,
                autoplay: true,
            }),
    {
        Queue {
            queue: Vec::new(),
            repeat_music: false,
            random_next: false,
            cyclic_queue: false,
            autoplay: true,
            index: 0,
            max_size,
        }
    }

    /// How many items can be placed in this queue.
    pub fn max_size(&self) -> (r: usize)
        ensures
            r == self@.max_size,
    {
        self.max_size
    }

    /// How many items the queue holds.
    pub fn len(&self) -> (r: usize)
        ensures
            r == self@.items.len(),
    {
        self.queue.len()
    }

    /// How many items the queue can hold without reallocating.
    pub fn capacity(&self) -> (r: usize)
        ensures
            r >= self@.items.len(),
    {
        vec_capacity(&self.queue)
    }

    /// Whether the current item repeats.
    pub fn repeat_music(&self) -> (r: bool)
        ensures
            r == self@.repeat_music,
    {
        self.repeat_music
    }

    /// Whether the next item is drawn at random.
    pub fn random_next(&self) -> (r: bool)
        ensures
            r == self@.random_next,
    {
        self.random_next
    }

    /// Whether the queue starts over instead of stopping on its last item.
    pub fn cyclic_queue(&self) -> (r: bool)
        ensures
            r == self@.cyclic_queue,
    {
        self.cyclic_queue
    }

    /// Whether the next item plays by itself.
    pub fn autoplay(&self) -> (r: bool)
        ensures
            r == self@.autoplay,
    {
        self.autoplay
    }

    /// Sets whether the current item repeats.
    pub fn set_repeat_music(&mut self, repeat_music: bool)
        ensures
            final(self)@ == (QueueModel { repeat_music, ..old(self)@ }),
    {
        self.repeat_music = repeat_music;
    }

    /// Sets whether the next item is drawn at random.
    pub fn set_random_next(&mut self, random_next: bool)
        ensures
            final(self)@ == (QueueModel { random_next, ..old(self)@ }),
    {
        self.random_next = random_next;
    }

    /// Sets whether the queue starts over after its last item.
    pub fn set_cyclic_queue(&mut self, cyclic_queue: bool)
        ensures
            final(self)@ == (QueueModel { cyclic_queue, ..old(self)@ }),
    {
        self.cyclic_queue = cyclic_queue;
    }

    /// Sets whether the next item plays by itself.
    pub fn set_autoplay(&mut self, autoplay: bool)
        ensures
            final(self)@ == (QueueModel { autoplay, ..old(self)@ }),
    {
        self.autoplay = autoplay;
    }

    /// Moves to `new_index`, returning the item that plays now, or `None`
    /// and no change when there is no item there.
    pub fn set_index(&mut self, new_index: usize) -> (r: Option<T>)
        requires
            old(self).well_formed(),
        ensures
            final(self).well_formed(),
            new_index < old(self)@.items.len() ==> final(self)@ == (QueueModel {
                index: new_index as int,
                ..old(self)@
            }) && (r matches Some(t) && cloned(old(self)@.items[new_index as int], t)),
            new_index >= old(self)@.items.len() ==> final(self)@ == old(self)@ && r is None,
    {
        if new_index < self.queue.len() {
            self.index = new_index;
            Some(self.queue[new_index].clone())
        } else {
            None
        }
    }

    /// Moves on to the next item, with `drawn` as the position drawn at
    /// random when the next item is random, and returns the item that plays
    /// now, or `None` when nothing plays by itself.
    pub fn advance(&mut self, drawn: usize) -> (r: Option<T>)
        requires
            old(self).well_formed(),
            old(self)@.can_move_on(),
            !old(self)@.repeat_music && old(self)@.random_next ==> drawn < old(self)@.items.len(),
        ensures
            final(self).well_formed(),
            old(self)@.moved_on(drawn as int, final(self)@, r),
    {
        let len = self.queue.len();
        let mut stop = false;
        if !self.repeat_music {
            if self.random_next {
                self.index = drawn;
            } else if self.index + 1 < len {
                self.index = self.index + 1;
            } else if self.cyclic_queue {
                self.index = 0;
            } else {
                self.index = len - 1;
                stop = true;
            }
        }
        if !stop && self.autoplay && self.index < len {
            Some(self.queue[self.index].clone())
        } else {
            None
        }
    }

    /// Moves on to the next item, drawing it at random when the next item
    /// is random, and returns the item that plays now, or `None` when
    /// nothing plays by itself.
    pub fn next(&mut self) -> (r: Option<T>)
        requires
            old(self).well_formed(),
            old(self)@.can_move_on(),
        ensures
            final(self).well_formed(),
            exists|drawn: int|
                #![trigger old(self)@.next_position(drawn)]
                (!old(self)@.repeat_music && old(self)@.random_next ==> 0 <= drawn
                    < old(self)@.items.len()) && old(self)@.moved_on(drawn, final(self)@, r),
    {
        let drawn = if !self.repeat_music && self.random_next {
            random_index(self.queue.len())
        } else {
            0
        };
        let r = self.advance(drawn);
        assert(old(self)@.next_position(drawn as int) == self@.index);
        r
    }

    /// Adds `songs` at the end of the queue, as many as fit, and reports
    /// their tracks; when the track of one of them cannot be had, adds
    /// nothing and returns the error of the first that fails.
    #[verifier::loop_isolation(false)]
    pub fn add(&mut self, songs: Vec<T>) -> (r: Result<QueueAdd, T::Error>)
        requires
            old(self).well_formed(),
        ensures
            final(self).well_formed(),
            old(self)@.items.len() >= old(self)@.max_size ==> final(self)@ == old(self)@ && r is Ok
                && r->Ok_0.offset == 0 && r->Ok_0.track@.len() == 0 && r->Ok_0.truncated,
            old(self)@.items.len() < old(self)@.max_size ==> {
                let room = old(self)@.max_size - old(self)@.items.len();
                let n = if songs@.len() > room {
                    room
                } else {
                    songs@.len() as int
                };
                match tracks_of(songs@.take(n)) {
                    Err(e) => r == Err::<QueueAdd, T::Error>(e) && final(self)@ == old(self)@,
                    Ok(tracks) => {
                        &&& r is Ok
                        &&& final(self)@ == (QueueModel {
                            items: old(self)@.items + songs@.take(n),
                            ..old(self)@
                        })
                        &&& r->Ok_0.offset == old(self)@.items.len()
                        &&& r->Ok_0.truncated == (songs@.len() > room)
                        &&& r->Ok_0.track@ == tracks
                    },
                }
            },
    {
        let len = self.queue.len();
        if len >= self.max_size {
            return Ok(QueueAdd { offset: 0, track: Vec::new(), truncated: true });
        }
        let mut songs = songs;
        let room = self.max_size - len;
        let mut truncated = false;
        if songs.len() > room {
            truncated = true;
            songs.truncate(room);
        }
        let mut tracks: Vec<Track> = Vec::new();
        let mut k: usize = 0;
        assert(songs@.take(0) =~= Seq::<T>::empty());
        while k < songs.len()
            invariant
                k <= songs.len(),
                tracks_of(songs@.take(k as int)) == Ok::<Seq<Track>, T::Error>(tracks@),
            decreases songs.len() - k,
        {
            proof {
                lemma_tracks_step(songs@, k as int);
            }
            match songs[k].track() {
                Ok(t) => tracks.push(t),
                Err(e) => {
                    proof {
                        lemma_first_error_stays(songs@, k + 1, songs@.len() as int);
                        assert(songs@.take(songs@.len() as int) =~= songs@);
                    }
                    return Err(e);
                },
            }
            k = k + 1;
        }
        assert(songs@.take(songs@.len() as int) =~= songs@);
        self.queue.append(&mut songs);
        Ok(QueueAdd { track: tracks, offset: len, truncated })
    }

    /// The tracks of up to `size` items from position `offset` on, or the
    /// error of the first of them whose track cannot be had.
    #[verifier::loop_isolation(false)]
    pub fn queue(&self, offset: usize, size: usize) -> (r: Result<Vec<Track>, T::Error>)
        ensures
            ({
                let len = self@.items.len();
                let lo = if offset < len {
                    offset as int
                } else {
                    len as int
                };
                let hi = if size < len - lo {
                    lo + size
                } else {
                    len as int
                };
                tracks_of(self@.items.subrange(lo, hi)) == (match r {
                    Ok(tracks) => Ok::<Seq<Track>, T::Error>(tracks@),
                    Err(e) => Err(e),
                })
            }),
    {
        let len = self.queue.len();
        let lo = if offset < len {
            offset
        } else {
            len
        };
        let hi = if size < len - lo {
            lo + size
        } else {
            len
        };
        let ghost part = self.queue@.subrange(lo as int, hi as int);
        let mut out: Vec<Track> = Vec::new();
        let mut k: usize = lo;
        assert(part.take(0) =~= Seq::<T>::empty());
        while k < hi
            invariant
                lo <= k <= hi <= len,
                len == self.queue@.len(),
                part == self.queue@.subrange(lo as int, hi as int),
                tracks_of(part.take(k - lo)) == Ok::<Seq<Track>, T::Error>(out@),
            decreases hi - k,
        {
            proof {
                lemma_tracks_step(part, k - lo);
                assert(part[k - lo] == self.queue@[k as int]);
            }
            match self.queue[k].track() {
                Ok(t) => out.push(t),
                Err(e) => {
                    proof {
                        lemma_first_error_stays(part, k + 1 - lo, part.len() as int);
                        assert(part.take(part.len() as int) =~= part);
                    }
                    return Err(e);
                },
            }
            k = k + 1;
        }
        assert(part.take(part.len() as int) =~= part);
        Ok(out)
    }

    /// Shuffles the queue, taking out `picks[k]` among the items left at
    /// each turn; the current item stays current at its new position.
    /// Returns `None`: the item that plays now does not change.
    pub fn shuffle_with(&mut self, picks: &Vec<usize>) -> (r: Option<T>)
        requires
            old(self).well_formed(),
            picks_fit(old(self)@.items.len(), picks@),
        ensures
            final(self).well_formed(),
            r is None,
            final(self)@ == (QueueModel {
                items: shuffled(old(self)@.items, picks@),
                index: final(self)@.index,
                ..old(self)@
            }),
            final(self)@.items.to_multiset() == old(self)@.items.to_multiset(),
            old(self)@.items.len() > 0 ==> final(self)@.items[final(self)@.index]
                == old(self)@.items[old(self)@.index],
    {
        let ghost start = self.queue@;
        let n = self.queue.len();
        let mut left: Vec<T> = Vec::new();
        std::mem::swap(&mut left, &mut self.queue);
        let mut out: Vec<T> = Vec::new();
        let mut tracking = n > 0;
        let mut cur: usize = self.index;
        let mut new_index: usize = 0;
        let ghost target = start[self.index as int];
        let mut k: usize = 0;
        assert(picks@.skip(0) =~= picks@);
        while left.len() > 0
            invariant
                k + left@.len() == n,
                n == start.len(),
                picks_fit(n as nat, picks@),
                out@ + shuffled(left@, picks@.skip(k as int)) == shuffled(start, picks@),
                tracking ==> cur < left@.len() && left@[cur as int] == target,
                !tracking && n > 0 ==> new_index < out@.len() && out@[new_index as int] == target,
                n == 0 ==> !tracking && new_index == 0,
                out@.len() == k,
            decreases left@.len(),
        {
            let ghost before = left@;
            let ghost rest = picks@.skip(k as int);
            assert(rest[0] == picks@[k as int]);
            let i = picks[k];
            let last = left.len() - 1;
            let item = left.swap_remove(i);
            assert(left@ == before.update(i as int, before.last()).drop_last());
            assert(rest.drop_first() =~= picks@.skip(k + 1));
            assert(shuffled(before, rest) == seq![before[i as int]] + shuffled(left@, rest.drop_first()));
            if tracking {
                if cur == i {
                    tracking = false;
                    new_index = out.len();
                } else if cur == last {
                    cur = i;
                }
            }
            out.push(item);
            k = k + 1;
            assert(out@ + shuffled(left@, picks@.skip(k as int)) =~= shuffled(start, picks@));
        }
        self.queue = out;
        if n > 0 {
            self.index = new_index;
        } else {
            self.index = 0;
        }
        proof {
            lemma_shuffled_is_permutation(start, picks@);
            assert(self.queue@ =~= shuffled(start, picks@));
        }
        None
    }

    /// Shuffles the queue at random, taking out an item drawn among those
    /// left at each turn; the current item stays current at its new
    /// position. Returns `None`: the item that plays now does not change.
    pub fn shuffle(&mut self) -> (r: Option<T>)
        requires
            old(self).well_formed(),
        ensures
            final(self).well_formed(),
            r is None,
            final(self)@ == (QueueModel {
                items: final(self)@.items,
                index: final(self)@.index,
                ..old(self)@
            }),
            final(self)@.items.to_multiset() == old(self)@.items.to_multiset(),
            old(self)@.items.len() > 0 ==> final(self)@.items[final(self)@.index]
                == old(self)@.items[old(self)@.index],
            exists|picks: Seq<usize>|
                #![trigger shuffled(old(self)@.items, picks)]
                picks_fit(old(self)@.items.len(), picks) && final(self)@.items == shuffled(
                    old(self)@.items,
                    picks,
                ),
    {
        let n = self.queue.len();
        let mut picks: Vec<usize> = Vec::new();
        let mut k: usize = 0;
        while k < n
            invariant
                k <= n,
                picks@.len() == k,
                forall|j: int| 0 <= j < k ==> (#[trigger] picks@[j]) < n - j,
            decreases n - k,
        {
            let p = random_index(n - k);
            picks.push(p);
            k = k + 1;
        }
        let r = self.shuffle_with(&picks);
        assert(picks_fit(old(self)@.items.len(), picks@));
        assert(self@.items == shuffled(old(self)@.items, picks@));
        r
    }
}

/// The tracks that adding reports are the ones the queue lists from the
/// offset it reports: what `add` added, `queue` gives back.
pub proof fn lemma_added_tracks_listed<T: ToTrack>(before: Seq<T>, added: Seq<T>)
    ensures
        tracks_of((before + added).subrange(before.len() as int, (before.len() + added.len()) as int))
            == tracks_of(added),
{
    assert((before + added).subrange(before.len() as int, (before.len() + added.len()) as int)
        =~= added);
}

} // verus!
