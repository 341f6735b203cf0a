use hydrogen::engine::{LavalinkMusic, Track as EngineTrack};
use hydrogen::hydrolink::rest::{Track as LavalinkTrack, TrackInfo};
use hydrogen::queue::{Queue, ToTrack, Track};

fn track(n: u32) -> Track {
    Track {
        length: n,
        requester_id: 7,
        title: format!("song {}", n),
        author: "someone".to_string(),
        uri: None,
        thumbnail_uri: None,
    }
}

#[derive(Clone, Debug, PartialEq)]
struct Item(u32);

/// An item whose track cannot be fetched: the numbers from 1000 on.
#[derive(Clone, Debug, PartialEq)]
struct Unavailable(u32);

impl ToTrack for Item {
    type Error = Unavailable;

    fn track_spec(&self) -> Result<Track, Unavailable> {
        self.track()
    }

    fn track(&self) -> Result<Track, Unavailable> {
        if self.0 >= 1000 {
            Err(Unavailable(self.0))
        } else {
            Ok(track(self.0))
        }
    }
}

fn queue_of(n: u32, max: usize) -> Queue<Item> {
    let mut q = Queue::new(max);
    q.add((0..n).map(Item).collect()).unwrap();
    q
}

#[test]
fn new_queue_is_empty_with_autoplay() {
    let q: Queue<Item> = Queue::new(10);
    assert_eq!(q.len(), 0);
    assert_eq!(q.max_size(), 10);
    assert!(q.autoplay());
    assert!(!q.repeat_music() && !q.random_next() && !q.cyclic_queue());
    assert!(q.capacity() >= q.len());
}

#[test]
fn add_truncates_to_the_room_left() {
    let mut q: Queue<Item> = Queue::new(5);
    let first = q.add(vec![Item(1), Item(2), Item(3)]).unwrap();
    assert_eq!(first.offset, 0);
    assert!(!first.truncated);
    assert_eq!(first.track.len(), 3);
    let second = q.add(vec![Item(4), Item(5), Item(6)]).unwrap();
    assert_eq!(second.offset, 3);
    assert!(second.truncated);
    assert_eq!(second.track, vec![track(4), track(5)]);
    assert_eq!(q.len(), 5);
    let third = q.add(vec![Item(7)]).unwrap();
    assert_eq!(third.offset, 0);
    assert!(third.truncated);
    assert!(third.track.is_empty());
    assert_eq!(q.len(), 5);
}

#[test]
fn added_tracks_are_listed_by_queue() {
    let mut q = queue_of(2, 10);
    let added = q.add(vec![Item(10), Item(11), Item(12)]).unwrap();
    assert_eq!(q.queue(added.offset, added.track.len()).unwrap(), added.track);
    assert_eq!(q.queue(1, 2).unwrap(), vec![track(1), track(10)]);
    assert_eq!(q.queue(4, 100).unwrap(), vec![track(12)]);
    assert!(q.queue(99, 3).unwrap().is_empty());
    assert!(q.queue(0, 0).unwrap().is_empty());
}

#[test]
fn set_index_moves_only_onto_an_item() {
    let mut q = queue_of(3, 10);
    assert_eq!(q.set_index(2), Some(Item(2)));
    assert_eq!(q.set_index(3), None);
    q.set_autoplay(true);
    assert_eq!(q.next(), None);
}

#[test]
fn next_moves_on_and_stops_after_the_last() {
    let mut q = queue_of(3, 10);
    assert_eq!(q.next(), Some(Item(1)));
    assert_eq!(q.next(), Some(Item(2)));
    assert_eq!(q.next(), None);
    assert_eq!(q.next(), None);
}

#[test]
fn next_in_a_cycle_starts_over() {
    let mut q = queue_of(2, 10);
    q.set_cyclic_queue(true);
    assert_eq!(q.next(), Some(Item(1)));
    assert_eq!(q.next(), Some(Item(0)));
}

#[test]
fn next_repeats_the_current_item() {
    let mut q = queue_of(3, 10);
    q.set_repeat_music(true);
    assert_eq!(q.next(), Some(Item(0)));
    assert_eq!(q.next(), Some(Item(0)));
}

#[test]
fn next_without_autoplay_gives_nothing() {
    let mut q = queue_of(3, 10);
    q.set_autoplay(false);
    assert_eq!(q.next(), None);
    q.set_autoplay(true);
    assert_eq!(q.next(), Some(Item(2)));
}

#[test]
fn advance_takes_the_drawn_position_when_random() {
    let mut q = queue_of(5, 10);
    q.set_random_next(true);
    assert_eq!(q.advance(3), Some(Item(3)));
    assert_eq!(q.advance(0), Some(Item(0)));
    for _ in 0..20 {
        assert!(q.next().is_some());
    }
}

#[test]
fn shuffle_keeps_the_items_and_the_current_one() {
    let mut q = queue_of(6, 10);
    q.set_index(4);
    assert_eq!(q.shuffle_with(&vec![5, 0, 3, 0, 1, 0]), None);
    let items: Vec<u32> = q.queue(0, 6).unwrap().iter().map(|t| t.length).collect();
    assert_eq!(items, vec![5, 0, 3, 4, 1, 2]);
    q.set_repeat_music(true);
    assert_eq!(q.next(), Some(Item(4)));
    let mut r = queue_of(8, 10);
    r.set_index(6);
    assert_eq!(r.shuffle(), None);
    r.set_repeat_music(true);
    assert_eq!(r.next(), Some(Item(6)));
    let mut all: Vec<u32> = r.queue(0, 8).unwrap().iter().map(|t| t.length).collect();
    all.sort();
    assert_eq!(all, (0..8).collect::<Vec<u32>>());
}

#[test]
fn shuffle_of_an_empty_queue() {
    let mut q: Queue<Item> = Queue::new(3);
    assert_eq!(q.shuffle(), None);
    assert_eq!(q.len(), 0);
}

#[test]
fn lavalink_music_describes_its_track() {
    let value = LavalinkTrack {
        encoded: "QAAA".to_string(),
        track: "QAAA".to_string(),
        info: TrackInfo {
            identifier: "id".to_string(),
            is_seekable: true,
            author: "Artist".to_string(),
            length: 180_000,
            is_stream: false,
            position: 0,
            title: "Title".to_string(),
            uri: Some("https://example.com".to_string()),
            source_name: "http".to_string(),
        },
    };
    let m = LavalinkMusic::new(value, 42);
    assert_eq!(m.encoded_track, "QAAA");
    let t = m.track().unwrap();
    assert_eq!(t.title, "Title");
    assert_eq!(t.author, "Artist");
    assert_eq!(t.length, 180_000);
    assert_eq!(t.requester_id, 42);
    assert_eq!(t.uri.as_deref(), Some("https://example.com"));
    assert_eq!(t.thumbnail_uri, None);
    let mut q = Queue::new(2);
    q.add(vec![m.clone(), m]).unwrap();
    assert_eq!(q.queue(0, 2).unwrap(), vec![t.clone(), t]);
}

#[test]
fn engine_track_shows_title_author_and_requester() {
    let value = LavalinkTrack {
        encoded: "QBBB".to_string(),
        track: String::new(),
        info: TrackInfo {
            identifier: "x".to_string(),
            is_seekable: false,
            author: "A".to_string(),
            length: 42,
            is_stream: true,
            position: 7,
            title: "T".to_string(),
            uri: None,
            source_name: "s".to_string(),
        },
    };
    let t = EngineTrack { track: value, requester_id: 9 };
    let mut q = Queue::new(1);
    q.add(vec![t.clone()]).unwrap();
    let shown = t.into();
    assert_eq!(shown, Track { length: 42, requester_id: 9, title: "T".to_string(), author: "A".to_string(), uri: None, thumbnail_uri: None });
    assert_eq!(q.queue(0, 1).unwrap(), vec![shown]);
}

#[test]
fn a_track_that_cannot_be_fetched_is_reported() {
    let mut q: Queue<Item> = Queue::new(10);
    assert_eq!(q.add(vec![Item(1), Item(1001), Item(1002)]).unwrap_err(), Unavailable(1001));
    assert_eq!(q.len(), 0);
    q.add(vec![Item(1), Item(2)]).unwrap();
    let mut full: Queue<Item> = Queue::new(2);
    full.add(vec![Item(1), Item(2), Item(1003)]).unwrap();
    assert_eq!(full.len(), 2);
    let mut mixed: Queue<Item> = Queue::new(5);
    mixed.add(vec![Item(3)]).unwrap();
    assert_eq!(q.queue(0, 5).unwrap(), vec![track(1), track(2)]);
    assert_eq!(mixed.queue(0, 1).unwrap(), vec![track(3)]);
}
