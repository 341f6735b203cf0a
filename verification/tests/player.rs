use hydrogen::lavalink::rest::{
    LavalinkLoadResultType, LavalinkPlaylistInfo, LavalinkTrack, LavalinkTrackInfo,
    LavalinkTrackLoading, LavalinkVoiceState,
};
use hydrogen::player::{lavalink_not_playing, needs_search, search_query, HydrogenMusic, HydrogenPlayer, LoopType};
use hydrogen::HYDROGEN_QUEUE_LIMIT;

fn lavalink_track(n: usize) -> LavalinkTrack {
    LavalinkTrack {
        encoded: format!("enc{}", n),
        track: format!("enc{}", n),
        info: LavalinkTrackInfo {
            identifier: format!("id{}", n),
            is_seekable: true,
            author: "Author".to_string(),
            length: 1000,
            is_stream: false,
            position: 0,
            title: format!("Song {}", n),
            uri: None,
            source_name: "youtube".to_string(),
        },
    }
}

fn loading(n: usize, load_type: LavalinkLoadResultType, selected: Option<i32>) -> LavalinkTrackLoading {
    LavalinkTrackLoading {
        playlist_info: LavalinkPlaylistInfo { name: None, selected_track: selected },
        tracks: (0..n).map(lavalink_track).collect(),
        exception: None,
        load_type,
    }
}

fn player_with(n: usize) -> HydrogenPlayer {
    let mut p = HydrogenPlayer::new("pt-BR", 99);
    p.enqueue(&loading(n, LavalinkLoadResultType::PlaylistLoaded, None), 5).unwrap();
    p
}

fn voice() -> LavalinkVoiceState {
    LavalinkVoiceState::new("token", "endpoint", "session")
}

#[test]
fn new_player_is_empty() {
    let p = HydrogenPlayer::new("pt-BR", 99);
    assert!(p.queue().is_empty());
    assert!(p.now().is_none());
    assert!(!p.pause());
    assert_eq!(p.loop_type(), LoopType::Autostart);
    assert_eq!(p.guild_locale(), "pt-BR");
    assert_eq!(p.text_channel_id(), 99);
}

#[test]
fn music_from_a_lavalink_track() {
    let m = HydrogenMusic::from(lavalink_track(3), 8);
    assert_eq!(m.encoded_track, "enc3");
    assert_eq!(m.title, "Song 3");
    assert_eq!(m.requester_id, 8);
    assert_eq!(m.length, 1000);
}

#[test]
fn search_adds_only_the_first_track() {
    let mut p = HydrogenPlayer::new("en-US", 1);
    let e = p.enqueue(&loading(4, LavalinkLoadResultType::SearchResult, None), 5).unwrap();
    assert_eq!(e.starting_index, 0);
    assert!(!e.truncated);
    assert_eq!(p.queue().len(), 1);
    assert!(p.enqueue(&loading(0, LavalinkLoadResultType::SearchResult, None), 5).is_none());
    assert_eq!(p.queue().len(), 1);
}

#[test]
fn enqueue_stops_at_the_queue_limit() {
    let mut p = player_with(HYDROGEN_QUEUE_LIMIT - 2);
    let e = p.enqueue(&loading(5, LavalinkLoadResultType::PlaylistLoaded, None), 5).unwrap();
    assert_eq!(e.starting_index, HYDROGEN_QUEUE_LIMIT - 2);
    assert!(e.truncated);
    assert_eq!(p.queue().len(), HYDROGEN_QUEUE_LIMIT);
    let full = p.enqueue(&loading(1, LavalinkLoadResultType::TrackLoaded, None), 5).unwrap();
    assert!(full.truncated);
    assert_eq!(full.starting_index, HYDROGEN_QUEUE_LIMIT);
}

#[test]
fn play_starts_from_the_selected_track() {
    let mut p = player_with(2);
    let e = p.enqueue(&loading(3, LavalinkLoadResultType::PlaylistLoaded, Some(1)), 5).unwrap();
    assert!(p.start_from(e.starting_index, Some(1)));
    assert_eq!(p.now().unwrap().title, "Song 1");
    let c = p.play_command(e.starting_index, true, e.truncated);
    assert_eq!(c.count, 3);
    assert!(c.playing);
    assert_eq!(c.track.unwrap().encoded_track, "enc1");
    assert!(p.start_from(e.starting_index, Some(7)));
    assert_eq!(p.now().unwrap().encoded_track, "enc0");
    assert!(p.start_from(e.starting_index, Some(-3)));
    assert_eq!(p.now().unwrap().encoded_track, "enc0");
}

#[test]
fn play_command_without_start_shows_the_first_added() {
    let p = player_with(3);
    let c = p.play_command(1, false, false);
    assert_eq!(c.count, 2);
    assert!(!c.playing);
    assert_eq!(c.track.unwrap().title, "Song 1");
    let none = p.play_command(3, false, true);
    assert_eq!(none.count, 0);
    assert!(none.track.is_none());
    assert!(none.truncated);
}

#[test]
fn skip_and_prev_wrap_around() {
    let mut p = player_with(3);
    assert_eq!(p.skip().unwrap().title, "Song 1");
    assert_eq!(p.skip().unwrap().title, "Song 2");
    assert_eq!(p.skip().unwrap().title, "Song 0");
    assert_eq!(p.prev().unwrap().title, "Song 2");
    assert_eq!(p.prev().unwrap().title, "Song 1");
    assert_eq!(p.skip().unwrap().title, "Song 2");
}

#[test]
fn next_follows_the_loop_type() {
    let mut p = player_with(2);
    assert!(p.next());
    assert_eq!(p.now().unwrap().title, "Song 1");
    assert!(!p.next());
    assert!(p.pause());
    assert_eq!(p.now().unwrap().title, "Song 1");

    let mut q = player_with(2);
    q.set_loop_type(LoopType::Queue);
    q.skip();
    assert!(q.next());
    assert_eq!(q.now().unwrap().title, "Song 0");

    let mut m = player_with(2);
    m.set_loop_type(LoopType::Music);
    assert!(m.next());
    assert_eq!(m.now().unwrap().title, "Song 0");

    let mut n = player_with(2);
    n.set_loop_type(LoopType::NoAutostart);
    assert!(!n.next());
    assert!(n.pause());
    assert_eq!(n.now().unwrap().title, "Song 1");

    let mut r = player_with(4);
    r.set_loop_type(LoopType::Random);
    assert!(r.advance(3));
    assert_eq!(r.now().unwrap().title, "Song 3");
    assert!(r.next());
    assert!(r.now().is_some());
}

#[test]
fn playing_update_asks_for_the_current_track() {
    let mut p = player_with(2);
    p.set_paused(true);
    let u = p.playing_update(voice()).unwrap();
    assert_eq!(u.encoded_track, Some(Some("enc0".to_string())));
    assert_eq!(u.paused, Some(true));
    assert_eq!(u.voice.unwrap().token, "token");
    let empty = HydrogenPlayer::new("en-US", 1);
    assert!(empty.playing_update(voice()).is_none());
}

#[test]
fn pause_plan_follows_what_lavalink_has() {
    let p = player_with(1);
    let resume_without_track = p.pause_plan(false, Some(false), voice());
    let u = resume_without_track.update.unwrap();
    assert_eq!(u.encoded_track, Some(Some("enc0".to_string())));
    assert_eq!(u.paused, Some(false));
    assert!(!resume_without_track.start_playing);
    let pause = p.pause_plan(true, Some(true), voice());
    let u = pause.update.unwrap();
    assert!(u.encoded_track.is_none() && u.voice.is_none());
    assert_eq!(u.paused, Some(true));
    let no_player = p.pause_plan(false, None, voice());
    assert!(no_player.update.is_none());
    assert!(no_player.start_playing);
    assert!(!p.pause_plan(true, None, voice()).start_playing);
}

#[test]
fn seek_command_needs_a_track_on_both_sides() {
    let p = player_with(1);
    let s = p.seek_command(Some((500, 1000))).unwrap();
    assert_eq!(s.position, 500);
    assert_eq!(s.total, 1000);
    assert_eq!(s.track.title, "Song 0");
    assert!(p.seek_command(None).is_none());
    assert!(HydrogenPlayer::new("x", 1).seek_command(Some((1, 2))).is_none());
}

#[test]
fn search_query_adds_the_prefix() {
    assert_eq!(search_query("never gonna"), "ytsearch:never gonna");
}

#[test]
fn play_searches_again_only_when_nothing_loaded() {
    assert!(needs_search(&loading(0, LavalinkLoadResultType::NoMatches, None)));
    assert!(!needs_search(&loading(1, LavalinkLoadResultType::TrackLoaded, None)));
    assert!(!needs_search(&loading(3, LavalinkLoadResultType::PlaylistLoaded, Some(1))));
}

#[test]
fn play_starts_only_when_lavalink_plays_nothing() {
    assert!(lavalink_not_playing(None));
    assert!(lavalink_not_playing(Some(false)));
    assert!(!lavalink_not_playing(Some(true)));
}
