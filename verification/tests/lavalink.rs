use hydrogen::hydrolink::internal::{handler_call, Event, EventType, HandlerCall, OPType, WebsocketMessage};
use hydrogen::hydrolink::LavalinkConfig;
use hydrogen::lavalink::rest::{LavalinkUpdatePlayer, LavalinkVoiceState};
use hydrogen::lavalink::{
    generate_key, guild_text, load_tracks_uri, player_update_uri, player_uri, socket_action,
    websocket_uri, LavalinkEventType, LavalinkOpType, SocketAction,
};

#[test]
fn addresses_of_a_node() {
    assert_eq!(websocket_uri(false, "h:1"), "ws://h:1/v3/websocket");
    assert_eq!(websocket_uri(true, "h:1"), "wss://h:1/v3/websocket");
    assert_eq!(
        player_update_uri(true, "h:1", "s", "42", false),
        "https://h:1/v3/sessions/s/players/42?noReplace=false"
    );
    assert_eq!(
        player_update_uri(false, "h:1", "s", "42", true),
        "http://h:1/v3/sessions/s/players/42?noReplace=true"
    );
    assert_eq!(player_uri(false, "h:1", "s", "42"), "http://h:1/v3/sessions/s/players/42");
    assert_eq!(load_tracks_uri(false, "h", "ytsearch:x"), "http://h/v3/loadtracks?identifier=ytsearch:x");
    assert_eq!(guild_text(1128087591179268116), "1128087591179268116");
}

#[test]
fn hydrolink_config_builds_addresses() {
    let mut c = LavalinkConfig::new("h:1", "pw");
    assert!(!c.tls);
    assert_eq!(c.connection_timeout, 5000);
    assert_eq!(c.resume_tries, 3);
    assert_eq!(c.resume_cooldown, 2000);
    assert_eq!(c.build_websocket_uri(), "ws://h:1/v3/websocket");
    c.tls = true;
    assert_eq!(c.build_rest_uri("/info"), "https://h:1/v3/info");
}

#[test]
fn websocket_key_is_sixteen_bytes_in_base64() {
    let key = generate_key();
    assert_eq!(key.len(), 24);
    assert!(key.ends_with("=="));
    assert_ne!(generate_key(), key);
}

#[test]
fn socket_messages_are_dispatched() {
    assert_eq!(socket_action(LavalinkOpType::Ready, None), SocketAction::Ready);
    assert_eq!(
        socket_action(LavalinkOpType::Event, Some(LavalinkEventType::TrackEndEvent)),
        SocketAction::TrackEnd
    );
    assert_eq!(
        socket_action(LavalinkOpType::Event, Some(LavalinkEventType::TrackStuckEvent)),
        SocketAction::Ignore
    );
    assert_eq!(socket_action(LavalinkOpType::Stats, None), SocketAction::Ignore);
    assert_eq!(
        handler_call(WebsocketMessage { op: OPType::Event }, Some(Event { event_type: EventType::TrackStuck })),
        HandlerCall::TrackStuck
    );
    assert_eq!(handler_call(WebsocketMessage { op: OPType::Event }, None), HandlerCall::Skip);
    assert_eq!(handler_call(WebsocketMessage { op: OPType::Stats }, None), HandlerCall::Stats);
}

#[test]
fn update_player_builder() {
    let mut u = LavalinkUpdatePlayer::new();
    assert!(u.encoded_track.is_none() && u.paused.is_none() && u.voice.is_none());
    u.encoded_track("abc").position(10).paused(true);
    assert_eq!(u.encoded_track, Some(Some("abc".to_string())));
    assert_eq!(u.position, Some(10));
    assert_eq!(u.paused, Some(true));
    let v = LavalinkVoiceState::new("t", "e", "s");
    u.voice_state(v);
    assert_eq!(u.voice.as_ref().unwrap().session_id, "s");
    assert!(!u.voice.as_ref().unwrap().connected);
    let mut w = LavalinkUpdatePlayer::new();
    w.identifier = Some("id".to_string());
    w.encoded_track("ignored");
    assert!(w.encoded_track.is_none());
}

#[test]
fn addresses_of_a_lavalink_v4_server() {
    let mut c = LavalinkConfig::new("h:1", "pw");
    assert_eq!(c.build_websocket_uri_v4(), "ws://h:1/v4/websocket");
    assert_eq!(c.build_rest_uri_v4("/info"), "http://h:1/v4/info");
    c.tls = true;
    assert_eq!(c.build_websocket_uri_v4(), "wss://h:1/v4/websocket");
    assert_eq!(c.build_rest_uri_v4("/sessions"), "https://h:1/v4/sessions");
}
