use hydrogen::commands::{
    unknown_error, voice_check, voice_error, PrevOutcome, VoiceCheck,
    fate_params, get_message, loop_message, loop_type_key, next_loop_type, play_response,
    seek_message, seek_time, sided_params, PrevComponent, SeekTimeError,
};
use hydrogen::handler::{
    create_embed, end_notice, other_roll_bots, reads_message_roll, PingCommand, PlayCommand,
    Response,
};
use hydrogen::hydrolink::websocket::TrackEndReason;
use hydrogen::manager::{
    chat_is_empty, moves_on_after, own_voice_change, OwnVoiceChange,
    now_playing_message, play_components, player_message, timeout_message, ButtonStyle,
    HydrogenPlayerState, LoadBalancer,
};
use hydrogen::parsers::{RollParser, TimeParser};
use hydrogen::player::{HydrogenMusic, HydrogenPlayCommand, HydrogenSeekCommand, LoopType};
use hydrogen::roll::{DiceType, Modifier};
use hydrogen::table::Table;
use hydrogen::translator::{Category, Language, Translator};
use hydrogen::{HYDROGEN_ERROR_COLOR, HYDROGEN_PRIMARY_COLOR};

fn category(pairs: &[(&str, &str)]) -> Category {
    let mut c = Category::new();
    for (k, v) in pairs {
        c.insert(k.to_string(), v.to_string());
    }
    c
}

fn i18n() -> Translator {
    let mut en = Language::new();
    en.insert(
        "play".to_string(),
        category(&[
            ("play_single", "Playing {name} by {author}"),
            ("play_single_url", "Playing [{name}]({url}) by {author}"),
            ("enqueue_single", "Added {name} by {author}"),
            ("enqueue_single_url", "Added [{name}]({url}) by {author}"),
            ("play_multi", "Playing {name} by {author} and {count} more"),
            ("play_multi_url", "Playing [{name}]({url}) by {author}, {count} added"),
            ("enqueue_multi", "Added {count} songs"),
            ("truncated_warn", "Queue full!"),
            ("not_found", "Not found"),
            ("truncated", "Queue is full"),
        ]),
    );
    en.insert(
        "player".to_string(),
        category(&[
            ("title", "Player"),
            ("description", "{name} - {author}"),
            ("description_url", "[{name}]({url}) - {author}"),
            ("empty", "Nothing playing"),
            ("timeout", "Leaving in {time} seconds"),
        ]),
    );
    en.insert("generic".to_string(), category(&[("embed_footer", "Hydrogen")]));
    en.insert(
        "prev".to_string(),
        category(&[
            ("returning", "Back to ${name} by ${author}"),
            ("returning_url", "Back to [{name}]({url}) by {author}"),
        ]),
    );
    en.insert(
        "loop".to_string(),
        category(&[
            ("looping", "Loop: {loop}"),
            ("autostart", "autostart"),
            ("no_autostart", "no autostart"),
            ("music", "music"),
            ("queue", "queue"),
            ("random", "random"),
        ]),
    );
    en.insert(
        "seek".to_string(),
        category(&[
            ("seeking", "{name} by {author}: {current}/{total} {progress}"),
            ("seeking_url", "{name} ({url}) by {author}: {current}/{total}"),
        ]),
    );
    en.insert("error".to_string(), category(&[("not_intentional", "Report: {url}")]));
    en.insert(
        "public_instance".to_string(),
        category(&[("ending", "Ends {time}, see {url}"), ("running_in", "Running {time}")]),
    );
    let mut cache = Table::new();
    cache.insert("en-US".to_string(), en);
    Translator::new("en-US", cache)
}

fn music(uri: Option<&str>) -> HydrogenMusic {
    HydrogenMusic {
        encoded_track: "enc".to_string(),
        length: 1000,
        author: "Band".to_string(),
        title: "Song".to_string(),
        uri: uri.map(|u| u.to_string()),
        requester_id: 77,
    }
}

fn command(track: Option<HydrogenMusic>, count: usize, playing: bool, truncated: bool) -> HydrogenPlayCommand {
    HydrogenPlayCommand { track, count, playing, truncated }
}

#[test]
fn play_message_for_each_outcome() {
    let t = i18n();
    let l = "en-US";
    assert_eq!(get_message(&command(Some(music(None)), 1, true, false), &t, l), "Playing Song by Band");
    assert_eq!(
        get_message(&command(Some(music(Some("u"))), 1, true, false), &t, l),
        "Playing [Song](u) by Band"
    );
    assert_eq!(get_message(&command(Some(music(None)), 1, false, false), &t, l), "Added Song by Band");
    assert_eq!(
        get_message(&command(Some(music(Some("u"))), 1, false, true), &t, l),
        "Added [Song](u) by Band"
    );
    assert_eq!(
        get_message(&command(Some(music(None)), 3, true, false), &t, l),
        "Playing Song by Band and 3 more"
    );
    assert_eq!(
        get_message(&command(Some(music(Some("u"))), 3, true, true), &t, l),
        "Queue full!\n\nPlaying [Song](u) by Band, 3 added"
    );
    assert_eq!(get_message(&command(Some(music(None)), 4, false, false), &t, l), "Added 4 songs");
    assert_eq!(get_message(&command(None, 4, false, true), &t, l), "Queue full!\n\nAdded 4 songs");
}

#[test]
fn play_response_errors() {
    let t = i18n();
    assert_eq!(
        play_response(&command(None, 0, false, false), &t, "en-US"),
        Err("Not found\n\nReport: https://github.com/nashiradeer/hydrogen/issues".to_string())
    );
    assert_eq!(
        play_response(&command(None, 0, false, true), &t, "en-US"),
        Err("Queue is full\n\nReport: https://github.com/nashiradeer/hydrogen/issues".to_string())
    );
    assert_eq!(play_response(&command(None, 2, false, false), &t, "en-US"), Ok("Added 2 songs".to_string()));
}

#[test]
fn prev_message_with_and_without_url() {
    let t = i18n();
    assert_eq!(PrevComponent::get_message(&music(None), &t, "en-US"), "Back to Song by Band");
    assert_eq!(PrevComponent::get_message(&music(Some("u")), &t, "en-US"), "Back to [Song](u) by Band");
}

#[test]
fn loop_button_cycles_through_every_loop_type() {
    let mut l = LoopType::Autostart;
    let mut seen = Vec::new();
    for _ in 0..5 {
        l = next_loop_type(l);
        seen.push(l);
    }
    assert_eq!(
        seen,
        vec![LoopType::NoAutostart, LoopType::Music, LoopType::Queue, LoopType::Random, LoopType::Autostart]
    );
    assert_eq!(loop_type_key(LoopType::NoAutostart), "no_autostart");
    assert_eq!(loop_message(LoopType::Queue, &i18n(), "en-US"), "Loop: queue");
}

#[test]
fn seek_time_reads_both_syntaxes() {
    let p = TimeParser::new();
    assert_eq!(seek_time(&p, "90"), Ok(90_000));
    assert_eq!(seek_time(&p, "1:30"), Ok(90_000));
    assert_eq!(seek_time(&p, "nope"), Err(SeekTimeError::InvalidSyntax));
    assert_eq!(seek_time(&p, "999h"), Err(SeekTimeError::OutOfRange));
    assert_eq!(seek_time(&p, "596h"), Ok(2_145_600_000));
}

#[test]
fn seek_message_shows_the_position() {
    let t = i18n();
    let r = HydrogenSeekCommand { position: 90_500, total: 181_000, track: music(None) };
    let half = format!("╣{}{}╠", "▓".repeat(15), "░".repeat(15));
    assert_eq!(seek_message(&r, &t, "en-US"), format!("Song by Band: 01:30/03:01 {}", half));
    let r = HydrogenSeekCommand { position: 3_600_000, total: 7_200_000, track: music(Some("u")) };
    assert_eq!(seek_message(&r, &t, "en-US"), "Song (u) by Band: 01:00:00/02:00:00");
}

#[test]
fn roll_command_params() {
    let p = RollParser::new();
    let f = fate_params(&p, Some(4), None, Some("+2"));
    assert_eq!(f.dice_type, DiceType::Fate);
    assert_eq!(f.dice_count, 4);
    assert_eq!(f.repeat, 1);
    assert_eq!(f.modifier, Modifier::Add(2));
    let s = sided_params(&p, Some(20), Some(2), Some(3), Some("*3-1"));
    assert_eq!(s.dice_type, DiceType::Sided(20));
    assert_eq!(s.dice_count, 2);
    assert_eq!(s.repeat, 3);
    assert_eq!(s.modifier, Modifier::Multiply(2));
    let d = sided_params(&p, None, Some(258), None, Some("nothing"));
    assert_eq!(d.dice_type, DiceType::Sided(6));
    assert_eq!(d.dice_count, 2);
    assert_eq!(d.modifier, Modifier::Add(0));
}

#[test]
fn play_components_for_each_state() {
    let playing = play_components(HydrogenPlayerState::Playing, false, LoopType::Autostart);
    assert!(!playing.prev.disabled && !playing.pause.disabled && !playing.skip.disabled);
    assert_eq!(playing.pause.emoji, "⏸");
    assert_eq!(playing.pause.style, ButtonStyle::Primary);
    assert_eq!(playing.loop_button.emoji, "⬇️");
    assert!(playing.queue.disabled);
    assert_eq!(playing.stop.style, ButtonStyle::Danger);
    let paused = play_components(HydrogenPlayerState::Playing, true, LoopType::Random);
    assert_eq!(paused.pause.emoji, "▶️");
    assert_eq!(paused.pause.style, ButtonStyle::Success);
    assert_eq!(paused.loop_button.emoji, "🔀");
    let nothing = play_components(HydrogenPlayerState::Nothing, true, LoopType::Music);
    assert!(nothing.prev.disabled && nothing.pause.disabled && nothing.skip.disabled);
    assert!(!nothing.loop_button.disabled && !nothing.stop.disabled);
    assert_eq!(nothing.prev.style, ButtonStyle::Secondary);
    assert_eq!(nothing.pause.style, ButtonStyle::Secondary);
    let thinking = play_components(HydrogenPlayerState::Thinking, false, LoopType::Queue);
    assert!(thinking.loop_button.disabled && thinking.stop.disabled && thinking.skip.disabled);
    assert_eq!(thinking.prev.style, ButtonStyle::Primary);
    assert_eq!(thinking.loop_button.emoji, "🔁");
    assert_eq!(thinking.prev.custom_id, "prev");
}

#[test]
fn player_messages() {
    let t = i18n();
    let m = music(Some("u"));
    let (msg, requester) = now_playing_message(&t, "en-US", Some(&m), false, false, LoopType::Autostart);
    assert_eq!(msg.description, "[Song](u) - Band");
    assert_eq!(msg.title, "Player");
    assert_eq!(msg.footer, "Hydrogen");
    assert_eq!(msg.color, HYDROGEN_PRIMARY_COLOR);
    assert_eq!(requester, Some(77));
    let (empty, nobody) = now_playing_message(&t, "en-US", None, true, false, LoopType::Autostart);
    assert_eq!(empty.description, "Nothing playing");
    assert!(empty.components.prev.disabled);
    assert_eq!(nobody, None);
    let waiting = player_message(&t, "en-US", "wait", 5, HydrogenPlayerState::Thinking, false, LoopType::Music);
    assert!(waiting.components.stop.disabled);
    assert_eq!(waiting.description, "wait");
    assert_eq!(timeout_message(&t, "en-US"), "Leaving in 10 seconds");
}

#[test]
fn load_balancer_goes_round_robin() {
    let mut b = LoadBalancer::new();
    let picks: Vec<usize> = (0..7).map(|_| b.increment(3)).collect();
    assert_eq!(picks, vec![0, 1, 2, 0, 1, 2, 0]);
    let mut e = LoadBalancer::new();
    assert_eq!(e.increment(0), 0);
    let mut g = LoadBalancer::new();
    assert_eq!(g.get_node(&vec![false, true, true]), Some(1));
    assert_eq!(g.get_node(&vec![false, true, true]), Some(2));
    assert_eq!(g.get_node(&vec![false, false, false]), None);
    assert_eq!(g.get_node(&vec![]), None);
}

#[test]
fn response_embeds_take_the_color_of_the_outcome() {
    let ok = create_embed(Ok(Response::Generic { title: "T".to_string(), description: "D".to_string() }), "F");
    assert_eq!(ok.color, HYDROGEN_PRIMARY_COLOR);
    assert_eq!(ok.title, "T");
    assert_eq!(ok.footer, "F");
    let err = create_embed(Err(Response::Generic { title: "T".to_string(), description: "E".to_string() }), "F");
    assert_eq!(err.color, HYDROGEN_ERROR_COLOR);
    assert_eq!(err.description, "E");
}

#[test]
fn end_notice_counts_from_now() {
    assert_eq!(
        end_notice(&i18n(), "en-US", 1000),
        "Ends <t:1714489200>, see https://github.com/nashiradeer/hydrogen\n\nRunning <t:1012:R>"
    );
}

#[test]
fn simple_commands_and_roll_bots() {
    assert_eq!(PingCommand.reply(), "pong!");
    let play = PlayCommand;
    let u = play.request("query", None);
    assert_eq!(u.identifier, Some(Some("query".to_string())));
    assert!(u.voice.is_none());
    assert_eq!(play.requested("Song"), "Requested music: Song");
    assert_eq!(other_roll_bots(true), vec![240732567744151553]);
    assert_eq!(other_roll_bots(false), vec![240732567744151553, 1128087591179268116]);
    assert!(reads_message_roll(false, false, false));
    assert!(!reads_message_roll(false, false, true));
    assert!(reads_message_roll(false, true, true));
    assert!(!reads_message_roll(true, true, false));
}

#[test]
fn music_commands_check_the_voice_channels() {
    assert_eq!(voice_check(None, Some(1)), VoiceCheck::UnknownVoiceState);
    assert_eq!(voice_check(Some(1), None), VoiceCheck::PlayerNotExists);
    assert_eq!(voice_check(Some(1), Some(2)), VoiceCheck::NotInVoiceChat);
    assert_eq!(voice_check(Some(2), Some(2)), VoiceCheck::Proceed);
    let t = i18n();
    assert_eq!(unknown_error(&t, "en-US"), "error.unknown");
    assert_eq!(
        voice_error(&t, "en-US", VoiceCheck::NotInVoiceChat),
        "error.not_in_voice_chat\n\nReport: https://github.com/nashiradeer/hydrogen/issues"
    );
}

#[test]
fn prev_button_answers() {
    let t = i18n();
    let ok = PrevComponent::response(&t, "en-US", PrevOutcome::Returned(music(None)));
    assert_eq!(ok.description, "Back to Song by Band");
    assert_eq!(ok.color, HYDROGEN_PRIMARY_COLOR);
    assert_eq!(ok.title, "prev.embed_title");
    assert_eq!(ok.footer, "Hydrogen");
    let empty = PrevComponent::response(&t, "en-US", PrevOutcome::EmptyQueue);
    assert_eq!(empty.description, "error.empty_queue\n\nReport: {url}");
    assert_eq!(empty.color, HYDROGEN_ERROR_COLOR);
    let failed = PrevComponent::response(&t, "en-US", PrevOutcome::Failed);
    assert_eq!(failed.description, "error.unknown");
}

#[test]
fn voice_state_changes_of_the_bot() {
    assert!(matches!(own_voice_change(false, true, Some(1), "s", true), OwnVoiceChange::Nothing));
    assert!(matches!(own_voice_change(true, false, None, "s", true), OwnVoiceChange::Nothing));
    match own_voice_change(true, true, Some(5), "sess", false) {
        OwnVoiceChange::Reconnect { session_id, channel_id } => {
            assert_eq!(session_id, "sess");
            assert_eq!(channel_id, 5);
        }
        other => panic!("unexpected {:?}", other),
    }
    assert!(matches!(own_voice_change(true, true, None, "s", true), OwnVoiceChange::Destroy));
    assert!(matches!(own_voice_change(true, true, None, "s", false), OwnVoiceChange::Nothing));
    assert!(chat_is_empty(1) && chat_is_empty(0) && !chat_is_empty(2));
    assert!(moves_on_after(TrackEndReason::Finished));
    assert!(!moves_on_after(TrackEndReason::LoadFailed));
    assert!(!moves_on_after(TrackEndReason::Replaced));
}

#[test]
fn about_lists_software_and_statistics() {
    let t = i18n();
    let text = hydrogen::commands::about_description(&t, "en-US", "0.1.0", Some(3), 1, 42, None);
    assert_eq!(
        text,
        "### about.software\nabout.software_name\nabout.version\nabout.source_code\nabout.bug_report\n### about.statistics\nabout.players\nabout.shards\nabout.guilds"
    );
    let mut about = Category::new();
    about.insert("version".to_string(), "Version: {value}".to_string());
    about.insert("latency".to_string(), "Latency: {value}ms".to_string());
    let mut en = Language::new();
    en.insert("about".to_string(), about);
    let mut cache = Table::new();
    cache.insert("en-US".to_string(), en);
    let t = Translator::new("en-US", cache);
    let text = hydrogen::commands::about_description(&t, "en-US", "0.1.0", None, 2, 5, Some(120));
    assert!(text.contains("\nVersion: 0.1.0\n"));
    assert!(text.ends_with("\nabout.guilds\nLatency: 120ms"));
    assert!(!text.contains("players"));
}

#[test]
fn join_names_the_play_command() {
    let mut join = Category::new();
    join.insert("joined".to_string(), "Joined! Use {play}.".to_string());
    let mut en = Language::new();
    en.insert("join".to_string(), join);
    let mut cache = Table::new();
    cache.insert("en-US".to_string(), en);
    let t = Translator::new("en-US", cache);
    assert_eq!(hydrogen::commands::join_message(&t, "en-US", Some(42)), "Joined! Use </play:42>.");
    assert_eq!(hydrogen::commands::join_message(&t, "en-US", None), "Joined! Use `/play`.");
}

#[test]
fn load_balancer_goes_round_robin_from_any_node() {
    let mut b = LoadBalancer::new();
    assert_eq!(b.increment(4), 0);
    assert_eq!(b.increment(4), 1);
    let picks: Vec<usize> = (0..6).map(|_| b.increment(4)).collect();
    assert_eq!(picks, vec![2, 3, 0, 1, 2, 3]);
    let mut one = LoadBalancer::new();
    let picks: Vec<usize> = (0..3).map(|_| one.increment(1)).collect();
    assert_eq!(picks, vec![0, 0, 0]);
    let mut none = LoadBalancer::new();
    let picks: Vec<usize> = (0..3).map(|_| none.increment(0)).collect();
    assert_eq!(picks, vec![0, 0, 0]);
}

#[test]
fn prev_button_outcome_follows_the_voice_check() {
    assert!(PrevComponent::blocked_outcome(VoiceCheck::Proceed).is_none());
    assert!(matches!(
        PrevComponent::blocked_outcome(VoiceCheck::UnknownVoiceState),
        Some(PrevOutcome::UnknownVoiceState)
    ));
    assert!(matches!(
        PrevComponent::blocked_outcome(voice_check(Some(1), Some(2))),
        Some(PrevOutcome::NotInVoiceChat)
    ));
    assert!(matches!(
        PrevComponent::blocked_outcome(voice_check(Some(1), None)),
        Some(PrevOutcome::PlayerNotExists)
    ));
}

#[test]
fn prev_button_outcome_follows_the_player() {
    assert!(matches!(PrevComponent::returned_outcome(None), PrevOutcome::Failed));
    assert!(matches!(PrevComponent::returned_outcome(Some(None)), PrevOutcome::EmptyQueue));
    match PrevComponent::returned_outcome(Some(Some(music(None)))) {
        PrevOutcome::Returned(m) => assert_eq!(m.title, music(None).title),
        _ => panic!("the player went back to a track"),
    }
}
