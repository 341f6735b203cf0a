//! What the music commands and buttons answer: the text of `/play`, of the
//! previous-track button and of the loop button.
use vstd::prelude::*;

use crate::handler::ResponseEmbed;
use crate::manager::tr;
use crate::parsers::{colon_millis, fold_defined, fold_modifiers, modifier_tokens, suffix_millis, RollParser, TimeParser};
use crate::player::{HydrogenMusic, HydrogenPlayCommand, HydrogenSeekCommand, LoopType};
use crate::roll::{trunc_div, DiceType, Modifier, Params};
use crate::text::{decimal, push_str, replace, replace_all, string_from_chars, u64_to_string};
use crate::translator::Translator;
use crate::{
    HYDROGEN_BUG_URL, HYDROGEN_ERROR_COLOR, HYDROGEN_NAME, HYDROGEN_PRIMARY_COLOR,
    HYDROGEN_REPOSITORY_URL,
};
use crate::utils::{
    bar_text, clock_text, error_message, error_text, filled_items, progress_bar, time_to_string,
};

verus! {

/// `text` with the track's name and author put in, and its URL, if `url`
/// is given.
pub open spec fn with_track(text: Seq<char>, music: HydrogenMusic, url: Option<Seq<char>>) -> Seq<
    char,
> {
    let named = replace_all(replace_all(text, "{name}"@, music.title@), "{author}"@, music.author@);
    match url {
        Some(u) => replace_all(named, "{url}"@, u),
        None => named,
    }
}

/// The translated `play` text `key`, or `key_url` when the track has a URL,
/// with the track put in.
pub open spec fn play_track_text(
    i18n: Translator,
    locale: Seq<char>,
    key: Seq<char>,
    music: HydrogenMusic,
) -> Seq<char> {
    match music.uri {
        Some(u) => with_track(tr(i18n, locale, "play"@, key + "_url"@), music, Some(u@)),
        None => with_track(tr(i18n, locale, "play"@, key), music, None),
    }
}

/// Two texts, a blank line apart.
pub open spec fn paragraphs(a: Seq<char>, b: Seq<char>) -> Seq<char> {
    a + seq!['\n', '\n'] + b
}

/// The text that answers a successful `/play`.
pub open spec fn play_text(i18n: Translator, locale: Seq<char>, result: HydrogenPlayCommand) -> Seq<
    char,
> {
    let count = decimal(result.count as nat);
    let warn = tr(i18n, locale, "play"@, "truncated_warn"@);
    let multi = replace_all(tr(i18n, locale, "play"@, "enqueue_multi"@), "{count}"@, count);
    match result.track {
        Some(m) if result.count == 1 && result.playing => play_track_text(
            i18n,
            locale,
            "play_single"@,
            m,
        ),
        Some(m) if result.count == 1 => play_track_text(i18n, locale, "enqueue_single"@, m),
        Some(m) if result.playing => {
            let text = replace_all(
                play_track_text(i18n, locale, "play_multi"@, m),
                "{count}"@,
                count,
            );
            if result.truncated {
                paragraphs(warn, text)
            } else {
                text
            }
        },
        _ => if result.truncated {
            paragraphs(warn, multi)
        } else {
            multi
        },
    }
}

/// The translated `play` text `key`, or `key_url` when the track has a URL,
/// with the track put in.
fn play_track_message(i18n: &Translator, locale: &str, key: &str, key_url: &str, music: &HydrogenMusic) -> (r:
    String)
    requires
        key_url@ == key@ + "_url"@,
    ensures
        r@ == play_track_text(*i18n, locale@, key@, *music),
{
    proof {
        reveal_strlit("{name}");
        reveal_strlit("{author}");
        reveal_strlit("{url}");
    }
    let text = match &music.uri {
        Some(_) => i18n.translate(locale, "play", key_url),
        None => i18n.translate(locale, "play", key),
    };
    let named = replace(text.as_str(), "{name}", music.title.as_str());
    let authored = replace(named.as_str(), "{author}", music.author.as_str());
    match &music.uri {
        Some(uri) => replace(authored.as_str(), "{url}", uri.as_str()),
        None => authored,
    }
}

/// `a`, a blank line and `b`.
fn join_paragraphs(a: &str, b: &str) -> (r: String)
    ensures
        r@ == paragraphs(a@, b@),
{
    let mut out: Vec<char> = Vec::new();
    push_str(&mut out, a);
    out.push('\n');
    out.push('\n');
    push_str(&mut out, b);
    assert(out@ =~= paragraphs(a@, b@));
    string_from_chars(&out)
}

/// The text that answers a successful `/play`: what plays or was added,
/// with a warning first when the queue limit cut the request short.
pub fn get_message(result: &HydrogenPlayCommand, i18n: &Translator, locale: &str) -> (r: String)
    ensures
        r@ == play_text(*i18n, locale@, *result),
{
    proof {
        reveal_strlit("{count}");
        reveal_strlit("play_single");
        reveal_strlit("play_single_url");
        reveal_strlit("enqueue_single");
        reveal_strlit("enqueue_single_url");
        reveal_strlit("play_multi");
        reveal_strlit("play_multi_url");
        reveal_strlit("_url");
    }
    let count = u64_to_string(result.count as u64);
    assert("play_single_url"@ =~= "play_single"@ + "_url"@);
    assert("enqueue_single_url"@ =~= "enqueue_single"@ + "_url"@);
    assert("play_multi_url"@ =~= "play_multi"@ + "_url"@);
    if let Some(track) = &result.track {
        if result.playing && result.count == 1 {
            return play_track_message(i18n, locale, "play_single", "play_single_url", track);
        } else if result.count == 1 {
            return play_track_message(i18n, locale, "enqueue_single", "enqueue_single_url", track);
        } else if result.playing {
            let text = play_track_message(i18n, locale, "play_multi", "play_multi_url", track);
            let text = replace(text.as_str(), "{count}", count.as_str());
            if !result.truncated {
                return text;
            } else {
                let warn = i18n.translate(locale, "play", "truncated_warn");
                return join_paragraphs(warn.as_str(), text.as_str());
            }
        }
    }
    let multi = i18n.translate(locale, "play", "enqueue_multi");
    let multi = replace(multi.as_str(), "{count}", count.as_str());
    if result.truncated {
        let warn = i18n.translate(locale, "play", "truncated_warn");
        join_paragraphs(warn.as_str(), multi.as_str())
    } else {
        multi
    }
}

/// The step of `/play` (or `/join`) that failed, in the order the command
/// goes through them.
#[derive(Debug, Clone, Copy, PartialEq, Eq, Structural)]
pub enum PlayFailure {
    /// The query option or the guild of the command is missing.
    MissingData,
    /// The user's voice channel cannot be known.
    UnknownVoiceState,
    /// The bot cannot join the user's voice channel.
    CannotConnect,
    /// The bot already plays in another voice channel of the guild.
    PlayerExists,
    /// The player could not be started, or the music not requested.
    PlayFailed,
}

/// The answer to `/play` when a step fails.
pub open spec fn play_failure_text(i18n: Translator, locale: Seq<char>, failure: PlayFailure) -> Seq<
    char,
> {
    match failure {
        PlayFailure::MissingData => unknown_error_text(i18n, locale),
        PlayFailure::UnknownVoiceState => voice_error_text(
            i18n,
            locale,
            VoiceCheck::UnknownVoiceState,
        ),
        PlayFailure::CannotConnect => error_text(
            i18n,
            locale,
            tr(i18n, locale, "error"@, "cant_connect"@),
        ),
        PlayFailure::PlayerExists => error_text(
            i18n,
            locale,
            tr(i18n, locale, "error"@, "player_exists"@),
        ),
        PlayFailure::PlayFailed => error_text(i18n, locale, unknown_error_text(i18n, locale)),
    }
}

/// The answer to `/play` when `failure` is the step that failed.
pub fn play_failure_message(i18n: &Translator, locale: &str, failure: PlayFailure) -> (r: String)
    ensures
        r@ == play_failure_text(*i18n, locale@, failure),
{
    match failure {
        PlayFailure::MissingData => unknown_error(i18n, locale),
        PlayFailure::UnknownVoiceState => voice_error(i18n, locale, VoiceCheck::UnknownVoiceState),
        PlayFailure::CannotConnect => {
            let text = i18n.translate(locale, "error", "cant_connect");
            error_message(i18n, locale, text.as_str())
        },
        PlayFailure::PlayerExists => {
            let text = i18n.translate(locale, "error", "player_exists");
            error_message(i18n, locale, text.as_str())
        },
        PlayFailure::PlayFailed => {
            let text = unknown_error(i18n, locale);
            error_message(i18n, locale, text.as_str())
        },
    }
}

/// Whether joining the voice chat shows the bot in another channel than
/// the user's: `bot_channel` is the channel of the bot's voice connection,
/// if it is known.
pub fn joined_elsewhere(bot_channel: Option<u64>, user_channel: u64) -> (r: bool)
    ensures
        r == (bot_channel matches Some(c) && c != user_channel),
{
    match bot_channel {
        Some(c) => c != user_channel,
        None => false,
    }
}

/// The answer to `/play` once the request was made: the text of
/// [`get_message`] when tracks were added; else an error, that nothing was
/// found or that the queue is full.
pub fn play_response(result: &HydrogenPlayCommand, i18n: &Translator, locale: &str) -> (r: Result<
    String,
    String,
>)
    ensures
        result.count > 0 ==> r == Ok::<String, String>(r->Ok_0) && r->Ok_0@ == play_text(
            *i18n,
            locale@,
            *result,
        ),
        result.count == 0 ==> r == Err::<String, String>(r->Err_0) && r->Err_0@ == error_text(
            *i18n,
            locale@,
            tr(
                *i18n,
                locale@,
                "play"@,
                if result.truncated {
                    "truncated"@
                } else {
                    "not_found"@
                },
            ),
        ),
{
    if result.count > 0 {
        Ok(get_message(result, i18n, locale))
    } else if !result.truncated {
        let text = i18n.translate(locale, "play", "not_found");
        Err(error_message(i18n, locale, text.as_str()))
    } else {
        let text = i18n.translate(locale, "play", "truncated");
        Err(error_message(i18n, locale, text.as_str()))
    }
}

/// The text that answers the previous-track button.
pub open spec fn prev_text(i18n: Translator, locale: Seq<char>, music: HydrogenMusic) -> Seq<char> {
    match music.uri {
        Some(u) => with_track(tr(i18n, locale, "prev"@, "returning_url"@), music, Some(u@)),
        None => replace_all(
            replace_all(tr(i18n, locale, "prev"@, "returning"@), "${name}"@, music.title@),
            "${author}"@,
            music.author@,
        ),
    }
}

/// The previous-track button.
pub struct PrevComponent;

impl PrevComponent {
    /// The text that answers the previous-track button: the track the player
    /// went back to.
    pub fn get_message(track: &HydrogenMusic, i18n: &Translator, locale: &str) -> (r: String)
        ensures
            r@ == prev_text(*i18n, locale@, *track),
    {
        proof {
            reveal_strlit("{name}");
            reveal_strlit("{author}");
            reveal_strlit("{url}");
            reveal_strlit("${name}");
            reveal_strlit("${author}");
        }
        match &track.uri {
            Some(uri) => {
                let text = i18n.translate(locale, "prev", "returning_url");
                let text = replace(text.as_str(), "{name}", track.title.as_str());
                let text = replace(text.as_str(), "{author}", track.author.as_str());
                replace(text.as_str(), "{url}", uri.as_str())
            },
            None => {
                let text = i18n.translate(locale, "prev", "returning");
                let text = replace(text.as_str(), "${name}", track.title.as_str());
                replace(text.as_str(), "${author}", track.author.as_str())
            },
        }
    }
}

/// The loop type after the loop button: none, no autostart, music, queue,
/// random, and none again.
pub open spec fn cycled(loop_type: LoopType) -> LoopType {
    match loop_type {
        LoopType::Autostart => LoopType::NoAutostart,
        LoopType::NoAutostart => LoopType::Music,
        LoopType::Music => LoopType::Queue,
        LoopType::Queue => LoopType::Random,
        LoopType::Random => LoopType::Autostart,
    }
}

/// The loop type that the loop button switches to.
pub fn next_loop_type(current: LoopType) -> (r: LoopType)
    ensures
        r == cycled(current),
{
    match current {
        LoopType::Autostart => LoopType::NoAutostart,
        LoopType::NoAutostart => LoopType::Music,
        LoopType::Music => LoopType::Queue,
        LoopType::Queue => LoopType::Random,
        LoopType::Random => LoopType::Autostart,
    }
}

/// The translation key that names a loop type.
pub open spec fn loop_key(loop_type: LoopType) -> &'static str {
    match loop_type {
        LoopType::Autostart => "autostart",
        LoopType::NoAutostart => "no_autostart",
        LoopType::Music => "music",
        LoopType::Queue => "queue",
        LoopType::Random => "random",
    }
}

/// The translation key that names a loop type.
pub fn loop_type_key(loop_type: LoopType) -> (r: &'static str)
    ensures
        r == loop_key(loop_type),
{
    match loop_type {
        LoopType::Autostart => "autostart",
        LoopType::NoAutostart => "no_autostart",
        LoopType::Music => "music",
        LoopType::Queue => "queue",
        LoopType::Random => "random",
    }
}

/// The text that answers the loop button: the loop type now in use.
pub open spec fn loop_text(i18n: Translator, locale: Seq<char>, loop_type: LoopType) -> Seq<char> {
    replace_all(
        tr(i18n, locale, "loop"@, "looping"@),
        "{loop}"@,
        tr(i18n, locale, "loop"@, loop_key(loop_type)@),
    )
}

/// The text that answers the loop button.
pub fn loop_message(loop_type: LoopType, i18n: &Translator, locale: &str) -> (r: String)
    ensures
        r@ == loop_text(*i18n, locale@, loop_type),
{
    proof {
        reveal_strlit("{loop}");
    }
    let name = i18n.translate(locale, "loop", loop_type_key(loop_type));
    let text = i18n.translate(locale, "loop", "looping");
    replace(text.as_str(), "{loop}", name.as_str())
}

/// Five presses of the loop button come back to the loop type they started
/// from, passing through every loop type.
pub proof fn lemma_loop_cycle(loop_type: LoopType)
    ensures
        cycled(cycled(cycled(cycled(cycled(loop_type))))) == loop_type,
        forall|other: LoopType|
            #![trigger cycled(other)]
            other == loop_type || other == cycled(loop_type) || other == cycled(cycled(loop_type))
                || other == cycled(cycled(cycled(loop_type))) || other == cycled(
                cycled(cycled(cycled(loop_type))),
            ),
{
}

/// Why a seek time cannot be used.
#[derive(Debug, Clone, Copy, PartialEq, Eq, Structural)]
pub enum SeekTimeError {
    /// The time is written in neither syntax.
    InvalidSyntax,
    /// The time is too long for the player.
    OutOfRange,
}

/// The milliseconds that a seek time gives: by the suffix syntax, else by
/// the colon syntax.
pub open spec fn seek_millis(time: Seq<char>) -> Option<nat> {
    match suffix_millis(time) {
        Some(v) => Some(v),
        None => colon_millis(time),
    }
}

/// Reads the time of `/seek`, in milliseconds.
pub fn seek_time(parser: &TimeParser, time: &str) -> (r: Result<i32, SeekTimeError>)
    ensures
        seek_millis(time@) is None ==> r == Err::<i32, SeekTimeError>(SeekTimeError::InvalidSyntax),
        seek_millis(time@) matches Some(v) ==> if v <= i32::MAX {
            r == Ok::<i32, SeekTimeError>(v as i32)
        } else {
            r == Err::<i32, SeekTimeError>(SeekTimeError::OutOfRange)
        },
{
    let millis = match parser.suffix_syntax(time) {
        Some(v) => v,
        None => match parser.semicolon_syntax(time) {
            Some(v) => v,
            None => return Err(SeekTimeError::InvalidSyntax),
        },
    };
    if millis > i32::MAX as u32 {
        Err(SeekTimeError::OutOfRange)
    } else {
        Ok(millis as i32)
    }
}

/// The text that answers `/seek`: the track, the new position, its length
/// and a progress bar.
pub open spec fn seek_text(i18n: Translator, locale: Seq<char>, result: HydrogenSeekCommand) -> Seq<
    char,
> {
    let m = result.track;
    let base = match m.uri {
        Some(u) => with_track(tr(i18n, locale, "seek"@, "seeking_url"@), m, Some(u@)),
        None => with_track(tr(i18n, locale, "seek"@, "seeking"@), m, None),
    };
    replace_all(
        replace_all(
            replace_all(base, "{current}"@, clock_text(trunc_div(result.position as int, 1000))),
            "{total}"@,
            clock_text(trunc_div(result.total as int, 1000)),
        ),
        "{progress}"@,
        bar_text(filled_items(result.position as int, result.total as int)),
    )
}

/// Whole seconds in a number of milliseconds, rounded toward zero.
fn seconds_of(millis: i32) -> (r: i32)
    ensures
        r == trunc_div(millis as int, 1000),
{
    if millis >= 0 {
        millis / 1000
    } else {
        let m = -(millis as i64);
        -((m / 1000) as i32)
    }
}

/// The text that answers `/seek`.
pub fn seek_message(result: &HydrogenSeekCommand, i18n: &Translator, locale: &str) -> (r: String)
    requires
        !(result.total == 0 && result.position > 0),
    ensures
        r@ == seek_text(*i18n, locale@, *result),
{
    proof {
        reveal_strlit("{name}");
        reveal_strlit("{author}");
        reveal_strlit("{url}");
        reveal_strlit("{current}");
        reveal_strlit("{total}");
        reveal_strlit("{progress}");
    }
    let current = time_to_string(seconds_of(result.position));
    let total = time_to_string(seconds_of(result.total));
    let bar = progress_bar(result.position, result.total);
    let m = &result.track;
    let text = match &m.uri {
        Some(uri) => {
            let t = i18n.translate(locale, "seek", "seeking_url");
            let t = replace(t.as_str(), "{name}", m.title.as_str());
            let t = replace(t.as_str(), "{author}", m.author.as_str());
            replace(t.as_str(), "{url}", uri.as_str())
        },
        None => {
            let t = i18n.translate(locale, "seek", "seeking");
            let t = replace(t.as_str(), "{name}", m.title.as_str());
            replace(t.as_str(), "{author}", m.author.as_str())
        },
    };
    let text = replace(text.as_str(), "{current}", current.as_str());
    let text = replace(text.as_str(), "{total}", total.as_str());
    replace(text.as_str(), "{progress}", bar.as_str())
}

/// The modifier that the text `m` gives, if any, else `fallback`.
pub open spec fn modifier_or(m: Option<Seq<char>>, fallback: Modifier) -> Modifier {
    match m {
        Some(t) => match fold_modifiers(modifier_tokens(t, 0)) {
            Some(v) => v,
            None => fallback,
        },
        None => fallback,
    }
}

/// Whether the modifier text, if any, can be read without dividing by zero
/// or leaving the range of `i32`.
pub open spec fn modifier_text_defined(m: Option<Seq<char>>) -> bool {
    m matches Some(t) ==> fold_defined(modifier_tokens(t, 0))
}

/// The modifier of a `/roll` request, if its text gives one.
fn modifier_option(parser: &RollParser, modifier: Option<&str>) -> (r: Option<Modifier>)
    requires
        modifier_text_defined(
            match modifier {
                Some(t) => Some(t@),
                None => None,
            },
        ),
    ensures
        r == (match modifier {
            Some(t) => fold_modifiers(modifier_tokens(t@, 0)),
            None => None,
        }),
{
    match modifier {
        Some(t) => parser.evaluate_modifier(t),
        None => None,
    }
}

/// The parameters of `/roll fate`: the dice count, the repetitions and the
/// modifier given, each as the request gives it, else one fate dice rolled
/// once with no modifier. Numbers are cut to their low eight bits.
pub fn fate_params(
    parser: &RollParser,
    dice_count: Option<i64>,
    repetitions: Option<i64>,
    modifier: Option<&str>,
) -> (r: Params)
    requires
        modifier_text_defined(
            match modifier {
                Some(t) => Some(t@),
                None => None,
            },
        ),
    ensures
        r.dice_type == DiceType::Fate,
        r.dice_count == (match dice_count {
            Some(c) => c as u8,
            None => 1u8,
        }),
        r.repeat == (match repetitions {
            Some(n) => n as u8,
            None => 1u8,
        }),
        r.modifier == modifier_or(
            match modifier {
                Some(t) => Some(t@),
                None => None,
            },
            Modifier::Add(0),
        ),
{
    let mut params = Params::default();
    params.dice_type = DiceType::Fate;
    if let Some(c) = dice_count {
        params.dice_count = c as u8;
    }
    if let Some(n) = repetitions {
        params.repeat = n as u8;
    }
    if let Some(m) = modifier_option(parser, modifier) {
        params.modifier = m;
    }
    params
}

/// The parameters of `/roll sided`: the sides, the dice count, the
/// repetitions and the modifier given, each as the request gives it, else
/// one six-sided dice rolled once with no modifier. Numbers are cut to their
/// low eight bits.
pub fn sided_params(
    parser: &RollParser,
    dice_sides: Option<i64>,
    dice_count: Option<i64>,
    repetitions: Option<i64>,
    modifier: Option<&str>,
) -> (r: Params)
    requires
        modifier_text_defined(
            match modifier {
                Some(t) => Some(t@),
                None => None,
            },
        ),
    ensures
        r.dice_type == (match dice_sides {
            Some(s) => DiceType::Sided(s as u8),
            None => DiceType::Sided(6),
        }),
        r.dice_count == (match dice_count {
            Some(c) => c as u8,
            None => 1u8,
        }),
        r.repeat == (match repetitions {
            Some(n) => n as u8,
            None => 1u8,
        }),
        r.modifier == modifier_or(
            match modifier {
                Some(t) => Some(t@),
                None => None,
            },
            Modifier::Add(0),
        ),
{
    let mut params = Params::default();
    if let Some(s) = dice_sides {
        params.dice_type = DiceType::Sided(s as u8);
    }
    if let Some(c) = dice_count {
        params.dice_count = c as u8;
    }
    if let Some(n) = repetitions {
        params.repeat = n as u8;
    }
    if let Some(m) = modifier_option(parser, modifier) {
        params.modifier = m;
    }
    params
}

/// Where the user and the bot stand before a music command runs.
#[derive(Debug, Clone, Copy, PartialEq, Eq, Structural)]
pub enum VoiceCheck {
    /// Both are in the same voice channel: the command runs.
    Proceed,
    /// The user's voice channel cannot be known.
    UnknownVoiceState,
    /// The user is not in the bot's voice channel.
    NotInVoiceChat,
    /// The guild has no player.
    PlayerNotExists,
}

/// Whether a music command runs, given the user's voice channel, if it can
/// be known, and the bot's, if the guild has a player.
pub fn voice_check(user_channel: Option<u64>, bot_channel: Option<u64>) -> (r: VoiceCheck)
    ensures
        r == (match (user_channel, bot_channel) {
            (None, _) => VoiceCheck::UnknownVoiceState,
            (Some(_), None) => VoiceCheck::PlayerNotExists,
            (Some(u), Some(b)) => if u == b {
                VoiceCheck::Proceed
            } else {
                VoiceCheck::NotInVoiceChat
            },
        }),
{
    match user_channel {
        None => VoiceCheck::UnknownVoiceState,
        Some(u) => match bot_channel {
            None => VoiceCheck::PlayerNotExists,
            Some(b) => if u == b {
                VoiceCheck::Proceed
            } else {
                VoiceCheck::NotInVoiceChat
            },
        },
    }
}

/// The translated unknown error, with the bug report URL put in.
pub open spec fn unknown_error_text(i18n: Translator, locale: Seq<char>) -> Seq<char> {
    replace_all(tr(i18n, locale, "error"@, "unknown"@), "{url}"@, HYDROGEN_BUG_URL@)
}

/// The answer to a command that failed for a reason the user cannot fix.
pub fn unknown_error(i18n: &Translator, locale: &str) -> (r: String)
    ensures
        r@ == unknown_error_text(*i18n, locale@),
{
    proof {
        reveal_strlit("{url}");
    }
    let text = i18n.translate(locale, "error", "unknown");
    replace(text.as_str(), "{url}", HYDROGEN_BUG_URL)
}

/// The answer to a music command that cannot run, for each reason.
pub open spec fn voice_error_text(i18n: Translator, locale: Seq<char>, check: VoiceCheck) -> Seq<
    char,
> {
    error_text(
        i18n,
        locale,
        match check {
            VoiceCheck::UnknownVoiceState => replace_all(
                tr(i18n, locale, "error"@, "unknown_voice_state"@),
                "{url}"@,
                HYDROGEN_BUG_URL@,
            ),
            VoiceCheck::NotInVoiceChat => tr(i18n, locale, "error"@, "not_in_voice_chat"@),
            _ => tr(i18n, locale, "error"@, "player_not_exists"@),
        },
    )
}

/// The answer to a music command that cannot run.
pub fn voice_error(i18n: &Translator, locale: &str, check: VoiceCheck) -> (r: String)
    requires
        check != VoiceCheck::Proceed,
    ensures
        r@ == voice_error_text(*i18n, locale@, check),
{
    proof {
        reveal_strlit("{url}");
    }
    let text = match check {
        VoiceCheck::UnknownVoiceState => {
            let t = i18n.translate(locale, "error", "unknown_voice_state");
            replace(t.as_str(), "{url}", HYDROGEN_BUG_URL)
        },
        VoiceCheck::NotInVoiceChat => i18n.translate(locale, "error", "not_in_voice_chat"),
        _ => i18n.translate(locale, "error", "player_not_exists"),
    };
    error_message(i18n, locale, text.as_str())
}

/// What came of pressing the previous-track button.
#[derive(Debug, Clone)]
pub enum PrevOutcome {
    /// The user's voice channel cannot be known.
    UnknownVoiceState,
    /// The player could not go back.
    Failed,
    /// The queue is empty.
    EmptyQueue,
    /// The player went back to this track.
    Returned(HydrogenMusic),
    /// The user is not in the bot's voice channel.
    NotInVoiceChat,
    /// The guild has no player.
    PlayerNotExists,
}

/// The description of the answer to the previous-track button.
pub open spec fn prev_outcome_text(i18n: Translator, locale: Seq<char>, outcome: PrevOutcome) -> Seq<
    char,
> {
    let note = tr(i18n, locale, "error"@, "not_intentional"@);
    match outcome {
        PrevOutcome::UnknownVoiceState => paragraphs(
            tr(i18n, locale, "error"@, "unknown_voice_state"@),
            note,
        ),
        PrevOutcome::Failed => tr(i18n, locale, "error"@, "unknown"@),
        PrevOutcome::EmptyQueue => paragraphs(tr(i18n, locale, "error"@, "empty_queue"@), note),
        PrevOutcome::Returned(m) => prev_text(i18n, locale, m),
        PrevOutcome::NotInVoiceChat => paragraphs(
            tr(i18n, locale, "error"@, "not_in_voice_chat"@),
            note,
        ),
        PrevOutcome::PlayerNotExists => paragraphs(
            tr(i18n, locale, "error"@, "player_not_exists"@),
            note,
        ),
    }
}

impl PrevComponent {
    /// The embed that answers the previous-track button: in the primary
    /// color when the player went back, else in the error color.
    pub fn response(i18n: &Translator, locale: &str, outcome: PrevOutcome) -> (r: ResponseEmbed)
        ensures
            r.title@ == tr(*i18n, locale@, "prev"@, "embed_title"@),
            r.description@ == prev_outcome_text(*i18n, locale@, outcome),
            r.color == (if outcome is Returned {
                HYDROGEN_PRIMARY_COLOR
            } else {
                HYDROGEN_ERROR_COLOR
            }),
            r.footer@ == tr(*i18n, locale@, "generic"@, "embed_footer"@),
    {
        let note = i18n.translate(locale, "error", "not_intentional");
        let (description, color) = match &outcome {
            PrevOutcome::UnknownVoiceState => {
                let t = i18n.translate(locale, "error", "unknown_voice_state");
                (join_paragraphs(t.as_str(), note.as_str()), HYDROGEN_ERROR_COLOR)
            },
            PrevOutcome::Failed => (i18n.translate(locale, "error", "unknown"), HYDROGEN_ERROR_COLOR),
            PrevOutcome::EmptyQueue => {
                let t = i18n.translate(locale, "error", "empty_queue");
                (join_paragraphs(t.as_str(), note.as_str()), HYDROGEN_ERROR_COLOR)
            },
            PrevOutcome::Returned(m) => (
                PrevComponent::get_message(m, i18n, locale),
                HYDROGEN_PRIMARY_COLOR,
            ),
            PrevOutcome::NotInVoiceChat => {
                let t = i18n.translate(locale, "error", "not_in_voice_chat");
                (join_paragraphs(t.as_str(), note.as_str()), HYDROGEN_ERROR_COLOR)
            },
            PrevOutcome::PlayerNotExists => {
                let t = i18n.translate(locale, "error", "player_not_exists");
                (join_paragraphs(t.as_str(), note.as_str()), HYDROGEN_ERROR_COLOR)
            },
        };
        ResponseEmbed {
            title: i18n.translate(locale, "prev", "embed_title"),
            description,
            color,
            footer: i18n.translate(locale, "generic", "embed_footer"),
        }
    }

    /// What pressing the previous-track button comes to when the voice
    /// check stops it; `None` when the player is to be asked to go back.
    pub fn blocked_outcome(check: VoiceCheck) -> (r: Option<PrevOutcome>)
        ensures
            r == (match check {
                VoiceCheck::Proceed => None,
                VoiceCheck::UnknownVoiceState => Some(PrevOutcome::UnknownVoiceState),
                VoiceCheck::NotInVoiceChat => Some(PrevOutcome::NotInVoiceChat),
                VoiceCheck::PlayerNotExists => Some(PrevOutcome::PlayerNotExists),
            }),
    {
        match check {
            VoiceCheck::Proceed => None,
            VoiceCheck::UnknownVoiceState => Some(PrevOutcome::UnknownVoiceState),
            VoiceCheck::NotInVoiceChat => Some(PrevOutcome::NotInVoiceChat),
            VoiceCheck::PlayerNotExists => Some(PrevOutcome::PlayerNotExists),
        }
    }

    /// What came of asking the player to go back: `None` when it could not,
    /// `Some(None)` when there was no track to go back to, and
    /// `Some(Some(track))` when it went back to `track`.
    pub fn returned_outcome(result: Option<Option<HydrogenMusic>>) -> (r: PrevOutcome)
        ensures
            r == (match result {
                None => PrevOutcome::Failed,
                Some(None) => PrevOutcome::EmptyQueue,
                Some(Some(track)) => PrevOutcome::Returned(track),
            }),
    {
        match result {
            None => PrevOutcome::Failed,
            Some(None) => PrevOutcome::EmptyQueue,
            Some(Some(track)) => PrevOutcome::Returned(track),
        }
    }
}

/// A line of the `/about` answer: a new line and the translated `key` of
/// `about` with `{value}` replaced.
pub open spec fn about_line(i18n: Translator, locale: Seq<char>, key: Seq<char>, value: Seq<char>) -> Seq<
    char,
> {
    seq!['\n'] + replace_all(tr(i18n, locale, "about"@, key), "{value}"@, value)
}

/// The `/about` answer: the software section (name, version, source code,
/// bug report) and the statistics section (players, if known, shards,
/// guilds, and latency, if known).
pub open spec fn about_text(
    i18n: Translator,
    locale: Seq<char>,
    version: Seq<char>,
    players: Option<nat>,
    shards: nat,
    guilds: nat,
    latency_ms: Option<nat>,
) -> Seq<char> {
    let software = "### "@ + tr(i18n, locale, "about"@, "software"@) + about_line(
        i18n,
        locale,
        "software_name"@,
        HYDROGEN_NAME@,
    ) + about_line(i18n, locale, "version"@, version) + about_line(
        i18n,
        locale,
        "source_code"@,
        HYDROGEN_REPOSITORY_URL@,
    ) + about_line(i18n, locale, "bug_report"@, HYDROGEN_BUG_URL@);
    let players_line = match players {
        Some(p) => about_line(i18n, locale, "players"@, decimal(p)),
        None => Seq::empty(),
    };
    let latency_line = match latency_ms {
        Some(l) => about_line(i18n, locale, "latency"@, decimal(l)),
        None => Seq::empty(),
    };
    software + "\n### "@ + tr(i18n, locale, "about"@, "statistics"@) + players_line + about_line(
        i18n,
        locale,
        "shards"@,
        decimal(shards),
    ) + about_line(i18n, locale, "guilds"@, decimal(guilds)) + latency_line
}

/// Appends a line of the `/about` answer.
fn push_about_line(out: &mut Vec<char>, i18n: &Translator, locale: &str, key: &str, value: &str)
    ensures
        final(out)@ == old(out)@ + about_line(*i18n, locale@, key@, value@),
{
    proof {
        reveal_strlit("{value}");
    }
    let text = i18n.translate(locale, "about", key);
    let text = replace(text.as_str(), "{value}", value);
    out.push('\n');
    push_str(out, text.as_str());
    assert(final(out)@ =~= old(out)@ + about_line(*i18n, locale@, key@, value@));
}

/// The description of the `/about` answer.
pub fn about_description(
    i18n: &Translator,
    locale: &str,
    version: &str,
    players: Option<u64>,
    shards: u64,
    guilds: u64,
    latency_ms: Option<u64>,
) -> (r: String)
    ensures
        r@ == about_text(
            *i18n,
            locale@,
            version@,
            match players {
                Some(p) => Some(p as nat),
                None => None,
            },
            shards as nat,
            guilds as nat,
            match latency_ms {
                Some(l) => Some(l as nat),
                None => None,
            },
        ),
{
    let mut out: Vec<char> = Vec::new();
    push_str(&mut out, "### ");
    let software = i18n.translate(locale, "about", "software");
    push_str(&mut out, software.as_str());
    push_about_line(&mut out, i18n, locale, "software_name", HYDROGEN_NAME);
    push_about_line(&mut out, i18n, locale, "version", version);
    push_about_line(&mut out, i18n, locale, "source_code", HYDROGEN_REPOSITORY_URL);
    push_about_line(&mut out, i18n, locale, "bug_report", HYDROGEN_BUG_URL);
    push_str(&mut out, "\n### ");
    let statistics = i18n.translate(locale, "about", "statistics");
    push_str(&mut out, statistics.as_str());
    if let Some(p) = players {
        let text = u64_to_string(p);
        push_about_line(&mut out, i18n, locale, "players", text.as_str());
    }
    let shards_text = u64_to_string(shards);
    push_about_line(&mut out, i18n, locale, "shards", shards_text.as_str());
    let guilds_text = u64_to_string(guilds);
    push_about_line(&mut out, i18n, locale, "guilds", guilds_text.as_str());
    if let Some(l) = latency_ms {
        let text = u64_to_string(l);
        push_about_line(&mut out, i18n, locale, "latency", text.as_str());
    }
    assert(out@ =~= about_text(
        *i18n,
        locale@,
        version@,
        match players {
            Some(p) => Some(p as nat),
            None => None,
        },
        shards as nat,
        guilds as nat,
        match latency_ms {
            Some(l) => Some(l as nat),
            None => None,
        },
    ));
    string_from_chars(&out)
}

/// How the answer to `/join` names `/play`: a mention of the registered
/// command, or its name when its ID is not known.
pub open spec fn play_mention(play_command_id: Option<u64>) -> Seq<char> {
    match play_command_id {
        Some(id) => "</play:"@ + decimal(id as nat) + ">"@,
        None => "`/play`"@,
    }
}

/// The text that answers `/join`.
pub open spec fn join_text(i18n: Translator, locale: Seq<char>, play_command_id: Option<u64>) -> Seq<
    char,
> {
    replace_all(tr(i18n, locale, "join"@, "joined"@), "{play}"@, play_mention(play_command_id))
}

/// The answer to `/join`: the bot joined, and `/play` plays music.
pub fn join_message(i18n: &Translator, locale: &str, play_command_id: Option<u64>) -> (r: String)
    ensures
        r@ == join_text(*i18n, locale@, play_command_id),
{
    proof {
        reveal_strlit("{play}");
    }
    let mut mention: Vec<char> = Vec::new();
    match play_command_id {
        Some(id) => {
            push_str(&mut mention, "</play:");
            let digits = u64_to_string(id);
            push_str(&mut mention, digits.as_str());
            push_str(&mut mention, ">");
        },
        None => push_str(&mut mention, "`/play`"),
    }
    assert(mention@ =~= play_mention(play_command_id));
    let mention = string_from_chars(&mention);
    let text = i18n.translate(locale, "join", "joined");
    replace(text.as_str(), "{play}", mention.as_str())
}

} // verus!
