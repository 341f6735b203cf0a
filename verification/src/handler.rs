//! How the answers of the commands and buttons are shown: the embed of a
//! response, the notice of the public instance, and the simple commands.
use vstd::prelude::*;

use crate::lavalink::{LavalinkRestUpdatePlayer, LavalinkRestVoiceState};
use crate::manager::tr;
use crate::text::{decimal, owned, push_str, replace, replace_all, string_from_chars, u64_to_string};
use crate::translator::Translator;
use crate::{
    HYDROGEN_ERROR_COLOR, HYDROGEN_PRIMARY_COLOR, HYDROGEN_PUBLIC_INSTANCE_ID,
    HYDROGEN_REPOSITORY_URL, HYDROGEN_WARNING_TIMEOUT, ROLLEM_BOT_ID,
};

verus! {

/// What a command or a button answers.
#[derive(Debug, Clone)]
pub enum Response {
    /// An answer with a title and a description.
    Generic {
        /// The embed title.
        title: String,
        /// The embed description.
        description: String,
    },
}

/// The embed that shows an answer.
#[derive(Debug, Clone)]
pub struct ResponseEmbed {
    /// The embed title.
    pub title: String,
    /// The embed description.
    pub description: String,
    /// The embed color.
    pub color: i32,
    /// The embed footer.
    pub footer: String,
}

/// The embed that shows the answer of a command or a button: in the primary
/// color for a success, in the error color for a failure.
pub fn create_embed(response: Result<Response, Response>, footer_text: &str) -> (r: ResponseEmbed)
    ensures
        ({
            let (given, color) = match response {
                Ok(g) => (g, HYDROGEN_PRIMARY_COLOR),
                Err(g) => (g, HYDROGEN_ERROR_COLOR),
            };
            let Response::Generic { title, description } = given;
            &&& r.title == title
            &&& r.description == description
            &&& r.color == color
            &&& r.footer@ == footer_text@
        }),
{
    let (given, color) = match response {
        Ok(g) => (g, HYDROGEN_PRIMARY_COLOR),
        Err(g) => (g, HYDROGEN_ERROR_COLOR),
    };
    match given {
        Response::Generic { title, description } => ResponseEmbed {
            title,
            description,
            color,
            footer: owned(footer_text),
        },
    }
}

/// The notice that the public instance ends: when it ends, where to get the
/// bot, and that the command runs after the notice's delay, counted from
/// `now_secs`, the current Unix time in seconds.
pub open spec fn end_notice_text(i18n: Translator, locale: Seq<char>, now_secs: nat) -> Seq<char> {
    replace_all(
        replace_all(tr(i18n, locale, "public_instance"@, "ending"@), "{time}"@, "<t:1714489200>"@),
        "{url}"@,
        HYDROGEN_REPOSITORY_URL@,
    ) + seq!['\n', '\n'] + replace_all(
        tr(i18n, locale, "public_instance"@, "running_in"@),
        "{time}"@,
        seq!['<', 't', ':'] + decimal((now_secs + HYDROGEN_WARNING_TIMEOUT + 2) as nat) + seq![':', 'R', '>'],
    )
}

/// The description of the notice that the public instance ends.
pub fn end_notice(i18n: &Translator, locale: &str, now_secs: u64) -> (r: String)
    requires
        now_secs + HYDROGEN_WARNING_TIMEOUT + 2 <= u64::MAX,
    ensures
        r@ == end_notice_text(*i18n, locale@, now_secs as nat),
{
    proof {
        reveal_strlit("{time}");
        reveal_strlit("{url}");
    }
    let ending = i18n.translate(locale, "public_instance", "ending");
    let ending = replace(ending.as_str(), "{time}", "<t:1714489200>");
    let ending = replace(ending.as_str(), "{url}", HYDROGEN_REPOSITORY_URL);
    let mut stamp: Vec<char> = Vec::new();
    stamp.push('<');
    stamp.push('t');
    stamp.push(':');
    let secs = u64_to_string(now_secs + HYDROGEN_WARNING_TIMEOUT + 2);
    push_str(&mut stamp, secs.as_str());
    stamp.push(':');
    stamp.push('R');
    stamp.push('>');
    assert(stamp@ =~= seq!['<', 't', ':'] + decimal((now_secs + HYDROGEN_WARNING_TIMEOUT + 2) as nat)
        + seq![':', 'R', '>']);
    let stamp = string_from_chars(&stamp);
    let running = i18n.translate(locale, "public_instance", "running_in");
    let running = replace(running.as_str(), "{time}", stamp.as_str());
    let mut out: Vec<char> = Vec::new();
    push_str(&mut out, ending.as_str());
    out.push('\n');
    out.push('\n');
    push_str(&mut out, running.as_str());
    assert(out@ =~= end_notice_text(*i18n, locale@, now_secs as nat));
    string_from_chars(&out)
}

/// The `/ping` command, which answers `pong!`.
pub struct PingCommand;

impl PingCommand {
    /// What `/ping` answers.
    pub fn reply(&self) -> (r: &'static str)
        ensures
            r@ == "pong!"@,
    {
        "pong!"
    }
}

/// The simple `/play` command, which asks Lavalink to play the query at
/// once.
pub struct PlayCommand;

impl PlayCommand {
    /// The update that asks Lavalink to play `query`, connecting with
    /// `voice` when the bot joined the voice chat for it.
    pub fn request(&self, query: &str, voice: Option<LavalinkRestVoiceState>) -> (r:
        LavalinkRestUpdatePlayer)
        ensures
            r.identifier matches Some(Some(q)) && q@ == query@,
            r.voice == voice,
            r.encoded_track is None,
            r.position is None,
            r.end_time is None,
            r.volume is None,
            r.paused is None,
    {
        LavalinkRestUpdatePlayer {
            encoded_track: None,
            identifier: Some(Some(owned(query))),
            position: None,
            end_time: None,
            volume: None,
            paused: None,
            voice,
        }
    }

    /// What `/play` answers when the user is in no voice chat.
    pub fn not_in_voice_chat(&self) -> (r: &'static str)
        ensures
            r@ == "You aren't in a voice chat!"@,
    {
        "You aren't in a voice chat!"
    }

    /// What `/play` answers when the bot cannot join the voice chat.
    pub fn cannot_connect(&self) -> (r: &'static str)
        ensures
            r@ == "Can't connect to the voice chat!"@,
    {
        "Can't connect to the voice chat!"
    }

    /// What `/play` answers once Lavalink plays the track titled `title`.
    pub fn requested(&self, title: &str) -> (r: String)
        ensures
            r@ == "Requested music: "@ + title@,
    {
        let mut out: Vec<char> = Vec::new();
        push_str(&mut out, "Requested music: ");
        push_str(&mut out, title);
        string_from_chars(&out)
    }
}

/// The roll bots whose presence in a guild makes Hydrogen leave the rolls
/// written in messages to them: Rollem, and the public instance of Hydrogen
/// unless this is the public instance.
pub fn other_roll_bots(public_instance: bool) -> (r: Vec<u64>)
    ensures
        r@ == (if public_instance {
            seq![ROLLEM_BOT_ID]
        } else {
            seq![ROLLEM_BOT_ID, HYDROGEN_PUBLIC_INSTANCE_ID]
        }),
{
    let mut bots: Vec<u64> = Vec::new();
    bots.push(ROLLEM_BOT_ID);
    if !public_instance {
        bots.push(HYDROGEN_PUBLIC_INSTANCE_ID);
    }
    bots
}

/// Whether a message is read for a roll: not when a bot wrote it, nor,
/// unless rolls are forced, when another roll bot is in the guild.
pub fn reads_message_roll(from_bot: bool, force_roll: bool, other_roll_bot_present: bool) -> (r:
    bool)
    ensures
        r == (!from_bot && (force_roll || !other_roll_bot_present)),
{
    if from_bot {
        return false;
    }
    force_roll || !other_roll_bot_present
}

} // verus!
