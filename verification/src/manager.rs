//! What the player manager decides: the message that shows a guild's
//! player, with its buttons, and the Lavalink node a new player goes to.
use vstd::prelude::*;

use crate::hydrolink::websocket::TrackEndReason;
use crate::player::{HydrogenMusic, LoopType};
use crate::text::{decimal, replace, replace_all, u64_to_string};
use crate::translator::{translation, Translator};
use crate::{HYDROGEN_EMPTY_CHAT_TIMEOUT, HYDROGEN_PRIMARY_COLOR};

verus! {

/// What a player is doing, as its message shows it.
#[derive(Debug, Clone, Copy, PartialEq, Eq, Structural)]
pub enum HydrogenPlayerState {
    /// A track plays or is paused.
    Playing,
    /// The queue is empty.
    Nothing,
    /// The player waits, with every button disabled.
    Thinking,
}

/// The style of a button.
#[derive(Debug, Clone, Copy, PartialEq, Eq, Structural)]
pub enum ButtonStyle {
    /// The main style.
    Primary,
    /// The muted style.
    Secondary,
    /// The style of a success.
    Success,
    /// The style of a dangerous action.
    Danger,
}

/// A button of the player message.
#[derive(Debug, Clone, Copy)]
pub struct Button {
    /// The identifier the button reports when pressed.
    pub custom_id: &'static str,
    /// Whether the button is disabled.
    pub disabled: bool,
    /// The emoji on the button.
    pub emoji: &'static str,
    /// The style of the button.
    pub style: ButtonStyle,
}

/// The buttons of the player message, in two rows of three.
#[derive(Debug, Clone, Copy)]
pub struct PlayComponents {
    /// Goes back to the previous track.
    pub prev: Button,
    /// Pauses or resumes.
    pub pause: Button,
    /// Skips to the next track.
    pub skip: Button,
    /// Changes the loop type.
    pub loop_button: Button,
    /// Stops the player.
    pub stop: Button,
    /// Shows the queue; not available yet.
    pub queue: Button,
}

/// The emoji that shows a loop type.
pub open spec fn loop_emoji(loop_type: LoopType) -> &'static str {
    match loop_type {
        LoopType::Autostart => "⬇️",
        LoopType::NoAutostart => "⏺",
        LoopType::Music => "🔂",
        LoopType::Queue => "🔁",
        LoopType::Random => "🔀",
    }
}

/// The style of the previous, pause and skip buttons, but for a paused
/// pause button: muted when the queue is empty.
pub open spec fn control_style(state: HydrogenPlayerState) -> ButtonStyle {
    if state == HydrogenPlayerState::Nothing {
        ButtonStyle::Secondary
    } else {
        ButtonStyle::Primary
    }
}

/// The buttons of the player message for a player in `state`, paused or
/// not, with `loop_type`.
pub open spec fn components_of(
    state: HydrogenPlayerState,
    paused: bool,
    loop_type: LoopType,
) -> PlayComponents {
    let controls_off = state != HydrogenPlayerState::Playing;
    let all_off = state == HydrogenPlayerState::Thinking;
    PlayComponents {
        prev: Button {
            custom_id: "prev",
            disabled: controls_off,
            emoji: "⏮",
            style: control_style(state),
        },
        pause: Button {
            custom_id: "pause",
            disabled: controls_off,
            emoji: if paused {
                "▶️"
            } else {
                "⏸"
            },
            style: if state == HydrogenPlayerState::Nothing {
                ButtonStyle::Secondary
            } else if paused {
                ButtonStyle::Success
            } else {
                ButtonStyle::Primary
            },
        },
        skip: Button {
            custom_id: "skip",
            disabled: controls_off,
            emoji: "⏭",
            style: control_style(state),
        },
        loop_button: Button {
            custom_id: "loop",
            disabled: all_off,
            emoji: loop_emoji(loop_type),
            style: ButtonStyle::Secondary,
        },
        stop: Button {
            custom_id: "stop",
            disabled: all_off,
            emoji: "⏹",
            style: ButtonStyle::Danger,
        },
        queue: Button {
            custom_id: "queue",
            disabled: true,
            emoji: "ℹ️",
            style: ButtonStyle::Secondary,
        },
    }
}

/// The buttons of the player message.
pub fn play_components(state: HydrogenPlayerState, paused: bool, loop_queue: LoopType) -> (r:
    PlayComponents)
    ensures
        r == components_of(state, paused, loop_queue),
{
    let mut prev_style = ButtonStyle::Primary;
    let mut pause_style = ButtonStyle::Primary;
    let mut skip_style = ButtonStyle::Primary;
    let mut prev_disabled = false;
    let mut pause_disabled = false;
    let mut skip_disabled = false;
    let mut loop_disabled = false;
    let mut stop_disabled = false;
    let mut pause_emoji = "⏸";
    let loop_emoji = match loop_queue {
        LoopType::Autostart => "⬇️",
        LoopType::NoAutostart => "⏺",
        LoopType::Music => "🔂",
        LoopType::Queue => "🔁",
        LoopType::Random => "🔀",
    };
    if paused {
        pause_style = ButtonStyle::Success;
        pause_emoji = "▶️";
    }
    match state {
        HydrogenPlayerState::Playing => {},
        HydrogenPlayerState::Nothing => {
            prev_disabled = true;
            pause_disabled = true;
            skip_disabled = true;
            prev_style = ButtonStyle::Secondary;
            pause_style = ButtonStyle::Secondary;
            skip_style = ButtonStyle::Secondary;
        },
        HydrogenPlayerState::Thinking => {
            prev_disabled = true;
            pause_disabled = true;
            skip_disabled = true;
            loop_disabled = true;
            stop_disabled = true;
        },
    }
    PlayComponents {
        prev: Button { custom_id: "prev", disabled: prev_disabled, emoji: "⏮", style: prev_style },
        pause: Button {
            custom_id: "pause",
            disabled: pause_disabled,
            emoji: pause_emoji,
            style: pause_style,
        },
        skip: Button { custom_id: "skip", disabled: skip_disabled, emoji: "⏭", style: skip_style },
        loop_button: Button {
            custom_id: "loop",
            disabled: loop_disabled,
            emoji: loop_emoji,
            style: ButtonStyle::Secondary,
        },
        stop: Button {
            custom_id: "stop",
            disabled: stop_disabled,
            emoji: "⏹",
            style: ButtonStyle::Danger,
        },
        queue: Button {
            custom_id: "queue",
            disabled: true,
            emoji: "ℹ️",
            style: ButtonStyle::Secondary,
        },
    }
}

/// The message that shows a player: an embed and the buttons.
#[derive(Debug, Clone)]
pub struct PlayerMessage {
    /// The embed title.
    pub title: String,
    /// The embed description.
    pub description: String,
    /// The embed color.
    pub color: i32,
    /// The embed footer.
    pub footer: String,
    /// The buttons.
    pub components: PlayComponents,
}

/// What the player message shows of the current track, or of none.
#[derive(Debug, Clone)]
pub struct NowPlaying {
    /// The description of the track.
    pub description: String,
    /// The user that requested the track, shown as the embed author.
    pub requester: Option<u64>,
    /// The state the message shows.
    pub state: HydrogenPlayerState,
}

/// `translate(locale, category, name)` of `i18n`.
pub open spec fn tr(i18n: Translator, locale: Seq<char>, category: Seq<char>, name: Seq<char>) -> Seq<
    char,
> {
    translation(i18n.translations(), i18n.fallback(), locale, category, name)
}

/// The description of the track that plays: its name, author and URL, if
/// it has one, put in the translated text.
pub open spec fn track_description(i18n: Translator, locale: Seq<char>, music: HydrogenMusic) -> Seq<
    char,
> {
    let base = match music.uri {
        Some(u) => replace_all(tr(i18n, locale, "player"@, "description_url"@), "{url}"@, u@),
        None => tr(i18n, locale, "player"@, "description"@),
    };
    replace_all(replace_all(base, "{name}"@, music.title@), "{author}"@, music.author@)
}

/// What the player message shows of the track that plays now; the state is
/// `Nothing` when there is no track and the queue is empty.
pub fn now_playing(
    i18n: &Translator,
    locale: &str,
    now: Option<&HydrogenMusic>,
    queue_is_empty: bool,
) -> (r: NowPlaying)
    ensures
        now matches Some(m) ==> r.description@ == track_description(*i18n, locale@, *m)
            && r.requester == Some(m.requester_id) && r.state == HydrogenPlayerState::Playing,
        now is None ==> r.description@ == tr(*i18n, locale@, "player"@, "empty"@) && r.requester
            is None && r.state == (if queue_is_empty {
            HydrogenPlayerState::Nothing
        } else {
            HydrogenPlayerState::Playing
        }),
{
    proof {
        reveal_strlit("{url}");
        reveal_strlit("{name}");
        reveal_strlit("{author}");
    }
    match now {
        Some(music) => {
            let base = match &music.uri {
                Some(uri) => {
                    let text = i18n.translate(locale, "player", "description_url");
                    replace(text.as_str(), "{url}", uri.as_str())
                },
                None => i18n.translate(locale, "player", "description"),
            };
            let named = replace(base.as_str(), "{name}", music.title.as_str());
            let description = replace(named.as_str(), "{author}", music.author.as_str());
            NowPlaying {
                description,
                requester: Some(music.requester_id),
                state: HydrogenPlayerState::Playing,
            }
        },
        None => {
            let description = i18n.translate(locale, "player", "empty");
            let state = if queue_is_empty {
                HydrogenPlayerState::Nothing
            } else {
                HydrogenPlayerState::Playing
            };
            NowPlaying { description, requester: None, state }
        },
    }
}

/// The message that shows a player in `state`, paused or not, with
/// `loop_type`, titled and signed in the guild's locale.
pub fn player_message(
    i18n: &Translator,
    locale: &str,
    description: &str,
    color: i32,
    state: HydrogenPlayerState,
    paused: bool,
    loop_type: LoopType,
) -> (r: PlayerMessage)
    ensures
        r.title@ == tr(*i18n, locale@, "player"@, "title"@),
        r.description@ == description@,
        r.color == color,
        r.footer@ == tr(*i18n, locale@, "generic"@, "embed_footer"@),
        r.components == components_of(state, paused, loop_type),
{
    PlayerMessage {
        title: i18n.translate(locale, "player", "title"),
        description: description.to_owned(),
        color,
        footer: i18n.translate(locale, "generic", "embed_footer"),
        components: play_components(state, paused, loop_type),
    }
}

/// The message that shows the track that plays now, or that nothing does.
pub fn now_playing_message(
    i18n: &Translator,
    locale: &str,
    now: Option<&HydrogenMusic>,
    queue_is_empty: bool,
    paused: bool,
    loop_type: LoopType,
) -> (r: (PlayerMessage, Option<u64>))
    ensures
        ({
            let shown = if now is Some {
                HydrogenPlayerState::Playing
            } else if queue_is_empty {
                HydrogenPlayerState::Nothing
            } else {
                HydrogenPlayerState::Playing
            };
            &&& r.0.description@ == (match now {
                Some(m) => track_description(*i18n, locale@, *m),
                None => tr(*i18n, locale@, "player"@, "empty"@),
            })
            &&& r.0.color == HYDROGEN_PRIMARY_COLOR
            &&& r.0.title@ == tr(*i18n, locale@, "player"@, "title"@)
            &&& r.0.footer@ == tr(*i18n, locale@, "generic"@, "embed_footer"@)
            &&& r.0.components == components_of(shown, paused, loop_type)
            &&& r.1 == (match now {
                Some(m) => Some(m.requester_id),
                None => None,
            })
        }),
{
    let shown = now_playing(i18n, locale, now, queue_is_empty);
    let message = player_message(
        i18n,
        locale,
        shown.description.as_str(),
        HYDROGEN_PRIMARY_COLOR,
        shown.state,
        paused,
        loop_type,
    );
    (message, shown.requester)
}

/// The text that warns that the player stops after the empty-chat timeout.
pub open spec fn timeout_text(i18n: Translator, locale: Seq<char>) -> Seq<char> {
    replace_all(tr(i18n, locale, "player"@, "timeout"@), "{time}"@, "10"@)
}

/// The warning that the player stops, as nobody else is in the voice chat.
pub fn timeout_message(i18n: &Translator, locale: &str) -> (r: String)
    ensures
        r@ == timeout_text(*i18n, locale@),
{
    proof {
        reveal_strlit("{time}");
        reveal_strlit("10");
    }
    let text = i18n.translate(locale, "player", "timeout");
    let time = u64_to_string(HYDROGEN_EMPTY_CHAT_TIMEOUT);
    assert(time@ =~= "10"@) by {
        assert(decimal(1) == seq!['1']);
        assert(decimal(10) == seq!['1'].push('0'));
    }
    replace(text.as_str(), "{time}", time.as_str())
}

/// Spreads new players over the Lavalink nodes in turn.
pub struct LoadBalancer {
    /// The position of the node the next player goes to.
    index: usize,
}

impl View for LoadBalancer {
    type V = int;

    closed spec fn view(&self) -> int {
        self.index as int
    }
}

/// The node chosen among `node_count` with the balancer at `index`, and the
/// balancer's position afterwards.
pub open spec fn balanced(index: int, node_count: int) -> (int, int) {
    (
        if index >= node_count {
            0
        } else {
            index
        },
        if index + 1 >= node_count {
            0
        } else {
            index + 1
        },
    )
}

/// The node chosen among the nodes, `connected[i]` telling whether node `i`
/// is connected, with the balancer at `index` and `tries` tries left, and
/// the balancer's position afterwards.
pub open spec fn connected_node(connected: Seq<bool>, index: int, tries: nat) -> (Option<int>, int)
    decreases tries,
{
    if tries == 0 || !(0 <= index < connected.len()) {
        (None, index)
    } else {
        let after = if index + 1 >= connected.len() {
            0
        } else {
            index + 1
        };
        if connected[index] {
            (Some(index), after)
        } else {
            connected_node(connected, after, (tries - 1) as nat)
        }
    }
}

impl LoadBalancer {
    /// What every balancer keeps: it can always move one position on.
    pub open spec fn well_formed(&self) -> bool {
        self@ < usize::MAX
    }

    /// A balancer at the first node.
    pub fn new() -> (r: Self)
        ensures
            r@ == 0,
            r.well_formed(),
    {
        LoadBalancer { index: 0 }
    }

    /// The node a new player goes to among `node_count`, moving on to the
    /// next one.
    pub fn increment(&mut self, node_count: usize) -> (r: usize)
        requires
            old(self).well_formed(),
        ensures
            final(self).well_formed(),
            (r as int, final(self)@) == balanced(old(self)@, node_count as int),
    {
        let index = self.index;
        if index + 1 >= node_count {
            self.index = 0;
        } else {
            self.index = index + 1;
        }
        if index >= node_count {
            0
        } else {
            index
        }
    }

    /// The first connected node from the balancer's position on, trying at
    /// most five nodes, moving on past each node tried.
    pub fn get_node(&mut self, connected: &Vec<bool>) -> (r: Option<usize>)
        requires
            old(self).well_formed(),
        ensures
            final(self).well_formed(),
            ({
                let (node, after) = connected_node(connected@, old(self)@, 5);
                &&& r == (match node {
                    Some(i) => Some(i as usize),
                    None => None,
                })
                &&& final(self)@ == after
            }),
    {
        let mut tries: usize = 0;
        while tries < 5
            invariant
                tries <= 5,
                self.index < usize::MAX,
                connected_node(connected@, old(self)@, 5) == connected_node(
                    connected@,
                    self.index as int,
                    (5 - tries) as nat,
                ),
            decreases 5 - tries,
        {
            if self.index < connected.len() {
                let i = self.index;
                if i + 1 >= connected.len() {
                    self.index = 0;
                } else {
                    self.index = i + 1;
                }
                if connected[i] {
                    return Some(i);
                }
            } else {
                return None;
            }
            tries = tries + 1;
        }
        None
    }
}

/// The balancer goes through the nodes in turn: from a node's position it
/// chooses that node and moves to the next, after the last to the first.
pub proof fn lemma_round_robin(index: int, node_count: int)
    requires
        0 <= index < node_count,
    ensures
        balanced(index, node_count) == (index, (index + 1) % node_count),
{
    if index + 1 < node_count {
        vstd::arithmetic::div_mod::lemma_small_mod((index + 1) as nat, node_count as nat);
    } else {
        vstd::arithmetic::div_mod::lemma_mod_self_0(node_count);
    }
}

/// Looking for a connected node from position `index` among the nodes,
/// `tries` tries at most, goes round the nodes in turn: the node found is
/// the first connected one among the next `tries` positions, counted
/// cyclically from `index`, and the balancer moves just past it, to the
/// first node after the last; when none of those positions holds a
/// connected node, nothing is found and the balancer has moved past all of
/// them.
#[verifier::spinoff_prover]
pub proof fn lemma_failover_round_robin(connected: Seq<bool>, index: int, tries: nat)
    requires
        0 <= index < connected.len(),
    ensures
        ({
            let n = connected.len() as int;
            let (node, after) = connected_node(connected, index, tries);
            &&& node matches Some(i) ==> {
                &&& exists|k: int|
                    #![trigger (index + k) % n]
                    0 <= k < tries && i == (index + k) % n && forall|j: int|
                        0 <= j < k ==> !connected[#[trigger] ((index + j) % n)]
                &&& connected[i]
                &&& after == (i + 1) % n
            }
            &&& node is None ==> {
                &&& forall|j: int| 0 <= j < tries ==> !connected[#[trigger] ((index + j) % n)]
                &&& after == (index + tries) % n
            }
        }),
    decreases tries,
{
    let n = connected.len() as int;
    vstd::arithmetic::div_mod::lemma_small_mod(index as nat, n as nat);
    if tries == 0 {
    } else {
        let next = if index + 1 >= n {
            0
        } else {
            index + 1
        };
        assert(next == (index + 1) % n) by {
            if index + 1 < n {
                vstd::arithmetic::div_mod::lemma_small_mod((index + 1) as nat, n as nat);
            } else {
                vstd::arithmetic::div_mod::lemma_mod_self_0(n);
            }
        }
        if connected[index] {
            assert((index + 0) % n == index);
            assert(connected_node(connected, index, tries) == (Some(index), next));
        } else {
            lemma_failover_round_robin(connected, next, (tries - 1) as nat);
            // Positions counted from `next` are those counted from `index`, one further.
            assert forall|j: int| #![trigger (next + j) % n] true implies (next + j) % n == (index + 1
                + j) % n by {
                vstd::arithmetic::div_mod::lemma_add_mod_noop_right(j, index + 1, n);
                assert(j + (index + 1) % n == next + j);
            }
            let (node, after) = connected_node(connected, next, (tries - 1) as nat);
            assert(connected_node(connected, index, tries) == (node, after));
            match node {
                Some(i) => {
                    let k0 = choose|k: int|
                        #![trigger (next + k) % n]
                        0 <= k < tries - 1 && i == (next + k) % n && forall|j: int|
                            0 <= j < k ==> !connected[#[trigger] ((next + j) % n)];
                    let k = k0 + 1;
                    assert(i == (index + k) % n);
                    assert forall|j: int| 0 <= j < k implies !connected[#[trigger] ((index + j)
                        % n)] by {
                        if j == 0 {
                            assert((index + 0) % n == index);
                        } else {
                            assert((next + (j - 1)) % n == (index + 1 + (j - 1)) % n);
                            assert(!connected[(next + (j - 1)) % n]);
                        }
                    }
                    assert(0 <= k < tries && i == (index + k) % n);
                },
                None => {
                    assert forall|j: int| 0 <= j < tries implies !connected[#[trigger] ((index
                        + j) % n)] by {
                        if j == 0 {
                            assert((index + 0) % n == index);
                        } else {
                            assert((next + (j - 1)) % n == (index + 1 + (j - 1)) % n);
                            assert(!connected[(next + (j - 1)) % n]);
                        }
                    }
                    assert((next + (tries - 1)) % n == (index + tries) % n);
                },
            }
        }
    }
}

/// The balancer's position after `calls` successive calls of `increment`
/// over `node_count` nodes, starting at `index`.
pub open spec fn balancer_after(index: int, node_count: int, calls: nat) -> int
    decreases calls,
{
    if calls == 0 {
        index
    } else {
        balanced(balancer_after(index, node_count, (calls - 1) as nat), node_count).1
    }
}

/// The node that call number `call` (counting from zero) of `increment`
/// chooses among `node_count` nodes, the balancer starting at `index`.
pub open spec fn chosen_at(index: int, node_count: int, call: nat) -> int {
    balanced(balancer_after(index, node_count, call), node_count).0
}

/// Successive calls of `increment` with an unchanged number of nodes go
/// round robin: from position `index`, call number `call` chooses node
/// `(index + call) % node_count` and leaves the balancer there plus one;
/// with no nodes every call chooses 0 and leaves the balancer at 0. The
/// balancer always stays below the number of nodes, or at 0 when there are
/// none, so every node chosen exists when there is one.
pub proof fn lemma_round_robin_calls(index: int, node_count: int, call: nat)
    requires
        0 <= node_count,
        0 <= index,
        index < node_count || index == 0,
    ensures
        0 <= balancer_after(index, node_count, call),
        balancer_after(index, node_count, call) < node_count || balancer_after(
            index,
            node_count,
            call,
        ) == 0,
        node_count > 0 ==> chosen_at(index, node_count, call) == (index + call) % node_count,
        node_count > 0 ==> balancer_after(index, node_count, call) == (index + call)
            % node_count,
        node_count == 0 ==> chosen_at(index, node_count, call) == 0,
        node_count == 0 ==> balancer_after(index, node_count, call) == 0,
    decreases call,
{
    if node_count == 0 {
        if call > 0 {
            lemma_round_robin_calls(index, node_count, (call - 1) as nat);
        }
    } else if call == 0 {
        vstd::arithmetic::div_mod::lemma_small_mod(index as nat, node_count as nat);
        lemma_round_robin(index, node_count);
    } else {
        let before = (call - 1) as nat;
        lemma_round_robin_calls(index, node_count, before);
        let prev = balancer_after(index, node_count, before);
        assert(prev == (index + before) % node_count);
        lemma_round_robin(prev, node_count);
        vstd::arithmetic::div_mod::lemma_add_mod_noop_right(1, index + before, node_count);
        assert(balancer_after(index, node_count, call) == (index + call) % node_count);
        let now = balancer_after(index, node_count, call);
        vstd::arithmetic::div_mod::lemma_mod_bound(index + call, node_count);
        lemma_round_robin(now, node_count);
    }
}

/// What to do when the bot's own voice state changed in a guild with a
/// player.
#[derive(Debug, Clone)]
pub enum OwnVoiceChange {
    /// The change is not the bot's, or not a change of an earlier state.
    Nothing,
    /// The bot moved: the player's connection takes the new session and
    /// channel.
    Reconnect {
        /// The new voice session.
        session_id: String,
        /// The new voice channel.
        channel_id: u64,
    },
    /// The bot left the voice chat it was in: the player is destroyed.
    Destroy,
}

/// What a voice state change means for the player: the bot's own change of
/// an earlier state moves the connection, or destroys the player when the
/// bot left a voice chat it was connected to.
pub fn own_voice_change(
    had_old_state: bool,
    is_bot: bool,
    new_channel: Option<u64>,
    session_id: &str,
    connected: bool,
) -> (r: OwnVoiceChange)
    ensures
        !(had_old_state && is_bot) ==> r is Nothing,
        had_old_state && is_bot ==> match new_channel {
            Some(c) => r matches OwnVoiceChange::Reconnect { session_id: s, channel_id }
                && s@ == session_id@ && channel_id == c,
            None => if connected {
                r is Destroy
            } else {
                r is Nothing
            },
        },
{
    if had_old_state && is_bot {
        match new_channel {
            Some(channel_id) => OwnVoiceChange::Reconnect {
                session_id: session_id.to_owned(),
                channel_id,
            },
            None => if connected {
                OwnVoiceChange::Destroy
            } else {
                OwnVoiceChange::Nothing
            },
        }
    } else {
        OwnVoiceChange::Nothing
    }
}

/// Whether the voice chat of the player is empty but for the bot, so that
/// the player leaves after the timeout.
pub fn chat_is_empty(members_count: usize) -> (r: bool)
    ensures
        r == (members_count <= 1),
{
    members_count <= 1
}

/// Whether the player moves on when a track ends for `reason`: only when
/// the track finished.
pub fn moves_on_after(reason: TrackEndReason) -> (r: bool)
    ensures
        r == (reason == TrackEndReason::Finished),
{
    match reason {
        TrackEndReason::Finished => true,
        _ => false,
    }
}

} // verus!
