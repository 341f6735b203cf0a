//! Hydrogen: the logic of a Discord bot for role-play sessions, with dice
//! rolls, time and roll syntaxes, translations and a music player queue.
use vstd::prelude::*;

pub mod chance;
pub mod commands;
pub mod config;
pub mod engine;
pub mod handler;
pub mod hydrolink;
pub mod i18n;
pub mod lang;
pub mod lavalink;
pub mod manager;
pub mod parsers;
pub mod player;
pub mod queue;
pub mod registry;
pub mod roll;
pub mod table;
pub mod text;
pub mod translator;
pub mod utils;

verus! {

/// Hydrogen's primary embed color.
pub const HYDROGEN_PRIMARY_COLOR: i32 = 0x5865f2i32;

/// The embed color of errors.
pub const HYDROGEN_ERROR_COLOR: i32 = 0xf04747i32;

/// Seconds a player waits in an empty voice chat before leaving.
pub const HYDROGEN_EMPTY_CHAT_TIMEOUT: u64 = 10u64;

/// The most tracks a queue holds.
pub const HYDROGEN_QUEUE_LIMIT: usize = 1000usize;

/// The prefix that turns a query into a search.
pub const HYDROGEN_SEARCH_PREFIX: &'static str = "ytsearch:";

/// Seconds the public instance warning is shown.
pub const HYDROGEN_WARNING_TIMEOUT: u64 = 10u64;

/// Hydrogen's color.
pub const HYDROGEN_COLOR: i32 = 0x009b60i32;

/// Milliseconds to wait for a Lavalink session.
pub const LAVALINK_CONNECTION_TIMEOUT: u64 = 5000u64;

/// The public instance ID.
pub const HYDROGEN_PUBLIC_INSTANCE_ID: u64 = 1128087591179268116u64;

/// Hydrogen's logo.
pub const HYDROGEN_LOGO_URL: &'static str =
    "https://raw.githubusercontent.com/nashiradeer/hydrogen/main/assets/icons/hydrogen-circular.png";

/// Where bugs are reported.
pub const HYDROGEN_BUG_URL: &'static str = "https://github.com/nashiradeer/hydrogen/issues";

/// Hydrogen's repository.
pub const HYDROGEN_REPOSITORY_URL: &'static str = "https://github.com/nashiradeer/hydrogen";

/// Hydrogen's project name.
pub const HYDROGEN_NAME: &'static str = "Hydrogen";

/// The IDs of other bots that answer rolls.
pub const ROLLEM_BOT_ID: u64 = 240732567744151553u64;

/// The key under which the shard runners are shared with the commands.
pub struct ShardManagerRunners;

} // verus!
