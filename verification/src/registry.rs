//! The slash commands Hydrogen registers: their names, descriptions and
//! options, with the names and descriptions translated into every language
//! that has them.
use vstd::prelude::*;

use crate::table::Table;
use crate::translator::{all_translations, Category, Translator};

verus! {

/// The kind of value an option takes.
#[derive(Debug, Clone, Copy, PartialEq, Eq, Structural)]
pub enum OptionKind {
    /// A text.
    String,
    /// An integer.
    Integer,
    /// A sub-command, whose options are its own.
    SubCommand,
}

/// An option of a command.
#[derive(Debug)]
pub struct CommandOption {
    /// The kind of value.
    pub kind: OptionKind,
    /// The name.
    pub name: &'static str,
    /// The description.
    pub description: &'static str,
    /// Whether the option must be given.
    pub required: bool,
    /// The smallest integer accepted.
    pub min_int_value: Option<i64>,
    /// The largest integer accepted.
    pub max_int_value: Option<i64>,
    /// The name in each language that has a translation of it.
    pub name_localizations: Category,
    /// The description in each language that has a translation of it.
    pub description_localizations: Category,
    /// The options of a sub-command.
    pub options: Vec<CommandOption>,
}

/// A slash command.
#[derive(Debug)]
pub struct Command {
    /// The name.
    pub name: &'static str,
    /// The description.
    pub description: &'static str,
    /// Whether the command can be used in direct messages, when set.
    pub dm_permission: Option<bool>,
    /// The name in each language that has a translation of it.
    pub name_localizations: Category,
    /// The description in each language that has a translation of it.
    pub description_localizations: Category,
    /// The options.
    pub options: Vec<CommandOption>,
}

/// The translations of `category.key` into every language, or none without
/// translations.
pub open spec fn localizations_of(
    i18n: Option<Translator>,
    category: Seq<char>,
    key: Seq<char>,
) -> Map<Seq<char>, Seq<char>> {
    match i18n {
        Some(t) => all_translations(t.translations(), category, key),
        None => Map::empty(),
    }
}

/// The translations of `category.key` into every language, if translations
/// are given.
pub fn localized(i18n: Option<&Translator>, category: &str, key: &str) -> (r: Category)
    ensures
        r@ == localizations_of(
            match i18n {
                Some(t) => Some(*t),
                None => None,
            },
            category@,
            key@,
        ),
{
    match i18n {
        Some(t) => t.get_all(category, key),
        None => Table::new(),
    }
}

/// Whether `o` is the option described, translated with the keys
/// `name_key` and `description_key` of `category`.
pub open spec fn option_is(
    o: CommandOption,
    kind: OptionKind,
    name: &'static str,
    description: &'static str,
    required: bool,
    min: Option<i64>,
    max: Option<i64>,
    i18n: Option<Translator>,
    category: Seq<char>,
    name_key: Seq<char>,
    description_key: Seq<char>,
) -> bool {
    &&& o.kind == kind
    &&& o.name == name
    &&& o.description == description
    &&& o.required == required
    &&& o.min_int_value == min
    &&& o.max_int_value == max
    &&& o.name_localizations@ == localizations_of(i18n, category, name_key)
    &&& o.description_localizations@ == localizations_of(i18n, category, description_key)
}

/// Whether `c` is the command described, translated with the keys `name`
/// and `description` of its own name as category.
pub open spec fn command_is(
    c: Command,
    name: &'static str,
    description: &'static str,
    dm_permission: Option<bool>,
    i18n: Option<Translator>,
) -> bool {
    &&& c.name == name
    &&& c.description == description
    &&& c.dm_permission == dm_permission
    &&& c.name_localizations@ == localizations_of(i18n, name@, "name"@)
    &&& c.description_localizations@ == localizations_of(i18n, name@, "description"@)
}

/// The translations, as the specifications see them.
pub open spec fn given(i18n: Option<&Translator>) -> Option<Translator> {
    match i18n {
        Some(t) => Some(*t),
        None => None,
    }
}

/// An option, translated with the keys `name_key` and `description_key`
/// of `category`.
fn option(
    kind: OptionKind,
    name: &'static str,
    description: &'static str,
    required: bool,
    min: Option<i64>,
    max: Option<i64>,
    i18n: Option<&Translator>,
    category: &str,
    name_key: &str,
    description_key: &str,
) -> (r: CommandOption)
    ensures
        option_is(
            r,
            kind,
            name,
            description,
            required,
            min,
            max,
            given(i18n),
            category@,
            name_key@,
            description_key@,
        ),
        r.options@.len() == 0,
{
    CommandOption {
        kind,
        name,
        description,
        required,
        min_int_value: min,
        max_int_value: max,
        name_localizations: localized(i18n, category, name_key),
        description_localizations: localized(i18n, category, description_key),
        options: Vec::new(),
    }
}

/// A command, translated with the keys `name` and `description` of its own
/// name as category.
fn command(
    name: &'static str,
    description: &'static str,
    dm_permission: Option<bool>,
    i18n: Option<&Translator>,
    options: Vec<CommandOption>,
) -> (r: Command)
    ensures
        command_is(r, name, description, dm_permission, given(i18n)),
        r.options == options,
{
    Command {
        name,
        description,
        dm_permission,
        name_localizations: localized(i18n, name, "name"),
        description_localizations: localized(i18n, name, "description"),
        options,
    }
}

/// The `/join` command.
pub fn register_join(i18n: Option<&Translator>) -> (r: Command)
    ensures
        command_is(
            r,
            "join",
            "Make me join your voice chat without playing anything.",
            Some(false),
            given(i18n),
        ),
        r.options@.len() == 0,
{
    command(
        "join",
        "Make me join your voice chat without playing anything.",
        Some(false),
        i18n,
        Vec::new(),
    )
}

/// The `/about` command.
pub fn register_about(i18n: Option<&Translator>) -> (r: Command)
    ensures
        command_is(r, "about", "Shows information about the bot.", Some(true), given(i18n)),
        r.options@.len() == 0,
{
    command("about", "Shows information about the bot.", Some(true), i18n, Vec::new())
}

/// The `/play` command, with its query.
pub fn register_play(i18n: Option<&Translator>) -> (r: Command)
    ensures
        command_is(
            r,
            "play",
            "Request music to be played, enqueuing it in the queue or playing immediately if empty.",
            Some(false),
            given(i18n),
        ),
        r.options@.len() == 1,
        option_is(
            r.options@[0],
            OptionKind::String,
            "query",
            "A music or playlist URL, or a search term.",
            true,
            None,
            None,
            given(i18n),
            "play"@,
            "query_name"@,
            "query_description"@,
        ),
{
    let query = option(
        OptionKind::String,
        "query",
        "A music or playlist URL, or a search term.",
        true,
        None,
        None,
        i18n,
        "play",
        "query_name",
        "query_description",
    );
    let mut options = Vec::new();
    options.push(query);
    command(
        "play",
        "Request music to be played, enqueuing it in the queue or playing immediately if empty.",
        Some(false),
        i18n,
        options,
    )
}

/// The `/seek` command, with its time.
pub fn register_seek(i18n: Option<&Translator>) -> (r: Command)
    ensures
        command_is(
            r,
            "seek",
            "Seek for the time in the current music playing.",
            Some(false),
            given(i18n),
        ),
        r.options@.len() == 1,
        option_is(
            r.options@[0],
            OptionKind::String,
            "time",
            "Time in seconds or a supported syntax.",
            true,
            None,
            None,
            given(i18n),
            "seek"@,
            "time_name"@,
            "time_description"@,
        ),
{
    let time = option(
        OptionKind::String,
        "time",
        "Time in seconds or a supported syntax.",
        true,
        None,
        None,
        i18n,
        "seek",
        "time_name",
        "time_description",
    );
    let mut options = Vec::new();
    options.push(time);
    command(
        "seek",
        "Seek for the time in the current music playing.",
        Some(false),
        i18n,
        options,
    )
}

/// The options shared by both kinds of `/roll`: dice count, repetitions
/// and modifier.
pub open spec fn roll_options_are(options: Seq<CommandOption>, i18n: Option<Translator>) -> bool {
    &&& options.len() == 3
    &&& option_is(
        options[0],
        OptionKind::Integer,
        "dice_count",
        "The amount of dices to roll.",
        false,
        Some(1),
        Some(50),
        i18n,
        "roll"@,
        "dice_count_name"@,
        "dice_count_description"@,
    )
    &&& option_is(
        options[1],
        OptionKind::Integer,
        "repetitions",
        "The amount of times to roll the dices.",
        false,
        Some(1),
        Some(10),
        i18n,
        "roll"@,
        "repetitions_name"@,
        "repetitions_description"@,
    )
    &&& option_is(
        options[2],
        OptionKind::String,
        "modifier",
        "The modifier to add to the roll. (Need to be modifier like +2 or -2)",
        false,
        None,
        None,
        i18n,
        "roll"@,
        "modifier_name"@,
        "modifier_description"@,
    )
}

/// The dice count, repetitions and modifier options of `/roll`.
fn roll_options(i18n: Option<&Translator>) -> (r: Vec<CommandOption>)
    ensures
        roll_options_are(r@, given(i18n)),
{
    let mut options = Vec::new();
    options.push(
        option(
            OptionKind::Integer,
            "dice_count",
            "The amount of dices to roll.",
            false,
            Some(1),
            Some(50),
            i18n,
            "roll",
            "dice_count_name",
            "dice_count_description",
        ),
    );
    options.push(
        option(
            OptionKind::Integer,
            "repetitions",
            "The amount of times to roll the dices.",
            false,
            Some(1),
            Some(10),
            i18n,
            "roll",
            "repetitions_name",
            "repetitions_description",
        ),
    );
    options.push(
        option(
            OptionKind::String,
            "modifier",
            "The modifier to add to the roll. (Need to be modifier like +2 or -2)",
            false,
            None,
            None,
            i18n,
            "roll",
            "modifier_name",
            "modifier_description",
        ),
    );
    options
}

/// The `/roll` command, with its `fate` and `sided` sub-commands.
pub fn register_roll(i18n: Option<&Translator>) -> (r: Command)
    ensures
        command_is(r, "roll", "Roll a dice.", None, given(i18n)),
        r.options@.len() == 2,
        option_is(
            r.options@[0],
            OptionKind::SubCommand,
            "fate",
            "Roll a fate dice.",
            false,
            None,
            None,
            given(i18n),
            "roll"@,
            "fate_name"@,
            "fate_description"@,
        ),
        roll_options_are(r.options@[0].options@, given(i18n)),
        option_is(
            r.options@[1],
            OptionKind::SubCommand,
            "sided",
            "Roll a dice with a specific number of sides.",
            false,
            None,
            None,
            given(i18n),
            "roll"@,
            "sided_name"@,
            "sided_description"@,
        ),
        r.options@[1].options@.len() == 4,
        option_is(
            r.options@[1].options@[0],
            OptionKind::Integer,
            "sides",
            "The amount of sides the dice will have.",
            true,
            Some(2),
            Some(100),
            given(i18n),
            "roll"@,
            "dice_sides_name"@,
            "dice_sides_description"@,
        ),
        roll_options_are(r.options@[1].options@.skip(1), given(i18n)),
{
    let mut fate = option(
        OptionKind::SubCommand,
        "fate",
        "Roll a fate dice.",
        false,
        None,
        None,
        i18n,
        "roll",
        "fate_name",
        "fate_description",
    );
    fate.options = roll_options(i18n);
    let mut sided = option(
        OptionKind::SubCommand,
        "sided",
        "Roll a dice with a specific number of sides.",
        false,
        None,
        None,
        i18n,
        "roll",
        "sided_name",
        "sided_description",
    );
    let mut sided_options = Vec::new();
    sided_options.push(
        option(
            OptionKind::Integer,
            "sides",
            "The amount of sides the dice will have.",
            true,
            Some(2),
            Some(100),
            i18n,
            "roll",
            "dice_sides_name",
            "dice_sides_description",
        ),
    );
    let mut shared = roll_options(i18n);
    let ghost shared_view = shared@;
    sided_options.append(&mut shared);
    assert(sided_options@.skip(1) =~= shared_view);
    sided.options = sided_options;
    let mut options = Vec::new();
    options.push(fate);
    options.push(sided);
    command("roll", "Roll a dice.", None, i18n, options)
}

} // verus!
