//! Configuration values: the Lavalink nodes written as
//! `address,password[,tls]` and the fields that the environment fills in
//! when the configuration file leaves them out.
use vstd::prelude::*;

use crate::text::{owned, push_str, string_from_chars, to_chars};

verus! {

/// The command line arguments.
#[derive(Debug, Clone)]
pub struct Args {
    /// The path of the configuration file.
    pub config_file: Option<String>,
}

/// The pieces of `s[start..]` between the separators `sep`, scanning from
/// position `i`, where `s[start..i]` holds no separator.
pub open spec fn split_from(s: Seq<char>, sep: char, start: int, i: int) -> Seq<Seq<char>>
    decreases s.len() - i,
{
    if i >= s.len() {
        seq![s.subrange(start, s.len() as int)]
    } else if s[i] == sep {
        seq![s.subrange(start, i)] + split_from(s, sep, i + 1, i + 1)
    } else {
        split_from(s, sep, start, i + 1)
    }
}

/// The pieces of `s` between the separators `sep`, as `str::split` gives
/// them: always at least one piece, possibly empty.
pub open spec fn split_pieces(s: Seq<char>, sep: char) -> Seq<Seq<char>> {
    split_from(s, sep, 0, 0)
}

/// `str::split` gives at least one piece.
proof fn lemma_split_nonempty(s: Seq<char>, sep: char, start: int, i: int)
    ensures
        split_from(s, sep, start, i).len() >= 1,
    decreases s.len() - i,
{
    if i < s.len() {
        if s[i] == sep {
            lemma_split_nonempty(s, sep, i + 1, i + 1);
        } else {
            lemma_split_nonempty(s, sep, start, i + 1);
        }
    }
}

/// Splits `s` at every `sep`.
pub fn split_chars(s: &Vec<char>, sep: char) -> (r: Vec<Vec<char>>)
    ensures
        r@.len() == split_pieces(s@, sep).len(),
        forall|i: int| 0 <= i < r@.len() ==> #[trigger] r@[i]@ == split_pieces(s@, sep)[i],
{
    let mut pieces: Vec<Vec<char>> = Vec::new();
    let mut current: Vec<char> = Vec::new();
    let mut start: usize = 0;
    let mut i: usize = 0;
    let ghost mut done: Seq<Seq<char>> = Seq::empty();
    assert(done + split_from(s@, sep, 0, 0) =~= split_pieces(s@, sep));
    while i < s.len()
        invariant
            start <= i <= s.len(),
            current@ == s@.subrange(start as int, i as int),
            pieces@.len() == done.len(),
            forall|k: int| 0 <= k < pieces@.len() ==> #[trigger] pieces@[k]@ == done[k],
            done + split_from(s@, sep, start as int, i as int) == split_pieces(s@, sep),
        decreases s.len() - i,
    {
        if s[i] == sep {
            proof {
                assert(done + split_from(s@, sep, start as int, i as int) =~= done.push(current@)
                    + split_from(s@, sep, i + 1, i + 1));
            }
            let ghost piece_view = current@;
            let piece = current;
            pieces.push(piece);
            proof {
                done = done.push(piece_view);
            }
            current = Vec::new();
            start = i + 1;
            i = i + 1;
            assert(current@ =~= s@.subrange(start as int, i as int));
        } else {
            current.push(s[i]);
            i = i + 1;
            assert(current@ =~= s@.subrange(start as int, i as int));
        }
    }
    let ghost last = current@;
    assert(done + split_from(s@, sep, start as int, i as int) =~= done.push(last));
    pieces.push(current);
    proof {
        done = done.push(last);
    }
    pieces
}

/// The ASCII lower case of a character.
pub open spec fn ascii_lower(c: char) -> char {
    if 'A' <= c <= 'Z' {
        ((c as int) + 32) as char
    } else {
        c
    }
}

/// Whether `s` is `word` up to the case of its ASCII letters.
pub open spec fn same_word_ignoring_case(s: Seq<char>, word: Seq<char>) -> bool {
    s.len() == word.len() && forall|i: int| 0 <= i < s.len() ==> ascii_lower(s[i]) == word[i]
}

/// Whether a TLS setting enables TLS: `true`, `enabled` or `on`, and also
/// `yes` or `1`, in any case.
pub open spec fn tls_enabled(s: Seq<char>) -> bool {
    ||| same_word_ignoring_case(s, "true"@)
    ||| same_word_ignoring_case(s, "enabled"@)
    ||| same_word_ignoring_case(s, "on"@)
    ||| same_word_ignoring_case(s, "yes"@)
    ||| same_word_ignoring_case(s, "1"@)
}

/// Whether `s` is the lower-case `word` up to case.
fn matches_word(s: &Vec<char>, word: &str) -> (r: bool)
    ensures
        r == same_word_ignoring_case(s@, word@),
{
    let w = to_chars(word);
    if s.len() != w.len() {
        return false;
    }
    let mut i: usize = 0;
    while i < s.len()
        invariant
            s@.len() == w@.len(),
            w@ == word@,
            i <= s.len(),
            forall|j: int| 0 <= j < i ==> ascii_lower(s@[j]) == w@[j],
        decreases s.len() - i,
    {
        let c = s[i];
        let lower = if 'A' <= c && c <= 'Z' {
            ((c as u32) + 32) as u8 as char
        } else {
            c
        };
        assert(lower == ascii_lower(c)) by {
            if 'A' <= c && c <= 'Z' {
                assert(((c as u32) + 32) as u8 as char == ((c as int) + 32) as char);
            }
        }
        if lower != w[i] {
            return false;
        }
        i = i + 1;
    }
    true
}

/// Whether a TLS setting enables TLS.
pub fn parse_tls(s: &Vec<char>) -> (r: bool)
    ensures
        r == tls_enabled(s@),
{
    matches_word(s, "true") || matches_word(s, "enabled") || matches_word(s, "on")
        || matches_word(s, "yes") || matches_word(s, "1")
}

/// The default Lavalink address.
pub open spec fn default_address() -> Seq<char> {
    "127.0.0.1:2333"@
}

/// The default Lavalink password.
pub open spec fn default_password() -> Seq<char> {
    "youshallnotpass"@
}

/// Gets the default Lavalink address.
pub fn default_lavalink_address() -> (r: String)
    ensures
        r@ == default_address(),
{
    owned("127.0.0.1:2333")
}

/// Gets the default Lavalink password.
pub fn default_lavalink_password() -> (r: String)
    ensures
        r@ == default_password(),
{
    owned("youshallnotpass")
}

/// Configuration for a single Lavalink node.
#[derive(Debug, Clone)]
pub struct LavalinkConfig {
    /// The address of the Lavalink server.
    pub address: String,
    /// The password of the Lavalink server.
    pub password: String,
    /// Whether to use TLS to connect to the Lavalink server.
    pub tls: bool,
}

/// The node that `address,password,tls` describes: the address is the
/// first piece, the password the second if written (else the default), and
/// TLS is enabled when the third piece says so.
pub open spec fn node_from_text(s: Seq<char>, c: LavalinkConfig) -> bool {
    let pieces = split_pieces(s, ',');
    &&& c.address@ == pieces[0]
    &&& c.password@ == (if pieces.len() >= 2 {
        pieces[1]
    } else {
        default_password()
    })
    &&& c.tls == (pieces.len() >= 3 && tls_enabled(pieces[2]))
}

impl LavalinkConfig {
    /// Reads a node written as `address,password[,tls]`.
    pub fn from(s: &str) -> (r: Self)
        ensures
            node_from_text(s@, r),
    {
        let chars = to_chars(s);
        let pieces = split_chars(&chars, ',');
        proof {
            lemma_split_nonempty(s@, ',', 0, 0);
        }
        let address = string_from_chars(&pieces[0]);
        let password = if pieces.len() >= 2 {
            string_from_chars(&pieces[1])
        } else {
            default_lavalink_password()
        };
        let tls = pieces.len() >= 3 && parse_tls(&pieces[2]);
        LavalinkConfig { address, password, tls }
    }
}

/// The configuration of the bot.
#[derive(Debug, Clone)]
pub struct Config {
    /// The default language.
    pub default_language: Option<String>,
    /// The path of the language files.
    pub language_path: Option<String>,
    /// The Lavalink nodes.
    pub lavalink: Option<Vec<LavalinkConfig>>,
    /// The token of the Discord bot.
    pub discord_token: Option<String>,
}

/// The nodes that a list written as `node;node;...` describes.
pub open spec fn nodes_from_text(s: Seq<char>, nodes: Seq<LavalinkConfig>) -> bool {
    let pieces = split_pieces(s, ';');
    &&& nodes.len() == pieces.len()
    &&& forall|i: int| 0 <= i < nodes.len() ==> node_from_text(pieces[i], #[trigger] nodes[i])
}

impl Config {
    /// An empty configuration.
    pub fn default() -> (r: Self)
        ensures
            r.default_language is None,
            r.language_path is None,
            r.lavalink is None,
            r.discord_token is None,
    {
        Config { default_language: None, language_path: None, lavalink: None, discord_token: None }
    }

    /// Fills the fields that are empty with the values of the environment:
    /// `HYDROGEN_DEFAULT_LANGUAGE`, `HYDROGEN_LANGUAGE_PATH`,
    /// `HYDROGEN_LAVALINK` (nodes separated by `;`) and
    /// `HYDROGEN_DISCORD_TOKEN`, as the caller read them.
    pub fn or_from_env(
        self,
        env_default_language: Option<String>,
        env_language_path: Option<String>,
        env_lavalink: Option<String>,
        env_discord_token: Option<String>,
    ) -> (r: Self)
        ensures
            r.default_language == (if self.default_language is Some {
                self.default_language
            } else {
                env_default_language
            }),
            r.language_path == (if self.language_path is Some {
                self.language_path
            } else {
                env_language_path
            }),
            self.lavalink is Some ==> r.lavalink == self.lavalink,
            self.lavalink is None ==> (r.lavalink is Some <==> env_lavalink is Some),
            self.lavalink is None ==> (r.lavalink matches Some(nodes) ==> nodes_from_text(
                env_lavalink->0@,
                nodes@,
            )),
            r.discord_token == (if self.discord_token is Some {
                self.discord_token
            } else {
                env_discord_token
            }),
    {
        let default_language = match self.default_language {
            Some(v) => Some(v),
            None => env_default_language,
        };
        let language_path = match self.language_path {
            Some(v) => Some(v),
            None => env_language_path,
        };
        let lavalink = match self.lavalink {
            Some(v) => Some(v),
            None => match env_lavalink {
                Some(text) => Some(parse_nodes(text.as_str())),
                None => None,
            },
        };
        let discord_token = match self.discord_token {
            Some(v) => Some(v),
            None => env_discord_token,
        };
        Config { default_language, language_path, lavalink, discord_token }
    }
}

/// Reads the nodes of a list written as `node;node;...`.
pub fn parse_nodes(s: &str) -> (r: Vec<LavalinkConfig>)
    ensures
        nodes_from_text(s@, r@),
{
    let chars = to_chars(s);
    let pieces = split_chars(&chars, ';');
    let mut nodes: Vec<LavalinkConfig> = Vec::new();
    let mut i: usize = 0;
    while i < pieces.len()
        invariant
            i <= pieces@.len(),
            pieces@.len() == split_pieces(s@, ';').len(),
            forall|k: int| 0 <= k < pieces@.len() ==> #[trigger] pieces@[k]@ == split_pieces(s@, ';')[k],
            nodes@.len() == i,
            forall|k: int| 0 <= k < i ==> node_from_text(split_pieces(s@, ';')[k], #[trigger] nodes@[k]),
        decreases pieces.len() - i,
    {
        let text = string_from_chars(&pieces[i]);
        nodes.push(LavalinkConfig::from(text.as_str()));
        i = i + 1;
    }
    nodes
}

/// `relative` joined to `base` as `Path::join` joins a relative path: with
/// a `/` between them unless `base` is empty or already ends with one.
pub open spec fn joined(base: Seq<char>, relative: Seq<char>) -> Seq<char> {
    if base.len() == 0 || base.last() == '/' {
        base + relative
    } else {
        base + seq!['/'] + relative
    }
}

/// The default configuration file on Unix-like systems, given
/// `$XDG_CONFIG_HOME` if it is set: `hydrogen/config.toml` under it, else
/// under `/etc`.
pub open spec fn default_config_text(xdg_config_home: Option<Seq<char>>) -> Seq<char> {
    joined(
        match xdg_config_home {
            Some(h) => h,
            None => "/etc"@,
        },
        "hydrogen/config.toml"@,
    )
}

/// The default configuration file, given `$XDG_CONFIG_HOME` if it is set.
pub fn default_config_file(xdg_config_home: Option<String>) -> (r: String)
    ensures
        r@ == default_config_text(
            match xdg_config_home {
                Some(h) => Some(h@),
                None => None,
            },
        ),
{
    let base = match xdg_config_home {
        Some(h) => h,
        None => owned("/etc"),
    };
    let b = to_chars(base.as_str());
    let mut out: Vec<char> = Vec::new();
    push_str(&mut out, base.as_str());
    if b.len() > 0 && b[b.len() - 1] != '/' {
        out.push('/');
    }
    push_str(&mut out, "hydrogen/config.toml");
    assert(out@ =~= joined(base@, "hydrogen/config.toml"@));
    string_from_chars(&out)
}

/// `relative` under the Windows path `base`, as `Path::join` puts it: a
/// backslash goes between them unless `base` is empty, ends with a
/// separator (a backslash or `/`), or is a bare drive such as `C:`.
pub open spec fn joined_windows(base: Seq<char>, relative: Seq<char>) -> Seq<char> {
    if base.len() == 0 || base.last() == '\\' || base.last() == '/' || (base.len() == 2
        && base[1] == ':') {
        base + relative
    } else {
        base + seq!['\\'] + relative
    }
}

/// The default configuration file on Windows, given `%APPDATA%` if it is
/// set: `Hydrogen\Config.toml` under it, else under `C:\ProgramData`.
pub open spec fn default_windows_config_text(appdata: Option<Seq<char>>) -> Seq<char> {
    joined_windows(
        match appdata {
            Some(h) => h,
            None => "C:\\ProgramData"@,
        },
        "Hydrogen\\Config.toml"@,
    )
}

/// The default configuration file on Windows, given `%APPDATA%` if it is
/// set.
pub fn default_windows_config_file(appdata: Option<String>) -> (r: String)
    ensures
        r@ == default_windows_config_text(
            match appdata {
                Some(h) => Some(h@),
                None => None,
            },
        ),
{
    let base = match appdata {
        Some(h) => h,
        None => owned("C:\\ProgramData"),
    };
    let b = to_chars(base.as_str());
    let mut out: Vec<char> = Vec::new();
    push_str(&mut out, base.as_str());
    let bare_drive = b.len() == 2 && b[1] == ':';
    if b.len() > 0 && b[b.len() - 1] != '\\' && b[b.len() - 1] != '/' && !bare_drive {
        out.push('\\');
    }
    push_str(&mut out, "Hydrogen\\Config.toml");
    assert(out@ =~= joined_windows(base@, "Hydrogen\\Config.toml"@));
    string_from_chars(&out)
}

/// Where the default configuration file lies: the platform and the variable
/// it is found under, if that variable is set.
#[derive(Debug, Clone)]
pub enum ConfigHome {
    /// A Unix-like system, with `$XDG_CONFIG_HOME`.
    Unix(Option<String>),
    /// Windows, with `%APPDATA%`.
    Windows(Option<String>),
}

/// The default configuration file for `home`.
pub open spec fn default_file_text(home: ConfigHome) -> Seq<char> {
    match home {
        ConfigHome::Unix(h) => default_config_text(
            match h {
                Some(h) => Some(h@),
                None => None,
            },
        ),
        ConfigHome::Windows(h) => default_windows_config_text(
            match h {
                Some(h) => Some(h@),
                None => None,
            },
        ),
    }
}

/// The configuration file to load: the one given on the command line, else
/// the one in `$HYDROGEN_CONFIG_FILE`, else the default one of the platform.
pub fn config_file_path(args: Args, env_config_file: Option<String>, home: ConfigHome) -> (r:
    String)
    ensures
        args.config_file matches Some(f) ==> r == f,
        args.config_file is None ==> (env_config_file matches Some(f) ==> r == f),
        args.config_file is None && env_config_file is None ==> r@ == default_file_text(home),
{
    match args.config_file {
        Some(f) => f,
        None => match env_config_file {
            Some(f) => f,
            None => match home {
                ConfigHome::Unix(h) => default_config_file(h),
                ConfigHome::Windows(h) => default_windows_config_file(h),
            },
        },
    }
}

} // verus!
