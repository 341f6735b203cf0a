# Hydrogen

The logic of Hydrogen, a Discord bot for role-play sessions: dice rolls and
their syntax, time syntaxes, translations with fallbacks, the configuration
and its Lavalink nodes, the music player's queue and decisions, and the texts
and buttons the bot answers with. The library is written in Verus: every
function states its behaviour in `requires`/`ensures`, and every function but
the trusted items below is proved.

Trusted items, whose contracts Verus believes and which call outside code:

- `chance::random_index` (`rand`'s `gen_range` on the thread generator): a
  number below its bound.
- `lang::read_language_pairs` (`serde_json::from_str`): the pairs of the
  parsed language file, or the parse error; what the parse yields is named
  `lang::json_language`.
- `lavalink::encode_base64` (`base64`'s standard engine): the standard
  padded Base64 text, stated by `lavalink::base64_text`.
- `lavalink::random_bytes16` (`rand::random`): sixteen bytes.
- `queue::vec_capacity` (`Vec::capacity`): at least the length.
- `text::string_from_chars` (`String`'s `FromIterator<&char>`): the string of
  the characters.
- `translator::share` (`Arc::clone`): the same translations.
- The declared outside types `serde_json::Error` and `std::io::Error`, carried
  through without being looked into.

- `src/`: the verified library.
- `tests/`: tests of the library on concrete values.
- `app/`: the executable around it: Discord (serenity, songbird), the
  Lavalink REST and websocket calls, files and the environment.
