//! Translations with variables: `$NAME` placeholders in a translated text
//! are replaced by the values given with the request.
use std::collections::HashMap;

use vstd::prelude::*;

use crate::table::Table;
use crate::text::{missing_key_text_chars, owned, push_str, replace, replace_all, string_from_chars};
use crate::translator::{
    cache_get, lookup, missing_key, translation, Cache, CacheModel, Category, Language, Translator,
    DEFAULT_LANGUAGE,
};

verus! {

/// The language used when no other is asked for.
pub const HYDROGEN_DEFAULT_LANG: &'static str = "en-US";

/// A JSON parsing error, from `serde_json`.
#[verifier::external_type_specification]
#[verifier::external_body]
pub struct ExJsonError(serde_json::Error);

/// An I/O error.
#[verifier::external_type_specification]
#[verifier::external_body]
pub struct ExIoError(std::io::Error);

/// Errors that can occur when loading translations.
#[derive(Debug)]
pub enum HydrogenLangError {
    /// The document is not a JSON object of categories of translations.
    SerdeError(serde_json::Error),
    /// The file or directory could not be read.
    IOError(std::io::Error),
}

/// The language that `serde_json` reads from `data`: an object of
/// categories, each an object of translations; `None` when `data` is not
/// such a document.
pub uninterp spec fn json_language(data: Seq<char>) -> Option<Map<Seq<char>, Map<Seq<char>, Seq<char>>>>;

/// The translations that a list of `(key, text)` pairs gives, a later pair
/// replacing an earlier one with the same key.
pub open spec fn category_of_pairs(pairs: Seq<(String, String)>) -> Map<Seq<char>, Seq<char>>
    decreases pairs.len(),
{
    if pairs.len() == 0 {
        Map::empty()
    } else {
        category_of_pairs(pairs.drop_last()).insert(pairs.last().0@, pairs.last().1@)
    }
}

/// The categories that a list of `(name, pairs)` gives, a later category
/// replacing an earlier one with the same name.
pub open spec fn language_of_pairs(categories: Seq<(String, Vec<(String, String)>)>) -> Map<
    Seq<char>,
    Map<Seq<char>, Seq<char>>,
>
    decreases categories.len(),
{
    if categories.len() == 0 {
        Map::empty()
    } else {
        language_of_pairs(categories.drop_last()).insert(
            categories.last().0@,
            category_of_pairs(categories.last().1@),
        )
    }
}

/// Reads a JSON document of categories of translations, as pairs.
///
/// Trusted: calls `serde_json::from_str` into a `HashMap` of `HashMap`s of
/// strings and lists their entries, each key once, as `HashMap` holds it;
/// the contract claims that the pairs give the language named by
/// [`json_language`] for the document, which depends on the document
/// alone, and an error exactly when it is `None`. The order of the pairs is
/// left unsaid.
#[verifier::external_body]
fn read_language_pairs(data: &str) -> (r: Result<Vec<(String, Vec<(String, String)>)>, serde_json::Error>)
    ensures
        r matches Ok(v) ==> json_language(data@) == Some(language_of_pairs(v@)),
        r is Err ==> json_language(data@) is None,
{
    let parsed: HashMap<String, HashMap<String, String>> = serde_json::from_str(data)?;
    Ok(parsed.into_iter().map(|(name, entries)| (name, entries.into_iter().collect())).collect())
}

/// The category that a list of `(key, text)` pairs gives.
fn category_from_pairs(pairs: Vec<(String, String)>) -> (r: Category)
    ensures
        r@ == category_of_pairs(pairs@),
{
    let mut category = Category::new();
    let mut k: usize = 0;
    while k < pairs.len()
        invariant
            k <= pairs@.len(),
            category@ == category_of_pairs(pairs@.take(k as int)),
        decreases pairs.len() - k,
    {
        let (key, text) = (pairs[k].0.clone(), pairs[k].1.clone());
        category.insert(key, text);
        assert(pairs@.take(k + 1).drop_last() =~= pairs@.take(k as int));
        k = k + 1;
    }
    assert(pairs@.take(pairs@.len() as int) =~= pairs@);
    category
}

/// Reads a language from a JSON document of categories of translations.
pub(crate) fn parse_language(data: &str) -> (r: Result<Language, serde_json::Error>)
    ensures
        r matches Ok(l) ==> json_language(data@) == Some(l@),
        r is Err ==> json_language(data@) is None,
{
    let categories = match read_language_pairs(data) {
        Ok(v) => v,
        Err(e) => return Err(e),
    };
    let mut language = Language::new();
    let mut k: usize = 0;
    while k < categories.len()
        invariant
            k <= categories@.len(),
            language@ == language_of_pairs(categories@.take(k as int)),
        decreases categories.len() - k,
    {
        let name = categories[k].0.clone();
        let pairs = copy_pairs(&categories[k].1);
        let category = category_from_pairs(pairs);
        language.insert(name, category);
        assert(categories@.take(k + 1).drop_last() =~= categories@.take(k as int));
        k = k + 1;
    }
    assert(categories@.take(categories@.len() as int) =~= categories@);
    Ok(language)
}

/// A copy of a list of pairs of strings.
fn copy_pairs(pairs: &Vec<(String, String)>) -> (r: Vec<(String, String)>)
    ensures
        r@ == pairs@,
{
    let mut out: Vec<(String, String)> = Vec::new();
    let mut k: usize = 0;
    while k < pairs.len()
        invariant
            k <= pairs@.len(),
            out@ == pairs@.take(k as int),
        decreases pairs.len() - k,
    {
        out.push((pairs[k].0.clone(), pairs[k].1.clone()));
        k = k + 1;
        assert(out@ =~= pairs@.take(k as int));
    }
    assert(pairs@.take(pairs@.len() as int) =~= pairs@);
    out
}

/// The text with each variable `(name, value)`, in order, replacing the
/// occurrences of `$name`.
pub open spec fn with_vars(text: Seq<char>, vars: Seq<(Seq<char>, Seq<char>)>) -> Seq<char>
    decreases vars.len(),
{
    if vars.len() == 0 {
        text
    } else {
        replace_all(
            with_vars(text, vars.drop_last()),
            seq!['$'] + vars.last().0,
            vars.last().1,
        )
    }
}

/// The variables of a request, as pairs of character sequences.
pub open spec fn vars_view(vars: Seq<(&str, &str)>) -> Seq<(Seq<char>, Seq<char>)> {
    vars.map_values(|v: (&str, &str)| (v.0@, v.1@))
}

/// The text that `get` gives: the translation into `lang`, else the one
/// into the default language, with the variables replaced; else
/// `category.key`.
pub open spec fn lang_text(
    langs: CacheModel,
    default_lang: Seq<char>,
    lang: Seq<char>,
    category: Seq<char>,
    key: Seq<char>,
    vars: Seq<(Seq<char>, Seq<char>)>,
) -> Seq<char> {
    match lookup(langs, lang, category, key) {
        Some(t) => with_vars(t, vars),
        None => match lookup(langs, default_lang, category, key) {
            Some(t) => with_vars(t, vars),
            None => missing_key(category, key),
        },
    }
}

/// Translations of several languages, with a default language.
pub struct HydrogenLang {
    /// Language code, then category, then key, to the translated text.
    pub langs: Cache,
    /// The language used when a translation is missing.
    pub default_lang: String,
}

impl HydrogenLang {
    /// An empty set of translations with the given default language.
    pub fn new(default_lang: &str) -> (r: HydrogenLang)
        ensures
            r.langs@ == CacheModel::empty(),
            r.default_lang@ == default_lang@,
    {
        HydrogenLang { langs: Table::new(), default_lang: owned(default_lang) }
    }

    /// Reads the translations of `lang` from a JSON document, replacing
    /// those that were kept for it.
    pub fn parse_string(&mut self, data: &str, lang: &str) -> (r: Result<(), HydrogenLangError>)
        ensures
            r is Ok <==> json_language(data@) is Some,
            r is Ok ==> final(self).langs@ == old(self).langs@.insert(
                lang@,
                json_language(data@)->0,
            ),
            r is Err ==> final(self).langs@ == old(self).langs@,
            r matches Err(e) ==> e is SerdeError,
            final(self).default_lang == old(self).default_lang,
    {
        match parse_language(data) {
            Ok(language) => {
                self.add_language(lang, language);
                Ok(())
            },
            Err(e) => Err(HydrogenLangError::SerdeError(e)),
        }
    }

    /// Keeps `language` as the translations of `lang`, replacing those that
    /// were kept for it.
    pub fn add_language(&mut self, lang: &str, language: Language)
        ensures
            final(self).langs@ == old(self).langs@.insert(lang@, language@),
            final(self).default_lang == old(self).default_lang,
    {
        self.langs.insert(owned(lang), language);
    }

    /// The translation of `category.key` into `lang`, falling back on the
    /// default language, with each `$name` of the variables replaced by its
    /// value; `category.key` when neither language has it.
    pub fn get(&self, lang: &str, category: &str, key: &str, vars: &[(&str, &str)]) -> (r: String)
        ensures
            r@ == lang_text(
                self.langs@,
                self.default_lang@,
                lang@,
                category@,
                key@,
                vars_view(vars@),
            ),
    {
        let found = match cache_get(&self.langs, lang, category, key) {
            Some(t) => Some(t),
            None => cache_get(&self.langs, self.default_lang.as_str(), category, key),
        };
        match found {
            Some(text) => apply_vars(text, vars),
            None => string_from_chars(&missing_key_text_chars(category, key)),
        }
    }
}

/// Replaces each `$name` of the variables, in order, by its value.
fn apply_vars(text: String, vars: &[(&str, &str)]) -> (r: String)
    ensures
        r@ == with_vars(text@, vars_view(vars@)),
{
    let mut value = text;
    let mut i: usize = 0;
    while i < vars.len()
        invariant
            i <= vars@.len(),
            value@ == with_vars(text@, vars_view(vars@).subrange(0, i as int)),
        decreases vars.len() - i,
    {
        let (name, val) = vars[i];
        let mut pattern: Vec<char> = Vec::new();
        pattern.push('$');
        push_str(&mut pattern, name);
        let pattern = string_from_chars(&pattern);
        let next = replace(value.as_str(), pattern.as_str(), val);
        proof {
            let vs = vars_view(vars@);
            assert(vs.subrange(0, i + 1).drop_last() =~= vs.subrange(0, i as int));
            assert(vs.subrange(0, i + 1).last() == (name@, val@));
        }
        value = next;
        i = i + 1;
    }
    assert(vars_view(vars@).subrange(0, vars@.len() as int) =~= vars_view(vars@));
    value
}

/// The translations to start with: the default language read from
/// `default_language`, a JSON document, or none when it cannot be read.
pub fn new_i18n(default_language: &str) -> (r: Translator)
    ensures
        r.fallback() == DEFAULT_LANGUAGE@,
        json_language(default_language@) matches Some(l) ==> r.translations() == map![
            DEFAULT_LANGUAGE@ => l,
        ],
        json_language(default_language@) is None ==> r.translations() == CacheModel::empty(),
{
    match parse_language(default_language) {
        Ok(language) => translator_with_default(Some(language)),
        Err(_) => translator_with_default(None),
    }
}

/// The translations to start with, given the default language if it could
/// be read: that language alone, or none.
pub fn translator_with_default(language: Option<Language>) -> (r: Translator)
    ensures
        r.fallback() == DEFAULT_LANGUAGE@,
        language matches Some(l) ==> r.translations() == map![DEFAULT_LANGUAGE@ => l@],
        language is None ==> r.translations() == CacheModel::empty(),
{
    let mut cache = Cache::new();
    if let Some(l) = language {
        cache.insert(owned(DEFAULT_LANGUAGE), l);
    }
    Translator::new(DEFAULT_LANGUAGE, cache)
}

/// What was read for a language is what `get` gives back for it: after
/// the translations of `lang` became `language`, a key that `language`
/// holds is translated into its text, with the variables replaced.
pub proof fn lemma_read_then_get(
    langs: CacheModel,
    language: Map<Seq<char>, Map<Seq<char>, Seq<char>>>,
    default_lang: Seq<char>,
    lang: Seq<char>,
    category: Seq<char>,
    key: Seq<char>,
    vars: Seq<(Seq<char>, Seq<char>)>,
)
    requires
        language.contains_key(category),
        language[category].contains_key(key),
    ensures
        lang_text(langs.insert(lang, language), default_lang, lang, category, key, vars)
            == with_vars(language[category][key], vars),
{
}

/// Asking for a language that lacks a key gives what asking for the
/// default language gives, variables replaced the same way.
pub proof fn lemma_fallback_is_default_answer(
    langs: CacheModel,
    default_lang: Seq<char>,
    lang: Seq<char>,
    category: Seq<char>,
    key: Seq<char>,
    vars: Seq<(Seq<char>, Seq<char>)>,
)
    requires
        lookup(langs, lang, category, key) is None,
    ensures
        lang_text(langs, default_lang, lang, category, key, vars) == lang_text(
            langs,
            default_lang,
            default_lang,
            category,
            key,
            vars,
        ),
{
}

/// Without variables, `get` answers as the translator does; with them, it
/// gives that answer with the variables replaced, whichever language the
/// text came from.
pub proof fn lemma_get_is_translation_with_vars(
    langs: CacheModel,
    default_lang: Seq<char>,
    lang: Seq<char>,
    category: Seq<char>,
    key: Seq<char>,
    vars: Seq<(Seq<char>, Seq<char>)>,
)
    ensures
        lang_text(langs, default_lang, lang, category, key, Seq::empty()) == translation(
            langs,
            default_lang,
            lang,
            category,
            key,
        ),
        lookup(langs, lang, category, key) is Some || lookup(langs, default_lang, category, key)
            is Some ==> lang_text(langs, default_lang, lang, category, key, vars) == with_vars(
            translation(langs, default_lang, lang, category, key),
            vars,
        ),
{
}

/// Text free of `$` is kept as it is in front of what follows, when
/// replacing a pattern that starts with `$`.
proof fn lemma_replace_skips_plain(x: Seq<char>, z: Seq<char>, pat: Seq<char>, rep: Seq<char>)
    requires
        pat.len() > 0,
        pat[0] == '$',
        forall|i: int| 0 <= i < x.len() ==> x[i] != '$',
    ensures
        replace_all(x + z, pat, rep) == x + replace_all(z, pat, rep),
    decreases x.len(),
{
    let s = x + z;
    if x.len() == 0 {
        assert(s =~= z);
    } else if s.len() < pat.len() {
        assert(replace_all(z, pat, rep) == z);
    } else {
        assert(s.subrange(0, pat.len() as int)[0] == x[0]);
        assert(s.subrange(0, pat.len() as int) != pat);
        let rest = x.subrange(1, x.len() as int);
        lemma_replace_skips_plain(rest, z, pat, rep);
        assert(s.subrange(1, s.len() as int) =~= rest + z);
        assert(seq![s[0]] + (rest + replace_all(z, pat, rep)) =~= x + replace_all(z, pat, rep));
    }
}

/// A variable written once as `$name` in a text with no other `$` is
/// replaced by its value, and the rest of the text is kept.
pub proof fn lemma_variable_is_replaced(
    before: Seq<char>,
    name: Seq<char>,
    after: Seq<char>,
    value: Seq<char>,
)
    requires
        forall|i: int| 0 <= i < before.len() ==> before[i] != '$',
        forall|i: int| 0 <= i < after.len() ==> after[i] != '$',
    ensures
        with_vars(before + seq!['$'] + name + after, seq![(name, value)]) == before + value + after,
{
    let pat = seq!['$'] + name;
    let vars = seq![(name, value)];
    assert(vars.drop_last() =~= Seq::<(Seq<char>, Seq<char>)>::empty());
    let text = before + seq!['$'] + name + after;
    assert(text =~= before + (pat + after));
    lemma_replace_skips_plain(before, pat + after, pat, value);
    let tail = pat + after;
    assert(tail.subrange(0, pat.len() as int) =~= pat);
    assert(tail.subrange(pat.len() as int, tail.len() as int) =~= after);
    lemma_replace_skips_plain(after, Seq::empty(), pat, value);
    assert(after + Seq::<char>::empty() =~= after);
    assert(replace_all(Seq::<char>::empty(), pat, value) == Seq::<char>::empty());
    assert(replace_all(tail, pat, value) == value + after);
    assert(before + (value + after) =~= before + value + after);
    assert(with_vars(text, Seq::empty()) == text);
    assert(vars.last() == (name, value));
    assert(with_vars(text, vars) == replace_all(text, pat, value));
}

} // verus!
