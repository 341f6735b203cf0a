//! Hydrogen's translations, loaded from a directory of JSON documents, one
//! per language, and looked up with a fallback on the default language.
use vstd::prelude::*;

use crate::text::{owned, string_from_chars, to_chars};
use crate::translator::{
    all_translations, lookup, missing_key, missing_key_text, translation, Cache, Category,
    CacheModel, Translator,
};

verus! {

/// Errors that can occur when loading the translations.
#[derive(Debug)]
pub enum HydrogenI18nError {
    /// No translations were loaded for the default language.
    DefaultLanguageNotFound,
    /// The directory could not be read.
    Io(std::io::Error),
}

impl HydrogenI18nError {
    /// The description of the error, for the cases this library describes.
    pub fn description(&self) -> (r: Option<String>)
        ensures
            (*self is DefaultLanguageNotFound) ==> (r matches Some(t) && t@
                == "default language not found"@),
            (*self is Io) ==> r is None,
    {
        proof {
            reveal_strlit("default language not found");
        }
        match self {
            HydrogenI18nError::DefaultLanguageNotFound => Some(owned("default language not found")),
            HydrogenI18nError::Io(_) => None,
        }
    }
}

/// The language code that a file of translations stands for: its name
/// without the `.json` extension, if it has that extension.
pub open spec fn language_of_file(file_name: Seq<char>) -> Option<Seq<char>> {
    let n = file_name.len() as int;
    if n >= 5 && file_name.subrange(n - 5, n) == ".json"@ {
        Some(file_name.subrange(0, n - 5))
    } else {
        None
    }
}

/// The language code a file of translations stands for.
pub fn language_code(file_name: &str) -> (r: Option<String>)
    ensures
        r matches Some(code) ==> language_of_file(file_name@) == Some(code@),
        r is None ==> language_of_file(file_name@) is None,
{
    let s = to_chars(file_name);
    let n = s.len();
    proof {
        reveal_strlit(".json");
    }
    if n < 5 || s[n - 5] != '.' || s[n - 4] != 'j' || s[n - 3] != 's' || s[n - 2] != 'o' || s[n
        - 1] != 'n' {
        proof {
            if n >= 5 {
                assert(s@.subrange(n - 5, n as int)[0] == s@[n - 5]);
                assert(s@.subrange(n - 5, n as int)[1] == s@[n - 4]);
                assert(s@.subrange(n - 5, n as int)[2] == s@[n - 3]);
                assert(s@.subrange(n - 5, n as int)[3] == s@[n - 2]);
                assert(s@.subrange(n - 5, n as int)[4] == s@[n - 1]);
            }
        }
        return None;
    }
    assert(s@.subrange(n - 5, n as int) =~= ".json"@);
    let mut code: Vec<char> = Vec::new();
    let mut i: usize = 0;
    while i < n - 5
        invariant
            n == s@.len(),
            n >= 5,
            i <= n - 5,
            code@ == s@.subrange(0, i as int),
        decreases n - 5 - i,
    {
        code.push(s[i]);
        i = i + 1;
        assert(code@ =~= s@.subrange(0, i as int));
    }
    Some(string_from_chars(&code))
}

/// Hydrogen's translations with the default language.
pub struct HydrogenI18n {
    translator: Translator,
}

impl Clone for HydrogenI18n {
    fn clone(&self) -> (r: Self)
        ensures
            r == *self,
    {
        HydrogenI18n { translator: self.translator.clone() }
    }
}

impl HydrogenI18n {
    /// The language used when none is configured.
    pub const DEFAULT_LANGUAGE: &'static str = "en-US";

    /// The translations held.
    pub closed spec fn translations(self) -> CacheModel {
        self.translator.translations()
    }

    /// The default language.
    pub closed spec fn default_language(self) -> Seq<char> {
        self.translator.fallback()
    }

    /// Uses the translations loaded, which must hold the default language.
    pub fn from_cache(cache: Cache, default_language: &str) -> (r: Result<Self, HydrogenI18nError>)
        ensures
            r is Ok <==> cache@.contains_key(default_language@),
            r matches Ok(i) ==> i.translations() == cache@ && i.default_language()
                == default_language@,
            r matches Err(e) ==> e is DefaultLanguageNotFound,
    {
        if !cache.contains_key(default_language) {
            return Err(HydrogenI18nError::DefaultLanguageNotFound);
        }
        Ok(HydrogenI18n { translator: Translator::new(default_language, cache) })
    }

    /// The translation of `category.name` into `lang`, if there is one.
    pub fn get(&self, lang: &str, category: &str, name: &str) -> (r: Option<String>)
        ensures
            r matches Some(t) ==> lookup(self.translations(), lang@, category@, name@) == Some(t@),
            r is None ==> lookup(self.translations(), lang@, category@, name@) is None,
    {
        self.translator.get(lang, category, name)
    }

    /// The translation of `category.name` into the default language, else
    /// `category.name`.
    pub fn translate_with_default(&self, category: &str, name: &str) -> (r: String)
        ensures
            r@ == (match lookup(self.translations(), self.default_language(), category@, name@) {
                Some(t) => t,
                None => missing_key(category@, name@),
            }),
    {
        match self.translator.get(self.translator.default_language().as_str(), category, name) {
            Some(t) => t,
            None => missing_key_text(category, name),
        }
    }

    /// Translates into `lang`, falling back on the default language and then
    /// on `category.name`.
    pub fn translate(&self, lang: &str, category: &str, name: &str) -> (r: String)
        ensures
            r@ == translation(
                self.translations(),
                self.default_language(),
                lang@,
                category@,
                name@,
            ),
    {
        self.translator.translate(lang, category, name)
    }

    /// The translations of `category.name` into every language that has one,
    /// which the command registration gives to Discord.
    pub fn localizations(&self, category: &str, name: &str) -> (r: Category)
        ensures
            r@ == all_translations(self.translations(), category@, name@),
    {
        self.translator.get_all(category, name)
    }
}

} // verus!
