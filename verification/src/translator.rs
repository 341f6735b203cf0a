//! Translations kept in memory: for each language, categories of keys and
//! their translated texts, with a default language to fall back on.
use std::sync::Arc;

use vstd::prelude::*;

use crate::table::Table;
use crate::text::{owned, push_str, string_from_chars};

verus! {

/// Recommended default language, the one commonly used by Discord.
pub const DEFAULT_LANGUAGE: &'static str = "en-US";

/// The translations of one category: translation key to translated text.
pub type Category = Table<String>;

/// The categories of one language: category name to its translations.
pub type Language = Table<Category>;

/// All the languages: language code to its categories.
pub type Cache = Table<Language>;

/// The model of a cache: language, then category, then key, to the text.
pub type CacheModel = Map<Seq<char>, Map<Seq<char>, Map<Seq<char>, Seq<char>>>>;

/// The translation of `category.name` into `lang` that the cache holds, if
/// any.
pub open spec fn lookup(
    cache: CacheModel,
    lang: Seq<char>,
    category: Seq<char>,
    name: Seq<char>,
) -> Option<Seq<char>> {
    if cache.contains_key(lang) && cache[lang].contains_key(category)
        && cache[lang][category].contains_key(name) {
        Some(cache[lang][category][name])
    } else {
        None
    }
}

/// The text that stands for a missing translation: `category.name`.
pub open spec fn missing_key(category: Seq<char>, name: Seq<char>) -> Seq<char> {
    category + seq!['.'] + name
}

/// The translation into `lang`, else the one into the default language,
/// else `category.name`.
pub open spec fn translation(
    cache: CacheModel,
    default_language: Seq<char>,
    lang: Seq<char>,
    category: Seq<char>,
    name: Seq<char>,
) -> Seq<char> {
    match lookup(cache, lang, category, name) {
        Some(t) => t,
        None => match lookup(cache, default_language, category, name) {
            Some(t) => t,
            None => missing_key(category, name),
        },
    }
}

/// The translations of `category.name` into every language that has one.
pub open spec fn all_translations(cache: CacheModel, category: Seq<char>, name: Seq<char>) -> Map<
    Seq<char>,
    Seq<char>,
> {
    Map::new(
        |l: Seq<char>| lookup(cache, l, category, name) is Some,
        |l: Seq<char>| lookup(cache, l, category, name)->0,
    )
}

/// What a translator keeps behind its shared reference.
struct Internal {
    cache: Cache,
    default_language: String,
}

/// Manages the translations kept in memory, always giving a text for a
/// category-key combination.
///
/// Cloning a translator shares its contents; [`Translator::cloned`] copies
/// them.
pub struct Translator {
    internal: Arc<Internal>,
}

impl Clone for Translator {
    fn clone(&self) -> (r: Self)
        ensures
            r == *self,
    {
        Translator { internal: share(&self.internal) }
    }
}

/// Another reference to the same shared value.
///
/// Trusted: calls `Arc::clone`, which std documents as making another
/// pointer to the same allocation; the contract claims that it refers to an
/// equal value.
#[verifier::external_body]
fn share<T>(a: &Arc<T>) -> (r: Arc<T>)
    ensures
        r == *a,
{
    Arc::clone(a)
}

/// Copies a category.
pub fn copy_category(c: &Category) -> (r: Category)
    ensures
        r@ == c@,
{
    let mut r = Category::new();
    let mut i: usize = 0;
    while i < c.len()
        invariant
            i <= c.entries().len(),
            r@ == Map::new(
                |k: Seq<char>| c@.contains_key(k) && exists|j: int| 0 <= j < i && (#[trigger] c.entries()[j]).0@ == k,
                |k: Seq<char>| c@[k],
            ),
        decreases c.entries().len() - i,
    {
        let (key, value) = c.entry(i);
        let ghost before = r@;
        r.insert(key.clone(), value.clone());
        i = i + 1;
        assert(r@ =~= Map::new(
            |k: Seq<char>| c@.contains_key(k) && exists|j: int| 0 <= j < i && (#[trigger] c.entries()[j]).0@ == k,
            |k: Seq<char>| c@[k],
        ));
    }
    proof {
        assert forall|k: Seq<char>| c@.contains_key(k) implies r@.contains_key(k) by {
            c.lemma_key_has_entry(k);
        }
    }
    assert(r@ =~= c@);
    r
}

/// Copies a language.
pub fn copy_language(l: &Language) -> (r: Language)
    ensures
        r@ == l@,
{
    let mut r = Language::new();
    let mut i: usize = 0;
    while i < l.len()
        invariant
            i <= l.entries().len(),
            r@ == Map::new(
                |k: Seq<char>| l@.contains_key(k) && exists|j: int| 0 <= j < i && (#[trigger] l.entries()[j]).0@ == k,
                |k: Seq<char>| l@[k],
            ),
        decreases l.entries().len() - i,
    {
        let (key, value) = l.entry(i);
        r.insert(key.clone(), copy_category(value));
        i = i + 1;
        assert(r@ =~= Map::new(
            |k: Seq<char>| l@.contains_key(k) && exists|j: int| 0 <= j < i && (#[trigger] l.entries()[j]).0@ == k,
            |k: Seq<char>| l@[k],
        ));
    }
    proof {
        assert forall|k: Seq<char>| l@.contains_key(k) implies r@.contains_key(k) by {
            l.lemma_key_has_entry(k);
        }
    }
    assert(r@ =~= l@);
    r
}

/// Copies a cache.
pub fn copy_cache(c: &Cache) -> (r: Cache)
    ensures
        r@ == c@,
{
    let mut r = Cache::new();
    let mut i: usize = 0;
    while i < c.len()
        invariant
            i <= c.entries().len(),
            r@ == Map::new(
                |k: Seq<char>| c@.contains_key(k) && exists|j: int| 0 <= j < i && (#[trigger] c.entries()[j]).0@ == k,
                |k: Seq<char>| c@[k],
            ),
        decreases c.entries().len() - i,
    {
        let (key, value) = c.entry(i);
        r.insert(key.clone(), copy_language(value));
        i = i + 1;
        assert(r@ =~= Map::new(
            |k: Seq<char>| c@.contains_key(k) && exists|j: int| 0 <= j < i && (#[trigger] c.entries()[j]).0@ == k,
            |k: Seq<char>| c@[k],
        ));
    }
    proof {
        assert forall|k: Seq<char>| c@.contains_key(k) implies r@.contains_key(k) by {
            c.lemma_key_has_entry(k);
        }
    }
    assert(r@ =~= c@);
    r
}

/// The translation of `category.name` into `lang` kept in `cache`, if any.
pub fn cache_get(cache: &Cache, lang: &str, category: &str, name: &str) -> (r: Option<String>)
    ensures
        r matches Some(t) ==> lookup(cache@, lang@, category@, name@) == Some(t@),
        r is None ==> lookup(cache@, lang@, category@, name@) is None,
{
    let language = match cache.get(lang) {
        Some(l) => l,
        None => return None,
    };
    let cat = match language.get(category) {
        Some(c) => c,
        None => return None,
    };
    match cat.get(name) {
        Some(t) => Some(t.clone()),
        None => None,
    }
}

/// Writes `category.name`.
pub fn missing_key_text(category: &str, name: &str) -> (r: String)
    ensures
        r@ == missing_key(category@, name@),
{
    let mut out: Vec<char> = Vec::new();
    push_str(&mut out, category);
    out.push('.');
    push_str(&mut out, name);
    assert(out@ =~= missing_key(category@, name@));
    string_from_chars(&out)
}

impl Translator {
    /// The translations this translator holds.
    pub closed spec fn translations(self) -> CacheModel {
        self.internal.cache@
    }

    /// The language this translator falls back on.
    pub closed spec fn fallback(self) -> Seq<char> {
        self.internal.default_language@
    }

    /// Initializes a translator with the default language and a populated
    /// cache.
    pub fn new(default_language: &str, cache: Cache) -> (r: Self)
        ensures
            r.translations() == cache@,
            r.fallback() == default_language@,
    {
        Translator {
            internal: Arc::new(Internal { cache, default_language: owned(default_language) }),
        }
    }

    /// Initializes a translator with the recommended default language.
    pub fn from(value: Cache) -> (r: Self)
        ensures
            r.translations() == value@,
            r.fallback() == DEFAULT_LANGUAGE@,
    {
        Self::new(DEFAULT_LANGUAGE, value)
    }

    /// A translator with a copy of the contents of this one.
    pub fn cloned(&self) -> (r: Self)
        ensures
            r.translations() == self.translations(),
            r.fallback() == self.fallback(),
    {
        Translator {
            internal: Arc::new(
                Internal { cache: self.cache(), default_language: self.default_language() },
            ),
        }
    }

    /// A copy of the cache, which can be changed and used for a new
    /// translator. The copy is a value of its own: changing it leaves this
    /// translator as it was (see [`lemma_cache_copy_answers_as_before`]).
    pub fn cache(&self) -> (r: Cache)
        ensures
            r@ == self.translations(),
    {
        copy_cache(&self.internal.cache)
    }

    /// A copy of the default language.
    pub fn default_language(&self) -> (r: String)
        ensures
            r@ == self.fallback(),
    {
        self.internal.default_language.clone()
    }

    /// The translation of `category.name` into `lang`, if there is one.
    pub fn get(&self, lang: &str, category: &str, name: &str) -> (r: Option<String>)
        ensures
            r matches Some(t) ==> lookup(self.translations(), lang@, category@, name@) == Some(t@),
            r is None ==> lookup(self.translations(), lang@, category@, name@) is None,
    {
        cache_get(&self.internal.cache, lang, category, name)
    }

    /// All the translations of `category.name`: language code to text.
    pub fn get_all(&self, category: &str, name: &str) -> (r: Category)
        ensures
            r@ == all_translations(self.translations(), category@, name@),
    {
        let cache = &self.internal.cache;
        let mut r = Category::new();
        let mut i: usize = 0;
        while i < cache.len()
            invariant
                cache@ == self.translations(),
                i <= cache.entries().len(),
                r@ == Map::new(
                    |l: Seq<char>| lookup(cache@, l, category@, name@) is Some && exists|j: int|
                        0 <= j < i && (#[trigger] cache.entries()[j]).0@ == l,
                    |l: Seq<char>| lookup(cache@, l, category@, name@)->0,
                ),
            decreases cache.entries().len() - i,
        {
            let (lang, _) = cache.entry(i);
            if let Some(value) = cache_get(cache, lang.as_str(), category, name) {
                r.insert(lang.clone(), value);
            }
            i = i + 1;
            assert(r@ =~= Map::new(
                |l: Seq<char>| lookup(cache@, l, category@, name@) is Some && exists|j: int|
                    0 <= j < i && (#[trigger] cache.entries()[j]).0@ == l,
                |l: Seq<char>| lookup(cache@, l, category@, name@)->0,
            ));
        }
        proof {
            assert forall|l: Seq<char>| lookup(cache@, l, category@, name@) is Some implies r@.contains_key(l) by {
                cache.lemma_key_has_entry(l);
            }
        }
        assert(r@ =~= all_translations(self.translations(), category@, name@));
        r
    }

    /// Translates using the default language, giving `category.name` when
    /// there is no translation.
    pub fn translate_with_default(&self, category: &str, name: &str) -> (r: String)
        ensures
            r@ == (match lookup(self.translations(), self.fallback(), category@, name@) {
                Some(t) => t,
                None => missing_key(category@, name@),
            }),
    {
        match self.get(self.internal.default_language.as_str(), category, name) {
            Some(t) => t,
            None => missing_key_text(category, name),
        }
    }

    /// Translates into `lang`, falling back on the default language and then
    /// on `category.name`.
    pub fn translate(&self, lang: &str, category: &str, name: &str) -> (r: String)
        ensures
            r@ == translation(self.translations(), self.fallback(), lang@, category@, name@),
    {
        match self.get(lang, category, name) {
            Some(t) => t,
            None => self.translate_with_default(category, name),
        }
    }
}

/// Translating gives what `get` gives when it gives something, and what
/// translating into the default language gives otherwise.
pub proof fn lemma_translate_agrees_with_get(
    cache: CacheModel,
    default_language: Seq<char>,
    lang: Seq<char>,
    category: Seq<char>,
    name: Seq<char>,
)
    ensures
        lookup(cache, lang, category, name) matches Some(t) ==> translation(
            cache,
            default_language,
            lang,
            category,
            name,
        ) == t,
        lookup(cache, lang, category, name) is None ==> translation(
            cache,
            default_language,
            lang,
            category,
            name,
        ) == translation(cache, default_language, default_language, category, name),
{
}

/// Changing a copy taken with [`Translator::cache`] leaves the translator
/// answering as before. No method of `Translator` takes `&mut self` and it
/// holds no cell, so its translations are those it had when the copy was
/// taken, whatever is done to the copy afterwards; every lookup and every
/// translation of the translator is then what it was at that moment.
pub proof fn lemma_cache_copy_answers_as_before(
    t: Translator,
    at_copy: CacheModel,
    lang: Seq<char>,
    category: Seq<char>,
    name: Seq<char>,
)
    requires
        at_copy == t.translations(),
    ensures
        lookup(t.translations(), lang, category, name) == lookup(at_copy, lang, category, name),
        translation(t.translations(), t.fallback(), lang, category, name) == translation(
            at_copy,
            t.fallback(),
            lang,
            category,
            name,
        ),
        all_translations(t.translations(), category, name) == all_translations(
            at_copy,
            category,
            name,
        ),
{
}

} // verus!
