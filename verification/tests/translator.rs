use hydrogen::i18n::{language_code, HydrogenI18n, HydrogenI18nError};
use hydrogen::table::Table;
use hydrogen::translator::{Cache, Category, Language, Translator, DEFAULT_LANGUAGE};

fn category(pairs: &[(&str, &str)]) -> Category {
    let mut c = Category::new();
    for (k, v) in pairs {
        c.insert(k.to_string(), v.to_string());
    }
    c
}

fn cache() -> Cache {
    let mut en = Language::new();
    en.insert("greet".to_string(), category(&[("hello", "Hello"), ("bye", "Bye")]));
    let mut pt = Language::new();
    pt.insert("greet".to_string(), category(&[("hello", "Olá")]));
    let mut c = Table::new();
    c.insert("en-US".to_string(), en);
    c.insert("pt-BR".to_string(), pt);
    c
}

#[test]
fn translate_prefers_the_language_asked_for() {
    let t = Translator::new("en-US", cache());
    assert_eq!(t.translate("pt-BR", "greet", "hello"), "Olá");
    assert_eq!(t.get("pt-BR", "greet", "hello"), Some("Olá".to_string()));
}

#[test]
fn translate_falls_back_on_the_default_language() {
    let t = Translator::new("en-US", cache());
    assert_eq!(t.get("pt-BR", "greet", "bye"), None);
    assert_eq!(t.translate("pt-BR", "greet", "bye"), "Bye");
    assert_eq!(t.translate("fr-FR", "greet", "hello"), "Hello");
    assert_eq!(t.translate_with_default("greet", "bye"), "Bye");
}

#[test]
fn translate_gives_the_key_when_nothing_matches() {
    let t = Translator::new("en-US", cache());
    assert_eq!(t.translate("pt-BR", "greet", "nothing"), "greet.nothing");
    assert_eq!(t.translate_with_default("other", "x"), "other.x");
}

#[test]
fn translator_from_uses_the_recommended_default() {
    let t = Translator::from(cache());
    assert_eq!(t.default_language(), DEFAULT_LANGUAGE);
    assert_eq!(DEFAULT_LANGUAGE, "en-US");
}

#[test]
fn get_all_gives_every_language_with_a_translation() {
    let t = Translator::new("en-US", cache());
    let all = t.get_all("greet", "hello");
    assert_eq!(all.len(), 2);
    assert_eq!(all.get("en-US"), Some(&"Hello".to_string()));
    assert_eq!(all.get("pt-BR"), Some(&"Olá".to_string()));
    let bye = t.get_all("greet", "bye");
    assert_eq!(bye.len(), 1);
    assert_eq!(bye.get("pt-BR"), None);
}

#[test]
fn cloned_translator_keeps_the_contents() {
    let t = Translator::new("pt-BR", cache());
    let c = t.cloned();
    assert_eq!(c.default_language(), "pt-BR");
    assert_eq!(c.translate("en-US", "greet", "bye"), "Bye");
    assert_eq!(c.cache().len(), 2);
}

#[test]
fn table_insert_replaces_and_keeps_keys_distinct() {
    let mut t: Table<String> = Table::new();
    t.insert("a".to_string(), "1".to_string());
    t.insert("b".to_string(), "2".to_string());
    t.insert("a".to_string(), "3".to_string());
    assert_eq!(t.len(), 2);
    assert_eq!(t.get("a"), Some(&"3".to_string()));
    assert!(t.contains_key("b"));
    assert!(!t.contains_key("c"));
}

#[test]
fn hydrogen_i18n_needs_the_default_language() {
    assert!(matches!(
        HydrogenI18n::from_cache(cache(), "fr-FR"),
        Err(HydrogenI18nError::DefaultLanguageNotFound)
    ));
    let i = HydrogenI18n::from_cache(cache(), "en-US").unwrap();
    assert_eq!(i.translate("pt-BR", "greet", "bye"), "Bye");
    assert_eq!(i.get("pt-BR", "greet", "bye"), None);
    assert_eq!(i.translate_with_default("greet", "none"), "greet.none");
    assert_eq!(i.localizations("greet", "hello").len(), 2);
    assert_eq!(HydrogenI18n::DEFAULT_LANGUAGE, "en-US");
    assert_eq!(
        HydrogenI18nError::DefaultLanguageNotFound.description(),
        Some("default language not found".to_string())
    );
}

#[test]
fn language_code_strips_the_json_extension() {
    assert_eq!(language_code("pt-BR.json"), Some("pt-BR".to_string()));
    assert_eq!(language_code(".json"), Some("".to_string()));
    assert_eq!(language_code("readme.md"), None);
    assert_eq!(language_code("json"), None);
}

#[test]
fn changing_a_copy_of_the_cache_leaves_the_translator() {
    let t = Translator::new("en-US", cache());
    let mut copy = t.cache();
    copy.insert("fr-FR".to_string(), Language::new());
    let mut pt = Language::new();
    pt.insert("greet".to_string(), category(&[("hello", "Oi"), ("bye", "Tchau")]));
    copy.insert("pt-BR".to_string(), pt);
    assert_eq!(t.get("pt-BR", "greet", "hello"), Some("Olá".to_string()));
    assert_eq!(t.get("pt-BR", "greet", "bye"), None);
    assert_eq!(t.translate("pt-BR", "greet", "bye"), "Bye");
    assert_eq!(t.cache().len(), 2);
    let u = Translator::new("en-US", copy);
    assert_eq!(u.translate("pt-BR", "greet", "bye"), "Tchau");
    assert_eq!(t.translate("pt-BR", "greet", "bye"), "Bye");
}
