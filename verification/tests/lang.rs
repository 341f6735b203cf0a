use hydrogen::lang::{
    new_i18n, translator_with_default, HydrogenLang, HydrogenLangError, HYDROGEN_DEFAULT_LANG,
};
use hydrogen::translator::{Category, Language};

const ENGLISH: &str = r#"{
    "test": {
        "translate": "Value to be translated",
        "only_english": "This value only exists in english",
        "variable": "This key was created in $HYDROGEN_VERSION"
    }
}"#;

const PORTUGUESE: &str = r#"{
    "test": {
        "translate": "Valor a ser traduzido",
        "variable": "Essa chave foi criada em $HYDROGEN_VERSION"
    }
}"#;

fn loaded() -> HydrogenLang {
    let mut i18n = HydrogenLang::new(HYDROGEN_DEFAULT_LANG);
    i18n.parse_string(ENGLISH, "en-US").unwrap();
    i18n.parse_string(PORTUGUESE, "pt-BR").unwrap();
    i18n
}

#[test]
fn lang_translate() {
    let i18n = loaded();
    assert_eq!(i18n.get("pt-BR", "test", "translate", &[]), "Valor a ser traduzido");
}

#[test]
fn lang_only_english() {
    let i18n = loaded();
    assert_eq!(
        i18n.get("pt-BR", "test", "only_english", &[]),
        "This value only exists in english"
    );
}

#[test]
fn lang_variable() {
    let i18n = loaded();
    assert_eq!(
        i18n.get("pt-BR", "test", "variable", &[("HYDROGEN_VERSION", "0.0.1")]),
        "Essa chave foi criada em 0.0.1"
    );
}

#[test]
fn lang_nexists() {
    let i18n = loaded();
    assert_eq!(i18n.get("pt-BR", "test", "nexists", &[]), "test.nexists");
}

#[test]
fn lang_variables_replace_in_order() {
    let mut i18n = HydrogenLang::new("en-US");
    i18n.parse_string(r#"{"a":{"b":"$X and $XY"}}"#, "en-US").unwrap();
    assert_eq!(i18n.get("en-US", "a", "b", &[("XY", "2"), ("X", "1")]), "1 and 2");
    assert_eq!(i18n.get("en-US", "a", "b", &[("X", "1"), ("XY", "2")]), "1 and 1Y");
}

#[test]
fn lang_refuses_documents_that_are_not_categories() {
    let mut i18n = HydrogenLang::new("en-US");
    assert!(matches!(i18n.parse_string("[1, 2]", "en-US"), Err(HydrogenLangError::SerdeError(_))));
    assert!(matches!(
        i18n.parse_string(r#"{"a": {"b": 1}}"#, "en-US"),
        Err(HydrogenLangError::SerdeError(_))
    ));
    assert_eq!(i18n.get("en-US", "a", "b", &[]), "a.b");
}

#[test]
fn lang_parse_replaces_a_language() {
    let mut i18n = HydrogenLang::new("en-US");
    i18n.parse_string(r#"{"a":{"b":"one","c":"two"}}"#, "en-US").unwrap();
    i18n.parse_string(r#"{"a":{"b":"three"}}"#, "en-US").unwrap();
    assert_eq!(i18n.get("en-US", "a", "b", &[]), "three");
    assert_eq!(i18n.get("en-US", "a", "c", &[]), "a.c");
}

#[test]
fn new_i18n_loads_the_default_language() {
    let i18n = new_i18n(ENGLISH);
    assert_eq!(i18n.default_language(), "en-US");
    assert_eq!(i18n.translate("pt-BR", "test", "translate"), "Value to be translated");
    let empty = new_i18n("not json");
    assert_eq!(empty.translate("en-US", "test", "translate"), "test.translate");
    assert_eq!(empty.cache().len(), 0);
}

#[test]
fn added_language_is_used() {
    let mut i18n = HydrogenLang::new("en-US");
    let mut greet = Category::new();
    greet.insert("hello".to_string(), "Hallo $NAME".to_string());
    let mut german = Language::new();
    german.insert("greet".to_string(), greet);
    i18n.add_language("de-DE", german);
    assert_eq!(i18n.get("de-DE", "greet", "hello", &[("NAME", "Welt")]), "Hallo Welt");
    assert_eq!(i18n.get("en-US", "greet", "hello", &[]), "greet.hello");
}

#[test]
fn translator_with_default_holds_one_language() {
    let mut greet = Category::new();
    greet.insert("hello".to_string(), "Hello".to_string());
    let mut english = Language::new();
    english.insert("greet".to_string(), greet);
    let t = translator_with_default(Some(english));
    assert_eq!(t.translate("pt-BR", "greet", "hello"), "Hello");
    assert_eq!(t.cache().len(), 1);
    let empty = translator_with_default(None);
    assert_eq!(empty.cache().len(), 0);
    assert_eq!(empty.default_language(), "en-US");
}
