use hydrogen::registry::{register_about, register_join, register_play, register_roll, register_seek, OptionKind};
use hydrogen::table::Table;
use hydrogen::translator::{Category, Language, Translator};

fn i18n() -> Translator {
    let mut roll = Category::new();
    roll.insert("name".to_string(), "rolar".to_string());
    roll.insert("fate_name".to_string(), "destino".to_string());
    let mut pt = Language::new();
    pt.insert("roll".to_string(), roll);
    let mut en_roll = Category::new();
    en_roll.insert("name".to_string(), "roll".to_string());
    let mut en = Language::new();
    en.insert("roll".to_string(), en_roll);
    let mut cache = Table::new();
    cache.insert("pt-BR".to_string(), pt);
    cache.insert("en-US".to_string(), en);
    Translator::new("en-US", cache)
}

#[test]
fn roll_command_has_two_sub_commands() {
    let t = i18n();
    let c = register_roll(Some(&t));
    assert_eq!(c.name, "roll");
    assert_eq!(c.description, "Roll a dice.");
    assert_eq!(c.dm_permission, None);
    assert_eq!(c.name_localizations.len(), 2);
    assert_eq!(c.name_localizations.get("pt-BR"), Some(&"rolar".to_string()));
    assert_eq!(c.description_localizations.len(), 0);
    assert_eq!(c.options.len(), 2);
    let fate = &c.options[0];
    assert_eq!(fate.kind, OptionKind::SubCommand);
    assert_eq!(fate.name_localizations.get("pt-BR"), Some(&"destino".to_string()));
    let names: Vec<&str> = fate.options.iter().map(|o| o.name).collect();
    assert_eq!(names, vec!["dice_count", "repetitions", "modifier"]);
    let sided = &c.options[1];
    let names: Vec<&str> = sided.options.iter().map(|o| o.name).collect();
    assert_eq!(names, vec!["sides", "dice_count", "repetitions", "modifier"]);
    assert_eq!(sided.options[0].min_int_value, Some(2));
    assert_eq!(sided.options[0].max_int_value, Some(100));
    assert!(sided.options[0].required);
    assert_eq!(sided.options[2].max_int_value, Some(10));
}

#[test]
fn commands_without_translations() {
    let c = register_roll(None);
    assert_eq!(c.name_localizations.len(), 0);
    let p = register_play(None);
    assert_eq!(p.options[0].name, "query");
    assert!(p.options[0].required);
    assert_eq!(p.dm_permission, Some(false));
    let s = register_seek(None);
    assert_eq!(s.options[0].name, "time");
    assert_eq!(register_join(None).dm_permission, Some(false));
    assert_eq!(register_about(None).dm_permission, Some(true));
}
