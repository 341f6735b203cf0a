use hydrogen::parsers::TimeParser;
use hydrogen::table::Table;
use hydrogen::text::replace;
use hydrogen::translator::{Category, Language, Translator};
use hydrogen::utils::{error_message, progress_bar, time_to_string};

#[test]
fn time_to_string_writes_clocks() {
    assert_eq!(time_to_string(0), "00:00");
    assert_eq!(time_to_string(5), "00:05");
    assert_eq!(time_to_string(59), "00:59");
    assert_eq!(time_to_string(60), "01:00");
    assert_eq!(time_to_string(3599), "59:59");
    assert_eq!(time_to_string(3600), "01:00:00");
    assert_eq!(time_to_string(3723), "01:02:03");
    assert_eq!(time_to_string(360_000), "100:00:00");
}

#[test]
fn clock_reads_back_as_the_same_time() {
    let p = TimeParser::new();
    for s in [0, 1, 59, 60, 61, 599, 3599, 3600, 3601, 86_399, 359_999, 3_599_999] {
        assert_eq!(p.semicolon_syntax(&time_to_string(s)), Some(s as u32 * 1000), "{}", s);
    }
}

#[test]
fn progress_bar_fills_thirty_items() {
    let empty = format!("╣{}╠", "░".repeat(30));
    let full = format!("╣{}╠", "▓".repeat(30));
    let half = format!("╣{}{}╠", "▓".repeat(15), "░".repeat(15));
    assert_eq!(progress_bar(0, 100), empty);
    assert_eq!(progress_bar(0, 0), empty);
    assert_eq!(progress_bar(100, 100), full);
    assert_eq!(progress_bar(200, 100), full);
    assert_eq!(progress_bar(50, 100), half);
    assert_eq!(progress_bar(-5, 100), empty);
    assert_eq!(progress_bar(1, 60), format!("╣{}{}╠", "▓".repeat(1), "░".repeat(29)));
    assert_eq!(progress_bar(1, 61), format!("╣{}╠", "░".repeat(30)));
    assert_eq!(progress_bar(3, 4).chars().count(), 32);
}

fn translator() -> Translator {
    let mut error = Category::new();
    error.insert(
        "not_intentional".to_string(),
        "This was not intentional, report it at {url}.".to_string(),
    );
    let mut english = Language::new();
    english.insert("error".to_string(), error);
    let mut cache = Table::new();
    cache.insert("en-US".to_string(), english);
    Translator::new("en-US", cache)
}

#[test]
fn error_message_adds_the_bug_report_note() {
    let i18n = translator();
    assert_eq!(
        error_message(&i18n, "pt-BR", "Something failed."),
        "Something failed.\n\nThis was not intentional, report it at https://github.com/nashiradeer/hydrogen/issues."
    );
}

#[test]
fn error_message_without_translation_uses_the_key() {
    let i18n = Translator::new("en-US", Table::new());
    assert_eq!(error_message(&i18n, "en-US", "Oops"), "Oops\n\nerror.not_intentional");
}

#[test]
fn replace_works_as_str_replace() {
    for (s, pat, rep) in [
        ("Leaving in {time} seconds", "{time}", "10"),
        ("aaa", "aa", "b"),
        ("abc", "", "-"),
        ("", "", "x"),
        ("", "a", "x"),
        ("no match", "zz", "y"),
    ] {
        assert_eq!(replace(s, pat, rep), s.replace(pat, rep));
    }
    assert_eq!(replace("abc", "", "-"), "-a-b-c-");
}
