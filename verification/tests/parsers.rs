use hydrogen::parsers::{RollParser, TimeParser};
use hydrogen::roll::{DiceType, Modifier};
use regex::Regex;

#[test]
fn suffix_syntax_reads_units() {
    let p = TimeParser::new();
    assert_eq!(p.suffix_syntax("90"), Some(90_000));
    assert_eq!(p.suffix_syntax("90s"), Some(90_000));
    assert_eq!(p.suffix_syntax("90S"), Some(90_000));
    assert_eq!(p.suffix_syntax("5m"), Some(300_000));
    assert_eq!(p.suffix_syntax("2h"), Some(7_200_000));
    assert_eq!(p.suffix_syntax("999H"), Some(3_596_400_000));
    assert_eq!(p.suffix_syntax("1000"), None);
    assert_eq!(p.suffix_syntax(""), None);
    assert_eq!(p.suffix_syntax("s"), None);
    assert_eq!(p.suffix_syntax("5x"), None);
    assert_eq!(p.suffix_syntax("1:30"), None);
}

#[test]
fn semicolon_syntax_reads_clocks() {
    let p = TimeParser::new();
    assert_eq!(p.semicolon_syntax("1:30"), Some(90_000));
    assert_eq!(p.semicolon_syntax("01:02:03"), Some(3_723_000));
    assert_eq!(p.semicolon_syntax("999:59:59"), Some(3_599_999_000));
    assert_eq!(p.semicolon_syntax("1:60"), None);
    assert_eq!(p.semicolon_syntax("1:2"), None);
    assert_eq!(p.semicolon_syntax("1000:00"), None);
    assert_eq!(p.semicolon_syntax("90"), None);
}

/// The time syntaxes as regular expressions.
fn time_expressions() -> (Regex, Regex) {
    (
        Regex::new(r"^(([0-9]{1,3})[sS]?|([0-9]{1,3})[mM]|([0-9]{1,3})[hH])$").unwrap(),
        Regex::new(r"^((([0-9]{1,3}):([0-5][0-9])|([0-9]{1,3})):([0-5][0-9]))$").unwrap(),
    )
}

/// What the time expressions read in `data`.
fn reference_time(suffix: &Regex, colon: &Regex, data: &str) -> (Option<u32>, Option<u32>) {
    let s = suffix.captures(data).map(|c| {
        if let Some(x) = c.get(2) {
            x.as_str().parse::<u32>().unwrap() * 1000
        } else if let Some(x) = c.get(3) {
            x.as_str().parse::<u32>().unwrap() * 60 * 1000
        } else {
            c.get(4).unwrap().as_str().parse::<u32>().unwrap() * 60 * 60 * 1000
        }
    });
    let k = colon.captures(data).map(|c| {
        let hm = match c.get(3) {
            Some(h) => {
                h.as_str().parse::<u32>().unwrap() * 3_600_000
                    + c.get(4).unwrap().as_str().parse::<u32>().unwrap() * 60_000
            }
            None => c.get(5).unwrap().as_str().parse::<u32>().unwrap() * 60_000,
        };
        hm + c.get(6).unwrap().as_str().parse::<u32>().unwrap() * 1000
    });
    (s, k)
}

#[test]
fn time_syntaxes_agree_with_regular_expressions() {
    let p = TimeParser::new();
    let (suffix, colon) = time_expressions();
    let pieces = ["", "0", "7", "59", "60", "123", "1000", ":", "s", "m", "H", "x", "05", "9"];
    for a in pieces {
        for b in pieces {
            for c in pieces {
                let data = format!("{}{}{}", a, b, c);
                let (s, k) = reference_time(&suffix, &colon, &data);
                assert_eq!(p.suffix_syntax(&data), s, "suffix {:?}", data);
                assert_eq!(p.semicolon_syntax(&data), k, "colon {:?}", data);
            }
        }
    }
}

#[test]
fn evaluate_reads_repeat_count_sides_and_modifier() {
    let p = RollParser::new();
    let params = p.evaluate("2#3d6+1").unwrap();
    assert_eq!(params.repeat, 2);
    assert_eq!(params.dice_count, 3);
    assert_eq!(params.dice_type, DiceType::Sided(6));
    assert_eq!(params.modifier, Modifier::Add(1));
}

#[test]
fn evaluate_uses_defaults() {
    let p = RollParser::new();
    let params = p.evaluate("d20").unwrap();
    assert_eq!(params.repeat, 1);
    assert_eq!(params.dice_count, 1);
    assert_eq!(params.dice_type, DiceType::Sided(20));
    assert_eq!(params.modifier, Modifier::Add(0));
}

#[test]
fn evaluate_reads_fate_dice_in_a_sentence() {
    let p = RollParser::new();
    let params = p.evaluate("I roll 4dF-1 now").unwrap();
    assert_eq!(params.dice_count, 4);
    assert_eq!(params.dice_type, DiceType::Fate);
    assert_eq!(params.modifier, Modifier::Subtract(1));
}

#[test]
fn evaluate_refuses_other_text() {
    let p = RollParser::new();
    assert!(p.evaluate("hello").is_none());
    assert!(p.evaluate("d1").is_none());
    assert!(p.evaluate("ad6").is_none());
    assert!(p.evaluate("51d6").is_none());
}

#[test]
fn evaluate_modifier_unifies_in_order() {
    let p = RollParser::new();
    assert_eq!(p.evaluate_modifier("+3*2"), Some(Modifier::Add(6)));
    assert_eq!(p.evaluate_modifier("-10/3"), Some(Modifier::Subtract(3)));
    assert_eq!(p.evaluate_modifier("abc"), None);
    assert!(!p.modifier_is_defined("+1/0"));
    assert!(p.modifier_is_defined("+1/2"));
}

/// The roll syntax as regular expressions: the whole roll and one modifier.
fn roll_expressions() -> (Regex, Regex) {
    (
        Regex::new(r"(?: |^)(?:(10|[1-9])#)?(50|0?[1-9]|[1-4][0-9])?d(100|[fF]|0?[2-9]|[1-9][0-9])((?:[+\-*\/][0-9]{1,3}|){0,3})(?:$| )").unwrap(),
        Regex::new(r"([+\-*\/])([0-9]{1,3})").unwrap(),
    )
}

/// What the roll expressions read in `data`, with the modifiers folded.
fn reference_roll(roll: &Regex, modifier: &Regex, data: &str) -> Option<(u8, DiceType, Option<Modifier>, u8)> {
    let c = roll.captures(data)?;
    let repeat = c.get(1).map(|x| x.as_str().parse::<u8>().unwrap()).unwrap_or(1);
    let count = c.get(2).map(|x| x.as_str().parse::<u8>().unwrap()).unwrap_or(1);
    let sides = c.get(3).unwrap().as_str();
    let dice_type = if sides.to_lowercase() == "f" {
        DiceType::Fate
    } else {
        DiceType::Sided(sides.parse::<u8>().unwrap())
    };
    let m = c.get(4).and_then(|x| {
        modifier
            .captures_iter(x.as_str())
            .map(|y| {
                let v = y.get(2).unwrap().as_str().parse::<i32>().unwrap();
                match y.get(1).unwrap().as_str() {
                    "+" => Modifier::Add(v),
                    "-" => Modifier::Subtract(v),
                    "*" => Modifier::Multiply(v),
                    _ => Modifier::Divide(v),
                }
            })
            .reduce(|acc, x| acc.unify(x))
    });
    Some((count, dice_type, m, repeat))
}

#[test]
fn roll_syntax_agrees_with_regular_expressions() {
    let p = RollParser::new();
    let (roll, modifier) = roll_expressions();
    let heads = ["", "2#", "10#", "11#", "0#", " ", "x"];
    let counts = ["", "3", "03", "50", "51", "0"];
    let sides = ["d6", "dF", "df", "d100", "d101", "d1", "d02", "D6", "d"];
    let tails = ["", "+1", "-2*3", "/4+5-6", "+1+2+3+4", "+1000", " rest", "x", "/0"];
    for h in heads {
        for c in counts {
            for s in sides {
                for t in tails {
                    let data = format!("{}{}{}{}", h, c, s, t);
                    if !p.evaluate_is_defined(&data) {
                        continue;
                    }
                    let got = p.evaluate(&data).map(|q| (q.dice_count, q.dice_type, q.modifier, q.repeat));
                    let want = reference_roll(&roll, &modifier, &data)
                        .map(|(n, d, m, r)| (n, d, m.unwrap_or(Modifier::Add(0)), r));
                    assert_eq!(got, want, "{:?}", data);
                }
            }
        }
    }
}
