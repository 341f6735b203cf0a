//! Texts shared by the commands and components: clocks, progress bars and
//! error descriptions.
use vstd::prelude::*;

use crate::parsers::{colon_millis, number, sexagesimal, short_digits};
use crate::text::{
    all_digits, decimal, digit_char, digit_value, digits_value, is_digit, lemma_decimal_digits, pad2, pad2_chars,
    push_all, push_str, replace, replace_all, signed_decimal, string_from_chars,
};
use crate::translator::{translation, Translator};
use crate::HYDROGEN_BUG_URL;

verus! {

/// A duration in seconds written as a clock: `00:SS` below a minute,
/// `MM:SS` below an hour and `HH:MM:SS` from an hour on, each part at least
/// two digits.
pub open spec fn clock_text(seconds: int) -> Seq<char> {
    if seconds < 60 {
        seq!['0', '0', ':'] + pad2(seconds)
    } else if seconds < 3600 {
        pad2(seconds / 60) + seq![':'] + pad2(seconds % 60)
    } else {
        pad2(seconds / 3600) + seq![':'] + pad2((seconds % 3600) / 60) + seq![':'] + pad2(
            seconds % 60,
        )
    }
}

/// Converts a time in seconds to a string.
pub fn time_to_string(seconds: i32) -> (r: String)
    ensures
        r@ == clock_text(seconds as int),
{
    let mut out: Vec<char> = Vec::new();
    if seconds < 60 {
        out.push('0');
        out.push('0');
        out.push(':');
        push_all(&mut out, &pad2_chars(seconds as i64));
    } else if seconds < 3600 {
        push_all(&mut out, &pad2_chars((seconds / 60) as i64));
        out.push(':');
        push_all(&mut out, &pad2_chars((seconds % 60) as i64));
    } else {
        push_all(&mut out, &pad2_chars((seconds / 3600) as i64));
        out.push(':');
        push_all(&mut out, &pad2_chars(((seconds % 3600) / 60) as i64));
        out.push(':');
        push_all(&mut out, &pad2_chars((seconds % 60) as i64));
    }
    assert(out@ =~= clock_text(seconds as int));
    string_from_chars(&out)
}

/// A number below a thousand, padded to two digits, is a run of two or
/// three digits that reads back as the number.
proof fn lemma_pad2_digits(n: int)
    requires
        0 <= n < 1000,
    ensures
        all_digits(pad2(n)),
        digits_value(pad2(n)) == n,
        n < 100 ==> pad2(n).len() == 2,
        n >= 100 ==> pad2(n).len() == 3,
{
    if n < 10 {
        let p = pad2(n);
        assert(p == seq!['0', digit_char(n as nat)]);
        assert(p.drop_last() =~= seq!['0']);
        assert(seq!['0'].drop_last() =~= Seq::<char>::empty());
        assert(digits_value(Seq::<char>::empty()) == 0);
        assert(seq!['0'].last() == '0');
        assert(digit_value('0') == 0);
        assert(digits_value(seq!['0']) == 0);
    } else {
        assert(pad2(n) == decimal(n as nat));
        lemma_decimal_digits(n as nat);
        let q = n / 10;
        assert(decimal(n as nat) == decimal(q as nat).push(digit_char((n % 10) as nat)));
        if n < 100 {
            assert(1 <= q < 10);
            assert(decimal(q as nat).len() == 1);
        } else {
            assert(10 <= q < 100);
            assert(decimal(q as nat) == decimal((q / 10) as nat).push(
                digit_char((q % 10) as nat),
            ));
            assert(1 <= q / 10 < 10);
            assert(decimal((q / 10) as nat).len() == 1);
        }
    }
}

/// A number of minutes or seconds below sixty, padded to two digits, is
/// read as such.
proof fn lemma_pad2_sexagesimal(n: int)
    requires
        0 <= n < 60,
    ensures
        pad2(n).len() == 2,
        '0' <= pad2(n)[0] <= '5',
        is_digit(pad2(n)[1]),
        digits_value(pad2(n)) == n,
{
    lemma_pad2_digits(n);
    if n >= 10 {
        let q = n / 10;
        assert(pad2(n) == decimal(q as nat).push(digit_char((n % 10) as nat)));
        assert(decimal(q as nat) == seq![digit_char(q as nat)]);
        assert(pad2(n)[0] == digit_char(q as nat));
    }
    assert(all_digits(pad2(n)));
    assert(is_digit(pad2(n)[1]));
}

/// The clock that a time is written as reads back, by the colon syntax, as
/// the same time: what `time_to_string` writes, `semicolon_syntax` reads,
/// for every time below a thousand hours.
pub proof fn lemma_clock_roundtrip(seconds: int)
    requires
        0 <= seconds < 3_600_000,
    ensures
        colon_millis(clock_text(seconds)) == Some((seconds * 1000) as nat),
{
    let t = clock_text(seconds);
    if seconds < 3600 {
        let m = if seconds < 60 {
            0
        } else {
            seconds / 60
        };
        let sec = if seconds < 60 {
            seconds
        } else {
            seconds % 60
        };
        lemma_pad2_sexagesimal(m);
        lemma_pad2_sexagesimal(sec);
        if seconds < 60 {
            assert(pad2(0) =~= seq!['0', '0']);
        }
        assert(t =~= pad2(m) + seq![':'] + pad2(sec));
        assert(t.len() == 5);
        assert(t.subrange(0, 2) =~= pad2(m));
        assert(t.subrange(3, 5) =~= pad2(sec));
        assert(short_digits(t, 0, 2));
        assert(sexagesimal(t, 3));
        assert(number(t, 0, 2) == m);
        assert(number(t, 3, 5) == sec);
        assert(seconds == m * 60 + sec);
    } else {
        let h = seconds / 3600;
        let rest = seconds % 3600;
        let m = rest / 60;
        let sec = seconds % 60;
        assert(1 <= h < 1000);
        assert(0 <= m < 60);
        assert(rest % 60 == sec) by {
            vstd::arithmetic::div_mod::lemma_mod_mod(seconds, 60, 60);
            assert(seconds % 3600 == seconds - h * 3600);
            assert((seconds - h * 3600) % 60 == seconds % 60) by {
                vstd::arithmetic::div_mod::lemma_mod_multiples_vanish(-h * 60, seconds, 60);
            }
        }
        lemma_pad2_digits(h);
        lemma_pad2_sexagesimal(m);
        lemma_pad2_sexagesimal(sec);
        let k = pad2(h).len() as int;
        assert(t =~= pad2(h) + seq![':'] + pad2(m) + seq![':'] + pad2(sec));
        let n = t.len() as int;
        assert(n == k + 6);
        assert(t.subrange(0, n - 6) =~= pad2(h));
        assert(t.subrange(n - 5, n - 3) =~= pad2(m));
        assert(t.subrange(n - 2, n) =~= pad2(sec));
        assert(t[n - 6] == ':');
        assert(t[n - 3] == ':');
        assert(t[n - 5] == pad2(m)[0]);
        assert(t[n - 4] == pad2(m)[1]);
        assert(t[n - 2] == pad2(sec)[0]);
        assert(t[n - 1] == pad2(sec)[1]);
        assert(short_digits(t, 0, n - 6));
        assert(sexagesimal(t, n - 5));
        assert(sexagesimal(t, n - 2));
        assert(number(t, 0, n - 6) == h);
        assert(number(t, n - 5, n - 3) == m);
        assert(number(t, n - 2, n) == sec);
        assert(seconds == h * 3600 + m * 60 + sec);
    }
}

/// The number of filled items of a progress bar of thirty items for
/// `current` out of `total`: `30 * current / total` rounded half away from
/// zero, none when that is not positive, at most thirty.
pub open spec fn filled_items(current: int, total: int) -> nat {
    if total == 0 || current == 0 || (current > 0) != (total > 0) {
        0
    } else {
        let c = if current > 0 { current } else { -current };
        let t = if total > 0 { total } else { -total };
        let n = (60 * c + t) / (2 * t);
        if n > 30 {
            30
        } else {
            n as nat
        }
    }
}

/// The characters of a progress bar with `filled` items filled out of
/// thirty, between `╣` and `╠`.
pub open spec fn bar_text(filled: nat) -> Seq<char> {
    seq!['╣'] + Seq::new(filled, |i: int| '▓') + Seq::new((30 - filled) as nat, |i: int| '░')
        + seq!['╠']
}

/// Creates a progress bar of thirty items.
///
/// The number of filled items is `30 * current / total` rounded exactly, in
/// integers. Computed in `f32` instead, an exact half can come out just
/// below it and round down: for 1 out of 4 that gives 7.4999995 and seven
/// items, where this function fills eight.
pub fn progress_bar(current: i32, total: i32) -> (r: String)
    requires
        !(total == 0 && current > 0),
    ensures
        r@ == bar_text(filled_items(current as int, total as int)),
{
    let filled: i64 = if total == 0 || current == 0 || (current > 0) != (total > 0) {
        0
    } else {
        let c: i64 = if current > 0 {
            current as i64
        } else {
            -(current as i64)
        };
        let t: i64 = if total > 0 {
            total as i64
        } else {
            -(total as i64)
        };
        let n = (60 * c + t) / (2 * t);
        if n > 30 {
            30
        } else {
            n
        }
    };
    let mut out: Vec<char> = Vec::new();
    out.push('╣');
    let mut i: i64 = 0;
    while i < 30
        invariant
            0 <= filled <= 30,
            filled == filled_items(current as int, total as int),
            0 <= i <= 30,
            out@ == seq!['╣'] + Seq::new(
                (if i < filled { i } else { filled }) as nat,
                |k: int| '▓',
            ) + Seq::new((if i < filled { 0 } else { i - filled }) as nat, |k: int| '░'),
        decreases 30 - i,
    {
        if i < filled {
            out.push('▓');
        } else {
            out.push('░');
        }
        i = i + 1;
        assert(out@ =~= seq!['╣'] + Seq::new(
            (if i < filled { i } else { filled }) as nat,
            |k: int| '▓',
        ) + Seq::new((if i < filled { 0 } else { i - filled }) as nat, |k: int| '░'));
    }
    out.push('╠');
    assert(out@ =~= bar_text(filled_items(current as int, total as int)));
    string_from_chars(&out)
}

/// The description of an error embed: the error, a blank line and the
/// translated note that the error was not intentional, with `{url}`
/// replaced by the bug report URL.
pub open spec fn error_text(i18n: Translator, locale: Seq<char>, error: Seq<char>) -> Seq<char> {
    error + seq!['\n', '\n'] + replace_all(
        translation(
            i18n.translations(),
            i18n.fallback(),
            locale,
            "error"@,
            "not_intentional"@,
        ),
        "{url}"@,
        HYDROGEN_BUG_URL@,
    )
}

/// Creates an error embed's description.
pub fn error_message(i18n: &Translator, locale: &str, error: &str) -> (r: String)
    ensures
        r@ == error_text(*i18n, locale@, error@),
{
    let note = i18n.translate(locale, "error", "not_intentional");
    proof {
        reveal_strlit("{url}");
    }
    let note = replace(note.as_str(), "{url}", HYDROGEN_BUG_URL);
    let mut out: Vec<char> = Vec::new();
    push_str(&mut out, error);
    out.push('\n');
    out.push('\n');
    push_str(&mut out, note.as_str());
    assert(out@ =~= error_text(*i18n, locale@, error@));
    string_from_chars(&out)
}

/// A progress bar is always thirty items between its two ends, whatever
/// the position and the total.
pub proof fn lemma_bar_length(current: int, total: int)
    ensures
        bar_text(filled_items(current, total)).len() == 32,
        filled_items(current, total) <= 30,
{
}

} // verus!
