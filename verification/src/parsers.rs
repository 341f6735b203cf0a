//! The syntaxes that Hydrogen reads from its users: times (`90`, `5m`,
//! `1:30`, `1:02:03`) and dice rolls (`2#3d6+1`).
use vstd::prelude::*;

use crate::roll::{DiceType, Modifier, Params};
use crate::text::{
    all_digits, decimal, digit_char, digit_of, digit_value, digits_value, is_digit, lemma_decimal_digits,
    to_chars,
};

verus! {

/// The value of the digits `s[a..b]`.
pub open spec fn number(s: Seq<char>, a: int, b: int) -> nat {
    digits_value(s.subrange(a, b))
}

/// Whether `s[a..b]` is a run of one to three digits.
pub open spec fn short_digits(s: Seq<char>, a: int, b: int) -> bool {
    &&& 0 <= a
    &&& a + 1 <= b <= a + 3
    &&& b <= s.len()
    &&& all_digits(s.subrange(a, b))
}

/// Whether `s[a..a + 2]` is a number of minutes or seconds, `[0-5][0-9]`.
pub open spec fn sexagesimal(s: Seq<char>, a: int) -> bool {
    &&& 0 <= a
    &&& a + 2 <= s.len()
    &&& '0' <= s[a] <= '5'
    &&& is_digit(s[a + 1])
}

/// The number of milliseconds that the suffix syntax gives for `s`: one to
/// three digits followed by nothing or `s`/`S` (seconds), `m`/`M` (minutes)
/// or `h`/`H` (hours); `None` for any other text.
pub open spec fn suffix_millis(s: Seq<char>) -> Option<nat> {
    let n = s.len() as int;
    if short_digits(s, 0, n) {
        Some(number(s, 0, n) * 1000)
    } else if n >= 2 && short_digits(s, 0, n - 1) && (s[n - 1] == 's' || s[n - 1] == 'S') {
        Some(number(s, 0, n - 1) * 1000)
    } else if n >= 2 && short_digits(s, 0, n - 1) && (s[n - 1] == 'm' || s[n - 1] == 'M') {
        Some(number(s, 0, n - 1) * 60 * 1000)
    } else if n >= 2 && short_digits(s, 0, n - 1) && (s[n - 1] == 'h' || s[n - 1] == 'H') {
        Some(number(s, 0, n - 1) * 60 * 60 * 1000)
    } else {
        None
    }
}

/// The number of milliseconds that the colon syntax gives for `s`:
/// `H:MM:SS` with one to three digits of hours, or `M:SS` with one to three
/// digits of minutes, minutes and seconds of two digits below 60; `None` for
/// any other text.
pub open spec fn colon_millis(s: Seq<char>) -> Option<nat> {
    let n = s.len() as int;
    if n >= 7 && short_digits(s, 0, n - 6) && s[n - 6] == ':' && sexagesimal(s, n - 5) && s[n
        - 3] == ':' && sexagesimal(s, n - 2) {
        Some(
            number(s, 0, n - 6) * 60 * 60 * 1000 + number(s, n - 5, n - 3) * 60 * 1000 + number(
                s,
                n - 2,
                n,
            ) * 1000,
        )
    } else if n >= 4 && short_digits(s, 0, n - 3) && s[n - 3] == ':' && sexagesimal(s, n - 2) {
        Some(number(s, 0, n - 3) * 60 * 1000 + number(s, n - 2, n) * 1000)
    } else {
        None
    }
}

/// A value below a hundred in two digits, as `{:02}` writes it.
pub open spec fn two_digits(v: nat) -> Seq<char> {
    seq![digit_char(v / 10), digit_char(v % 10)]
}

/// Two digits read back as the value they were written from.
proof fn lemma_two_digits_value(v: nat)
    requires
        v < 100,
    ensures
        all_digits(two_digits(v)),
        digits_value(two_digits(v)) == v,
{
    let t = two_digits(v);
    let first = seq![digit_char(v / 10)];
    assert(t.drop_last() =~= first);
    assert(first.drop_last() =~= Seq::<char>::empty());
    assert(digit_value(digit_char(v / 10)) == v / 10);
    assert(digit_value(digit_char(v % 10)) == v % 10);
    assert(digits_value(Seq::<char>::empty()) == 0);
    assert(first.last() == digit_char(v / 10));
    assert(digits_value(first) == v / 10);
    assert(t.last() == digit_char(v % 10));
    assert(digits_value(t) == (v / 10) * 10 + v % 10);
}

/// The suffix syntax reads one to three digits as seconds, alone or
/// followed by `s`/`S`; followed by `m`/`M` as minutes and by `h`/`H` as
/// hours, in milliseconds; followed by any other character that is not a
/// digit, it reads nothing: `90` and `90s` are 90,000, `5m` is 300,000,
/// `2h` is 7,200,000.
pub proof fn lemma_suffix_reads_units(digits: Seq<char>, unit: char)
    requires
        1 <= digits.len() <= 3,
        all_digits(digits),
        !is_digit(unit),
    ensures
        suffix_millis(digits) == Some(digits_value(digits) * 1000),
        suffix_millis(digits.push(unit)) == if unit == 's' || unit == 'S' {
            Some(digits_value(digits) * 1000)
        } else if unit == 'm' || unit == 'M' {
            Some(digits_value(digits) * 60 * 1000)
        } else if unit == 'h' || unit == 'H' {
            Some(digits_value(digits) * 60 * 60 * 1000)
        } else {
            None::<nat>
        },
{
    assert(digits.subrange(0, digits.len() as int) =~= digits);
    let s = digits.push(unit);
    let n = s.len() as int;
    assert(s.subrange(0, n - 1) =~= digits);
    assert(s[n - 1] == unit);
    assert(!all_digits(s.subrange(0, n))) by {
        assert(s.subrange(0, n)[n - 1] == unit);
    }
}

/// The colon syntax reads hours written in one to three digits (with or
/// without leading zeros), a colon, minutes and seconds below sixty in two
/// digits each, as that many milliseconds: `1:30:00` is 5,400,000.
pub proof fn lemma_colon_reads_hours(hours: Seq<char>, minutes: nat, seconds: nat)
    requires
        1 <= hours.len() <= 3,
        all_digits(hours),
        minutes < 60,
        seconds < 60,
    ensures
        colon_millis(hours + seq![':'] + two_digits(minutes) + seq![':'] + two_digits(seconds))
            == Some((digits_value(hours) * 3600 + minutes * 60 + seconds) * 1000),
{
    let s = hours + seq![':'] + two_digits(minutes) + seq![':'] + two_digits(seconds);
    let l = hours.len() as int;
    let n = s.len() as int;
    assert(n == l + 6);
    lemma_two_digits_value(minutes);
    lemma_two_digits_value(seconds);
    assert(s.subrange(0, n - 6) =~= hours);
    assert(s.subrange(n - 5, n - 3) =~= two_digits(minutes));
    assert(s.subrange(n - 2, n) =~= two_digits(seconds));
    assert(s[n - 6] == ':');
    assert(s[n - 3] == ':');
    assert(s[n - 5] == digit_char(minutes / 10));
    assert(s[n - 4] == digit_char(minutes % 10));
    assert(s[n - 2] == digit_char(seconds / 10));
    assert(s[n - 1] == digit_char(seconds % 10));
    assert(short_digits(s, 0, n - 6));
    assert(sexagesimal(s, n - 5));
    assert(sexagesimal(s, n - 2));
}

/// The colon syntax reads minutes written in one to three digits, a colon
/// and seconds below sixty in two digits as that many milliseconds: `1:30`
/// is 90,000.
pub proof fn lemma_colon_reads_minutes(minutes: Seq<char>, seconds: nat)
    requires
        1 <= minutes.len() <= 3,
        all_digits(minutes),
        seconds < 60,
    ensures
        colon_millis(minutes + seq![':'] + two_digits(seconds)) == Some(
            (digits_value(minutes) * 60 + seconds) * 1000,
        ),
{
    let s = minutes + seq![':'] + two_digits(seconds);
    let l = minutes.len() as int;
    let n = s.len() as int;
    assert(n == l + 3);
    lemma_two_digits_value(seconds);
    assert(s.subrange(0, n - 3) =~= minutes);
    assert(s.subrange(n - 2, n) =~= two_digits(seconds));
    assert(s[n - 3] == ':');
    assert(s[n - 2] == digit_char(seconds / 10));
    assert(s[n - 1] == digit_char(seconds % 10));
    assert(short_digits(s, 0, n - 3));
    assert(sexagesimal(s, n - 2));
}

/// Reads the value of the digits `s[a..b]`.
pub(crate) fn read_number(s: &Vec<char>, a: usize, b: usize) -> (r: u32)
    requires
        short_digits(s@, a as int, b as int),
    ensures
        r == number(s@, a as int, b as int),
        r < 1000,
{
    let mut value: u32 = 0;
    let mut k: usize = a;
    while k < b
        invariant
            short_digits(s@, a as int, b as int),
            a <= k <= b,
            value == number(s@, a as int, k as int),
            value < 1000,
            (k - a) == 0 ==> value == 0,
            (k - a) == 1 ==> value < 10,
            (k - a) == 2 ==> value < 100,
        decreases b - k,
    {
        assert(s@.subrange(a as int, b as int)[k - a] == s@[k as int]);
        let d = match digit_of(s[k]) {
            Some(d) => d,
            None => 0,
        };
        assert(s@.subrange(a as int, k + 1).drop_last() =~= s@.subrange(a as int, k as int));
        value = value * 10 + d;
        k = k + 1;
    }
    value
}

/// Whether `s[a..b]` is a run of one to three digits.
fn check_short_digits(s: &Vec<char>, a: usize, b: usize) -> (r: bool)
    ensures
        r == short_digits(s@, a as int, b as int),
{
    if !(a < b && b - a <= 3 && b <= s.len()) {
        return false;
    }
    let mut k: usize = a;
    while k < b
        invariant
            a < b <= s.len(),
            b - a <= 3,
            a <= k <= b,
            forall|j: int| a <= j < k ==> is_digit(s@[j]),
        decreases b - k,
    {
        if digit_of(s[k]).is_none() {
            assert(s@.subrange(a as int, b as int)[k - a] == s@[k as int]);
            return false;
        }
        k = k + 1;
    }
    assert forall|j: int| 0 <= j < b - a implies is_digit(#[trigger] s@.subrange(
        a as int,
        b as int,
    )[j]) by {
        assert(s@.subrange(a as int, b as int)[j] == s@[a + j]);
    }
    true
}

/// Whether `s[a..a + 2]` is `[0-5][0-9]`.
fn check_sexagesimal(s: &Vec<char>, a: usize) -> (r: bool)
    ensures
        r == sexagesimal(s@, a as int),
{
    a < s.len() && s.len() - a >= 2 && '0' <= s[a] && s[a] <= '5' && digit_of(s[a + 1]).is_some()
}

/// Holds the parsers of the time syntaxes.
pub struct TimeParser;

impl TimeParser {
    /// Creates the time parser.
    pub fn new() -> (r: Self) {
        TimeParser
    }

    /// Parses the suffix syntax (`90`, `90s`, `5m`, `2h`), returning the
    /// number of milliseconds.
    pub fn suffix_syntax(&self, data: &str) -> (r: Option<u32>)
        ensures
            r matches Some(v) ==> suffix_millis(data@) == Some(v as nat),
            r is None ==> suffix_millis(data@) is None,
    {
        let s = to_chars(data);
        let n = s.len();
        if check_short_digits(&s, 0, n) {
            return Some(read_number(&s, 0, n) * 1000);
        }
        if n < 2 || !check_short_digits(&s, 0, n - 1) {
            return None;
        }
        let value = read_number(&s, 0, n - 1);
        let unit = s[n - 1];
        if unit == 's' || unit == 'S' {
            Some(value * 1000)
        } else if unit == 'm' || unit == 'M' {
            Some(value * 60 * 1000)
        } else if unit == 'h' || unit == 'H' {
            Some(value * 60 * 60 * 1000)
        } else {
            None
        }
    }

    /// Parses the colon syntax (`1:30`, `1:02:03`), returning the number of
    /// milliseconds.
    pub fn semicolon_syntax(&self, data: &str) -> (r: Option<u32>)
        ensures
            r matches Some(v) ==> colon_millis(data@) == Some(v as nat),
            r is None ==> colon_millis(data@) is None,
    {
        let s = to_chars(data);
        let n = s.len();
        if n >= 7 && check_short_digits(&s, 0, n - 6) && s[n - 6] == ':' && check_sexagesimal(
            &s,
            n - 5,
        ) && s[n - 3] == ':' && check_sexagesimal(&s, n - 2) {
            let hours = read_number(&s, 0, n - 6);
            let minutes = read_number(&s, n - 5, n - 3);
            let seconds = read_number(&s, n - 2, n);
            return Some(hours * 60 * 60 * 1000 + minutes * 60 * 1000 + seconds * 1000);
        }
        if n >= 4 && check_short_digits(&s, 0, n - 3) && s[n - 3] == ':' && check_sexagesimal(
            &s,
            n - 2,
        ) {
            let minutes = read_number(&s, 0, n - 3);
            let seconds = read_number(&s, n - 2, n);
            return Some(minutes * 60 * 1000 + seconds * 1000);
        }
        None
    }
}

/// Whether `c` is one of the modifier operators `+ - * /`.
pub open spec fn is_op(c: char) -> bool {
    c == '+' || c == '-' || c == '*' || c == '/'
}

/// The number of consecutive digits in `s` from position `p`.
pub open spec fn digit_run(s: Seq<char>, p: int) -> nat
    decreases s.len() - p,
{
    if p < 0 || p >= s.len() || !is_digit(s[p]) {
        0
    } else {
        1 + digit_run(s, p + 1)
    }
}

/// The modifier that operator `op` makes with value `v`.
pub open spec fn modifier_of(op: char, v: nat) -> Modifier {
    if op == '+' {
        Modifier::Add(v as i32)
    } else if op == '-' {
        Modifier::Subtract(v as i32)
    } else if op == '*' {
        Modifier::Multiply(v as i32)
    } else {
        Modifier::Divide(v as i32)
    }
}

/// Whether a modifier token, an operator followed by a digit, starts at `p`.
pub open spec fn token_at(s: Seq<char>, p: int) -> bool {
    0 <= p && p + 1 < s.len() && is_op(s[p]) && is_digit(s[p + 1])
}

/// The number of digits a token at `p` takes: its run of digits, at most
/// three.
pub open spec fn token_digits(s: Seq<char>, p: int) -> int {
    if digit_run(s, p + 1) > 3 {
        3
    } else {
        digit_run(s, p + 1) as int
    }
}

/// The modifiers written in `s` from position `p`, found from left to right
/// without overlapping: each is an operator followed by one to three digits.
pub open spec fn modifier_tokens(s: Seq<char>, p: int) -> Seq<Modifier>
    decreases s.len() + 4 - p,
{
    if p < 0 || p >= s.len() {
        Seq::empty()
    } else if token_at(s, p) {
        seq![modifier_of(s[p], number(s, p + 1, p + 1 + token_digits(s, p)))] + modifier_tokens(
            s,
            p + 1 + token_digits(s, p),
        )
    } else {
        modifier_tokens(s, p + 1)
    }
}

/// The modifiers folded from left to right, each unifying the next into the
/// result so far; `None` for no modifier.
pub open spec fn fold_modifiers(ms: Seq<Modifier>) -> Option<Modifier>
    decreases ms.len(),
{
    if ms.len() == 0 {
        None
    } else if ms.len() == 1 {
        Some(ms[0])
    } else {
        match fold_modifiers(ms.drop_last()) {
            Some(acc) => Some(acc.with_operand(ms.last().result(acc.operand() as int) as i32)),
            None => None,
        }
    }
}

/// Whether folding the modifiers neither divides by zero nor leaves the
/// range of `i32`: the inputs on which the fold does not panic.
pub open spec fn fold_defined(ms: Seq<Modifier>) -> bool
    decreases ms.len(),
{
    if ms.len() <= 1 {
        true
    } else {
        &&& fold_defined(ms.drop_last())
        &&& ms.last().applies_to(fold_modifiers(ms.drop_last())->0.operand() as int)
    }
}

/// The positions that a roll written in a message covers: the repetition
/// count, the dice count, the dice sides and the modifiers, each as a range
/// `start..end` of characters.
#[derive(Debug, Clone, Copy)]
pub struct RollSpans {
    /// The repetition count before `#`, if written.
    pub repeat: Option<(usize, usize)>,
    /// The dice count before `d`, if written.
    pub count: Option<(usize, usize)>,
    /// The dice sides after `d`.
    pub sides: (usize, usize),
    /// The modifiers after the sides, possibly empty.
    pub modifiers: (usize, usize),
}

/// Where the repetition count `10#` or `[1-9]#` that may start at `j` ends,
/// `#` included; `j` when there is none.
pub open spec fn repeat_end(s: Seq<char>, j: int) -> int {
    if j + 2 < s.len() && s[j] == '1' && s[j + 1] == '0' && s[j + 2] == '#' {
        j + 3
    } else if j + 1 < s.len() && '1' <= s[j] <= '9' && s[j + 1] == '#' {
        j + 2
    } else {
        j
    }
}

/// Whether two characters form a two-digit dice count: `50`, `0[1-9]` or
/// `[1-4][0-9]`.
pub open spec fn count_pair(a: char, b: char) -> bool {
    ||| (a == '5' && b == '0')
    ||| (a == '0' && '1' <= b <= '9')
    ||| ('1' <= a <= '4' && is_digit(b))
}

/// The position of the `d` that follows an optional dice count starting at
/// `k`: `50`, `0?[1-9]` or `[1-4][0-9]`.
pub open spec fn dice_letter(s: Seq<char>, k: int) -> Option<int> {
    if 0 <= k < s.len() && s[k] == 'd' {
        Some(k)
    } else if 0 <= k && k + 1 < s.len() && '1' <= s[k] <= '9' && s[k + 1] == 'd' {
        Some(k + 1)
    } else if 0 <= k && k + 2 < s.len() && count_pair(s[k], s[k + 1]) && s[k + 2] == 'd' {
        Some(k + 2)
    } else {
        None
    }
}

/// Where the modifiers that start at `t` end, with `used` tokens already
/// read: at most three tokens, each an operator and one to three digits,
/// followed by a space or the end of the text; `None` if the text there
/// does not have that shape.
pub open spec fn modifiers_end(s: Seq<char>, t: int, used: nat) -> Option<int>
    decreases 3 - used,
{
    if t < 0 || t > s.len() {
        None
    } else if t == s.len() || s[t] == ' ' {
        Some(t)
    } else if used < 3 && is_op(s[t]) && 1 <= digit_run(s, t + 1) <= 3 {
        modifiers_end(s, t + 1 + digit_run(s, t + 1), used + 1)
    } else {
        None
    }
}

/// Where the dice sides that start at `q` end, taking the alternatives
/// `100`, `[fF]`, `0[2-9]`, `[2-9]`, `[1-9][0-9]` in that order, the first
/// one after which the modifiers and the end of the roll follow.
pub open spec fn sides_end(s: Seq<char>, q: int) -> Option<int> {
    if 0 <= q && q + 2 < s.len() && s[q] == '1' && s[q + 1] == '0' && s[q + 2] == '0'
        && modifiers_end(s, q + 3, 0) is Some {
        Some(q + 3)
    } else if 0 <= q < s.len() && (s[q] == 'f' || s[q] == 'F') && modifiers_end(s, q + 1, 0) is Some {
        Some(q + 1)
    } else if 0 <= q && q + 1 < s.len() && s[q] == '0' && '2' <= s[q + 1] <= '9' && modifiers_end(
        s,
        q + 2,
        0,
    ) is Some {
        Some(q + 2)
    } else if 0 <= q < s.len() && '2' <= s[q] <= '9' && modifiers_end(s, q + 1, 0) is Some {
        Some(q + 1)
    } else if 0 <= q && q + 1 < s.len() && '1' <= s[q] <= '9' && is_digit(s[q + 1])
        && modifiers_end(s, q + 2, 0) is Some {
        Some(q + 2)
    } else {
        None
    }
}

/// The roll that starts at position `i` of `s`, if any: a space (or the
/// start of the text), an optional repetition count and `#`, an optional
/// dice count, `d`, the dice sides, up to three modifiers, and a space or the
/// end of the text.
pub open spec fn roll_at(s: Seq<char>, i: int) -> Option<RollSpans> {
    let j = if 0 <= i < s.len() && s[i] == ' ' {
        i + 1
    } else {
        0
    };
    if !(i == 0 || (0 <= i < s.len() && s[i] == ' ')) {
        None
    } else {
        let r = repeat_end(s, j);
        match dice_letter(s, r) {
            None => None,
            Some(d) => match sides_end(s, d + 1) {
                None => None,
                Some(e) => Some(
                    RollSpans {
                        repeat: if r > j {
                            Some((j as usize, (r - 1) as usize))
                        } else {
                            None
                        },
                        count: if d > r {
                            Some((r as usize, d as usize))
                        } else {
                            None
                        },
                        sides: ((d + 1) as usize, e as usize),
                        modifiers: (e as usize, modifiers_end(s, e, 0)->0 as usize),
                    },
                ),
            },
        }
    }
}

/// The leftmost roll in `s` that starts at position `i` or later.
pub open spec fn first_roll(s: Seq<char>, i: int) -> Option<RollSpans>
    decreases s.len() - i,
{
    if i < 0 || i >= s.len() {
        None
    } else {
        match roll_at(s, i) {
            Some(m) => Some(m),
            None => first_roll(s, i + 1),
        }
    }
}

/// The roll parameters that a message asks for: the leftmost roll written
/// in it, with the defaults of [`Params::default`] for what it leaves out
/// and the folded modifiers written after the sides.
pub open spec fn roll_params(s: Seq<char>) -> Option<Params> {
    match first_roll(s, 0) {
        None => None,
        Some(m) => {
            let repeat: u8 = match m.repeat {
                Some((a, b)) => number(s, a as int, b as int) as u8,
                None => 1,
            };
            let count: u8 = match m.count {
                Some((a, b)) => number(s, a as int, b as int) as u8,
                None => 1,
            };
            let (sa, sb) = m.sides;
            let dice_type = if s[sa as int] == 'f' || s[sa as int] == 'F' {
                DiceType::Fate
            } else {
                DiceType::Sided(number(s, sa as int, sb as int) as u8)
            };
            let (ma, mb) = m.modifiers;
            let modifier = match fold_modifiers(
                modifier_tokens(s.subrange(ma as int, mb as int), 0),
            ) {
                Some(x) => x,
                None => Modifier::Add(0),
            };
            Some(Params { dice_count: count, dice_type, modifier, repeat })
        },
    }
}

/// Whether the modifiers of the roll that a message asks for can be folded
/// without panicking.
pub open spec fn roll_params_defined(s: Seq<char>) -> bool {
    match first_roll(s, 0) {
        None => true,
        Some(m) => fold_defined(
            modifier_tokens(s.subrange(m.modifiers.0 as int, m.modifiers.1 as int), 0),
        ),
    }
}

/// Counts the consecutive digits of `s` from position `p`, stopping at `limit`.
fn count_digits(s: &Vec<char>, p: usize, limit: usize) -> (r: usize)
    requires
        p <= s.len(),
    ensures
        r == (if digit_run(s@, p as int) > limit { limit as nat } else { digit_run(s@, p as int) }),
        r <= limit,
        p + r <= s.len(),
{
    let mut k: usize = 0;
    while p + k < s.len() && k < limit && digit_of(s[p + k]).is_some()
        invariant
            p <= s.len(),
            p + k <= s.len(),
            k <= limit,
            digit_run(s@, p as int) == k + digit_run(s@, (p + k) as int),
        decreases limit - k,
    {
        k = k + 1;
    }
    k
}

/// The end of the modifiers that start at `t`, as `modifiers_end`.
fn scan_modifiers(s: &Vec<char>, t: usize, used: u8) -> (r: Option<usize>)
    requires
        t <= s.len(),
        used <= 3,
    ensures
        r matches Some(e) ==> modifiers_end(s@, t as int, used as nat) == Some(e as int),
        r is None ==> modifiers_end(s@, t as int, used as nat) is None,
    decreases 3 - used,
{
    if t == s.len() || s[t] == ' ' {
        return Some(t);
    }
    if used < 3 && is_op_char(s[t]) {
        let run = count_digits(s, t + 1, 4);
        if 1 <= run && run <= 3 {
            return scan_modifiers(s, t + 1 + run, used + 1);
        }
    }
    None
}

/// Whether `c` is one of `+ - * /`.
fn is_op_char(c: char) -> (r: bool)
    ensures
        r == is_op(c),
{
    c == '+' || c == '-' || c == '*' || c == '/'
}

/// The end of the dice sides that start at `q`, as `sides_end`.
fn scan_sides(s: &Vec<char>, q: usize) -> (r: Option<usize>)
    requires
        q <= s.len(),
    ensures
        r matches Some(e) ==> sides_end(s@, q as int) == Some(e as int),
        r is None ==> sides_end(s@, q as int) is None,
{
    let n = s.len();
    if n - q > 2 && s[q] == '1' && s[q + 1] == '0' && s[q + 2] == '0' && scan_modifiers(
        s,
        q + 3,
        0,
    ).is_some() {
        return Some(q + 3);
    }
    if q < n && (s[q] == 'f' || s[q] == 'F') && scan_modifiers(s, q + 1, 0).is_some() {
        return Some(q + 1);
    }
    if n - q > 1 && s[q] == '0' && '2' <= s[q + 1] && s[q + 1] <= '9' && scan_modifiers(
        s,
        q + 2,
        0,
    ).is_some() {
        return Some(q + 2);
    }
    if q < n && '2' <= s[q] && s[q] <= '9' && scan_modifiers(s, q + 1, 0).is_some() {
        return Some(q + 1);
    }
    if n - q > 1 && '1' <= s[q] && s[q] <= '9' && digit_of(s[q + 1]).is_some() && scan_modifiers(
        s,
        q + 2,
        0,
    ).is_some() {
        return Some(q + 2);
    }
    None
}

/// The roll that starts at position `i`, as `roll_at`.
fn scan_roll_at(s: &Vec<char>, i: usize) -> (r: Option<RollSpans>)
    requires
        i < s.len(),
    ensures
        r == roll_at(s@, i as int),
{
    let n = s.len();
    let at_space = s[i] == ' ';
    if !(i == 0 || at_space) {
        return None;
    }
    let j = if at_space {
        i + 1
    } else {
        0
    };
    let r = if n - j > 2 && s[j] == '1' && s[j + 1] == '0' && s[j + 2] == '#' {
        j + 3
    } else if n - j > 1 && '1' <= s[j] && s[j] <= '9' && s[j + 1] == '#' {
        j + 2
    } else {
        j
    };
    assert(r == repeat_end(s@, j as int));
    let d = if r < n && s[r] == 'd' {
        r
    } else if n - r > 1 && '1' <= s[r] && s[r] <= '9' && s[r + 1] == 'd' {
        r + 1
    } else if n - r > 2 && is_count_pair(s[r], s[r + 1]) && s[r + 2] == 'd' {
        r + 2
    } else {
        return None;
    };
    assert(dice_letter(s@, r as int) == Some(d as int));
    let e = match scan_sides(s, d + 1) {
        Some(e) => e,
        None => return None,
    };
    let m = match scan_modifiers(s, e, 0) {
        Some(m) => m,
        None => {
            assert(false);
            return None;
        },
    };
    Some(
        RollSpans {
            repeat: if r > j {
                Some((j, r - 1))
            } else {
                None
            },
            count: if d > r {
                Some((r, d))
            } else {
                None
            },
            sides: (d + 1, e),
            modifiers: (e, m),
        },
    )
}

/// Whether two characters form a two-digit dice count.
fn is_count_pair(a: char, b: char) -> (r: bool)
    ensures
        r == count_pair(a, b),
{
    (a == '5' && b == '0') || (a == '0' && '1' <= b && b <= '9') || ('1' <= a && a <= '4'
        && digit_of(b).is_some())
}

/// The leftmost roll in `s`, as `first_roll`.
fn scan_first_roll(s: &Vec<char>) -> (r: Option<RollSpans>)
    ensures
        r == first_roll(s@, 0),
{
    let mut i: usize = 0;
    while i < s.len()
        invariant
            i <= s.len(),
            first_roll(s@, 0) == first_roll(s@, i as int),
        decreases s.len() - i,
    {
        let found = scan_roll_at(s, i);
        if found.is_some() {
            return found;
        }
        i = i + 1;
    }
    None
}

/// A prefix of a sequence whose fold is defined has a defined fold too.
proof fn lemma_fold_defined_prefix(a: Seq<Modifier>, b: Seq<Modifier>)
    requires
        fold_defined(a + b),
    ensures
        fold_defined(a),
    decreases b.len(),
{
    if b.len() > 0 {
        assert((a + b).drop_last() =~= a + b.drop_last());
        lemma_fold_defined_prefix(a, b.drop_last());
    } else {
        assert(a + b =~= a);
    }
}

/// The modifier that operator `op` makes with value `v`.
fn make_modifier(op: char, v: u32) -> (r: Modifier)
    requires
        v < 1000,
    ensures
        r == modifier_of(op, v as nat),
{
    let value = v as i32;
    if op == '+' {
        Modifier::Add(value)
    } else if op == '-' {
        Modifier::Subtract(value)
    } else if op == '*' {
        Modifier::Multiply(value)
    } else {
        Modifier::Divide(value)
    }
}

/// Folds the modifiers written in `s`, as `fold_modifiers` of
/// `modifier_tokens`.
fn fold_written_modifiers(s: &Vec<char>) -> (r: Option<Modifier>)
    requires
        fold_defined(modifier_tokens(s@, 0)),
    ensures
        r == fold_modifiers(modifier_tokens(s@, 0)),
{
    let mut acc: Option<Modifier> = None;
    let mut p: usize = 0;
    let ghost mut done: Seq<Modifier> = Seq::empty();
    assert(modifier_tokens(s@, 0) =~= done + modifier_tokens(s@, 0));
    while p < s.len()
        invariant
            p <= s.len(),
            fold_defined(modifier_tokens(s@, 0)),
            modifier_tokens(s@, 0) == done + modifier_tokens(s@, p as int),
            acc == fold_modifiers(done),
            acc is None <==> done.len() == 0,
        decreases s.len() - p,
    {
        if s.len() - p > 1 && is_op_char(s[p]) && digit_of(s[p + 1]).is_some() {
            let td = count_digits(s, p + 1, 3);
            assert(td == token_digits(s@, p as int));
            assert(td >= 1);
            assert forall|j: int| 0 <= j < td implies is_digit(
                #[trigger] s@.subrange(p + 1, p + 1 + td)[j],
            ) by {
                lemma_digit_run_digits(s@, p + 1, j);
            }
            let value = read_number(s, p + 1, p + 1 + td);
            let m = make_modifier(s[p], value);
            let ghost rest = modifier_tokens(s@, p + 1 + td);
            assert(modifier_tokens(s@, p as int) == seq![m] + rest);
            proof {
                assert(done + (seq![m] + rest) =~= done.push(m) + rest);
                lemma_fold_defined_prefix(done.push(m), rest);
                assert(done.push(m).drop_last() =~= done);
            }
            acc = match acc {
                None => Some(m),
                Some(a) => Some(a.unify(m)),
            };
            proof {
                done = done.push(m);
            }
            p = p + 1 + td;
        } else {
            p = p + 1;
        }
    }
    assert(done + modifier_tokens(s@, p as int) =~= done);
    acc
}

/// Every position inside a run of digits holds a digit.
proof fn lemma_digit_run_digits(s: Seq<char>, p: int, j: int)
    requires
        0 <= j < digit_run(s, p),
    ensures
        is_digit(s[p + j]),
    decreases j,
{
    if j > 0 {
        lemma_digit_run_digits(s, p + 1, j - 1);
    }
}

/// The decimal forms of the sides a dice can have, two to a hundred: one
/// digit, two digits the first of which is not zero, or `100`.
proof fn lemma_sides_decimal(n: nat)
    requires
        2 <= n <= 100,
    ensures
        n < 10 ==> decimal(n) == seq![digit_char(n)],
        10 <= n < 100 ==> decimal(n) == seq![digit_char(n / 10), digit_char(n % 10)],
        n == 100 ==> decimal(n) == seq!['1', '0', '0'],
        all_digits(decimal(n)),
        digits_value(decimal(n)) == n,
{
    lemma_decimal_digits(n);
    if 10 <= n < 100 {
        assert(decimal(n / 10) == seq![digit_char(n / 10)]);
        assert(decimal(n) =~= seq![digit_char(n / 10), digit_char(n % 10)]);
    } else if n == 100 {
        assert(decimal(1) == seq!['1']);
        assert(decimal(10) =~= seq!['1', '0']);
        assert(decimal(100) =~= seq!['1', '0', '0']);
    }
}

/// Sides written in decimal at the end of a text are read as sides that
/// end the roll there.
proof fn lemma_sides_at_end(s: Seq<char>, q: int, n: nat)
    requires
        2 <= n <= 100,
        0 <= q <= s.len(),
        s.subrange(q, s.len() as int) == decimal(n),
    ensures
        sides_end(s, q) == Some(s.len() as int),
        modifiers_end(s, s.len() as int, 0) == Some(s.len() as int),
        number(s, q, s.len() as int) == n,
        s[q] != 'f' && s[q] != 'F',
{
    lemma_sides_decimal(n);
    let d = decimal(n);
    let len = s.len() as int;
    assert(forall|i: int| 0 <= i < d.len() ==> s[q + i] == #[trigger] d[i]);
    assert(modifiers_end(s, len, 0) == Some(len));
    if n < 10 {
        assert(s[q] == digit_char(n));
        assert(len == q + 1);
    } else if n < 100 {
        assert(s[q] == digit_char(n / 10));
        assert(s[q + 1] == digit_char(n % 10));
        assert(len == q + 2);
        assert(modifiers_end(s, q + 1, 0) is None);
    } else {
        assert(s[q] == '1' && s[q + 1] == '0' && s[q + 2] == '0');
        assert(len == q + 3);
    }
}

/// A roll that ends the text and has no modifier gets the modifier
/// `Add(0)`.
proof fn lemma_no_modifier(s: Seq<char>)
    ensures
        fold_modifiers(modifier_tokens(s.subrange(s.len() as int, s.len() as int), 0)) is None,
{
    assert(s.subrange(s.len() as int, s.len() as int) =~= Seq::<char>::empty());
}

/// A number below a thousand takes one to three digits.
proof fn lemma_decimal_short(m: nat)
    requires
        m < 1000,
    ensures
        1 <= decimal(m).len() <= 3,
        all_digits(decimal(m)),
        digits_value(decimal(m)) == m,
{
    lemma_decimal_digits(m);
    if m >= 10 {
        if m / 10 >= 10 {
            assert(decimal(m / 10 / 10).len() == 1);
        }
        assert(decimal(m / 10).len() <= 2);
    }
}

/// The digits from `p` to the end of the text form one run.
proof fn lemma_digit_run_to_end(s: Seq<char>, p: int)
    requires
        0 <= p <= s.len(),
        forall|i: int| p <= i < s.len() ==> is_digit(#[trigger] s[i]),
    ensures
        digit_run(s, p) == s.len() - p,
    decreases s.len() - p,
{
    if p < s.len() {
        lemma_digit_run_to_end(s, p + 1);
    }
}

/// Sides written in decimal from `q` to `e`, followed by modifiers that end
/// the roll and do not start with a digit, are read as sides ending at `e`.
proof fn lemma_sides_then(s: Seq<char>, q: int, e: int, n: nat)
    requires
        2 <= n <= 100,
        0 <= q <= e <= s.len(),
        s.subrange(q, e) == decimal(n),
        modifiers_end(s, e, 0) is Some,
        e == s.len() || !is_digit(s[e]),
    ensures
        sides_end(s, q) == Some(e),
        number(s, q, e) == n,
        s[q] != 'f' && s[q] != 'F',
{
    lemma_sides_decimal(n);
    let d = decimal(n);
    assert(forall|i: int| 0 <= i < d.len() ==> s[q + i] == #[trigger] d[i]);
    if n < 10 {
        assert(s[q] == digit_char(n));
        assert(e == q + 1);
    } else if n < 100 {
        assert(s[q] == digit_char(n / 10));
        assert(s[q + 1] == digit_char(n % 10));
        assert(e == q + 2);
        assert(modifiers_end(s, q + 1, 0) is None);
    } else {
        assert(s[q] == '1' && s[q + 1] == '0' && s[q + 2] == '0');
        assert(e == q + 3);
    }
}

/// A dice count from one to fifty in decimal, followed by `d`, ends at the
/// `d`.
proof fn lemma_count_letter(s: Seq<char>, k: int, count: nat)
    requires
        1 <= count <= 50,
        0 <= k,
        k + decimal(count).len() < s.len(),
        s.subrange(k, k + decimal(count).len()) == decimal(count),
        s[k + decimal(count).len()] == 'd',
    ensures
        dice_letter(s, k) == Some(k + decimal(count).len()),
        number(s, k, k + decimal(count).len()) == count,
{
    let c = decimal(count);
    lemma_decimal_digits(count);
    if count < 10 {
        assert(c == seq![digit_char(count)]);
    } else {
        assert(decimal(count / 10) == seq![digit_char(count / 10)]);
        assert(c =~= seq![digit_char(count / 10), digit_char(count % 10)]);
    }
    assert(forall|i: int| 0 <= i < c.len() ==> s[k + i] == #[trigger] c[i]);
}

/// A message with a dice count, `d`, sides and one modifier `+m`, all in
/// decimal, is read with that modifier: `3d10+2` is three ten-sided dice
/// plus two.
#[verifier::spinoff_prover]
pub proof fn lemma_reads_added_modifier(count: nat, n: nat, m: nat)
    requires
        1 <= count <= 50,
        2 <= n <= 100,
        m < 1000,
    ensures
        roll_params(decimal(count) + seq!['d'] + decimal(n) + seq!['+'] + decimal(m)) == Some(
            Params {
                dice_count: count as u8,
                dice_type: DiceType::Sided(n as u8),
                modifier: Modifier::Add(m as i32),
                repeat: 1,
            },
        ),
        roll_params_defined(decimal(count) + seq!['d'] + decimal(n) + seq!['+'] + decimal(m)),
{
    let c = decimal(count);
    let dn = decimal(n);
    let dm = decimal(m);
    let s = c + seq!['d'] + dn + seq!['+'] + dm;
    let k = c.len() as int;
    let q = k + 1;
    let e = q + dn.len();
    let len = s.len() as int;
    lemma_decimal_digits(count);
    lemma_sides_decimal(n);
    lemma_decimal_short(m);
    assert(len == e + 1 + dm.len());
    assert(s.subrange(0, k) =~= c);
    assert(s.subrange(q, e) =~= dn);
    assert(s[k] == 'd');
    assert(s[e] == '+');
    assert(forall|i: int| 0 <= i < dm.len() ==> s[e + 1 + i] == #[trigger] dm[i]);
    assert(forall|i: int| e + 1 <= i < len ==> is_digit(#[trigger] s[i])) by {
        assert forall|i: int| e + 1 <= i < len implies is_digit(#[trigger] s[i]) by {
            assert(s[i] == dm[i - (e + 1)]);
        }
    }
    lemma_digit_run_to_end(s, e + 1);
    assert(modifiers_end(s, len, 1) == Some(len));
    assert(modifiers_end(s, e, 0) == Some(len));
    lemma_sides_then(s, q, e, n);
    lemma_count_letter(s, 0, count);
    assert(c[0] != '#' && s[1] != '#') by {
        assert(is_digit(c[0]));
        if k == 1 {
            assert(s[1] == 'd');
        } else {
            assert(s[1] == c[1]);
            assert(is_digit(c[1]));
        }
    }
    assert(k == 2 ==> s[2] == 'd');
    assert(repeat_end(s, 0) == 0);
    assert(roll_at(s, 0) is Some);
    assert(first_roll(s, 0) == roll_at(s, 0));
    let sub = s.subrange(e, len);
    assert(sub =~= seq!['+'] + dm);
    assert(forall|i: int| 1 <= i < sub.len() ==> is_digit(#[trigger] sub[i])) by {
        assert forall|i: int| 1 <= i < sub.len() implies is_digit(#[trigger] sub[i]) by {
            assert(sub[i] == dm[i - 1]);
        }
    }
    lemma_digit_run_to_end(sub, 1);
    assert(token_at(sub, 0));
    assert(token_digits(sub, 0) == dm.len());
    let dl = dm.len() as int;
    assert(sub.subrange(1, 1 + dl) =~= dm);
    assert(modifier_tokens(sub, 1 + dl) =~= Seq::<Modifier>::empty());
    assert(modifier_tokens(sub, 0) =~= seq![Modifier::Add(m as i32)]);
}

/// A message with a repetition count from one to ten, `#`, `d` and sides,
/// all in decimal, is read as that many repetitions of one dice: `2#d6` is
/// two rolls of one six-sided dice.
pub proof fn lemma_reads_repetitions(repeat: nat, n: nat)
    requires
        1 <= repeat <= 10,
        2 <= n <= 100,
    ensures
        roll_params(decimal(repeat) + seq!['#', 'd'] + decimal(n)) == Some(
            Params {
                dice_count: 1,
                dice_type: DiceType::Sided(n as u8),
                modifier: Modifier::Add(0),
                repeat: repeat as u8,
            },
        ),
{
    let r = decimal(repeat);
    let dn = decimal(n);
    let s = r + seq!['#', 'd'] + dn;
    let k = r.len() as int;
    lemma_decimal_digits(repeat);
    lemma_sides_decimal(n);
    if repeat < 10 {
        assert(r == seq![digit_char(repeat)]);
    } else {
        assert(decimal(1) == seq!['1']);
        assert(r =~= seq!['1', '0']);
    }
    assert(s.subrange(0, k) =~= r);
    assert(s[k] == '#');
    assert(s[k + 1] == 'd');
    assert(s.subrange(k + 2, s.len() as int) =~= dn);
    lemma_sides_at_end(s, k + 2, n);
    assert(repeat_end(s, 0) == k + 1);
    assert(dice_letter(s, k + 1) == Some(k + 1));
    assert(roll_at(s, 0) is Some);
    assert(first_roll(s, 0) == roll_at(s, 0));
    lemma_no_modifier(s);
}

/// A message `dF` or `df` is read as one roll of one fate dice.
pub proof fn lemma_reads_fate(letter: char)
    requires
        letter == 'F' || letter == 'f',
    ensures
        roll_params(seq!['d', letter]) == Some(
            Params {
                dice_count: 1,
                dice_type: DiceType::Fate,
                modifier: Modifier::Add(0),
                repeat: 1,
            },
        ),
{
    let s = seq!['d', letter];
    assert(modifiers_end(s, 2, 0) == Some(2int));
    assert(repeat_end(s, 0) == 0);
    assert(dice_letter(s, 0) == Some(0int));
    assert(sides_end(s, 1) == Some(2int));
    assert(roll_at(s, 0) is Some);
    assert(first_roll(s, 0) == roll_at(s, 0));
    lemma_no_modifier(s);
}

/// A message `d` followed by a number of sides from two to a hundred, in
/// decimal, is read as one roll of one dice with that many sides and no
/// modifier: `d12` is one twelve-sided dice.
pub proof fn lemma_reads_sides(n: nat)
    requires
        2 <= n <= 100,
    ensures
        roll_params(seq!['d'] + decimal(n)) == Some(
            Params {
                dice_count: 1,
                dice_type: DiceType::Sided(n as u8),
                modifier: Modifier::Add(0),
                repeat: 1,
            },
        ),
{
    let s = seq!['d'] + decimal(n);
    lemma_sides_decimal(n);
    assert(s.subrange(1, s.len() as int) =~= decimal(n));
    lemma_sides_at_end(s, 1, n);
    assert(s[0] == 'd');
    assert(repeat_end(s, 0) == 0);
    assert(dice_letter(s, 0) == Some(0int));
    assert(roll_at(s, 0) is Some);
    assert(first_roll(s, 0) == roll_at(s, 0));
    lemma_no_modifier(s);
}

/// A message with a dice count from one to fifty, `d` and a number of
/// sides from two to a hundred, all in decimal, is read as one roll of that
/// many dice with that many sides and no modifier: `2d10` is two ten-sided
/// dice.
pub proof fn lemma_reads_count_and_sides(count: nat, n: nat)
    requires
        1 <= count <= 50,
        2 <= n <= 100,
    ensures
        roll_params(decimal(count) + seq!['d'] + decimal(n)) == Some(
            Params {
                dice_count: count as u8,
                dice_type: DiceType::Sided(n as u8),
                modifier: Modifier::Add(0),
                repeat: 1,
            },
        ),
{
    let c = decimal(count);
    let s = c + seq!['d'] + decimal(n);
    let k = c.len() as int;
    lemma_decimal_digits(count);
    lemma_sides_decimal(n);
    if count < 10 {
        assert(c == seq![digit_char(count)]);
    } else {
        assert(decimal(count / 10) == seq![digit_char(count / 10)]);
        assert(c =~= seq![digit_char(count / 10), digit_char(count % 10)]);
    }
    assert(s.subrange(k + 1, s.len() as int) =~= decimal(n));
    assert(s.subrange(0, k) =~= c);
    assert(s[k] == 'd');
    assert(forall|i: int| 0 <= i < k ==> s[i] == #[trigger] c[i]);
    assert(forall|i: int| 0 <= i < decimal(n).len() ==> s[k + 1 + i] == #[trigger] decimal(n)[i]);
    lemma_sides_at_end(s, k + 1, n);
    assert(is_digit(s[k + 1]));
    assert(repeat_end(s, 0) == 0);
    assert(dice_letter(s, 0) == Some(k));
    assert(roll_at(s, 0) is Some);
    assert(first_roll(s, 0) == roll_at(s, 0));
    lemma_no_modifier(s);
}

/// Holds the parsers of the roll syntax.
pub struct RollParser;

impl RollParser {
    /// Creates the roll parser.
    pub fn new() -> (r: Self) {
        RollParser
    }

    /// Whether the modifiers written in `data` can be folded without
    /// dividing by zero or leaving the range of `i32`.
    pub fn modifier_is_defined(&self, data: &str) -> (r: bool)
        ensures
            r == fold_defined(modifier_tokens(data@, 0)),
    {
        let s = to_chars(data);
        tokens_fold_defined(&s)
    }

    /// Parses the modifier syntax (`+1`, `-2*3`), returning the modifiers
    /// folded from left to right, or `None` when none is written.
    pub fn evaluate_modifier(&self, data: &str) -> (r: Option<Modifier>)
        requires
            fold_defined(modifier_tokens(data@, 0)),
        ensures
            r == fold_modifiers(modifier_tokens(data@, 0)),
    {
        let s = to_chars(data);
        fold_written_modifiers(&s)
    }

    /// Whether the roll written in `data`, if any, has modifiers that can be
    /// folded without dividing by zero or leaving the range of `i32`.
    pub fn evaluate_is_defined(&self, data: &str) -> (r: bool)
        ensures
            r == roll_params_defined(data@),
    {
        let s = to_chars(data);
        match scan_first_roll(&s) {
            None => true,
            Some(m) => {
                proof {
                    lemma_first_roll_shape(s@, 0);
                }
                let mods = copy_range(&s, m.modifiers.0, m.modifiers.1);
                tokens_fold_defined(&mods)
            },
        }
    }

    /// Evaluates the roll syntax, returning the parameters of the leftmost
    /// roll written in `data`.
    pub fn evaluate(&self, data: &str) -> (r: Option<Params>)
        requires
            roll_params_defined(data@),
        ensures
            r matches Some(p) ==> roll_params(data@) matches Some(q) && p.dice_count == q.dice_count
                && p.dice_type == q.dice_type && p.modifier == q.modifier && p.repeat == q.repeat,
            r is None <==> roll_params(data@) is None,
    {
        let s = to_chars(data);
        let m = match scan_first_roll(&s) {
            None => return None,
            Some(m) => m,
        };
        proof {
            lemma_first_roll_shape(s@, 0);
        }
        let mut params = Params::default();
        if let Some((a, b)) = m.repeat {
            params.repeat = read_number(&s, a, b) as u8;
        }
        if let Some((a, b)) = m.count {
            params.dice_count = read_number(&s, a, b) as u8;
        }
        let (sa, sb) = m.sides;
        if s[sa] == 'f' || s[sa] == 'F' {
            params.dice_type = DiceType::Fate;
        } else {
            params.dice_type = DiceType::Sided(read_number(&s, sa, sb) as u8);
        }
        let mods = copy_range(&s, m.modifiers.0, m.modifiers.1);
        if let Some(modifier) = fold_written_modifiers(&mods) {
            params.modifier = modifier;
        }
        Some(params)
    }
}

/// Copies `s[a..b]`.
fn copy_range(s: &Vec<char>, a: usize, b: usize) -> (r: Vec<char>)
    requires
        a <= b <= s.len(),
    ensures
        r@ == s@.subrange(a as int, b as int),
{
    let mut out: Vec<char> = Vec::new();
    let mut k = a;
    while k < b
        invariant
            a <= k <= b <= s.len(),
            out@ == s@.subrange(a as int, k as int),
        decreases b - k,
    {
        out.push(s[k]);
        k = k + 1;
        assert(out@ =~= s@.subrange(a as int, k as int));
    }
    out
}

/// Whether the fold of the modifiers written in `s` is defined.
fn tokens_fold_defined(s: &Vec<char>) -> (r: bool)
    ensures
        r == fold_defined(modifier_tokens(s@, 0)),
{
    let mut acc: Option<Modifier> = None;
    let mut p: usize = 0;
    let ghost mut done: Seq<Modifier> = Seq::empty();
    assert(modifier_tokens(s@, 0) =~= done + modifier_tokens(s@, 0));
    while p < s.len()
        invariant
            p <= s.len(),
            modifier_tokens(s@, 0) == done + modifier_tokens(s@, p as int),
            acc == fold_modifiers(done),
            acc is None <==> done.len() == 0,
            fold_defined(done),
        decreases s.len() - p,
    {
        if s.len() - p > 1 && is_op_char(s[p]) && digit_of(s[p + 1]).is_some() {
            let td = count_digits(s, p + 1, 3);
            assert(td == token_digits(s@, p as int));
            assert forall|j: int| 0 <= j < td implies is_digit(
                #[trigger] s@.subrange(p + 1, p + 1 + td)[j],
            ) by {
                lemma_digit_run_digits(s@, p + 1, j);
            }
            let value = read_number(s, p + 1, p + 1 + td);
            let m = make_modifier(s[p], value);
            let ghost rest = modifier_tokens(s@, p + 1 + td);
            assert(modifier_tokens(s@, p as int) == seq![m] + rest);
            assert(done + (seq![m] + rest) =~= done.push(m) + rest);
            assert(done.push(m).drop_last() =~= done);
            match acc {
                None => {
                    acc = Some(m);
                },
                Some(a) => {
                    if !m.can_apply(a.operand_value()) {
                        proof {
                            if fold_defined(modifier_tokens(s@, 0)) {
                                lemma_fold_defined_prefix(done.push(m), rest);
                            }
                        }
                        return false;
                    }
                    acc = Some(a.unify(m));
                },
            }
            proof {
                done = done.push(m);
            }
            p = p + 1 + td;
        } else {
            p = p + 1;
        }
    }
    assert(done + modifier_tokens(s@, p as int) =~= done);
    true
}

/// The spans of a roll lie inside the text and hold what the grammar says.
proof fn lemma_first_roll_shape(s: Seq<char>, i: int)
    requires
        s.len() <= usize::MAX,
    ensures
        first_roll(s, i) matches Some(m) ==> {
            &&& m.repeat matches Some((a, b)) ==> short_digits(s, a as int, b as int)
            &&& m.count matches Some((a, b)) ==> short_digits(s, a as int, b as int)
            &&& m.sides.0 < m.sides.1 <= s.len()
            &&& (s[m.sides.0 as int] != 'f' && s[m.sides.0 as int] != 'F') ==> short_digits(
                s,
                m.sides.0 as int,
                m.sides.1 as int,
            )
            &&& m.modifiers.0 <= m.modifiers.1 <= s.len()
        },
    decreases s.len() - i,
{
    if 0 <= i < s.len() {
        if roll_at(s, i) is None {
            lemma_first_roll_shape(s, i + 1);
        } else {
            lemma_roll_at_shape(s, i);
        }
    }
}

/// `modifiers_end` ends inside the text, after its start.
proof fn lemma_modifiers_end_bounds(s: Seq<char>, t: int, used: nat)
    ensures
        modifiers_end(s, t, used) matches Some(e) ==> t <= e <= s.len(),
    decreases 3 - used,
{
    if 0 <= t < s.len() && s[t] != ' ' && used < 3 && is_op(s[t]) && 1 <= digit_run(s, t + 1) <= 3 {
        lemma_modifiers_end_bounds(s, t + 1 + digit_run(s, t + 1), used + 1);
    }
}

/// The spans of the roll that starts at `i` hold what the grammar says.
proof fn lemma_roll_at_shape(s: Seq<char>, i: int)
    requires
        s.len() <= usize::MAX,
        roll_at(s, i) is Some,
    ensures
        roll_at(s, i) matches Some(m) && {
            &&& m.repeat matches Some((a, b)) ==> short_digits(s, a as int, b as int)
            &&& m.count matches Some((a, b)) ==> short_digits(s, a as int, b as int)
            &&& m.sides.0 < m.sides.1 <= s.len()
            &&& (s[m.sides.0 as int] != 'f' && s[m.sides.0 as int] != 'F') ==> short_digits(
                s,
                m.sides.0 as int,
                m.sides.1 as int,
            )
            &&& m.modifiers.0 <= m.modifiers.1 <= s.len()
        },
{
    let m = roll_at(s, i)->0;
    let j = if 0 <= i < s.len() && s[i] == ' ' {
        i + 1
    } else {
        0
    };
    let r = repeat_end(s, j);
    let d = dice_letter(s, r)->0;
    let e = sides_end(s, d + 1)->0;
    lemma_modifiers_end_bounds(s, e, 0);
    let q = d + 1;
    assert(j <= r <= d < q < e <= s.len());
    if r > j {
        let rep = s.subrange(j, r - 1);
        assert forall|k: int| 0 <= k < rep.len() implies is_digit(#[trigger] rep[k]) by {
            assert(rep[k] == s[j + k]);
        }
        assert(short_digits(s, j, r - 1));
    }
    if d > r {
        let cnt = s.subrange(r, d);
        assert forall|k: int| 0 <= k < cnt.len() implies is_digit(#[trigger] cnt[k]) by {
            assert(cnt[k] == s[r + k]);
        }
        assert(short_digits(s, r, d));
    }
    if s[q] != 'f' && s[q] != 'F' {
        let sides = s.subrange(q, e);
        assert forall|k: int| 0 <= k < sides.len() implies is_digit(#[trigger] sides[k]) by {
            assert(sides[k] == s[q + k]);
        }
        assert(short_digits(s, q, e));
    }
}

} // verus!
