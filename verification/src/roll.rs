//! Dice rolls: the parameters of a roll, their validation, the roll itself
//! and the text that reports it.
use std::ops::RangeInclusive;

use vstd::prelude::*;

use crate::chance::random_index;
use crate::text::{decimal, push_all, signed_decimal, signed_decimal_chars, string_from_chars};

verus! {

/// Errors that can occur when preparing a roll.
#[derive(Debug)]
pub enum RollError {
    /// The number of dice is invalid.
    InvalidDiceCount(u8, RangeInclusive<u8>),
    /// The number of sides is invalid.
    InvalidDiceSides(u8, RangeInclusive<u8>),
    /// The number of repetitions is invalid.
    InvalidRepetition(u8, RangeInclusive<u8>),
}

/// The types of dice that can be rolled.
#[derive(Debug, Clone, Copy, PartialEq, Eq, Structural)]
pub enum DiceType {
    /// Fate dice, which can be either -, 0, or +, see [FateDice].
    Fate,
    /// A standard dice with a number of sides.
    Sided(u8),
}

/// The modifiers that can be applied to a roll.
#[derive(Debug, Clone, Copy, PartialEq, Eq, Structural)]
pub enum Modifier {
    /// Adds a value to the roll.
    Add(i32),
    /// Subtracts a value from the roll.
    Subtract(i32),
    /// Multiplies the roll by a value.
    Multiply(i32),
    /// Divides the roll by a value.
    Divide(i32),
}

/// Integer division rounding toward zero, as Rust's `/` on integers does.
pub open spec fn trunc_div(a: int, b: int) -> int {
    if a >= 0 && b > 0 {
        a / b
    } else if a < 0 && b > 0 {
        -((-a) / b)
    } else if a >= 0 && b < 0 {
        -(a / (-b))
    } else {
        (-a) / (-b)
    }
}

/// Truncating division by a value other than zero makes a number no
/// larger, except that the most negative `i32` divided by `-1` is one past
/// the largest.
proof fn lemma_trunc_div_bounds(a: int, b: int)
    requires
        fits_i32(a),
        fits_i32(b),
    ensures
        b != 0 ==> (fits_i32(trunc_div(a, b)) <==> !(a == i32::MIN && b == -1)),
{
    if b != 0 {
        if a >= 0 && b > 0 {
            assert(0 <= a / b <= a) by (nonlinear_arith)
                requires
                    a >= 0,
                    b >= 1,
            ;
        } else if a < 0 && b > 0 {
            assert(0 <= (-a) / b <= -a) by (nonlinear_arith)
                requires
                    -a > 0,
                    b >= 1,
            ;
        } else if a >= 0 {
            assert(0 <= a / (-b) <= a) by (nonlinear_arith)
                requires
                    a >= 0,
                    -b >= 1,
            ;
        } else {
            assert(0 <= (-a) / (-b) <= -a) by (nonlinear_arith)
                requires
                    -a > 0,
                    -b >= 1,
            ;
            if b == -1 {
                assert((-a) / 1 == -a);
            } else {
                assert((-a) / (-b) <= (-a) / 2) by (nonlinear_arith)
                    requires
                        -a > 0,
                        -b >= 2,
                ;
                assert((-a) / 2 <= i32::MAX);
            }
        }
    }
}

/// Whether a value fits in an `i32`.
pub open spec fn fits_i32(v: int) -> bool {
    i32::MIN <= v <= i32::MAX
}

impl Modifier {
    /// The value the modifier holds.
    pub open spec fn operand(self) -> i32 {
        match self {
            Modifier::Add(v) => v,
            Modifier::Subtract(v) => v,
            Modifier::Multiply(v) => v,
            Modifier::Divide(v) => v,
        }
    }

    /// The exact result of applying the modifier to `value`.
    pub open spec fn result(self, value: int) -> int {
        match self {
            Modifier::Add(v) => value + v,
            Modifier::Subtract(v) => value - v,
            Modifier::Multiply(v) => value * v,
            Modifier::Divide(v) => trunc_div(value, v as int),
        }
    }

    /// Whether applying the modifier to `value` neither divides by zero nor
    /// leaves the range of `i32`: the inputs on which `apply` does not panic.
    pub open spec fn applies_to(self, value: int) -> bool {
        &&& !(self matches Modifier::Divide(v) && v == 0)
        &&& fits_i32(self.result(value))
    }

    /// The modifier of the same kind whose value is `v`.
    pub open spec fn with_operand(self, v: i32) -> Modifier {
        match self {
            Modifier::Add(_) => Modifier::Add(v),
            Modifier::Subtract(_) => Modifier::Subtract(v),
            Modifier::Multiply(_) => Modifier::Multiply(v),
            Modifier::Divide(_) => Modifier::Divide(v),
        }
    }

    /// The value the modifier holds.
    pub fn operand_value(&self) -> (r: i32)
        ensures
            r == self.operand(),
    {
        match self {
            Modifier::Add(v) => *v,
            Modifier::Subtract(v) => *v,
            Modifier::Multiply(v) => *v,
            Modifier::Divide(v) => *v,
        }
    }

    /// Whether the modifier can be applied to `value`, that is whether
    /// `apply` would neither divide by zero nor leave the range of `i32`.
    pub fn can_apply(&self, value: i32) -> (r: bool)
        ensures
            r == self.applies_to(value as int),
    {
        let a = value as i64;
        match self {
            Modifier::Add(v) => {
                let x = a + *v as i64;
                i32::MIN as i64 <= x && x <= i32::MAX as i64
            },
            Modifier::Subtract(v) => {
                let x = a - *v as i64;
                i32::MIN as i64 <= x && x <= i32::MAX as i64
            },
            Modifier::Multiply(v) => {
                let b = *v as i64;
                assert(-2147483648 * 2147483648 <= a * b <= 2147483648 * 2147483648) by (nonlinear_arith)
                    requires
                        -2147483648 <= a <= 2147483647,
                        -2147483648 <= b <= 2147483647,
                ;
                let x = a * b;
                i32::MIN as i64 <= x && x <= i32::MAX as i64
            },
            Modifier::Divide(v) => {
                proof {
                    lemma_trunc_div_bounds(value as int, *v as int);
                }
                *v != 0 && !(value == i32::MIN && *v == -1)
            },
        }
    }

    /// Applies the modifier to the given value.
    pub fn apply(&self, value: i32) -> (r: i32)
        requires
            self.applies_to(value as int),
        ensures
            r == self.result(value as int),
    {
        match self {
            Modifier::Add(v) => value + *v,
            Modifier::Subtract(v) => value - *v,
            Modifier::Multiply(v) => {
                assert(fits_i32(value * *v));
                value * *v
            },
            Modifier::Divide(v) => {
                let a = value as i64;
                let b = *v as i64;
                let q: i64 = if a >= 0 && b > 0 {
                    a / b
                } else if a < 0 && b > 0 {
                    -((-a) / b)
                } else if a >= 0 {
                    -(a / (-b))
                } else {
                    (-a) / (-b)
                };
                q as i32
            },
        }
    }

    /// Unifies two modifiers applying the second to the first.
    pub fn unify(self, other: Modifier) -> (r: Modifier)
        requires
            other.applies_to(self.operand() as int),
        ensures
            r == self.with_operand(other.result(self.operand() as int) as i32),
    {
        match self {
            Modifier::Add(me) => Modifier::Add(other.apply(me)),
            Modifier::Subtract(me) => Modifier::Subtract(other.apply(me)),
            Modifier::Multiply(me) => Modifier::Multiply(other.apply(me)),
            Modifier::Divide(me) => Modifier::Divide(other.apply(me)),
        }
    }
}

/// The parameters for a roll.
#[derive(Debug, Clone)]
pub struct Params {
    /// The number of dice to roll.
    pub dice_count: u8,
    /// The type of dice to roll.
    pub dice_type: DiceType,
    /// The modifier to add to the roll.
    pub modifier: Modifier,
    /// The number of times to repeat the roll.
    pub repeat: u8,
}

/// Whether the number of dice is accepted.
pub open spec fn dice_count_valid(count: u8) -> bool {
    1 <= count <= 50
}

/// Whether the number of sides is accepted.
pub open spec fn dice_sides_valid(sides: u8) -> bool {
    2 <= sides <= 100
}

/// Whether the number of repetitions is accepted.
pub open spec fn repeat_valid(repeat: u8) -> bool {
    1 <= repeat <= 50
}

/// Whether the error holds `value` and the range `start..=end`.
pub open spec fn error_is(e: RollError, value: u8, start: u8, end: u8) -> bool {
    match e {
        RollError::InvalidDiceCount(v, r) => v == value && r@.start == start && r@.end == end
            && !r@.exhausted,
        RollError::InvalidDiceSides(v, r) => v == value && r@.start == start && r@.end == end
            && !r@.exhausted,
        RollError::InvalidRepetition(v, r) => v == value && r@.start == start && r@.end == end
            && !r@.exhausted,
    }
}

impl Params {
    /// Whether the parameters describe a roll that can be made.
    pub open spec fn valid(self) -> bool {
        &&& dice_count_valid(self.dice_count)
        &&& (self.dice_type matches DiceType::Sided(s) ==> dice_sides_valid(s))
        &&& repeat_valid(self.repeat)
    }

    /// The error that `validate` reports for invalid parameters: the first
    /// check that fails, in the order count, sides, repetitions.
    pub open spec fn reported_error(self, e: RollError) -> bool {
        if !dice_count_valid(self.dice_count) {
            e is InvalidDiceCount && error_is(e, self.dice_count, 1, 50)
        } else if self.dice_type matches DiceType::Sided(s) && !dice_sides_valid(s) {
            e is InvalidDiceSides && error_is(e, self.dice_type->Sided_0, 2, 100)
        } else {
            e is InvalidRepetition && error_is(e, self.repeat, 1, 50)
        }
    }

    /// Creates a new set of roll parameters.
    pub fn new(dice_count: u8, dice_type: DiceType, modifier: Modifier, repeat: u8) -> (r: Self)
        ensures
            r.dice_count == dice_count,
            r.dice_type == dice_type,
            r.modifier == modifier,
            r.repeat == repeat,
    {
        Self { dice_count, dice_type, modifier, repeat }
    }

    /// The parameters of a single roll of one six-sided dice.
    pub fn default() -> (r: Self)
        ensures
            r.dice_count == 1,
            r.dice_type == DiceType::Sided(6),
            r.modifier == Modifier::Add(0),
            r.repeat == 1,
    {
        Self::new(1, DiceType::Sided(6), Modifier::Add(0), 1)
    }

    /// Validates the parameters.
    pub fn validate(&self) -> (r: Result<(), RollError>)
        ensures
            r is Ok <==> self.valid(),
            r matches Err(e) ==> self.reported_error(e),
    {
        if !(1 <= self.dice_count && self.dice_count <= 50) {
            return Err(RollError::InvalidDiceCount(self.dice_count, RangeInclusive::new(1, 50)));
        }
        if let DiceType::Sided(sides) = self.dice_type {
            if !(2 <= sides && sides <= 100) {
                return Err(RollError::InvalidDiceSides(sides, RangeInclusive::new(2, 100)));
            }
        }
        if !(1 <= self.repeat && self.repeat <= 50) {
            return Err(RollError::InvalidRepetition(self.repeat, RangeInclusive::new(1, 50)));
        }
        Ok(())
    }

    /// Whether a dice result could come from a dice of this roll.
    pub open spec fn possible_dice(self, d: Dice) -> bool {
        match self.dice_type {
            DiceType::Fate => d is Fate,
            DiceType::Sided(sides) => d matches Dice::Sided(v) && 1 <= v <= sides,
        }
    }

    /// Whether `roll` could be the result of rolling with these parameters:
    /// `repeat` repetitions of `dice_count` dice each, every dice of the right
    /// type and in range, and the modifier of the parameters.
    pub open spec fn possible_roll(self, roll: Roll) -> bool {
        &&& roll.0@.len() == self.repeat
        &&& forall|i: int| 0 <= i < roll.0@.len() ==> #[trigger] roll.0@[i]@.len() == self.dice_count
        &&& forall|i: int, j: int|
            0 <= i < roll.0@.len() && 0 <= j < roll.0@[i]@.len() ==> self.possible_dice(
                #[trigger] roll.0@[i]@[j],
            )
        &&& roll.1 == self.modifier
    }

    /// Whether `drawn` holds a face, counted from zero, for every dice of
    /// every repetition of this roll.
    pub open spec fn draws_fit(self, drawn: Seq<Seq<usize>>) -> bool {
        &&& drawn.len() == self.repeat
        &&& forall|i: int| 0 <= i < drawn.len() ==> #[trigger] drawn[i].len() == self.dice_count
        &&& forall|i: int, j: int|
            0 <= i < drawn.len() && 0 <= j < drawn[i].len() ==> #[trigger] drawn[i][j] < faces(
                self.dice_type,
            )
    }

    /// Whether `roll` is what these parameters give with the faces `drawn`:
    /// each dice is the one for its drawn face, and the modifier is kept.
    pub open spec fn rolled_from(self, drawn: Seq<Seq<usize>>, roll: Roll) -> bool {
        &&& roll.0@.len() == drawn.len()
        &&& forall|i: int| 0 <= i < drawn.len() ==> #[trigger] roll.0@[i]@.len() == drawn[i].len()
        &&& forall|i: int, j: int|
            0 <= i < drawn.len() && 0 <= j < drawn[i].len() ==> #[trigger] roll.0@[i]@[j]
                == die_for(self.dice_type, drawn[i][j] as int)
        &&& roll.1 == self.modifier
    }

    /// The number of faces of each dice of this roll.
    fn face_count(&self) -> (r: usize)
        ensures
            r == faces(self.dice_type),
    {
        match self.dice_type {
            DiceType::Fate => 3,
            DiceType::Sided(sides) => sides as usize,
        }
    }

    /// Rolls the dice with the faces `drawn`, counted from zero, one for each
    /// dice of each repetition, as a fair draw gives them.
    pub fn roll_with(&self, drawn: &Vec<Vec<usize>>) -> (r: Result<Roll, RollError>)
        requires
            self.valid() ==> self.draws_fit(draw_rows(drawn@)),
        ensures
            r is Ok <==> self.valid(),
            r matches Err(e) ==> self.reported_error(e),
            r matches Ok(roll) ==> self.rolled_from(draw_rows(drawn@), roll),
    {
        if let Err(e) = self.validate() {
            return Err(e);
        }
        let ghost rows = draw_rows(drawn@);
        let mut rolls: Vec<Vec<Dice>> = Vec::new();
        let mut i: usize = 0;
        while i < drawn.len()
            invariant
                rows == draw_rows(drawn@),
                self.draws_fit(rows),
                i <= drawn.len(),
                rolls@.len() == i,
                forall|a: int| 0 <= a < i ==> #[trigger] rolls@[a]@.len() == rows[a].len(),
                forall|a: int, b: int|
                    0 <= a < i && 0 <= b < rows[a].len() ==> #[trigger] rolls@[a]@[b] == die_for(
                        self.dice_type,
                        rows[a][b] as int,
                    ),
            decreases drawn.len() - i,
        {
            let row = &drawn[i];
            assert(row@ == rows[i as int]);
            let mut dice: Vec<Dice> = Vec::new();
            let mut j: usize = 0;
            while j < row.len()
                invariant
                    rows == draw_rows(drawn@),
                    self.draws_fit(rows),
                    i < drawn.len(),
                    row@ == rows[i as int],
                    j <= row.len(),
                    dice@.len() == j,
                    forall|b: int| 0 <= b < j ==> #[trigger] dice@[b] == die_for(
                        self.dice_type,
                        rows[i as int][b] as int,
                    ),
                decreases row.len() - j,
            {
                assert(rows[i as int][j as int] < faces(self.dice_type));
                dice.push(dice_of(self.dice_type, row[j]));
                j = j + 1;
            }
            rolls.push(dice);
            i = i + 1;
        }
        Ok(Roll(rolls, self.modifier))
    }

    /// Rolls the dice with the given parameters.
    ///
    /// The faces are drawn at random, each uniformly among the faces of its
    /// dice, and rolled with [`Params::roll_with`]; the result is the roll
    /// of some such draw.
    pub fn roll(&self) -> (r: Result<Roll, RollError>)
        ensures
            r is Ok <==> self.valid(),
            r matches Err(e) ==> self.reported_error(e),
            r matches Ok(roll) ==> exists|drawn: Seq<Seq<usize>>|
                self.draws_fit(drawn) && #[trigger] self.rolled_from(drawn, roll),
            r matches Ok(roll) ==> self.possible_roll(roll),
    {
        if let Err(e) = self.validate() {
            return Err(e);
        }
        let face_count = self.face_count();
        let mut drawn: Vec<Vec<usize>> = Vec::new();
        let mut k: u8 = 0;
        while k < self.repeat
            invariant
                self.valid(),
                face_count == faces(self.dice_type),
                k <= self.repeat,
                drawn@.len() == k,
                forall|i: int| 0 <= i < drawn@.len() ==> #[trigger] drawn@[i]@.len() == self.dice_count,
                forall|i: int, j: int|
                    0 <= i < drawn@.len() && 0 <= j < drawn@[i]@.len() ==> #[trigger] drawn@[i]@[j]
                        < face_count,
            decreases self.repeat - k,
        {
            let mut row: Vec<usize> = Vec::new();
            let mut n: u8 = 0;
            while n < self.dice_count
                invariant
                    self.valid(),
                    face_count == faces(self.dice_type),
                    n <= self.dice_count,
                    row@.len() == n,
                    forall|j: int| 0 <= j < row@.len() ==> #[trigger] row@[j] < face_count,
                decreases self.dice_count - n,
            {
                row.push(random_index(face_count));
                n = n + 1;
            }
            drawn.push(row);
            k = k + 1;
        }
        let ghost rows = draw_rows(drawn@);
        assert(self.draws_fit(rows));
        let r = self.roll_with(&drawn);
        proof {
            if r is Ok {
                let roll = r->Ok_0;
                assert(self.rolled_from(rows, roll));
                assert forall|i: int, j: int|
                    0 <= i < roll.0@.len() && 0 <= j < roll.0@[i]@.len() implies self.possible_dice(
                        #[trigger] roll.0@[i]@[j],
                    ) by {
                    lemma_die_for_possible(*self, rows[i][j] as int);
                }
            }
        }
        r
    }
}

/// The faces drawn for each repetition, as sequences.
pub open spec fn draw_rows(drawn: Seq<Vec<usize>>) -> Seq<Seq<usize>> {
    Seq::new(drawn.len(), |i: int| drawn[i]@)
}

/// The number of faces of a dice of this type: three for fate dice.
pub open spec fn faces(dice_type: DiceType) -> int {
    match dice_type {
        DiceType::Fate => 3,
        DiceType::Sided(sides) => sides as int,
    }
}

/// The dice that shows the face `drawn`, counted from zero: `drawn + 1` on
/// a standard dice, and on a fate dice the one that counts for `drawn - 1`
/// (-, 0, +).
pub open spec fn die_for(dice_type: DiceType, drawn: int) -> Dice {
    match dice_type {
        DiceType::Sided(_) => Dice::Sided((drawn + 1) as u8),
        DiceType::Fate => match fate_from(drawn - 1) {
            Some(f) => Dice::Fate(f),
            None => Dice::Fate(FateDice::Zero),
        },
    }
}

/// A face drawn among the faces of a valid roll gives a dice it can show.
proof fn lemma_die_for_possible(params: Params, drawn: int)
    requires
        params.valid(),
        0 <= drawn < faces(params.dice_type),
    ensures
        params.possible_dice(die_for(params.dice_type, drawn)),
{
}

/// Every face of a dice can come up, each from exactly one draw: two
/// different draws among the faces give different dice, and each gives a
/// dice that a roll of this type can show (one to the number of sides, or
/// a fate dice). A fair draw of the face thus gives a fair dice.
pub proof fn lemma_faces_are_distinct(dice_type: DiceType, a: int, b: int)
    requires
        0 <= a < faces(dice_type),
        0 <= b < faces(dice_type),
    ensures
        a != b ==> die_for(dice_type, a) != die_for(dice_type, b),
        match die_for(dice_type, a) {
            Dice::Sided(v) => dice_type matches DiceType::Sided(s) && 1 <= v <= s,
            Dice::Fate(_) => dice_type is Fate,
        },
{
}

/// The dice that shows the face `drawn`, counted from zero, of a dice of
/// type `dice_type`.
pub fn dice_of(dice_type: DiceType, drawn: usize) -> (r: Dice)
    requires
        drawn < faces(dice_type),
    ensures
        r == die_for(dice_type, drawn as int),
{
    match dice_type {
        DiceType::Fate => {
            let fate = if drawn == 0 {
                FateDice::Minus
            } else if drawn == 1 {
                FateDice::Zero
            } else {
                FateDice::Plus
            };
            Dice::Fate(fate)
        },
        DiceType::Sided(_) => Dice::Sided((drawn + 1) as u8),
    }
}

/// The parameters that can be rolled are one to fifty dice, of two to a
/// hundred sides when they are standard dice, rolled one to fifty times;
/// and when parameters are refused, the error reported holds a value that
/// lies outside the range it carries.
pub proof fn lemma_accepted_parameters(p: Params, e: RollError)
    ensures
        p.valid() <==> (1 <= p.dice_count <= 50 && (p.dice_type matches DiceType::Sided(s) ==> 2
            <= s <= 100) && 1 <= p.repeat <= 50),
        !p.valid() && p.reported_error(e) ==> match e {
            RollError::InvalidDiceCount(v, r) => !(r@.start <= v <= r@.end) && v
                == p.dice_count,
            RollError::InvalidDiceSides(v, r) => !(r@.start <= v <= r@.end) && p.dice_type
                == DiceType::Sided(v),
            RollError::InvalidRepetition(v, r) => !(r@.start <= v <= r@.end) && v == p.repeat,
        },
{
}

/// The result of rolling one dice.
#[derive(Debug, Clone, Copy, PartialEq, Eq, Structural)]
pub enum Dice {
    /// The result of a roll of fate dice.
    Fate(FateDice),
    /// The result of a roll of standard dice.
    Sided(u8),
}

/// The value a dice result counts for.
pub open spec fn dice_value(d: Dice) -> int {
    match d {
        Dice::Fate(f) => fate_value(f),
        Dice::Sided(v) => v as int,
    }
}

/// The text of a dice result.
pub open spec fn dice_text(d: Dice) -> Seq<char> {
    match d {
        Dice::Fate(f) => fate_text(f),
        Dice::Sided(v) => decimal(v as nat),
    }
}

impl Dice {
    /// The value the dice result counts for, as `i32::from` gives it.
    pub fn value(&self) -> (r: i32)
        ensures
            r == dice_value(*self),
    {
        match self {
            Dice::Fate(fate) => fate.value() as i32,
            Dice::Sided(value) => *value as i32,
        }
    }

    /// The text of the dice result.
    pub fn to_string(&self) -> (r: String)
        ensures
            r@ == dice_text(*self),
    {
        string_from_chars(&self.chars())
    }

    /// The characters of the text of the dice result.
    pub fn chars(&self) -> (r: Vec<char>)
        ensures
            r@ == dice_text(*self),
    {
        match self {
            Dice::Fate(fate) => fate.chars(),
            Dice::Sided(value) => crate::text::decimal_chars(*value as u64),
        }
    }
}

/// The sum of the values of the dice.
pub open spec fn dice_total(s: Seq<Dice>) -> int
    decreases s.len(),
{
    if s.len() == 0 {
        0
    } else {
        dice_total(s.drop_last()) + dice_value(s.last())
    }
}

/// The texts of the dice joined by ", ".
pub open spec fn dice_list(s: Seq<Dice>) -> Seq<char>
    decreases s.len(),
{
    if s.len() == 0 {
        Seq::empty()
    } else if s.len() == 1 {
        dice_text(s[0])
    } else {
        dice_list(s.drop_last()) + seq![',', ' '] + dice_text(s.last())
    }
}

/// The line that reports one repetition: `[d1, d2, ...]: total = modified\n`.
pub open spec fn repetition_line(s: Seq<Dice>, m: Modifier) -> Seq<char> {
    seq!['['] + dice_list(s) + seq![']', ':', ' '] + signed_decimal(dice_total(s)) + seq![
        ' ',
        '=',
        ' ',
    ] + signed_decimal(m.result(dice_total(s))) + seq!['\n']
}

/// The text that reports the repetitions, one line each.
pub open spec fn roll_text(reps: Seq<Seq<Dice>>, m: Modifier) -> Seq<char>
    decreases reps.len(),
{
    if reps.len() == 0 {
        Seq::empty()
    } else {
        roll_text(reps.drop_last(), m) + repetition_line(reps.last(), m)
    }
}

/// The results of a roll: the dice of each repetition and the modifier.
#[derive(Debug, Clone)]
pub struct Roll(pub Vec<Vec<Dice>>, pub Modifier);

impl Roll {
    /// The dice of each repetition.
    pub open spec fn repetitions(self) -> Seq<Seq<Dice>> {
        Seq::new(self.0@.len(), |i: int| self.0@[i]@)
    }

    /// Whether the modifier can be applied to the total of every repetition.
    pub open spec fn printable(self) -> bool {
        forall|i: int|
            0 <= i < self.0@.len() ==> {
                &&& fits_i32(dice_total(#[trigger] self.0@[i]@))
                &&& self.1.applies_to(dice_total(self.0@[i]@))
            }
    }

    /// Whether the roll can be reported: every total fits in an `i32` and
    /// the modifier applies to it.
    pub fn is_printable(&self) -> (r: bool)
        ensures
            r == self.printable(),
    {
        let mut i: usize = 0;
        while i < self.0.len()
            invariant
                i <= self.0@.len(),
                forall|j: int|
                    0 <= j < i ==> {
                        &&& fits_i32(dice_total(#[trigger] self.0@[j]@))
                        &&& self.1.applies_to(dice_total(self.0@[j]@))
                    },
            decreases self.0.len() - i,
        {
            let dice = &self.0[i];
            let mut sum: i128 = 0;
            let mut k: usize = 0;
            while k < dice.len()
                invariant
                    k <= dice@.len(),
                    sum == dice_total(dice@.take(k as int)),
                    -(k as int) <= sum <= 255 * k,
                decreases dice.len() - k,
            {
                assert(dice@.take(k + 1).drop_last() =~= dice@.take(k as int));
                sum = sum + dice[k].value() as i128;
                k = k + 1;
            }
            assert(dice@.take(dice@.len() as int) =~= dice@);
            if sum < i32::MIN as i128 || sum > i32::MAX as i128 {
                return false;
            }
            if !self.1.can_apply(sum as i32) {
                return false;
            }
            i = i + 1;
        }
        true
    }

    /// The report of the roll, one line per repetition with its dice, their
    /// total and the total with the modifier applied.
    pub fn to_string(&self) -> (r: String)
        requires
            self.printable(),
        ensures
            r@ == roll_text(self.repetitions(), self.1),
    {
        let mut out: Vec<char> = Vec::new();
        let mut i: usize = 0;
        while i < self.0.len()
            invariant
                self.printable(),
                i <= self.0@.len(),
                out@ == roll_text(self.repetitions().subrange(0, i as int), self.1),
            decreases self.0.len() - i,
        {
            let dice = &self.0[i];
            let total = total_of(dice);
            let list = list_of(dice);
            out.push('[');
            push_all(&mut out, &list);
            out.push(']');
            out.push(':');
            out.push(' ');
            push_all(&mut out, &signed_decimal_chars(total as i64));
            out.push(' ');
            out.push('=');
            out.push(' ');
            let modified = self.1.apply(total);
            push_all(&mut out, &signed_decimal_chars(modified as i64));
            out.push('\n');
            proof {
                let reps = self.repetitions();
                assert(reps.subrange(0, i + 1).drop_last() =~= reps.subrange(0, i as int));
                assert(reps.subrange(0, i + 1).last() == dice@);
            }
            i = i + 1;
            assert(out@ =~= roll_text(self.repetitions().subrange(0, i as int), self.1));
        }
        assert(self.repetitions().subrange(0, self.0@.len() as int) =~= self.repetitions());
        string_from_chars(&out)
    }
}

/// Sums the values of the dice.
fn total_of(dice: &Vec<Dice>) -> (r: i32)
    requires
        fits_i32(dice_total(dice@)),
    ensures
        r == dice_total(dice@),
{
    let mut total: i128 = 0;
    let mut i: usize = 0;
    while i < dice.len()
        invariant
            i <= dice.len(),
            total == dice_total(dice@.subrange(0, i as int)),
            -(i as int) * 256 <= total <= (i as int) * 256,
            i <= usize::MAX,
        decreases dice.len() - i,
    {
        assert(dice@.subrange(0, i + 1).drop_last() =~= dice@.subrange(0, i as int));
        let v = dice[i].value();
        assert(-1 <= v <= 255) by {
            match dice@[i as int] {
                Dice::Fate(f) => {},
                Dice::Sided(x) => {},
            }
        }
        total = total + v as i128;
        i = i + 1;
    }
    assert(dice@.subrange(0, dice@.len() as int) =~= dice@);
    total as i32
}

/// Joins the texts of the dice with ", ".
fn list_of(dice: &Vec<Dice>) -> (r: Vec<char>)
    ensures
        r@ == dice_list(dice@),
{
    let mut out: Vec<char> = Vec::new();
    let mut i: usize = 0;
    while i < dice.len()
        invariant
            i <= dice.len(),
            out@ == dice_list(dice@.subrange(0, i as int)),
        decreases dice.len() - i,
    {
        let ghost prefix = dice@.subrange(0, i + 1);
        assert(prefix.drop_last() =~= dice@.subrange(0, i as int));
        if i > 0 {
            out.push(',');
            out.push(' ');
        }
        push_all(&mut out, &dice[i].chars());
        i = i + 1;
        proof {
            if i == 1 {
                assert(out@ =~= dice_list(prefix));
            } else {
                assert(out@ =~= dice_list(prefix));
            }
        }
    }
    assert(dice@.subrange(0, dice@.len() as int) =~= dice@);
    out
}

/// The possible values of a fate dice.
#[derive(Debug, Clone, Copy, PartialEq, Eq, PartialOrd, Ord, Structural)]
pub enum FateDice {
    /// Negative (-).
    Minus,
    /// Neutral (0).
    Zero,
    /// Positive (+).
    Plus,
}

/// The number a fate dice counts for.
pub open spec fn fate_value(f: FateDice) -> int {
    match f {
        FateDice::Minus => -1,
        FateDice::Zero => 0,
        FateDice::Plus => 1,
    }
}

/// The fate dice that counts for `i`, if any.
pub open spec fn fate_from(i: int) -> Option<FateDice> {
    if i == -1 {
        Some(FateDice::Minus)
    } else if i == 0 {
        Some(FateDice::Zero)
    } else if i == 1 {
        Some(FateDice::Plus)
    } else {
        None
    }
}

/// The text of a fate dice.
pub open spec fn fate_text(f: FateDice) -> Seq<char> {
    match f {
        FateDice::Minus => seq!['-'],
        FateDice::Zero => seq!['0'],
        FateDice::Plus => seq!['+'],
    }
}

impl FateDice {
    /// Converts a number to a fate dice.
    pub fn try_from(i: i8) -> (r: Option<Self>)
        ensures
            r == fate_from(i as int),
    {
        match i {
            -1 => Some(Self::Minus),
            0 => Some(Self::Zero),
            1 => Some(Self::Plus),
            _ => None,
        }
    }

    /// The number the fate dice counts for, as `i8::from` gives it.
    pub fn value(&self) -> (r: i8)
        ensures
            r == fate_value(*self),
    {
        match self {
            FateDice::Minus => -1,
            FateDice::Zero => 0,
            FateDice::Plus => 1,
        }
    }

    /// The text of the fate dice.
    pub fn to_string(&self) -> (r: String)
        ensures
            r@ == fate_text(*self),
    {
        string_from_chars(&self.chars())
    }

    /// The characters of the text of the fate dice.
    pub fn chars(&self) -> (r: Vec<char>)
        ensures
            r@ == fate_text(*self),
    {
        let mut v: Vec<char> = Vec::new();
        match self {
            FateDice::Minus => v.push('-'),
            FateDice::Zero => v.push('0'),
            FateDice::Plus => v.push('+'),
        }
        assert(v@ =~= fate_text(*self));
        v
    }
}

/// A fate dice read back from the number it counts for is the same dice.
pub proof fn fate_roundtrip(f: FateDice)
    ensures
        fate_from(fate_value(f)) == Some(f),
{
}

} // verus!
