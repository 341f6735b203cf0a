use hydrogen::roll::{dice_of, Dice, DiceType, FateDice, Modifier, Params, Roll, RollError};

#[test]
fn default_params_roll_one_six_sided_dice() {
    let p = Params::default();
    assert_eq!(p.dice_count, 1);
    assert_eq!(p.dice_type, DiceType::Sided(6));
    assert_eq!(p.modifier, Modifier::Add(0));
    assert_eq!(p.repeat, 1);
    assert!(p.validate().is_ok());
}

#[test]
fn validate_reports_count_first() {
    let p = Params::new(0, DiceType::Sided(1), Modifier::Add(0), 0);
    match p.validate() {
        Err(RollError::InvalidDiceCount(v, r)) => {
            assert_eq!(v, 0);
            assert_eq!(r, 1..=50);
        }
        other => panic!("unexpected {:?}", other),
    }
}

#[test]
fn validate_reports_sides() {
    let p = Params::new(2, DiceType::Sided(101), Modifier::Add(0), 0);
    match p.validate() {
        Err(RollError::InvalidDiceSides(v, r)) => {
            assert_eq!(v, 101);
            assert_eq!(r, 2..=100);
        }
        other => panic!("unexpected {:?}", other),
    }
}

#[test]
fn validate_reports_repetition() {
    let p = Params::new(2, DiceType::Fate, Modifier::Add(0), 51);
    match p.validate() {
        Err(RollError::InvalidRepetition(v, r)) => {
            assert_eq!(v, 51);
            assert_eq!(r, 1..=50);
        }
        other => panic!("unexpected {:?}", other),
    }
}

#[test]
fn roll_gives_dice_in_range() {
    let p = Params::new(50, DiceType::Sided(20), Modifier::Add(3), 4);
    let roll = p.roll().unwrap();
    assert_eq!(roll.0.len(), 4);
    for rep in &roll.0 {
        assert_eq!(rep.len(), 50);
        for d in rep {
            match d {
                Dice::Sided(v) => assert!((1..=20).contains(v)),
                Dice::Fate(_) => panic!("fate dice in a sided roll"),
            }
        }
    }
    assert_eq!(roll.1, Modifier::Add(3));
}

#[test]
fn fate_roll_gives_fate_dice() {
    let p = Params::new(10, DiceType::Fate, Modifier::Add(0), 2);
    let roll = p.roll().unwrap();
    for rep in &roll.0 {
        for d in rep {
            assert!(matches!(d, Dice::Fate(_)));
        }
    }
}

#[test]
fn invalid_roll_is_refused() {
    let p = Params::new(51, DiceType::Sided(6), Modifier::Add(0), 1);
    assert!(matches!(p.roll(), Err(RollError::InvalidDiceCount(51, _))));
}

#[test]
fn modifiers_apply() {
    assert_eq!(Modifier::Add(3).apply(10), 13);
    assert_eq!(Modifier::Subtract(3).apply(10), 7);
    assert_eq!(Modifier::Multiply(3).apply(10), 30);
    assert_eq!(Modifier::Divide(3).apply(10), 3);
    assert_eq!(Modifier::Divide(3).apply(-10), -3);
    assert_eq!(Modifier::Divide(-3).apply(10), -3);
    assert_eq!(Modifier::Divide(-3).apply(-10), 3);
}

#[test]
fn can_apply_detects_overflow_and_zero() {
    assert!(!Modifier::Divide(0).can_apply(1));
    assert!(!Modifier::Add(1).can_apply(i32::MAX));
    assert!(!Modifier::Divide(-1).can_apply(i32::MIN));
    assert!(Modifier::Multiply(2).can_apply(1000));
}

#[test]
fn unify_applies_second_to_first() {
    assert_eq!(Modifier::Add(3).unify(Modifier::Multiply(2)), Modifier::Add(6));
    assert_eq!(Modifier::Subtract(10).unify(Modifier::Divide(3)), Modifier::Subtract(3));
    assert_eq!(Modifier::Multiply(4).unify(Modifier::Add(1)), Modifier::Multiply(5));
}

#[test]
fn fate_dice_round_trip() {
    assert_eq!(FateDice::try_from(-1), Some(FateDice::Minus));
    assert_eq!(FateDice::try_from(0), Some(FateDice::Zero));
    assert_eq!(FateDice::try_from(1), Some(FateDice::Plus));
    assert_eq!(FateDice::try_from(2), None);
    for f in [FateDice::Minus, FateDice::Zero, FateDice::Plus] {
        assert_eq!(FateDice::try_from(f.value()), Some(f));
    }
    assert_eq!(FateDice::Minus.to_string(), "-");
    assert_eq!(FateDice::Zero.to_string(), "0");
    assert_eq!(FateDice::Plus.to_string(), "+");
}

#[test]
fn dice_values_and_texts() {
    assert_eq!(Dice::Sided(17).value(), 17);
    assert_eq!(Dice::Fate(FateDice::Minus).value(), -1);
    assert_eq!(Dice::Sided(17).to_string(), "17");
    assert_eq!(Dice::Fate(FateDice::Plus).to_string(), "+");
}

#[test]
fn roll_report_lists_dice_and_totals() {
    let roll = Roll(
        vec![
            vec![Dice::Sided(3), Dice::Sided(4)],
            vec![Dice::Fate(FateDice::Minus), Dice::Fate(FateDice::Minus)],
        ],
        Modifier::Multiply(2),
    );
    assert!(roll.is_printable());
    assert_eq!(roll.to_string(), "[3, 4]: 7 = 14\n[-, -]: -2 = -4\n");
}

#[test]
fn roll_report_of_no_repetition_is_empty() {
    let roll = Roll(vec![], Modifier::Add(1));
    assert!(roll.is_printable());
    assert_eq!(roll.to_string(), "");
}

#[test]
fn roll_that_overflows_is_not_printable() {
    let roll = Roll(vec![vec![Dice::Sided(100)]], Modifier::Add(i32::MAX));
    assert!(!roll.is_printable());
    let roll = Roll(vec![vec![Dice::Sided(1)]], Modifier::Divide(0));
    assert!(!roll.is_printable());
}

#[test]
fn drawn_faces_give_each_dice() {
    assert_eq!(dice_of(DiceType::Sided(6), 0), Dice::Sided(1));
    assert_eq!(dice_of(DiceType::Sided(6), 5), Dice::Sided(6));
    assert_eq!(dice_of(DiceType::Sided(100), 99), Dice::Sided(100));
    assert_eq!(dice_of(DiceType::Fate, 0), Dice::Fate(FateDice::Minus));
    assert_eq!(dice_of(DiceType::Fate, 1), Dice::Fate(FateDice::Zero));
    assert_eq!(dice_of(DiceType::Fate, 2), Dice::Fate(FateDice::Plus));
}

#[test]
fn roll_with_uses_every_drawn_face() {
    let p = Params::new(3, DiceType::Sided(20), Modifier::Multiply(2), 2);
    let roll = p.roll_with(&vec![vec![0, 19, 7], vec![4, 4, 10]]).unwrap();
    assert_eq!(
        roll.0,
        vec![
            vec![Dice::Sided(1), Dice::Sided(20), Dice::Sided(8)],
            vec![Dice::Sided(5), Dice::Sided(5), Dice::Sided(11)],
        ]
    );
    assert_eq!(roll.1, Modifier::Multiply(2));
    let fate = Params::new(3, DiceType::Fate, Modifier::Add(0), 1);
    let roll = fate.roll_with(&vec![vec![2, 0, 1]]).unwrap();
    assert_eq!(roll.0, vec![vec![Dice::Fate(FateDice::Plus), Dice::Fate(FateDice::Minus), Dice::Fate(FateDice::Zero)]]);
    let bad = Params::new(1, DiceType::Sided(1), Modifier::Add(0), 1);
    assert!(matches!(bad.roll_with(&vec![vec![0]]), Err(RollError::InvalidDiceSides(1, _))));
}
