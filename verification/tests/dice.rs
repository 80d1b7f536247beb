use srd::dice::{Dice, DicePool, DiceRoll, DiceRolls, Die};

#[test]
fn dice_pool() {
    let mut dc = DicePool::default();
    assert_eq!(dc.pool, [0, 0, 0, 0, 0, 0, 0]);
    dc.add_dice(Dice::new(1, Die::D4));
    dc.add_dice(Dice::new(1, Die::D8));
    assert_eq!(dc.pool, [1, 0, 1, 0, 0, 0, 0]);
}

#[test]
fn dice_rolls_add() {
    let mut dc = DiceRolls::from_roll(DiceRoll::with_modifier(Dice::new(2, Die::D4), 3));
    assert_eq!(dc.dice_pool.pool, [2, 0, 0, 0, 0, 0, 0]);
    assert_eq!(dc.modifier, 3);
    dc.add_roll(DiceRoll::new(Dice::new(5, Die::D20)));
    assert_eq!(dc.dice_pool.pool, [2, 0, 0, 0, 0, 5, 0]);
    assert_eq!(dc.modifier, 3);
    dc.add_roll(DiceRoll::with_modifier(Dice::new(1, Die::D20), -4));
    assert_eq!(dc.dice_pool.pool, [2, 0, 0, 0, 0, 6, 0]);
    assert_eq!(dc.modifier, -1);
    dc.add_dice(Dice::new(1, Die::D6));
    assert_eq!(dc.dice_pool.pool, [2, 1, 0, 0, 0, 6, 0]);
    assert_eq!(dc.modifier, -1);
}

#[test]
fn dice_rolls_from_pool() {
    let dc = DiceRolls::from_pool(DicePool::from_dice(Dice::new(2, Die::D4)));
    assert_eq!(dc.dice_pool.pool, [2, 0, 0, 0, 0, 0, 0]);
    assert_eq!(dc.modifier, 0);
}

#[test]
fn dice_pool_compacts_repeated_die_types() {
    let mut dc = DicePool::default();
    dc.add_dice(Dice::new(1, Die::D4));
    dc.add_dice(Dice::new(1, Die::D8));
    dc.add_dice(Dice::new(1, Die::D4));
    assert_eq!(dc.pool, [2, 0, 1, 0, 0, 0, 0]);
    assert_eq!(dc.pool.iter().filter(|n| **n != 0).count(), 2);
}

#[test]
fn dice_rolls_compose_in_any_order() {
    let a = DiceRoll::with_modifier(Dice::new(2, Die::D6), 3);
    let b = DiceRoll::with_modifier(Dice::new(1, Die::D6), -1);
    let mut first = DiceRolls::from_pool(DicePool::default());
    first.add_roll(a);
    first.add_roll(b);
    let mut second = DiceRolls::from_pool(DicePool::default());
    second.add_roll(b);
    second.add_roll(a);
    assert_eq!(first.dice_pool.pool, second.dice_pool.pool);
    assert_eq!(first.modifier, second.modifier);
}

#[test]
fn die_sides_and_extremes() {
    assert_eq!(Die::D4.sides(), 4);
    assert_eq!(Die::D100.sides(), 100);
    assert_eq!(Die::D12.min(), 1);
    assert_eq!(Die::D12.max(), 12);
}
