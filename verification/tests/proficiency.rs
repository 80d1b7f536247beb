use srd::proficiency::ProficiencyBonus;

#[test]
fn bonus_multiply() {
    let bonus = ProficiencyBonus(3);
    assert_eq!(bonus.multiply(2), 6.into());
}

#[test]
fn bonus_divide() {
    let bonus = ProficiencyBonus(3);
    assert_eq!(bonus.divide_rounded_down(2), 1.into());
    assert_eq!(bonus.divide_rounded_up(2), 2.into());
}

#[test]
fn proficiency_bonus_multiply() {
    let bonus = ProficiencyBonus(3);
    assert_eq!(bonus.multiply(2), 6.into());
}

#[test]
fn proficiency_bonus_divide() {
    let bonus = ProficiencyBonus(3);
    assert_eq!(bonus.divide_rounded_down(2), 1.into());
    assert_eq!(bonus.divide_rounded_up(2), 2.into());
}

#[test]
fn bonus_divide_of_an_exact_multiple() {
    let bonus = ProficiencyBonus(6);
    assert_eq!(bonus.divide_rounded_down(3), 2.into());
    assert_eq!(bonus.divide_rounded_up(3), 2.into());
}
