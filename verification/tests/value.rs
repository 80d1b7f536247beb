use srd::value::PositiveBoundedValue;

#[test]
fn positive_bounded_new() {
    assert_eq!(PositiveBoundedValue::new(4, 6).value(), 4);
    assert_eq!(PositiveBoundedValue::new(8, 6).value(), 6);
    assert_eq!(PositiveBoundedValue::new(-8, 6).value(), 0);
}

#[test]
fn positive_bounded_add() {
    let mut v = PositiveBoundedValue::new(5, 10);
    v.add(2);
    assert_eq!(v.value(), 7);
    v.add(10);
    assert_eq!(v.value(), 10);
    v.add(-100);
    assert_eq!(v.value(), 0);
}

#[test]
fn positive_bounded_sub() {
    let mut v = PositiveBoundedValue::new(5, 10);
    v.subtract(2);
    assert_eq!(v.value(), 3);
    v.subtract(10);
    assert_eq!(v.value(), 0);
    v.subtract(-100);
    assert_eq!(v.value(), 10);

    let mut v = PositiveBoundedValue::new(5, 10);
    v.subtract(6);
    assert_eq!(v.value(), 0);
}

#[test]
fn positive_bounded_mul() {
    let mut v = PositiveBoundedValue::new(2, 10);
    v.multiply(2);
    assert_eq!(v.value(), 4);
    v.multiply(5);
    assert_eq!(v.value(), 10);
    v.multiply(-50);
    assert_eq!(v.value(), 0);
}

#[test]
fn positive_bounded_div() {
    let mut v = PositiveBoundedValue::new(6, 10);
    v.divide(2);
    assert_eq!(v.value(), 3);
    v.divide(2);
    assert_eq!(v.value(), 1);
    v.divide(-1);
    assert_eq!(v.value(), 0);
}

#[test]
fn positive_bounded_change_max() {
    let mut v = PositiveBoundedValue::new(6, 10);
    v.set_max(15);
    assert_eq!(v.max(), 15);
    assert_eq!(v.value(), 6);
    v.set_max(5);
    assert_eq!(v.max(), 5);
    assert_eq!(v.value(), 5);
    v.set_max(-1);
    assert_eq!(v.max(), 0);
    assert_eq!(v.value(), 0);
}

#[test]
fn positive_bounded_from_value_fills_to_the_maximum() {
    let v = PositiveBoundedValue::from_value(12);
    assert_eq!(v.value(), 12);
    assert_eq!(v.max(), 12);
}
