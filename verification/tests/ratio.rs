use midi_staff::ratio::Ratio;

fn is(r: Ratio, num: i128, den: i128) -> bool {
    r.numer() * den == num * r.denom()
}

#[test]
fn a_ratio_holds_its_fraction() {
    let r = Ratio::new(35, 2);
    assert!(is(r, 35, 2));
    assert!(is(r, 70, 4));
    assert!(!is(r, 17, 1));
    assert!(r.denom() > 0);
    assert_eq!(r.numer() as f64 / r.denom() as f64, 17.5);
}

#[test]
fn whole_numbers() {
    assert!(is(Ratio::from_int(-7), -7, 1));
    assert!(is(Ratio::from_int(0), 0, 1));
}

#[test]
fn half_sum_and_difference() {
    let a = Ratio::new(3, 4);
    let b = Ratio::new(5, 6);
    assert!(is(a.half(), 3, 8));
    assert!(is(a.add(&b), 19, 12));
    assert!(is(a.sub(&b), -1, 12));
    assert!(is(b.sub(&a), 1, 12));
    assert!(is(a.add(&a.half()), 9, 8));
}

#[test]
fn equal_numbers_are_equal_ratios() {
    assert_eq!(Ratio::new(2, 4), Ratio::new(1, 2));
    assert_eq!(Ratio::new(-6, 4), Ratio::new(-3, 2));
    assert_eq!(Ratio::new(0, 7), Ratio::from_int(0));
    assert_eq!(Ratio::new(14, 7), Ratio::from_int(2));
    assert_ne!(Ratio::new(1, 2), Ratio::new(1, 3));
    let r = Ratio::new(-6, 4);
    assert_eq!((r.numer(), r.denom()), (-3, 2));
    let r = Ratio::new(i128::MIN, 2);
    assert_eq!((r.numer(), r.denom()), (i128::MIN / 2, 1));
    let r = Ratio::new(i128::MIN, 3);
    assert_eq!((r.numer(), r.denom()), (i128::MIN, 3));
    let r = Ratio::new(i128::MAX, i128::MAX);
    assert_eq!((r.numer(), r.denom()), (1, 1));
}

#[test]
fn sums_come_out_in_lowest_terms() {
    let quarter = Ratio::new(1, 4);
    let sum = quarter.add(&quarter);
    assert_eq!((sum.numer(), sum.denom()), (1, 2));
    let none = quarter.sub(&quarter);
    assert_eq!((none.numer(), none.denom()), (0, 1));
    let half = Ratio::from_int(3).half();
    assert_eq!((half.numer(), half.denom()), (3, 2));
    let whole = Ratio::from_int(4).half();
    assert_eq!((whole.numer(), whole.denom()), (2, 1));
}
