use midi_staff::gcd::greatest_common_divisor;

#[test]
fn greatest_common_divisors() {
    assert_eq!(greatest_common_divisor(12, 18), 6);
    assert_eq!(greatest_common_divisor(18, 12), 6);
    assert_eq!(greatest_common_divisor(17, 5), 1);
    assert_eq!(greatest_common_divisor(0, 5), 5);
    assert_eq!(greatest_common_divisor(7, 0), 7);
    assert_eq!(greatest_common_divisor(0, 0), 0);
    assert_eq!(greatest_common_divisor(u128::MAX, 1), 1);
    assert_eq!(greatest_common_divisor(u128::MAX, u128::MAX), u128::MAX);
    assert_eq!(greatest_common_divisor(1 << 127, 1 << 100), 1 << 100);
}
