use kuroko::fixed::{percent_of, push_fraction, UNIT};

fn fraction(millionths: u32, places: usize) -> String {
    let mut text = String::new();
    push_fraction(&mut text, millionths, places);
    text
}

#[test]
fn fractions_with_two_decimals() {
    assert_eq!(fraction(0, 2), "0.00");
    assert_eq!(fraction(500_000, 2), "0.50");
    assert_eq!(fraction(950_000, 2), "0.95");
    assert_eq!(fraction(UNIT, 2), "1.00");
    assert_eq!(fraction(4_999, 2), "0.00");
    assert_eq!(fraction(5_000, 2), "0.01");
    assert_eq!(fraction(994_999, 2), "0.99");
    assert_eq!(fraction(995_000, 2), "1.00");
    assert_eq!(fraction(12_345_678, 2), "12.35");
}

#[test]
fn fractions_with_six_decimals() {
    assert_eq!(fraction(3_500, 6), "0.003500");
    assert_eq!(fraction(0, 6), "0.000000");
    assert_eq!(fraction(1_000_001, 6), "1.000001");
    assert_eq!(fraction(u32::MAX, 6), "4294.967295");
    // no more than six decimals are shown
    assert_eq!(fraction(3_500, 9), "0.003500");
}

#[test]
fn fractions_without_decimals() {
    assert_eq!(fraction(499_999, 0), "0");
    assert_eq!(fraction(500_000, 0), "1");
    assert_eq!(fraction(2_400_000, 0), "2");
}

#[test]
fn percentages_round_to_nearest() {
    assert_eq!(percent_of(0), 0);
    assert_eq!(percent_of(4_999), 0);
    assert_eq!(percent_of(5_000), 1);
    assert_eq!(percent_of(500_000), 50);
    assert_eq!(percent_of(994_999), 99);
    assert_eq!(percent_of(UNIT), 100);
    assert_eq!(percent_of(u32::MAX), 429_497);
}
