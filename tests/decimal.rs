use labrig::decimal::{parse_decimal, push_fixed, push_nat};
use labrig::text::chars_of;

fn read(s: &str) -> Option<i64> {
    let t = chars_of(s);
    parse_decimal(&t, 0, t.len())
}

fn fixed(v: i64, places: u32) -> String {
    let mut s = String::new();
    push_fixed(&mut s, v, places);
    s
}

#[test]
fn decimals_read_as_thousandths() {
    assert_eq!(read("34.7"), Some(34_700));
    assert_eq!(read("-2.500"), Some(-2_500));
    assert_eq!(read("+5"), Some(5_000));
    assert_eq!(read("1.123456"), Some(1_123));
    assert_eq!(read(".5"), Some(500));
    assert_eq!(read("7."), Some(7_000));
    assert_eq!(read("0001"), Some(1_000));
    assert_eq!(read("1000000000000"), Some(1_000_000_000_000_000));
}

#[test]
fn malformed_decimals_are_rejected() {
    assert_eq!(read(""), None);
    assert_eq!(read("."), None);
    assert_eq!(read("-"), None);
    assert_eq!(read("abc"), None);
    assert_eq!(read("1.2.3"), None);
    assert_eq!(read("1-2"), None);
    assert_eq!(read("--1"), None);
    assert_eq!(read("1000000000001"), None);
}

#[test]
fn quantities_are_written_with_rounding() {
    assert_eq!(fixed(10_000, 3), "10.000");
    assert_eq!(fixed(-2_500, 3), "-2.500");
    assert_eq!(fixed(12_345, 2), "12.35");
    assert_eq!(fixed(12_344, 1), "12.3");
    assert_eq!(fixed(-40, 1), "-0.0");
    assert_eq!(fixed(i64::MIN, 3), "-9223372036854775.808");
    let mut s = String::from("n=");
    push_nat(&mut s, 9_070);
    assert_eq!(s, "n=9070");
}
