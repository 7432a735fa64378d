use puppet::number::{check_decimal, parse_u32};
use puppet::ConsoleLine;

#[test]
fn parse_u32_values() {
    assert_eq!(parse_u32("0"), Some(0));
    assert_eq!(parse_u32("1234"), Some(1234));
    assert_eq!(parse_u32("007"), Some(7));
    assert_eq!(parse_u32("4294967295"), Some(u32::MAX));
}

#[test]
fn parse_u32_rejects() {
    assert_eq!(parse_u32(""), None);
    assert_eq!(parse_u32("4294967296"), None);
    assert_eq!(parse_u32("99999999999999999999999"), None);
    assert_eq!(parse_u32("12a"), None);
    assert_eq!(parse_u32("+5"), None);
    assert_eq!(parse_u32("\u{663}"), None);
}

#[test]
fn decimal_shapes() {
    assert!(check_decimal("3.228"));
    assert!(check_decimal("10.0"));
    assert!(!check_decimal("3"));
    assert!(!check_decimal(".5"));
    assert!(!check_decimal("5."));
    assert!(!check_decimal("1.2.3"));
    assert!(!check_decimal("\u{663}.5"));
}

#[test]
fn non_ascii_digits_in_load_time_give_no_event() {
    let p = puppet::load_all().unwrap();
    let line = "[09:58:23] [Server thread/INFO]: Done (\u{663}.228s)! For help, type \"help\"";
    assert_eq!(ConsoleLine::parse_from(line, &p), None);
}
