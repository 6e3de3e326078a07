use std::cmp::Ordering;

use jvmti_abi::decimal::{digit_of, parse_u16, push_decimal};
use jvmti_abi::text::{find_char, same_text};
use jvmti_abi::version::{ParseError, Version, RESERVED_MAJOR};

fn v(major: u16, minor: u16) -> Version {
    Version { major, minor }
}

#[test]
fn reads_major_and_minor() {
    assert_eq!(Version::try_from("1.1"), Ok(v(1, 1)));
    assert_eq!(Version::try_from("1.2"), Ok(v(1, 2)));
    assert_eq!(Version::try_from("21.0"), Ok(v(21, 0)));
    assert_eq!(Version::try_from("65535.65535"), Ok(v(65535, 65535)));
}

#[test]
fn missing_minor_reads_as_zero() {
    assert_eq!(Version::try_from("9"), Ok(v(9, 0)));
    assert_eq!(Version::try_from("1"), Version::try_from("1.0"));
    assert_eq!(Version::try_from("0"), Ok(v(0, 0)));
}

#[test]
fn reserved_reads_as_the_sentinel() {
    assert_eq!(Version::try_from("reserved"), Ok(v(999, 0)));
    assert_eq!(Version::try_from("reserved"), Ok(Version::reserved()));
    assert_eq!(RESERVED_MAJOR, 999);
    assert_eq!(Version::try_from("999"), Ok(Version::reserved()));
}

#[test]
fn leading_zeros_and_plus_sign_are_read_as_numbers() {
    assert_eq!(Version::try_from("007.08"), Ok(v(7, 8)));
    assert_eq!(Version::try_from("+5"), Ok(v(5, 0)));
    assert_eq!(Version::try_from("+5.+6"), Ok(v(5, 6)));
    assert_eq!(Version::try_from("0000000000000000000065535"), Ok(v(65535, 0)));
}

#[test]
fn malformed_literals_are_refused() {
    for text in [
        "abc", "", ".", "1.", ".1", "1.2.3", "1..2", " 1", "1 ", "1_1", "-1", "1.-1", "+", "+.1",
        "1.+", "++1", "65536", "1.65536", "99999999999999999999", "Reserved", "reserved ", "1,1",
        "v1", "0x10", "１",
    ] {
        assert_eq!(Version::try_from(text), Err(ParseError), "{:?}", text);
    }
}

#[test]
fn parse_error_message() {
    assert_eq!(
        ParseError.message(),
        "Expected \"major.minor\" version number or \"reserved\""
    );
}

#[test]
fn default_version_is_1_1() {
    assert_eq!(Version::default(), v(1, 1));
}

#[test]
fn order_is_by_major_then_minor() {
    assert_eq!(v(1, 1).cmp(&v(1, 1)), Ordering::Equal);
    assert_eq!(v(1, 1).cmp(&v(1, 2)), Ordering::Less);
    assert_eq!(v(1, 2).cmp(&v(1, 1)), Ordering::Greater);
    assert_eq!(v(1, 65535).cmp(&v(2, 0)), Ordering::Less);
    assert_eq!(v(9, 0).cmp(&v(1, 2)), Ordering::Greater);
    assert_eq!(v(9, 0).partial_cmp(&v(21, 0)), Some(Ordering::Less));
    assert!(v(1, 1) < v(9, 0));
    assert!(v(9, 0) <= v(9, 0));
    assert!(v(21, 0) > v(11, 5));
    assert!(v(21, 0) >= v(21, 0));
}

#[test]
fn derived_order_agrees_with_cmp() {
    let all = [v(0, 0), v(0, 1), v(1, 0), v(1, 1), v(9, 0), v(21, 3), v(999, 0), v(65535, 65535)];
    for a in all {
        for b in all {
            assert_eq!(Ord::cmp(&a, &b), a.cmp(&b));
            assert_eq!(a.partial_cmp(&b), Some(a.cmp(&b)));
            assert_eq!(a == b, a.cmp(&b) == Ordering::Equal);
        }
    }
    let mut shuffled = vec![v(21, 0), v(1, 1), v(999, 0), v(9, 0), v(1, 0)];
    shuffled.sort();
    assert_eq!(shuffled, vec![v(1, 0), v(1, 1), v(9, 0), v(21, 0), v(999, 0)]);
}

#[test]
fn reserved_comes_after_every_release() {
    let reserved = Version::try_from("reserved").unwrap();
    for major in [0u16, 1, 9, 21, 25, 100, 998] {
        for minor in [0u16, 1, 255, 65535] {
            assert!(v(major, minor) < reserved);
            assert_eq!(v(major, minor).cmp(&reserved), Ordering::Less);
        }
    }
}

#[test]
fn canonical_literal() {
    assert_eq!(v(1, 1).literal(), "1.1");
    assert_eq!(v(9, 0).literal(), "9");
    assert_eq!(v(0, 0).literal(), "0");
    assert_eq!(v(0, 7).literal(), "0.7");
    assert_eq!(v(65535, 65535).literal(), "65535.65535");
    assert_eq!(v(999, 0).literal(), "999");
    assert_eq!(v(10, 100).literal(), "10.100");
}

#[test]
fn literal_round_trip() {
    for text in ["1", "1.0", "1.1", "9", "21", "007.08", "+5", "reserved", "65535.65535", "0.1"] {
        let first = Version::try_from(text).unwrap();
        let canonical = first.literal();
        assert_eq!(Version::try_from(canonical.as_str()), Ok(first));
    }
    for major in [0u16, 1, 9, 10, 99, 100, 999, 1000, 65535] {
        for minor in [0u16, 1, 9, 10, 255, 65535] {
            let version = v(major, minor);
            assert_eq!(Version::try_from(version.literal().as_str()), Ok(version));
        }
    }
}

#[test]
fn parse_u16_matches_str_parse() {
    for text in [
        "0", "1", "9", "10", "65535", "65536", "065535", "+0", "+65535", "+65536", "", "+", "-",
        "-0", "1a", "a1", " 1", "1 ", "1_0", "٣", "00000", "4294967296", "١٢",
    ] {
        assert_eq!(parse_u16(text), text.parse::<u16>().ok(), "{:?}", text);
    }
}

#[test]
fn digits() {
    assert_eq!(digit_of('0'), Some(0));
    assert_eq!(digit_of('7'), Some(7));
    assert_eq!(digit_of('9'), Some(9));
    assert_eq!(digit_of('/'), None);
    assert_eq!(digit_of(':'), None);
    assert_eq!(digit_of('a'), None);
    assert_eq!(digit_of('٣'), None);
}

#[test]
fn push_decimal_matches_display() {
    for n in [0u64, 1, 9, 10, 11, 99, 100, 101, 65535, 65536, 1234567890, u64::MAX] {
        let mut out = String::from("x");
        push_decimal(&mut out, n);
        assert_eq!(out, format!("x{}", n));
    }
}

#[test]
fn text_helpers() {
    assert!(same_text("reserved", "reserved"));
    assert!(!same_text("reserved", "reserve"));
    assert!(!same_text("reserved", "reserveD"));
    assert!(same_text("", ""));
    assert!(same_text("é.ü", "é.ü"));
    assert_eq!(find_char("1.2.3", '.'), 1);
    assert_eq!(find_char("123", '.'), 3);
    assert_eq!(find_char("", '.'), 0);
    assert_eq!(find_char(".", '.'), 0);
    assert_eq!(find_char("éé.1", '.'), 2);
}
