use ss14_discord_bot::decimal::{format_i64, format_u64, parse_u64, parse_u64_checked, IntErrorKind};

fn std_kind(s: &str) -> Result<u64, IntErrorKind> {
    match s.parse::<u64>() {
        Ok(v) => Ok(v),
        Err(e) => Err(match e.kind() {
            std::num::IntErrorKind::Empty => IntErrorKind::Empty,
            std::num::IntErrorKind::InvalidDigit => IntErrorKind::InvalidDigit,
            std::num::IntErrorKind::PosOverflow => IntErrorKind::PosOverflow,
            other => panic!("unexpected kind {:?}", other),
        }),
    }
}

#[test]
fn parse_u64_accepts_plain_and_plus_signed_numbers() {
    assert_eq!(parse_u64("0"), Some(0));
    assert_eq!(parse_u64("42"), Some(42));
    assert_eq!(parse_u64("+7"), Some(7));
    assert_eq!(parse_u64("007"), Some(7));
    assert_eq!(parse_u64("18446744073709551615"), Some(u64::MAX));
}

#[test]
fn parse_u64_rejects_malformed_text() {
    assert_eq!(parse_u64(""), None);
    assert_eq!(parse_u64("+"), None);
    assert_eq!(parse_u64("-"), None);
    assert_eq!(parse_u64("-1"), None);
    assert_eq!(parse_u64("12a"), None);
    assert_eq!(parse_u64(" 1"), None);
    assert_eq!(parse_u64("1 "), None);
    assert_eq!(parse_u64("++1"), None);
    assert_eq!(parse_u64("١٢"), None);
    assert_eq!(parse_u64("18446744073709551616"), None);
}

#[test]
fn parse_u64_checked_reports_the_first_problem() {
    assert_eq!(parse_u64_checked(""), Err(IntErrorKind::Empty));
    assert_eq!(parse_u64_checked("+"), Err(IntErrorKind::InvalidDigit));
    assert_eq!(parse_u64_checked("x"), Err(IntErrorKind::InvalidDigit));
    assert_eq!(parse_u64_checked("99999999999999999999x"), Err(IntErrorKind::PosOverflow));
    assert_eq!(parse_u64_checked("1x99999999999999999999"), Err(IntErrorKind::InvalidDigit));
    assert_eq!(parse_u64_checked("123"), Ok(123));
}

#[test]
fn parse_u64_checked_agrees_with_std() {
    let samples = [
        "", "0", "1", "+", "-", "+0", "-0", "+12", "12", "a", "1a", "a1", "007",
        "18446744073709551615", "18446744073709551616", "99999999999999999999",
        "99999999999999999999x", "1x99999999999999999999", "+18446744073709551615",
        " 5", "5 ", "٣", "1_000", "0x10",
    ];
    for s in samples {
        assert_eq!(parse_u64_checked(s), std_kind(s), "input {:?}", s);
        assert_eq!(parse_u64(s), s.parse::<u64>().ok(), "input {:?}", s);
    }
}

#[test]
fn format_u64_writes_shortest_decimal() {
    assert_eq!(format_u64(0), "0");
    assert_eq!(format_u64(7), "7");
    assert_eq!(format_u64(10), "10");
    assert_eq!(format_u64(12345), "12345");
    assert_eq!(format_u64(u64::MAX), u64::MAX.to_string());
}

#[test]
fn format_i64_writes_sign_and_magnitude() {
    assert_eq!(format_i64(0), "0");
    assert_eq!(format_i64(-5), "-5");
    assert_eq!(format_i64(1725029869), "1725029869");
    assert_eq!(format_i64(i64::MIN), i64::MIN.to_string());
    assert_eq!(format_i64(i64::MAX), i64::MAX.to_string());
}

#[test]
fn formatted_numbers_read_back() {
    for n in [0u64, 1, 9, 10, 99, 100, 4096, 1_000_000_007, u64::MAX - 1, u64::MAX] {
        assert_eq!(parse_u64(&format_u64(n)), Some(n));
    }
}
