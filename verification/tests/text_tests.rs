use eris::text::{int_error_message, parse_i64, push_decimal, push_json_string, push_signed_decimal, IntErrorKind};

fn u64_to_string(n: u64) -> String {
    let mut s = String::new();
    push_decimal(&mut s, n);
    s
}

fn i64_to_string(n: i64) -> String {
    let mut s = String::new();
    push_signed_decimal(&mut s, n);
    s
}

#[test]
fn decimal_of_unsigned_numbers() {
    assert_eq!(u64_to_string(0), "0");
    assert_eq!(u64_to_string(7), "7");
    assert_eq!(u64_to_string(1234567890), "1234567890");
    assert_eq!(u64_to_string(u64::MAX), u64::MAX.to_string());
    let mut s = String::from("rows: ");
    push_decimal(&mut s, 42);
    assert_eq!(s, "rows: 42");
}

#[test]
fn decimal_of_signed_numbers() {
    assert_eq!(i64_to_string(-42), "-42");
    assert_eq!(i64_to_string(0), "0");
    assert_eq!(i64_to_string(i64::MIN), "-9223372036854775808");
    assert_eq!(i64_to_string(i64::MAX), "9223372036854775807");
}

#[test]
fn parse_accepts_what_std_accepts() {
    for text in ["0", "+5", "-17", "000123", "9223372036854775807", "-9223372036854775808", "-0"] {
        assert_eq!(parse_i64(text), Ok(text.parse::<i64>().unwrap()), "{text}");
    }
}

#[test]
fn parse_error_kinds() {
    assert_eq!(parse_i64(""), Err(IntErrorKind::Empty));
    assert_eq!(parse_i64("+"), Err(IntErrorKind::InvalidDigit));
    assert_eq!(parse_i64("-"), Err(IntErrorKind::InvalidDigit));
    assert_eq!(parse_i64("12a"), Err(IntErrorKind::InvalidDigit));
    assert_eq!(parse_i64(" 1"), Err(IntErrorKind::InvalidDigit));
    assert_eq!(parse_i64("9223372036854775808"), Err(IntErrorKind::PosOverflow));
    assert_eq!(parse_i64("-9223372036854775809"), Err(IntErrorKind::NegOverflow));
    assert_eq!(parse_i64("99999999999999999999x"), Err(IntErrorKind::PosOverflow));
    assert_eq!(parse_i64("1x99999999999999999999"), Err(IntErrorKind::InvalidDigit));
    assert_eq!(parse_i64("é"), Err(IntErrorKind::InvalidDigit));
}

#[test]
fn parse_error_texts_match_std() {
    let cases = [
        ("", IntErrorKind::Empty),
        ("x", IntErrorKind::InvalidDigit),
        ("9223372036854775808", IntErrorKind::PosOverflow),
        ("-9223372036854775809", IntErrorKind::NegOverflow),
    ];
    for (text, kind) in cases {
        assert_eq!(parse_i64(text), Err(kind));
        let std_error = text.parse::<i64>().unwrap_err().to_string();
        assert_eq!(int_error_message(kind), std_error);
    }
}

#[test]
fn parse_reads_back_decimal_text() {
    for n in [0i64, 1, -1, 10, -10, 4096, i64::MAX, i64::MIN, 1_000_000_007] {
        assert_eq!(parse_i64(&i64_to_string(n)), Ok(n));
    }
}

#[test]
fn json_string_escapes_as_serde_json() {
    let samples = [
        "plain",
        "",
        "quote \" and backslash \\",
        "lines\nand\ttabs\r",
        "\u{8}\u{c}\u{0}\u{1}\u{1f}\u{7f}",
        "unicode é ☃ 🎉",
        "slash / stays",
    ];
    for sample in samples {
        let mut out = String::new();
        push_json_string(&mut out, sample);
        assert_eq!(out, serde_json::to_string(sample).unwrap(), "{sample:?}");
        assert_eq!(serde_json::from_str::<String>(&out).unwrap(), sample);
    }
}
