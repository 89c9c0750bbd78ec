use wally::decimal::{parse_u32, u32_to_string, IntErrorKind};

#[test]
fn parses_plain_numbers() {
    assert_eq!(parse_u32("0"), Ok(0));
    assert_eq!(parse_u32("7"), Ok(7));
    assert_eq!(parse_u32("45"), Ok(45));
    assert_eq!(parse_u32("1920"), Ok(1920));
    assert_eq!(parse_u32("4294967295"), Ok(u32::MAX));
}

#[test]
fn parses_leading_zeros_and_plus_sign() {
    assert_eq!(parse_u32("007"), Ok(7));
    assert_eq!(parse_u32("+45"), Ok(45));
    assert_eq!(parse_u32("+000"), Ok(0));
    assert_eq!(parse_u32("00000000004294967295"), Ok(u32::MAX));
}

#[test]
fn empty_text_is_empty() {
    assert_eq!(parse_u32(""), Err(IntErrorKind::Empty));
}

#[test]
fn text_that_is_no_number_is_invalid() {
    assert_eq!(parse_u32("+"), Err(IntErrorKind::InvalidDigit));
    assert_eq!(parse_u32("-"), Err(IntErrorKind::InvalidDigit));
    assert_eq!(parse_u32("-1"), Err(IntErrorKind::InvalidDigit));
    assert_eq!(parse_u32("++1"), Err(IntErrorKind::InvalidDigit));
    assert_eq!(parse_u32("1+"), Err(IntErrorKind::InvalidDigit));
    assert_eq!(parse_u32(" 45"), Err(IntErrorKind::InvalidDigit));
    assert_eq!(parse_u32("45 "), Err(IntErrorKind::InvalidDigit));
    assert_eq!(parse_u32("4_5"), Err(IntErrorKind::InvalidDigit));
    assert_eq!(parse_u32("4.5"), Err(IntErrorKind::InvalidDigit));
    assert_eq!(parse_u32("0x10"), Err(IntErrorKind::InvalidDigit));
    assert_eq!(parse_u32("forty"), Err(IntErrorKind::InvalidDigit));
    assert_eq!(parse_u32("\u{0664}\u{0665}"), Err(IntErrorKind::InvalidDigit));
}

#[test]
fn number_above_the_range_overflows() {
    assert_eq!(parse_u32("4294967296"), Err(IntErrorKind::PosOverflow));
    assert_eq!(parse_u32("+4294967296"), Err(IntErrorKind::PosOverflow));
    assert_eq!(parse_u32("42949672950"), Err(IntErrorKind::PosOverflow));
    assert_eq!(
        parse_u32("100000000000000000000000000000000000000000000"),
        Err(IntErrorKind::PosOverflow)
    );
}

#[test]
fn shape_is_judged_before_size() {
    assert_eq!(parse_u32("99999999999x"), Err(IntErrorKind::InvalidDigit));
    assert_eq!(parse_u32("x99999999999"), Err(IntErrorKind::InvalidDigit));
}

#[test]
fn writes_numbers_without_sign_or_leading_zeros() {
    assert_eq!(u32_to_string(0), "0");
    assert_eq!(u32_to_string(9), "9");
    assert_eq!(u32_to_string(10), "10");
    assert_eq!(u32_to_string(1080), "1080");
    assert_eq!(u32_to_string(1234567890), "1234567890");
    assert_eq!(u32_to_string(u32::MAX), "4294967295");
}

#[test]
fn reading_what_was_written_gives_the_number_back() {
    let mut n: u32 = 0;
    loop {
        assert_eq!(parse_u32(&u32_to_string(n)), Ok(n));
        if n > u32::MAX / 7 {
            break;
        }
        n = n * 7 + 3;
    }
    assert_eq!(parse_u32(&u32_to_string(u32::MAX)), Ok(u32::MAX));
}

#[test]
fn writes_as_the_standard_library_does() {
    let samples: [u32; 9] = [0, 1, 9, 10, 99, 100, 65535, 16777216, u32::MAX];
    for n in samples {
        assert_eq!(u32_to_string(n), format!("{}", n));
    }
}

#[test]
fn accepts_what_the_standard_library_accepts() {
    let samples = [
        "", "0", "00", "+", "-", "+0", "-0", "+1", "1+", "12a", "a12", " 1", "1 ", "4294967295",
        "4294967296", "+4294967295", "99999999999", "0000000000000000001", "1e3", "１２",
    ];
    for text in samples {
        let expected: Result<u32, std::num::ParseIntError> = text.parse();
        match (parse_u32(text), expected) {
            (Ok(ours), Ok(theirs)) => assert_eq!(ours, theirs),
            (Err(_), Err(_)) => {}
            (ours, theirs) => panic!("{:?}: {:?} against {:?}", text, ours, theirs),
        }
    }
}
