use coda::date::Date;
use coda::errors::{ConversionError, FieldError};
use coda::utils::{parse_date, parse_duplicate, parse_field, parse_str, parse_u64, parse_u8};

#[test]
fn parse_date_valid() {
    let actual = parse_date("290318");

    assert_eq!(actual.is_ok(), true, "Date should be ok");
    assert_eq!(
        actual.unwrap(),
        Date { year: 2018, month: 3, day: 29 },
        "creation_date should be 29/03/2018"
    )
}

#[test]
fn parse_str_valid() {
    let actual = parse_str("05505");

    assert_eq!(actual.is_ok(), true, "String should be ok");
    assert_eq!(
        actual.unwrap(),
        String::from("05505"),
        "String should be 05505"
    );
}

#[test]
fn parse_duplicate_valid_true() {
    let actual = parse_duplicate("D");

    assert_eq!(actual.is_ok(), true, "Duplicate 'D' should be ok");
    assert_eq!(actual.unwrap(), true, "Duplicate 'D' should be true");
}

#[test]
fn parse_duplicate_valid_false() {
    let actual = parse_duplicate(" ");

    assert_eq!(actual.is_ok(), true, "Duplicate ' ' should be ok");
    assert_eq!(actual.unwrap(), false, "Duplicate ' ' should be false");
}

#[test]
fn parse_duplicate_invalid() {
    let actual = parse_duplicate("B");

    assert_eq!(actual.is_ok(), false, "Duplicate 'B' should not be ok");
}

#[test]
fn parse_u8_valid() {
    let actual = parse_u8("2");

    assert_eq!(actual.is_ok(), true, "u8 '2' should be ok");
    assert_eq!(actual.unwrap(), 2, "u8 '2' should be 2");
}

#[test]
fn parse_u8_invalid() {
    let actual = parse_u8("200000");

    assert_eq!(actual.is_ok(), false, "u8 '200000' should not be ok");
}

#[test]
fn parse_u64_valid() {
    let actual = parse_u64("20000");

    assert_eq!(actual.is_ok(), true, "u64 '20000' should be ok");
    assert_eq!(actual.unwrap(), 20000, "u64 '20000' should be 20000");
}

#[test]
fn parse_u64_invalid() {
    let actual = parse_u8("200000200000200000200000200000200000");

    assert_eq!(
        actual.is_ok(),
        false,
        "u8 '200000200000200000200000200000200000' should not be ok"
    );
}

#[test]
fn parse_field_valid() {
    let line_header = "0000029031872505        00099449  Testgebruiker21           KREDBEBB   00630366277 00000                                       2";
    let actual = parse_field(line_header, 5..11, parse_date);
    assert_eq!(actual.is_ok(), true, "Date should be ok");
    assert_eq!(
        actual.unwrap(),
        Date { year: 2018, month: 3, day: 29 },
        "creation_date should be 29/03/2018"
    )
}

#[test]
fn parse_date_rejects_impossible_day() {
    let actual = parse_date("320101");
    assert!(matches!(
        actual,
        Err(ConversionError::BadDate { ref text }) if text == "320101"
    ));
}

#[test]
fn parse_date_rejects_impossible_month() {
    let actual = parse_date("301302");
    assert!(matches!(actual, Err(ConversionError::BadDate { .. })));
}

#[test]
fn parse_date_rejects_non_digits() {
    assert!(parse_date("29a318").is_err());
    assert!(parse_date("2903").is_err());
    assert!(parse_date("").is_err());
}

#[test]
fn parse_date_handles_leap_years() {
    assert_eq!(
        parse_date("290216").unwrap(),
        Date { year: 2016, month: 2, day: 29 }
    );
    assert!(parse_date("290217").is_err());
    assert_eq!(
        parse_date("280200").unwrap(),
        Date { year: 2000, month: 2, day: 28 }
    );
}

#[test]
fn parse_date_century_rule() {
    assert_eq!(parse_date("010169").unwrap().year, 1969);
    assert_eq!(parse_date("010168").unwrap().year, 2068);
    assert_eq!(parse_date("311299").unwrap().year, 1999);
}

#[test]
fn parse_u8_boundary() {
    assert_eq!(parse_u8("255").unwrap(), 255);
    assert!(matches!(
        parse_u8("256"),
        Err(ConversionError::BadU8 { ref text }) if text == "256"
    ));
    assert!(parse_u8("").is_err());
}

#[test]
fn parse_u64_rejects_non_numeric() {
    assert!(matches!(
        parse_u64("abc"),
        Err(ConversionError::BadU64 { ref text }) if text == "abc"
    ));
    assert!(parse_u64("12 4").is_err());
}

#[test]
fn parse_field_short_line_is_range_error() {
    let actual = parse_field("0000", 5..11, parse_date);
    assert!(matches!(
        actual,
        Err(FieldError::Range { start: 5, end: 11 })
    ));
}

#[test]
fn parse_field_conversion_error_carries_range() {
    let actual = parse_field("xxxxxxxxxxxx", 5..11, parse_date);
    assert!(matches!(
        actual,
        Err(FieldError::Conversion { start: 5, end: 11, cause: ConversionError::BadDate { .. } })
    ));
}
