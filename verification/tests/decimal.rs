use std::str::FromStr;

use bigdecimal::BigDecimal;
use spice_runtime::decimal::decimal_digits_of;
use spice_runtime::decimal::power_of_ten;
use spice_runtime::decimal::read_words;
use spice_runtime::decimal::BigDecimalFromSql;
use spice_runtime::postgres::Error;
use spice_runtime::postgres::PgType;

fn raw_of(words: &[u16]) -> Vec<u8> {
    let mut raw = Vec::new();
    for w in words {
        raw.push((w >> 8) as u8);
        raw.push((w & 0xff) as u8);
    }
    raw
}

#[test]
fn test_big_decimal_from_sql() {
    let positive_u16: Vec<u16> = vec![5, 3, 0, 5, 9345, 1293, 2903, 1293, 932];
    let positive_raw: Vec<u8> = raw_of(&positive_u16);
    let positive =
        BigDecimal::from_str("9345129329031293.0932").expect("Failed to parse big decimal");
    let positive_result =
        BigDecimalFromSql::from_sql(positive_raw.as_slice()).expect("Failed to run FromSql");
    assert_eq!(positive_result.inner, positive);

    let negative_u16: Vec<u16> = vec![5, 3, 0x4000, 5, 9345, 1293, 2903, 1293, 932];
    let negative_raw: Vec<u8> = raw_of(&negative_u16);
    let negative =
        BigDecimal::from_str("-9345129329031293.0932").expect("Failed to parse big decimal");
    let negative_result =
        BigDecimalFromSql::from_sql(negative_raw.as_slice()).expect("Failed to run FromSql");
    assert_eq!(negative_result.inner, negative);
}

#[test]
fn decimal_keeps_scale_and_digits() {
    let raw = raw_of(&[5, 3, 0, 5, 9345, 1293, 2903, 1293, 932]);
    let d = BigDecimalFromSql::from_sql(&raw).unwrap();
    assert_eq!(d.scale(), 5);
    assert_eq!(d.to_decimal_128(), Some(934512932903129309320_i128));
    let raw = raw_of(&[5, 3, 0x4000, 5, 9345, 1293, 2903, 1293, 932]);
    let d = BigDecimalFromSql::from_sql(&raw).unwrap();
    assert_eq!(d.to_decimal_128(), Some(-934512932903129309320_i128));
}

#[test]
fn decimal_of_a_whole_number() {
    // 12 with no digit behind the point
    let raw = raw_of(&[1, 0, 0, 0, 12]);
    let d = BigDecimalFromSql::from_sql(&raw).unwrap();
    assert_eq!(d.inner, BigDecimal::from_str("12").unwrap());
    assert_eq!(d.to_decimal_128(), Some(12));
    // zero digits: the number zero
    let raw = raw_of(&[0, 0xffff, 0, 0]);
    assert!(BigDecimalFromSql::from_sql(&raw).is_err());
}

#[test]
fn decimal_rejects_malformed_bytes() {
    for raw in [
        vec![],
        vec![0u8, 1],
        raw_of(&[2, 0, 0, 0, 12]),
        raw_of(&[1, 0, 0x8000, 0, 12]),
        raw_of(&[1, 0, 0, 0, 10000]),
        raw_of(&[1, 3, 0, 0, 12]),
        raw_of(&[2, 0, 0, 3, 12, 5000]),
    ] {
        match BigDecimalFromSql::from_sql(&raw) {
            Err(Error::FailedToParseBigDecmialFromPostgres { bytes }) => assert_eq!(bytes, raw),
            _ => panic!("accepted malformed bytes"),
        }
    }
}

#[test]
fn words_are_read_high_byte_first() {
    assert_eq!(read_words(&[0x12, 0x34, 0x56]), vec![0x1234, 0x5600]);
    assert_eq!(read_words(&[]), Vec::<u16>::new());
    assert_eq!(decimal_digits_of(932), [0, 9, 3, 2]);
    assert_eq!(decimal_digits_of(9999), [9, 9, 9, 9]);
}

#[test]
fn powers_of_ten_up_to_38() {
    assert_eq!(power_of_ten(0), Some(1));
    assert_eq!(power_of_ten(5), Some(100000));
    assert_eq!(power_of_ten(38), Some(100000000000000000000000000000000000000_i128));
    assert_eq!(power_of_ten(39), None);
}

#[test]
fn only_the_decimal_type_is_accepted() {
    assert!(BigDecimalFromSql::accepts(&PgType::Numeric));
    assert!(!BigDecimalFromSql::accepts(&PgType::Int8));
}
