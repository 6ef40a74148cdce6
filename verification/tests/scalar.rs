use fiocz_rs::error::FioError;
use fiocz_rs::literal::{integer_to_text, parse_integer};
use fiocz_rs::types::account_statement::{JsonScalar, TransactionDataEnum};
use fiocz_rs::types::decimal::Decimal;
use fiocz_rs::text::text_equals;
use fiocz_rs::types::transaction::{DetailsOfCharges, DomesticPaymentType, EuroPaymentType};

fn bare(text: &str) -> JsonScalar {
    JsonScalar::Bare(text.to_string())
}

fn quoted(text: &str) -> JsonScalar {
    JsonScalar::Quoted(text.to_string())
}

fn no_variant() -> FioError {
    FioError::SerdeJsonError(
        "data did not match any variant of untagged enum TransactionDataEnum".to_string(),
    )
}

#[test]
fn parse_integer_reads_literals() {
    assert_eq!(parse_integer("0"), Some(0));
    assert_eq!(parse_integer("-0"), Some(0));
    assert_eq!(parse_integer("7"), Some(7));
    assert_eq!(parse_integer("42"), Some(42));
    assert_eq!(parse_integer("-42"), Some(-42));
    assert_eq!(parse_integer("1234567890"), Some(1234567890));
    assert_eq!(parse_integer("24230217199"), Some(24230217199));
}

#[test]
fn parse_integer_keeps_to_the_range_of_i64() {
    assert_eq!(parse_integer("9223372036854775807"), Some(i64::MAX));
    assert_eq!(parse_integer("-9223372036854775808"), Some(i64::MIN));
    assert_eq!(parse_integer("9223372036854775808"), None);
    assert_eq!(parse_integer("-9223372036854775809"), None);
    assert_eq!(parse_integer("18446744073709551616"), None);
    assert_eq!(parse_integer("99999999999999999999999999999999999999999999"), None);
}

#[test]
fn parse_integer_rejects_what_is_no_literal() {
    assert_eq!(parse_integer(""), None);
    assert_eq!(parse_integer("-"), None);
    assert_eq!(parse_integer("--1"), None);
    assert_eq!(parse_integer("+1"), None);
    assert_eq!(parse_integer("01"), None);
    assert_eq!(parse_integer("00"), None);
    assert_eq!(parse_integer("-01"), None);
    assert_eq!(parse_integer("1-"), None);
    assert_eq!(parse_integer("1.0"), None);
    assert_eq!(parse_integer("1e3"), None);
    assert_eq!(parse_integer(" 1"), None);
    assert_eq!(parse_integer("1 "), None);
    assert_eq!(parse_integer("12a"), None);
    assert_eq!(parse_integer("\u{0661}\u{0662}"), None);
}

#[test]
fn integer_to_text_prints_literals() {
    assert_eq!(integer_to_text(0), "0");
    assert_eq!(integer_to_text(7), "7");
    assert_eq!(integer_to_text(10), "10");
    assert_eq!(integer_to_text(-1), "-1");
    assert_eq!(integer_to_text(1002003), "1002003");
    assert_eq!(integer_to_text(i64::MAX), "9223372036854775807");
    assert_eq!(integer_to_text(i64::MIN), "-9223372036854775808");
}

#[test]
fn integers_read_back_as_printed() {
    for value in [0i64, 1, -1, 9, 10, 99, 100, -100, 123456789, i64::MAX, i64::MIN, i64::MAX - 1, i64::MIN + 1] {
        assert_eq!(parse_integer(&integer_to_text(value)), Some(value));
        assert_eq!(integer_to_text(value), value.to_string());
    }
}

#[test]
fn decode_bare_integer_is_integer() {
    assert_eq!(TransactionDataEnum::decode(&bare("42")), Ok(TransactionDataEnum::Integer(42)));
    assert_eq!(TransactionDataEnum::decode(&bare("-7")), Ok(TransactionDataEnum::Integer(-7)));
    assert_eq!(
        TransactionDataEnum::decode(&bare("9223372036854775807")),
        Ok(TransactionDataEnum::Integer(i64::MAX))
    );
}

#[test]
fn decode_quoted_is_string_whatever_it_holds() {
    assert_eq!(
        TransactionDataEnum::decode(&quoted("hello")),
        Ok(TransactionDataEnum::String("hello".to_string()))
    );
    assert_eq!(
        TransactionDataEnum::decode(&quoted("42")),
        Ok(TransactionDataEnum::String("42".to_string()))
    );
    assert_eq!(
        TransactionDataEnum::decode(&quoted("123.45")),
        Ok(TransactionDataEnum::String("123.45".to_string()))
    );
    assert_eq!(TransactionDataEnum::decode(&quoted("")), Ok(TransactionDataEnum::String(String::new())));
}

#[test]
fn decode_bare_with_point_is_decimal() {
    assert_eq!(
        TransactionDataEnum::decode(&bare("123.45")),
        Ok(TransactionDataEnum::Decimal(Decimal::new(12345, 2)))
    );
    assert_eq!(
        TransactionDataEnum::decode(&bare("-0.5")),
        Ok(TransactionDataEnum::Decimal(Decimal::new(-5, 1)))
    );
    assert_eq!(
        TransactionDataEnum::decode(&bare("1.0")),
        Ok(TransactionDataEnum::Decimal(Decimal::new(10, 1)))
    );
}

#[test]
fn decode_bare_beyond_i64_is_decimal() {
    assert_eq!(
        TransactionDataEnum::decode(&bare("9223372036854775808")),
        Ok(TransactionDataEnum::Decimal(
            Decimal::try_from_i128_with_scale(9223372036854775808, 0).unwrap()
        ))
    );
    assert_eq!(
        TransactionDataEnum::decode(&bare("-9223372036854775809")),
        Ok(TransactionDataEnum::Decimal(
            Decimal::try_from_i128_with_scale(-9223372036854775809, 0).unwrap()
        ))
    );
}

#[test]
fn decode_rejects_what_matches_no_shape() {
    assert_eq!(TransactionDataEnum::decode(&bare("true")), Err(no_variant()));
    assert_eq!(TransactionDataEnum::decode(&bare("null")), Err(no_variant()));
    assert_eq!(TransactionDataEnum::decode(&bare("")), Err(no_variant()));
    assert_eq!(TransactionDataEnum::decode(&bare("12abc")), Err(no_variant()));
}

#[test]
fn encode_writes_each_variant() {
    assert_eq!(TransactionDataEnum::Integer(42).encode(), bare("42"));
    assert_eq!(TransactionDataEnum::Integer(-42).encode(), bare("-42"));
    assert_eq!(TransactionDataEnum::String("hello".to_string()).encode(), quoted("hello"));
    assert_eq!(TransactionDataEnum::Decimal(Decimal::new(12345, 2)).encode(), bare("123.45"));
}

#[test]
fn round_trip_of_each_variant() {
    let values = vec![
        TransactionDataEnum::Integer(42),
        TransactionDataEnum::Integer(0),
        TransactionDataEnum::Integer(i64::MIN),
        TransactionDataEnum::String("hello".to_string()),
        TransactionDataEnum::String("42".to_string()),
        TransactionDataEnum::Decimal(Decimal::new(12345, 2)),
        TransactionDataEnum::Decimal(Decimal::new(-1, 3)),
        TransactionDataEnum::Decimal(Decimal::new(0, 2)),
    ];
    for value in values {
        assert_eq!(TransactionDataEnum::decode(&value.encode()), Ok(value));
    }
}

#[test]
fn decimal_without_fraction_reads_back_as_integer() {
    let value = TransactionDataEnum::Decimal(Decimal::new(42, 0));
    assert_eq!(value.encode(), bare("42"));
    assert_eq!(TransactionDataEnum::decode(&value.encode()), Ok(TransactionDataEnum::Integer(42)));
}

#[test]
fn decimal_prints_in_plain_notation() {
    assert_eq!(Decimal::new(3141, 3).to_string(), "3.141");
    assert_eq!(Decimal::new(10050, 2).to_string(), "100.50");
    assert_eq!(Decimal::new(500, 0).to_string(), "500");
    assert_eq!(Decimal::new(0, 0).to_string(), "0");
    assert_eq!(Decimal::new(0, 3).to_string(), "0.000");
    assert_eq!(Decimal::new(5, 3).to_string(), "0.005");
    assert_eq!(Decimal::new(-5, 3).to_string(), "-0.005");
    assert_eq!(Decimal::new(-12345, 2).to_string(), "-123.45");
    assert_eq!(Decimal::new(i64::MIN, 0).to_string(), "-9223372036854775808");
    assert_eq!(Decimal::new(1, 28).to_string(), "0.0000000000000000000000000001");
}

#[test]
fn decimal_parse_reads_mantissa_and_scale() {
    let d = Decimal::parse("123.45").unwrap();
    assert_eq!(d.mantissa(), 12345);
    assert_eq!(d.scale(), 2);
    let d = Decimal::parse("-0.500").unwrap();
    assert_eq!(d.mantissa(), -500);
    assert_eq!(d.scale(), 3);
    let d = Decimal::parse("17").unwrap();
    assert_eq!(d.mantissa(), 17);
    assert_eq!(d.scale(), 0);
    assert_eq!(Decimal::parse("abc"), None);
    assert_eq!(Decimal::parse(""), None);
    assert_eq!(Decimal::parse("1.2.3"), None);
}

#[test]
fn decimal_parts_are_checked() {
    assert!(Decimal::try_from_i128_with_scale(1, 28).is_some());
    assert!(Decimal::try_from_i128_with_scale(1, 29).is_none());
    let max: i128 = 79228162514264337593543950335;
    assert!(Decimal::try_from_i128_with_scale(max, 0).is_some());
    assert!(Decimal::try_from_i128_with_scale(-max, 0).is_some());
    assert!(Decimal::try_from_i128_with_scale(max + 1, 0).is_none());
    assert!(Decimal::try_from_i128_with_scale(-max - 1, 0).is_none());
    let d = Decimal::try_from_i128_with_scale(-max, 28).unwrap();
    assert_eq!(d.mantissa(), -max);
    assert_eq!(d.scale(), 28);
    assert_eq!(d.to_string(), "-7.9228162514264337593543950335");
    let d = Decimal::new(-7, 4);
    assert_eq!(d.mantissa(), -7);
    assert_eq!(d.scale(), 4);
}

#[test]
fn decimal_agrees_with_the_decimal_crate() {
    for (mantissa, scale) in [(0i64, 0u32), (1, 0), (-1, 1), (10050, 2), (123456789, 9), (-5, 28)] {
        let ours = Decimal::new(mantissa, scale);
        let theirs = rust_decimal::Decimal::new(mantissa, scale);
        assert_eq!(ours.to_string(), theirs.to_string());
        let back = Decimal::parse(&theirs.to_string()).unwrap();
        assert_eq!(back.mantissa(), theirs.mantissa());
        assert_eq!(back.scale(), theirs.scale());
    }
}

#[test]
fn decimals_differ_by_scale() {
    assert_eq!(Decimal::new(100, 2), Decimal::new(100, 2));
    assert_ne!(Decimal::new(100, 2), Decimal::new(1, 0));
}

#[test]
fn codes_parse_to_their_values() {
    assert_eq!(DetailsOfCharges::from_code("470501"), Some(DetailsOfCharges::Sender));
    assert_eq!(DetailsOfCharges::from_code("470502"), Some(DetailsOfCharges::Receiver));
    assert_eq!(DetailsOfCharges::from_code("470503"), Some(DetailsOfCharges::Shared));
    assert_eq!(DetailsOfCharges::from_code("SHA"), None);
    assert_eq!(DetailsOfCharges::from_code("470504"), None);
    assert_eq!(DetailsOfCharges::from_code(""), None);
    assert_eq!(DomesticPaymentType::from_code("431001"), Some(DomesticPaymentType::Standard));
    assert_eq!(DomesticPaymentType::from_code("431005"), Some(DomesticPaymentType::Priority));
    assert_eq!(DomesticPaymentType::from_code("431022"), Some(DomesticPaymentType::DirectDebit));
    assert_eq!(DomesticPaymentType::from_code("431008"), None);
    assert_eq!(EuroPaymentType::from_code("431008"), Some(EuroPaymentType::Standard));
    assert_eq!(EuroPaymentType::from_code("431009"), Some(EuroPaymentType::Priority));
    assert_eq!(EuroPaymentType::from_code("431018"), Some(EuroPaymentType::Instant));
    assert_eq!(EuroPaymentType::from_code("431001"), None);
}

#[test]
fn codes_read_back() {
    for value in [DetailsOfCharges::Sender, DetailsOfCharges::Receiver, DetailsOfCharges::Shared] {
        assert_eq!(DetailsOfCharges::from_code(&value.to_string()), Some(value));
    }
    for value in [DomesticPaymentType::Standard, DomesticPaymentType::Priority, DomesticPaymentType::DirectDebit] {
        assert_eq!(DomesticPaymentType::from_code(&value.to_string()), Some(value));
    }
    for value in [EuroPaymentType::Standard, EuroPaymentType::Priority, EuroPaymentType::Instant] {
        assert_eq!(EuroPaymentType::from_code(&value.to_string()), Some(value));
    }
}

#[test]
fn text_equals_compares_characters() {
    assert!(text_equals("", ""));
    assert!(text_equals("abc", "abc"));
    assert!(!text_equals("abc", "abd"));
    assert!(!text_equals("abc", "ab"));
}
