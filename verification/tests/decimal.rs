use sfox::decimal::Decimal;

fn dec(negative: bool, digits: &[u8], exponent: i64) -> Decimal {
    Decimal {
        negative,
        digits: digits.to_vec(),
        exponent,
    }
}

fn as_f64(d: &Decimal) -> f64 {
    d.to_text().parse::<f64>().unwrap()
}

#[test]
fn parses_plain_decimals() {
    assert_eq!(Decimal::parse("140.55"), Some(dec(false, &[1, 4, 0, 5, 5], -2)));
    assert_eq!(Decimal::parse("9458.12"), Some(dec(false, &[9, 4, 5, 8, 1, 2], -2)));
    assert_eq!(Decimal::parse("1"), Some(dec(false, &[1], 0)));
    assert_eq!(Decimal::parse("-2.5"), Some(dec(true, &[2, 5], -1)));
    assert_eq!(Decimal::parse("+2.5"), Some(dec(false, &[2, 5], -1)));
    assert_eq!(Decimal::parse("5."), Some(dec(false, &[5], 0)));
    assert_eq!(Decimal::parse(".5"), Some(dec(false, &[5], -1)));
    assert_eq!(Decimal::parse("-.5"), Some(dec(true, &[5], -1)));
}

#[test]
fn parses_scientific_notation_with_either_marker() {
    assert_eq!(Decimal::parse("1e-08"), Some(dec(false, &[1], -8)));
    assert_eq!(Decimal::parse("1E-08"), Some(dec(false, &[1], -8)));
    assert_eq!(Decimal::parse("1e-8"), Some(dec(false, &[1], -8)));
    assert_eq!(Decimal::parse("2E3"), Some(dec(false, &[2], 3)));
    assert_eq!(Decimal::parse("2e+3"), Some(dec(false, &[2], 3)));
    assert_eq!(Decimal::parse("1.2345678901234568e+22"),
        Some(dec(false, &[1, 2, 3, 4, 5, 6, 7, 8, 9, 0, 1, 2, 3, 4, 5, 6, 8], 6)));
    assert_eq!(Decimal::parse("12.5e1"), Some(dec(false, &[1, 2, 5], 0)));
    assert_eq!(Decimal::parse("-1.50E-2"), Some(dec(true, &[1, 5], -3)));
}

#[test]
fn equal_amounts_have_one_form() {
    let forms = ["140.55", "140.550", "0140.55", "1.4055e2", "14055E-2", "+140.55", "1405.5e-1"];
    for form in forms {
        assert_eq!(Decimal::parse(form), Some(dec(false, &[1, 4, 0, 5, 5], -2)), "{}", form);
    }
    assert_eq!(Decimal::parse("100"), Some(dec(false, &[1], 2)));
    assert_eq!(Decimal::parse("1e2"), Some(dec(false, &[1], 2)));
    assert_eq!(Decimal::parse("0.00100"), Some(dec(false, &[1], -3)));
}

#[test]
fn zero_keeps_only_its_sign() {
    assert_eq!(Decimal::parse("0"), Some(dec(false, &[], 0)));
    assert_eq!(Decimal::parse("0.0"), Some(dec(false, &[], 0)));
    assert_eq!(Decimal::parse("-0.0"), Some(dec(true, &[], 0)));
    assert_eq!(Decimal::parse("000e55"), Some(dec(false, &[], 0)));
    assert_eq!(
        Decimal::parse("0e99999999999999999999999999999999999999999999"),
        Some(dec(false, &[], 0))
    );
    assert_eq!(Decimal::parse("0"), Some(Decimal::zero(false)));
    assert!(Decimal::parse("-0").unwrap().is_zero());
    assert!(!Decimal::parse("0.1").unwrap().is_zero());
}

#[test]
fn rejects_what_is_no_decimal_literal() {
    for text in [
        "", ".", "-", "+", "e5", "1e", "1e+", "1e-", "abc", "1.2.3", "1 ", " 1", "1,5", "0x10",
        "--1", "1e5.5", "inf", "NaN", "1_000", "١٢٣",
    ] {
        assert_eq!(Decimal::parse(text), None, "{:?}", text);
    }
}

#[test]
fn exponent_must_fit_in_64_bits() {
    assert_eq!(
        Decimal::parse("1e9223372036854775807"),
        Some(dec(false, &[1], i64::MAX))
    );
    assert_eq!(Decimal::parse("1e9223372036854775808"), None);
    assert_eq!(Decimal::parse("10e9223372036854775807"), None);
    assert_eq!(
        Decimal::parse("0.1e9223372036854775808"),
        Some(dec(false, &[1], i64::MAX))
    );
    assert_eq!(
        Decimal::parse("1e-9223372036854775808"),
        Some(dec(false, &[1], i64::MIN))
    );
    assert_eq!(Decimal::parse("0.1e-9223372036854775808"), None);
    assert_eq!(
        Decimal::parse("1e99999999999999999999999999999999999999999999"),
        None
    );
    assert_eq!(
        Decimal::parse("1e-99999999999999999999999999999999999999999999"),
        None
    );
    assert_eq!(
        Decimal::parse("1e1000000000000000000000000000000"),
        None
    );
}

#[test]
fn long_digit_runs_lose_nothing() {
    let text = "123456789012345678901234567890.123456789012345678901234567890";
    let d = Decimal::parse(text).unwrap();
    assert_eq!(d.digits.len(), 59);
    assert_eq!(d.exponent, -29);
    assert_eq!(d.digits[0], 1);
    assert_eq!(d.digits[58], 9);
}

#[test]
fn the_float_of_a_decimal_is_the_float_of_its_text() {
    for text in ["140.55", "9458.12", "1e-08", "0.73553115", "2.03782954", "-13318096.02295827"] {
        let d = Decimal::parse(text).unwrap();
        assert_eq!(as_f64(&d), text.parse::<f64>().unwrap(), "{}", text);
    }
}

#[test]
fn a_decimal_is_written_as_a_literal() {
    assert_eq!(dec(false, &[1, 4, 0, 5, 5], -2).to_text(), "14055E-2");
    assert_eq!(dec(true, &[1], -8).to_text(), "-1E-8");
    assert_eq!(dec(false, &[], 0).to_text(), "0E0");
    assert_eq!(dec(true, &[], 0).to_text(), "-0E0");
    assert_eq!(dec(false, &[9], 10).to_text(), "9E10");
    assert_eq!(dec(false, &[7], 1234567890).to_text(), "7E1234567890");
    assert_eq!(dec(false, &[1], i64::MAX).to_text(), "1E9223372036854775807");
    assert_eq!(dec(false, &[1], i64::MIN).to_text(), "1E-9223372036854775808");
    assert_eq!(dec(false, &[1, 0, 9], -100).to_text(), "109E-100");
    assert_eq!(dec(false, &[1, 12, 255], 0).to_text(), "1??E0");
}

#[test]
fn a_literal_read_back_is_the_same_decimal() {
    for text in [
        "140.55", "-1e-08", "0", "-0.0", "1e9223372036854775807", "1e-9223372036854775808",
        "123456789012345678901234567890.5", "100", "0.001",
    ] {
        let d = Decimal::parse(text).unwrap();
        assert_eq!(Decimal::parse(&d.to_text()), Some(d), "{}", text);
    }
}
