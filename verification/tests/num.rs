use alpaca_finance::num::{parse_decimal, parse_i32, parse_u32, Decimal};

#[test]
fn decimal_parses_plain_and_fractional_numerals() {
    assert_eq!(Some(Decimal::new(false, 17908, 2)), parse_decimal("179.08"));
    assert_eq!(Some(Decimal::new(true, 231402, 1)), parse_decimal("-23140.2"));
    assert_eq!(Some(Decimal::new(false, 0, 0)), parse_decimal("0"));
    assert_eq!(Some(Decimal::new(false, 100, 0)), parse_decimal("100"));
    assert_eq!(Some(Decimal::new(false, 1000, 1)), parse_decimal("100.0"));
    assert_eq!(Some(Decimal::new(false, 5, 4)), parse_decimal("0.0005"));
    assert_eq!(Some(Decimal::new(true, 7, 0)), parse_decimal("-7"));
}

#[test]
fn decimal_rejects_malformed_numerals() {
    assert_eq!(None, parse_decimal(""));
    assert_eq!(None, parse_decimal("-"));
    assert_eq!(None, parse_decimal("."));
    assert_eq!(None, parse_decimal(".5"));
    assert_eq!(None, parse_decimal("5."));
    assert_eq!(None, parse_decimal("1e3"));
    assert_eq!(None, parse_decimal("1.2.3"));
    assert_eq!(None, parse_decimal("12a"));
    assert_eq!(None, parse_decimal("--5"));
    assert_eq!(None, parse_decimal(" 5"));
}

#[test]
fn decimal_rejects_an_overflowing_mantissa() {
    // u64::MAX is 18446744073709551615
    assert_eq!(
        Some(Decimal::new(false, 18446744073709551615, 0)),
        parse_decimal("18446744073709551615")
    );
    assert_eq!(None, parse_decimal("18446744073709551616"));
    assert_eq!(None, parse_decimal("99999999999999999999999"));
    assert_eq!(None, parse_decimal("184467440737.09551616"));
}

#[test]
fn quantities_parse_within_their_bounds() {
    assert_eq!(Some(100), parse_u32("100"));
    assert_eq!(Some(4294967295), parse_u32("4294967295"));
    assert_eq!(None, parse_u32("4294967296"));
    assert_eq!(None, parse_u32("-1"));
    assert_eq!(None, parse_u32("1.5"));

    assert_eq!(Some(15), parse_i32("15"));
    assert_eq!(Some(-15), parse_i32("-15"));
    assert_eq!(Some(2147483647), parse_i32("2147483647"));
    assert_eq!(Some(-2147483648), parse_i32("-2147483648"));
    assert_eq!(None, parse_i32("2147483648"));
    assert_eq!(None, parse_i32("-2147483649"));
    assert_eq!(None, parse_i32("15.0"));
}
