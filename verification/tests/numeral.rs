use blockchain_node::numeral::{parse_u128, parse_u64, u128_to_dec};

#[test]
fn renders_decimal() {
    assert_eq!(u128_to_dec(0), "0");
    assert_eq!(u128_to_dec(7), "7");
    assert_eq!(u128_to_dec(10), "10");
    assert_eq!(u128_to_dec(100), "100");
    assert_eq!(u128_to_dec(1234567890), "1234567890");
    assert_eq!(
        u128_to_dec(u128::MAX),
        "340282366920938463463374607431768211455"
    );
}

#[test]
fn parses_decimal_u128() {
    assert_eq!(parse_u128("0"), Some(0));
    assert_eq!(parse_u128("123"), Some(123));
    assert_eq!(parse_u128("007"), Some(7));
    assert_eq!(
        parse_u128("340282366920938463463374607431768211455"),
        Some(u128::MAX)
    );
}

#[test]
fn rejects_non_numbers() {
    assert_eq!(parse_u128(""), None);
    assert_eq!(parse_u128("12a"), None);
    assert_eq!(parse_u128("-5"), None);
    assert_eq!(parse_u128(" 5"), None);
    assert_eq!(parse_u128("5 "), None);
}

#[test]
fn rejects_overflow() {
    assert_eq!(parse_u128("340282366920938463463374607431768211456"), None);
    assert_eq!(parse_u128("999999999999999999999999999999999999999999"), None);
    assert_eq!(parse_u64("18446744073709551615"), Some(u64::MAX));
    assert_eq!(parse_u64("18446744073709551616"), None);
}

#[test]
fn round_trips_through_text() {
    for n in [0u128, 1, 9, 10, 99, 1000, u64::MAX as u128, u128::MAX] {
        assert_eq!(parse_u128(&u128_to_dec(n)), Some(n));
    }
}
