use session_store::parse::parse_u128;

#[test]
fn parses_plain_decimals() {
    assert_eq!(parse_u128("0"), Some(0));
    assert_eq!(parse_u128("1000"), Some(1000));
    assert_eq!(parse_u128("2000"), Some(2000));
    assert_eq!(parse_u128("1698765432109"), Some(1698765432109));
}

#[test]
fn accepts_one_leading_plus_sign() {
    assert_eq!(parse_u128("+42"), Some(42));
    assert_eq!(parse_u128("++42"), None);
    assert_eq!(parse_u128("+"), None);
}

#[test]
fn accepts_leading_zeros() {
    assert_eq!(parse_u128("00123"), Some(123));
    assert_eq!(parse_u128("000"), Some(0));
}

#[test]
fn rejects_empty_and_non_digits() {
    assert_eq!(parse_u128(""), None);
    assert_eq!(parse_u128("not-a-number"), None);
    assert_eq!(parse_u128("12a"), None);
    assert_eq!(parse_u128("a12"), None);
    assert_eq!(parse_u128("-1"), None);
    assert_eq!(parse_u128("1 "), None);
    assert_eq!(parse_u128(" 1"), None);
    assert_eq!(parse_u128("1.5"), None);
}

#[test]
fn handles_the_128_bit_boundary() {
    let max = format!("{}", u128::MAX);
    assert_eq!(parse_u128(&max), Some(u128::MAX));
    // one past 2^128 - 1
    assert_eq!(parse_u128("340282366920938463463374607431768211456"), None);
    assert_eq!(parse_u128("999999999999999999999999999999999999999999999"), None);
}

#[test]
fn agrees_with_the_standard_library() {
    for s in ["0", "7", "+007", "18446744073709551616", "x", "", "+", "9e9"] {
        assert_eq!(parse_u128(s), s.parse::<u128>().ok(), "input {:?}", s);
    }
}
