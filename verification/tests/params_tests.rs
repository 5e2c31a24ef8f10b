use lookup_latency::params::{extract_params, parse_i32, ParamError};

#[test]
fn plain_number_parses() {
    assert_eq!(parse_i32(b"42"), Some(42));
    assert_eq!(parse_i32(b"0"), Some(0));
    assert_eq!(parse_i32(b"7"), Some(7));
}

#[test]
fn signed_numbers_parse() {
    assert_eq!(parse_i32(b"+7"), Some(7));
    assert_eq!(parse_i32(b"-42"), Some(-42));
    assert_eq!(parse_i32(b"-0"), Some(0));
}

#[test]
fn leading_zeros_parse() {
    assert_eq!(parse_i32(b"00123"), Some(123));
    assert_eq!(parse_i32(b"-007"), Some(-7));
}

#[test]
fn empty_and_sign_only_are_rejected() {
    assert_eq!(parse_i32(b""), None);
    assert_eq!(parse_i32(b"-"), None);
    assert_eq!(parse_i32(b"+"), None);
}

#[test]
fn stray_bytes_are_rejected() {
    assert_eq!(parse_i32(b"12a"), None);
    assert_eq!(parse_i32(b" 1"), None);
    assert_eq!(parse_i32(b"1 "), None);
    assert_eq!(parse_i32(b"1.5"), None);
    assert_eq!(parse_i32(b"--1"), None);
    assert_eq!(parse_i32(b"+-1"), None);
}

#[test]
fn range_ends_are_exact() {
    assert_eq!(parse_i32(b"2147483647"), Some(i32::MAX));
    assert_eq!(parse_i32(b"2147483648"), None);
    assert_eq!(parse_i32(b"-2147483648"), Some(i32::MIN));
    assert_eq!(parse_i32(b"-2147483649"), None);
}

#[test]
fn far_out_of_range_is_rejected() {
    assert_eq!(parse_i32(b"99999999999999999999"), None);
    assert_eq!(parse_i32(b"-99999999999999999999"), None);
}

#[test]
fn extract_params_takes_count_and_key() {
    let p = extract_params(Some(b"12"), Some(b"the-key")).unwrap();
    assert_eq!(p.iterations, 12);
    assert_eq!(p.key, b"the-key".to_vec());
}

#[test]
fn extract_params_falls_back_to_default_key() {
    let p = extract_params(Some(b"-3"), None).unwrap();
    assert_eq!(p.iterations, -3);
    assert_eq!(p.key, b"some sort of cache key".to_vec());
}

#[test]
fn extract_params_reports_missing_count() {
    assert_eq!(
        extract_params(None, Some(b"k")).unwrap_err(),
        ParamError::MissingIterations
    );
}

#[test]
fn extract_params_reports_invalid_count() {
    assert_eq!(
        extract_params(Some(b"many"), None).unwrap_err(),
        ParamError::InvalidIterations
    );
    assert_eq!(
        extract_params(Some(b"2147483648"), None).unwrap_err(),
        ParamError::InvalidIterations
    );
}
