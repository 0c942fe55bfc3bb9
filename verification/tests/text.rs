use world_tables::text::{digit_of, parse_usize, usize_to_string};

#[test]
fn parse_reads_plain_digits() {
    assert_eq!(parse_usize("0"), Some(0));
    assert_eq!(parse_usize("7"), Some(7));
    assert_eq!(parse_usize("195"), Some(195));
    assert_eq!(parse_usize("000195"), Some(195));
}

#[test]
fn parse_takes_one_leading_plus() {
    assert_eq!(parse_usize("+42"), Some(42));
    assert_eq!(parse_usize("++42"), None);
    assert_eq!(parse_usize("+"), None);
}

#[test]
fn parse_refuses_what_is_no_number() {
    assert_eq!(parse_usize(""), None);
    assert_eq!(parse_usize("-1"), None);
    assert_eq!(parse_usize(" 1"), None);
    assert_eq!(parse_usize("1 "), None);
    assert_eq!(parse_usize("12a"), None);
    assert_eq!(parse_usize("1.5"), None);
    assert_eq!(parse_usize("\u{0661}"), None);
}

#[test]
fn parse_agrees_with_std_at_the_limit() {
    let max = usize::MAX.to_string();
    assert_eq!(parse_usize(&max), Some(usize::MAX));
    let mut over = max.clone();
    over.push('0');
    assert_eq!(parse_usize(&over), None);
    assert_eq!(parse_usize("18446744073709551616"), "18446744073709551616".parse::<usize>().ok());
    assert_eq!(parse_usize("99999999999999999999999999"), None);
}

#[test]
fn parse_agrees_with_std_on_samples() {
    for text in ["", "+", "+0", "0", "12", "+12", "-12", "1_000", "0x10", "٣", "007", " 7", "7\n"] {
        assert_eq!(parse_usize(text), text.parse::<usize>().ok(), "{:?}", text);
    }
}

#[test]
fn decimal_text_has_no_sign_and_no_leading_zero() {
    assert_eq!(usize_to_string(0), "0");
    assert_eq!(usize_to_string(9), "9");
    assert_eq!(usize_to_string(10), "10");
    assert_eq!(usize_to_string(195), "195");
    assert_eq!(usize_to_string(1_000_000), "1000000");
    assert_eq!(usize_to_string(usize::MAX), usize::MAX.to_string());
}

#[test]
fn decimal_text_reads_back() {
    for n in [0usize, 1, 9, 10, 11, 99, 100, 101, 12345, usize::MAX - 1, usize::MAX] {
        assert_eq!(parse_usize(&usize_to_string(n)), Some(n));
    }
}

#[test]
fn digit_of_knows_the_ten_digits() {
    assert_eq!(digit_of('0'), Some(0));
    assert_eq!(digit_of('5'), Some(5));
    assert_eq!(digit_of('9'), Some(9));
    assert_eq!(digit_of('a'), None);
    assert_eq!(digit_of('+'), None);
    assert_eq!(digit_of('/'), None);
    assert_eq!(digit_of(':'), None);
}
