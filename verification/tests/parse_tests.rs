use mipsdecode::u32_from_str_prefix;

#[test]
fn radix_prefixes_select_the_base() {
    assert_eq!(u32_from_str_prefix("0x10"), Some(16));
    assert_eq!(u32_from_str_prefix("0o17"), Some(15));
    assert_eq!(u32_from_str_prefix("0b101"), Some(5));
    assert_eq!(u32_from_str_prefix("42"), Some(42));
}

#[test]
fn plain_decimal_and_zero() {
    assert_eq!(u32_from_str_prefix("0"), Some(0));
    assert_eq!(u32_from_str_prefix("007"), Some(7));
    assert_eq!(u32_from_str_prefix("08"), Some(8));
}

#[test]
fn hex_digits_of_either_case() {
    assert_eq!(u32_from_str_prefix("0xdeadBEEF"), Some(0xDEADBEEF));
    assert_eq!(u32_from_str_prefix("0xFF"), Some(255));
}

#[test]
fn a_leading_plus_sign_is_accepted_once() {
    assert_eq!(u32_from_str_prefix("+7"), Some(7));
    assert_eq!(u32_from_str_prefix("0x+10"), Some(16));
    assert_eq!(u32_from_str_prefix("++1"), None);
    assert_eq!(u32_from_str_prefix("+"), None);
}

#[test]
fn malformed_literals_give_nothing() {
    assert_eq!(u32_from_str_prefix(""), None);
    assert_eq!(u32_from_str_prefix("0x"), None);
    assert_eq!(u32_from_str_prefix("zz"), None);
    assert_eq!(u32_from_str_prefix("-1"), None);
    assert_eq!(u32_from_str_prefix("0b2"), None);
    assert_eq!(u32_from_str_prefix("0o8"), None);
    assert_eq!(u32_from_str_prefix("0xg"), None);
    assert_eq!(u32_from_str_prefix("1 2"), None);
    assert_eq!(u32_from_str_prefix("0X10"), None);
}

#[test]
fn an_uppercase_prefix_letter_is_not_a_prefix() {
    // `0B1` reads as decimal, where `B` is no digit
    assert_eq!(u32_from_str_prefix("0B1"), None);
}

#[test]
fn values_must_fit_in_32_bits() {
    assert_eq!(u32_from_str_prefix("4294967295"), Some(u32::MAX));
    assert_eq!(u32_from_str_prefix("4294967296"), None);
    assert_eq!(u32_from_str_prefix("0xffffffff"), Some(u32::MAX));
    assert_eq!(u32_from_str_prefix("0x100000000"), None);
    assert_eq!(u32_from_str_prefix("0x1ffffffff"), None);
}

#[test]
fn non_ascii_text_gives_nothing() {
    assert_eq!(u32_from_str_prefix("0é"), None);
    assert_eq!(u32_from_str_prefix("é"), None);
}
