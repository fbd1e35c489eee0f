use lyrics_plus::text::{ascii_lowercase, chars_of, collapse_whitespace, parse_u16, split_chars, trim_str};

fn s(chars: &Vec<char>) -> String {
    chars.iter().collect()
}

#[test]
fn trim_removes_unicode_white_space_at_both_ends() {
    assert_eq!(s(&trim_str("\u{3000} a b \t\n")), "a b");
    assert_eq!(s(&trim_str("   ")), "");
}

#[test]
fn collapse_whitespace_keeps_single_spaces_between_words() {
    let v = chars_of("  Test \t  Song\n");
    assert_eq!(s(&collapse_whitespace(&v)), "Test Song");
    assert_eq!(s(&collapse_whitespace(&chars_of(""))), "");
}

#[test]
fn ascii_lowercase_leaves_other_letters() {
    assert_eq!(s(&ascii_lowercase(&chars_of("ÀB Ç"))), "Àb Ç");
}

#[test]
fn split_chars_keeps_empty_pieces() {
    let pieces = split_chars(&chars_of("a,,b,"), ',');
    let texts: Vec<String> = pieces.iter().map(|p| s(p)).collect();
    assert_eq!(texts, vec!["a", "", "b", ""]);
}

#[test]
fn parse_u16_accepts_digits_in_range_only() {
    assert_eq!(parse_u16(&chars_of("8787")), Some(8787));
    assert_eq!(parse_u16(&chars_of("+42")), Some(42));
    assert_eq!(parse_u16(&chars_of("65535")), Some(65535));
    assert_eq!(parse_u16(&chars_of("65536")), None);
    assert_eq!(parse_u16(&chars_of("")), None);
    assert_eq!(parse_u16(&chars_of("12a")), None);
}
