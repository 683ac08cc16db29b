use gnosis_vpn::text::decimal_string;
use gnosis_vpn::text::eq_ignore_ascii_case;
use gnosis_vpn::text::find_nth;
use gnosis_vpn::text::join;
use gnosis_vpn::text::parse_unsigned;
use gnosis_vpn::text::same_text;

#[test]
fn decimal_numerals() {
    assert_eq!(decimal_string(0), "0");
    assert_eq!(decimal_string(7), "7");
    assert_eq!(decimal_string(10), "10");
    assert_eq!(decimal_string(51820), "51820");
    assert_eq!(decimal_string(u64::MAX), "18446744073709551615");
}

#[test]
fn unsigned_numerals_are_read() {
    assert_eq!(parse_unsigned("0", 65535), Some(0));
    assert_eq!(parse_unsigned("60006", 65535), Some(60006));
    assert_eq!(parse_unsigned("65535", 65535), Some(65535));
    assert_eq!(parse_unsigned("+7", 65535), Some(7));
    assert_eq!(parse_unsigned("007", 65535), Some(7));
}

#[test]
fn what_is_no_numeral_is_refused() {
    assert_eq!(parse_unsigned("", 65535), None);
    assert_eq!(parse_unsigned("+", 65535), None);
    assert_eq!(parse_unsigned("-1", 65535), None);
    assert_eq!(parse_unsigned("abc", 65535), None);
    assert_eq!(parse_unsigned("12a", 65535), None);
    assert_eq!(parse_unsigned("65536", 65535), None);
    assert_eq!(parse_unsigned("++1", 65535), None);
    assert_eq!(parse_unsigned("1+", 65535), None);
}

#[test]
fn numerals_agree_with_the_standard_library() {
    for text in ["0", "1", "+1", "-1", "", "65535", "65536", "0065535", " 1", "1 ", "٣"] {
        assert_eq!(parse_unsigned(text, 65535), text.parse::<u16>().ok().map(u64::from), "{text:?}");
    }
}

#[test]
fn case_is_ignored_for_ascii_only() {
    assert!(eq_ignore_ascii_case("wg-server:51820", "WG-Server:51820"));
    assert!(eq_ignore_ascii_case("", ""));
    assert!(!eq_ignore_ascii_case("a", "b"));
    assert!(!eq_ignore_ascii_case("a", "aa"));
    assert!(!eq_ignore_ascii_case("ä", "Ä"));
    assert!(eq_ignore_ascii_case("Zz@[", "zZ@["));
    assert!(!eq_ignore_ascii_case("@", "`"));
}

#[test]
fn texts_are_compared() {
    assert!(same_text("abc", "abc"));
    assert!(!same_text("abc", "abd"));
    assert!(!same_text("abc", "ab"));
}

#[test]
fn occurrences_are_counted_from_one() {
    assert_eq!(find_nth("a.b.c.d", '.', 1), Some(1));
    assert_eq!(find_nth("a.b.c.d", '.', 3), Some(5));
    assert_eq!(find_nth("a.b.c.d", '.', 4), None);
    assert_eq!(find_nth("a.b.c.d", '.', 0), None);
    assert_eq!(find_nth("", '.', 1), None);
    assert_eq!(find_nth("é.x", '.', 1), Some(1));
}

#[test]
fn texts_are_joined() {
    assert_eq!(join(&vec![], ", "), "");
    assert_eq!(join(&vec!["a".to_string()], ", "), "a");
    assert_eq!(join(&vec!["a".to_string(), "b".to_string(), "c".to_string()], " | "), "a | b | c");
}
