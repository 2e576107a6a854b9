use surface_handoff::char_is_whitespace;
use surface_handoff::is_ascii_digit;
use surface_handoff::is_whitespace;
use surface_handoff::parse_integer;
use surface_handoff::parse_legacy_font_size;
use surface_handoff::parse_length_token;
use surface_handoff::parse_unsigned_integer;
use surface_handoff::search_index;
use surface_handoff::slice_chars;
use surface_handoff::split_html_space_chars;
use surface_handoff::str_join;
use surface_handoff::trim_whitespace;
use surface_handoff::DimensionToken;
use surface_handoff::DOMString;
use surface_handoff::InlinedString;
use surface_handoff::LowercaseString;

#[test]
fn whitespace_classification() {
    assert!(char_is_whitespace(' '));
    assert!(char_is_whitespace('\t'));
    assert!(char_is_whitespace('\n'));
    assert!(char_is_whitespace('\r'));
    assert!(char_is_whitespace('\x0c'));
    assert!(!char_is_whitespace('x'));
    assert!(is_whitespace(""));
    assert!(is_whitespace("  \t\n"));
    assert!(!is_whitespace(" a "));
}

#[test]
fn trimming_strips_html_whitespace_only() {
    assert_eq!(trim_whitespace("  hello \t"), "hello");
    assert_eq!(trim_whitespace(""), "");
    assert_eq!(trim_whitespace("   "), "");
    assert_eq!(trim_whitespace("a"), "a");
}

#[test]
fn splitting_drops_empty_pieces() {
    let parts = split_html_space_chars("  one\ttwo  three ");
    assert_eq!(parts, vec!["one", "two", "three"]);
    let none = split_html_space_chars("   ");
    assert!(none.is_empty());
}

#[test]
fn joining_inserts_the_separator_between_elements() {
    let parts = vec![String::from("a"), String::from("b"), String::from("c")];
    assert_eq!(str_join(&parts, ", "), "a, b, c");
    let one = vec![String::from("solo")];
    assert_eq!(str_join(&one, ", "), "solo");
    let empty: Vec<String> = Vec::new();
    assert_eq!(str_join(&empty, ", "), "");
}

#[test]
fn integer_parsing_follows_the_html_rules() {
    assert_eq!(parse_integer("42"), Some(42));
    assert_eq!(parse_integer("  -17"), Some(-17));
    assert_eq!(parse_integer("+8 and change"), Some(8));
    assert_eq!(parse_integer(""), None);
    assert_eq!(parse_integer("x12"), None);
    assert_eq!(parse_integer("-"), None);
    assert_eq!(parse_integer("2147483647"), Some(2147483647));
    assert_eq!(parse_integer("2147483648"), None, "too wide for 32 bits");
    assert_eq!(parse_integer("99999999999999999999999"), None, "overflows 64 bits");
}

#[test]
fn unsigned_integer_parsing_rejects_negatives() {
    assert_eq!(parse_unsigned_integer("311"), Some(311));
    assert_eq!(parse_unsigned_integer("-1"), None);
    assert_eq!(parse_unsigned_integer("4294967295"), Some(4294967295));
    assert_eq!(parse_unsigned_integer("4294967296"), None);
}

#[test]
fn digit_classification() {
    assert!(is_ascii_digit(&'0'));
    assert!(is_ascii_digit(&'9'));
    assert!(!is_ascii_digit(&'a'));
    assert!(!is_ascii_digit(&'/'));
}

#[test]
fn legacy_font_sizes_map_to_keywords() {
    assert_eq!(parse_legacy_font_size("3"), Some("medium"));
    assert_eq!(parse_legacy_font_size("7"), Some("xxx-large"));
    assert_eq!(parse_legacy_font_size("42"), Some("xxx-large"));
    assert_eq!(parse_legacy_font_size("0"), Some("x-small"));
    assert_eq!(parse_legacy_font_size("+2"), Some("x-large"));
    assert_eq!(parse_legacy_font_size("-1"), Some("small"));
    assert_eq!(parse_legacy_font_size(" 5 "), Some("x-large"));
    assert_eq!(parse_legacy_font_size(""), None);
    assert_eq!(parse_legacy_font_size("big"), None);
}

#[test]
fn dimension_tokens_cut_the_numeric_prefix() {
    assert_eq!(parse_length_token("100"), DimensionToken::Length(String::from("100")));
    assert_eq!(parse_length_token("  +25%"), DimensionToken::Percentage(String::from("25")));
    assert_eq!(parse_length_token("1.5em"), DimensionToken::Length(String::from("1.5")));
    assert_eq!(parse_length_token("1.2.3"), DimensionToken::Length(String::from("1.2")));
    assert_eq!(parse_length_token("auto"), DimensionToken::Auto);
    assert_eq!(parse_length_token(""), DimensionToken::Auto);
    assert_eq!(parse_length_token(".5"), DimensionToken::Auto);
}

#[test]
fn search_index_counts_characters_to_a_byte_offset() {
    // Multi-byte characters shift the byte offsets of their followers.
    let s = "a\u{e9}b";
    assert_eq!(search_index(0, s), 0);
    assert_eq!(search_index(1, s), 1);
    assert_eq!(search_index(3, s), 2);
    assert_eq!(search_index(2, s), 3, "no character starts inside the two-byte one");
}

#[test]
fn slice_chars_cuts_by_character_positions() {
    assert_eq!(slice_chars("hello", 1, 4), "ell");
    assert_eq!(slice_chars("a\u{e9}b", 1, 2), "\u{e9}");
    assert_eq!(slice_chars("abc", 2, 2), "");
}

#[test]
fn dom_string_operations() {
    let mut s = DOMString::new();
    assert_eq!(s.str(), "");
    s.push_str("hello");
    s.push_str(" world");
    assert_eq!(s.str(), "hello world");
    s.clear();
    assert_eq!(s.str(), "");
    let t = DOMString::from_str_slice("abc");
    assert_eq!(t.str(), "abc");
    let u = DOMString::from_string(String::from("xyz"));
    assert_eq!(u.str(), "xyz");
}

#[test]
fn inlined_string_holds_short_text() {
    let s = InlinedString::new("short enough");
    assert_eq!(s.str(), "short enough");
}

#[test]
fn lowercase_string_folds_case() {
    let s = LowercaseString::new("MiXeD Case");
    assert_eq!(s.str(), "mixed case");
    let t = LowercaseString::new("");
    assert_eq!(t.str(), "");
}
