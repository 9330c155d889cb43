use gpui_ios::strings::{
    append, chars_of, digit, eq_ignore_ascii_case, is_whitespace, join, owned, push_decimal, push_signed_decimal,
    starts_with, str_eq, string_from_char, string_from_chars,
};

#[test]
fn building_strings() {
    assert_eq!(owned("abc"), "abc");
    assert_eq!(string_from_chars(&vec!['x', 'é', 'z']), "xéz");
    assert_eq!(string_from_char('q'), "q");
    assert_eq!(chars_of("añb"), vec!['a', 'ñ', 'b']);
    let mut s = String::from("ab");
    append(&mut s, "cd");
    assert_eq!(s, "abcd");
}

#[test]
fn comparing_strings() {
    assert!(starts_with("fr-CA", "fr"));
    assert!(!starts_with("f", "fr"));
    assert!(starts_with("anything", ""));
    assert!(str_eq("enter", "enter"));
    assert!(!str_eq("enter", "Enter"));
    assert!(eq_ignore_ascii_case("ZeD", "zed"));
    assert!(!eq_ignore_ascii_case("zed", "zee"));
    assert!(!eq_ignore_ascii_case("É", "é"));
}

#[test]
fn joining() {
    assert_eq!(join(&["a", "b", "c"], ", "), "a, b, c");
    assert_eq!(join(&["only"], "-"), "only");
    assert_eq!(join(&[], "-"), "");
}

#[test]
fn decimals() {
    assert_eq!(digit(7), '7');
    let mut s = String::new();
    push_decimal(&mut s, 0);
    assert_eq!(s, "0");
    let mut s = String::from("n=");
    push_decimal(&mut s, 1234567890123);
    assert_eq!(s, "n=1234567890123");
    let mut s = String::new();
    push_signed_decimal(&mut s, -25300);
    assert_eq!(s, "-25300");
    let mut s = String::new();
    push_signed_decimal(&mut s, i64::MIN);
    assert_eq!(s, i64::MIN.to_string());
    let mut s = String::new();
    push_signed_decimal(&mut s, 42);
    assert_eq!(s, "42");
}

#[test]
fn whitespace_matches_std_for_every_char() {
    for u in 0u32..=0x10FFFF {
        if let Some(c) = char::from_u32(u) {
            assert_eq!(is_whitespace(c), c.is_whitespace(), "U+{u:04X}");
        }
    }
}
