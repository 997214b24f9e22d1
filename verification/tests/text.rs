use website::text::{
    chars_eq, chars_of, ends_with, header_text_differs, header_value_chars, lower_ends_with,
    lower_starts_with, starts_with,
};

#[test]
fn char_helpers() {
    let s = chars_of("/Wp-Admin/x.PHP");
    assert_eq!(s.len(), 15);
    assert!(starts_with(&s, &chars_of("/Wp")));
    assert!(!starts_with(&s, &chars_of("/wp")));
    assert!(lower_starts_with(&s, &chars_of("/wp")));
    assert!(lower_ends_with(&s, &chars_of(".php")));
    assert!(!ends_with(&s, &chars_of(".php")));
    assert!(ends_with(&s, &chars_of(".PHP")));
    assert!(chars_eq(&chars_of("ab"), &chars_of("ab")));
    assert!(!chars_eq(&chars_of("ab"), &chars_of("abc")));
    assert!(!starts_with(&chars_of("a"), &chars_of("ab")));
    assert_eq!(chars_of("é🔰"), vec!['é', '🔰']);
}

#[test]
fn header_text_comparison() {
    assert!(!header_text_differs(&chars_of("host"), b"host"));
    assert!(header_text_differs(&chars_of("host"), b"hosts"));
    assert!(header_text_differs(&chars_of("host"), b"ho\x00t"));
    assert!(!header_text_differs(&chars_of(""), b"\xff"));
    assert!(header_text_differs(&chars_of("é"), b"\xc3\xa9"));
}

#[test]
fn header_value_text() {
    assert_eq!(header_value_chars(b"203.0.113.7"), Some(chars_of("203.0.113.7")));
    assert_eq!(header_value_chars(b"a\tb"), Some(vec!['a', '\t', 'b']));
    assert_eq!(header_value_chars(b"1.2.3.4\x00"), None);
    assert_eq!(header_value_chars(b"\xc3\xa9"), None);
    assert_eq!(header_value_chars(b""), Some(vec![]));
}
