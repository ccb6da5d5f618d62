use sdk::text::{same, str_of, text_of, Str};

#[test]
fn nothing_lent_is_the_empty_text_whatever_the_pointer() {
    assert_eq!(text_of(Str::empty()), Some(""));
    assert_eq!(text_of(Str::Null { len: 0 }), Some(""));
    assert_eq!(text_of(Str::Bytes(&[])), Some(""));
}

#[test]
fn a_null_pointer_to_some_bytes_is_no_text() {
    assert_eq!(text_of(Str::Null { len: 1 }), None);
}

#[test]
fn bytes_are_text_exactly_when_they_are_utf8() {
    assert_eq!(text_of(Str::Bytes(b"x.xsd")), Some("x.xsd"));
    assert_eq!(text_of(Str::Bytes(&[0xc3, 0xa5])), Some("\u{e5}"));
    assert_eq!(text_of(Str::Bytes(&[0xf0, 0x9f, 0x9a, 0x8c])), Some("\u{1f68c}"));
    assert_eq!(text_of(Str::Bytes(&[b'o', b'k', 0xff])), None);
    assert_eq!(text_of(Str::Bytes(&[0xc3])), None, "cut short");
    assert_eq!(text_of(Str::Bytes(&[0xc0, 0x80])), None, "overlong");
    assert_eq!(text_of(Str::Bytes(&[0xed, 0xa0, 0x80])), None, "a surrogate");
    assert_eq!(text_of(Str::Bytes(&[0xf4, 0x90, 0x80, 0x80])), None, "too large");
}

#[test]
fn text_lent_is_read_back() {
    for text in ["", "orders", "\u{e5}\u{e4}\u{f6}", "\u{1f68c} bus"] {
        assert_eq!(text_of(str_of(text)), Some(text));
    }
    assert!(matches!(str_of("\u{e5}"), Str::Bytes(&[0xc3, 0xa5])));
}

#[test]
fn texts_are_the_same_when_their_characters_are() {
    assert!(same("version", "version"));
    assert!(same("", ""));
    assert!(!same("version", "versions"));
    assert!(!same("version", "Version"));
    assert!(!same("\u{e5}", "a"));
}
