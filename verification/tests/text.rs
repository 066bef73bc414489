use alleycat::text::{char_is_whitespace, decimal_text, normalized_host_name};

#[test]
fn decimal_text_writes_numerals() {
    for n in [0, 1, 9, 10, 11, 99, 100, 101, 65_536, 1_000_000_000, u32::MAX] {
        assert_eq!(decimal_text(n), n.to_string());
    }
}

#[test]
fn whitespace_is_the_unicode_property() {
    for c in '\u{0}'..=char::MAX {
        assert_eq!(char_is_whitespace(c), c.is_whitespace(), "{c:?}");
    }
}

#[test]
fn host_names_are_cleaned_up() {
    assert_eq!(normalized_host_name("box").as_deref(), Some("box"));
    assert_eq!(normalized_host_name("box.lan.").as_deref(), Some("box.lan"));
    assert_eq!(
        normalized_host_name(" \t box.local... \n").as_deref(),
        Some("box.local")
    );
    assert_eq!(
        normalized_host_name("\u{3000}b\u{fc}ro\u{a0}").as_deref(),
        Some("b\u{fc}ro")
    );
}

#[test]
fn blank_host_names_are_none() {
    for raw in ["", " ", "...", " . ", "\u{2003}..\u{2028}"] {
        assert_eq!(normalized_host_name(raw), None);
    }
}

#[test]
fn whitespace_before_trailing_dots_stays() {
    assert_eq!(normalized_host_name("box ..").as_deref(), Some("box "));
    assert_eq!(normalized_host_name(".box").as_deref(), Some(".box"));
}
