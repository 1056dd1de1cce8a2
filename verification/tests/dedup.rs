use clip_sync::dedup::should_forward;

fn s(text: &str) -> String {
    text.to_string()
}

#[test]
fn different_text_is_forwarded() {
    assert!(should_forward(&s("abc"), &s("abd")));
    assert!(should_forward(&s("abc"), &s("")));
    assert!(should_forward(&s(""), &s("abc")));
}

#[test]
fn same_text_is_not_forwarded() {
    assert!(!should_forward(&s("abc"), &s("abc")));
    assert!(!should_forward(&s(""), &s("")));
}

#[test]
fn comparison_does_not_normalise_whitespace() {
    assert!(should_forward(&s("abc "), &s("abc")));
    assert!(should_forward(&s("abc\n"), &s("abc")));
    assert!(should_forward(&s(" abc"), &s("abc")));
    assert!(should_forward(&s("a\tb"), &s("a b")));
    assert!(should_forward(&s("a\r\nb"), &s("a\nb")));
}

#[test]
fn comparison_does_not_normalise_case_or_encoding() {
    assert!(should_forward(&s("ABC"), &s("abc")));
    // "é" as one scalar and as "e" followed by a combining accent.
    assert!(should_forward(&s("\u{e9}"), &s("e\u{301}")));
    assert!(!should_forward(&s("\u{e9}"), &s("\u{e9}")));
}

#[test]
fn prefix_is_a_different_text() {
    assert!(should_forward(&s("hello world"), &s("hello")));
    assert!(should_forward(&s("hello"), &s("hello world")));
}
