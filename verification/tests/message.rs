use clip_sync::message::{ClipboardSnapshot, InboundMessage, OutboundMessage};

fn inbound(bytes: &[u8]) -> InboundMessage {
    InboundMessage { content: bytes.to_vec() }
}

#[test]
fn empty_snapshot_has_no_text() {
    assert_eq!(ClipboardSnapshot::empty().text, "");
}

#[test]
fn payload_is_the_utf8_of_the_content() {
    let message = OutboundMessage { content: "abc".to_string() };
    assert_eq!(message.payload(), vec![0x61, 0x62, 0x63]);
}

#[test]
fn payload_of_empty_content_is_empty() {
    let message = OutboundMessage { content: String::new() };
    assert_eq!(message.payload(), Vec::<u8>::new());
}

#[test]
fn payload_encodes_scalars_of_every_width() {
    // U+0041, U+00E9, U+20AC, U+1F600: one, two, three and four bytes.
    let message = OutboundMessage { content: "A\u{e9}\u{20ac}\u{1f600}".to_string() };
    assert_eq!(
        message.payload(),
        vec![0x41, 0xc3, 0xa9, 0xe2, 0x82, 0xac, 0xf0, 0x9f, 0x98, 0x80]
    );
}

#[test]
fn payload_has_no_envelope() {
    let message = OutboundMessage { content: "hello".to_string() };
    assert_eq!(message.payload().len(), 5);
}

#[test]
fn decode_gives_the_text_of_valid_utf8() {
    assert_eq!(inbound(b"hello").decode(), Some("hello".to_string()));
    assert_eq!(inbound(&[0x78, 0x79, 0x7a]).decode(), Some("xyz".to_string()));
}

#[test]
fn decode_of_empty_payload_is_empty_text() {
    assert_eq!(inbound(&[]).decode(), Some(String::new()));
}

#[test]
fn decode_reads_scalars_of_every_width() {
    let bytes = [0x41, 0xc3, 0xa9, 0xe2, 0x82, 0xac, 0xf0, 0x9f, 0x98, 0x80];
    assert_eq!(inbound(&bytes).decode(), Some("A\u{e9}\u{20ac}\u{1f600}".to_string()));
}

#[test]
fn decode_rejects_a_byte_that_never_occurs_in_utf8() {
    assert_eq!(inbound(&[0xff]).decode(), None);
    assert_eq!(inbound(&[0x68, 0x69, 0xfe]).decode(), None);
}

#[test]
fn decode_rejects_a_lone_continuation_byte() {
    assert_eq!(inbound(&[0x80]).decode(), None);
}

#[test]
fn decode_rejects_a_truncated_sequence() {
    assert_eq!(inbound(&[0xc3]).decode(), None);
    assert_eq!(inbound(&[0xe2, 0x82]).decode(), None);
    assert_eq!(inbound(&[0xf0, 0x9f, 0x98]).decode(), None);
}

#[test]
fn decode_rejects_an_overlong_encoding() {
    // "/" written with two bytes.
    assert_eq!(inbound(&[0xc0, 0xaf]).decode(), None);
    assert_eq!(inbound(&[0xe0, 0x80, 0xaf]).decode(), None);
}

#[test]
fn decode_rejects_a_surrogate() {
    assert_eq!(inbound(&[0xed, 0xa0, 0x80]).decode(), None);
}

#[test]
fn decode_rejects_a_scalar_beyond_the_last_one() {
    assert_eq!(inbound(&[0xf4, 0x90, 0x80, 0x80]).decode(), None);
    assert_eq!(inbound(&[0xf4, 0x8f, 0xbf, 0xbf]).decode(), Some("\u{10ffff}".to_string()));
}

#[test]
fn decode_rejects_valid_text_followed_by_garbage() {
    assert_eq!(inbound(&[0x61, 0x62, 0x63, 0xff]).decode(), None);
}

#[test]
fn decode_undoes_payload() {
    for text in ["", "abc", "hello world", "gr\u{fc}\u{df}e", "\u{65e5}\u{672c}\u{8a9e}", "a\nb\tc "] {
        let message = OutboundMessage { content: text.to_string() };
        assert_eq!(inbound(&message.payload()).decode(), Some(text.to_string()));
    }
}

#[test]
fn clones_are_equal_to_what_was_cloned() {
    let out = OutboundMessage { content: "abc".to_string() };
    assert_eq!(out.clone(), out);
    let inb = inbound(&[1, 2, 3]);
    assert_eq!(inb.clone(), inb);
    let snap = ClipboardSnapshot { text: "xyz".to_string() };
    assert_eq!(snap.clone(), snap);
}
