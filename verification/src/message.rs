//! The values that cross the bridge: the cached clipboard text, the message
//! sent for a local change, and the message delivered by the broker.

use vstd::prelude::*;
use vstd::string::*;
use vstd::utf8::*;

verus! {

/// The clipboard text last known to the bridge. It serves change detection
/// only and is never persisted.
#[derive(Debug, PartialEq, Eq)]
pub struct ClipboardSnapshot {
    pub text: String,
}

impl View for ClipboardSnapshot {
    type V = Seq<char>;

    open spec fn view(&self) -> Seq<char> {
        self.text@
    }
}

impl Clone for ClipboardSnapshot {
    fn clone(&self) -> (copy: ClipboardSnapshot)
        ensures
            copy@ == self@,
    {
        ClipboardSnapshot { text: self.text.clone() }
    }
}

impl ClipboardSnapshot {
    /// The snapshot of a bridge that has not seen any clipboard text yet.
    pub fn empty() -> (snapshot: ClipboardSnapshot)
        ensures
            snapshot@ == Seq::<char>::empty(),
    {
        ClipboardSnapshot { text: String::new() }
    }
}

/// A local clipboard change on its way to the broker.
#[derive(Debug, PartialEq, Eq)]
pub struct OutboundMessage {
    pub content: String,
}

impl View for OutboundMessage {
    type V = Seq<char>;

    open spec fn view(&self) -> Seq<char> {
        self.content@
    }
}

impl Clone for OutboundMessage {
    fn clone(&self) -> (copy: OutboundMessage)
        ensures
            copy@ == self@,
    {
        OutboundMessage { content: self.content.clone() }
    }
}

/// The bytes that carry `content` on the wire: its UTF-8 encoding, with no
/// envelope around it.
pub open spec fn payload_of(content: Seq<char>) -> Seq<u8> {
    encode_utf8(content)
}

impl OutboundMessage {
    /// The payload published for this message.
    pub fn payload(&self) -> (bytes: Vec<u8>)
        ensures
            bytes@ == payload_of(self@),
    {
        self.content.as_str().as_bytes_vec()
    }
}

/// A payload delivered by the broker.
#[derive(Debug, PartialEq, Eq)]
pub struct InboundMessage {
    pub content: Vec<u8>,
}

impl View for InboundMessage {
    type V = Seq<u8>;

    open spec fn view(&self) -> Seq<u8> {
        self.content@
    }
}

impl Clone for InboundMessage {
    fn clone(&self) -> (copy: InboundMessage)
        ensures
            copy@ == self@,
    {
        InboundMessage { content: self.content.clone() }
    }
}

/// The text that a payload carries: its decoding where the bytes are valid
/// UTF-8, nothing otherwise.
pub open spec fn text_of(payload: Seq<u8>) -> Option<Seq<char>> {
    if valid_utf8(payload) {
        Some(decode_utf8(payload))
    } else {
        None
    }
}

/// Calls `String::from_utf8`. Trusted: the call succeeds exactly on valid
/// UTF-8, and the string it then returns is made of the bytes it was given.
#[verifier::external_body]
fn string_from_utf8(bytes: Vec<u8>) -> (text: Option<String>)
    ensures
        text is Some <==> valid_utf8(bytes@),
        text matches Some(s) ==> encode_utf8(s@) == bytes@,
{
    match String::from_utf8(bytes) {
        Ok(s) => Some(s),
        Err(_) => None,
    }
}

impl InboundMessage {
    /// Decodes the payload as UTF-8. A payload that is not valid UTF-8 has
    /// no text.
    pub fn decode(self) -> (text: Option<String>)
        ensures
            match text {
                Some(s) => text_of(self@) == Some(s@),
                None => text_of(self@) is None,
            },
    {
        let text = string_from_utf8(self.content);
        proof {
            if text is Some {
                encode_utf8_decode_utf8(text->0@);
            }
        }
        text
    }
}

/// A published payload always decodes, and to the text that was published.
pub proof fn lemma_payload_decodes(content: Seq<char>)
    ensures
        text_of(payload_of(content)) == Some(content),
{
    encode_utf8_valid_utf8(content);
    encode_utf8_decode_utf8(content);
}

} // verus!
