//! HTTP header values.

use crate::outside;
use vstd::prelude::*;
use vstd::slice::slice_to_vec;

verus! {

/// Whether every byte of a byte string may stand in a header value.
pub open spec fn valid_header_bytes(bytes: Seq<u8>) -> bool {
    forall|i: int| 0 <= i < bytes.len() ==> outside::is_header_byte(#[trigger] bytes[i])
}

/// The text of a header value, or nothing where a byte of it is not text.
pub open spec fn header_text(bytes: Seq<u8>) -> Option<Seq<char>> {
    if forall|i: int| 0 <= i < bytes.len() ==> outside::is_header_text_byte(#[trigger] bytes[i]) {
        Some(Seq::new(bytes.len(), |i: int| bytes[i] as char))
    } else {
        None
    }
}

/// The value of an HTTP header.
pub struct HeaderValue {
    bytes: Vec<u8>,
}

impl View for HeaderValue {
    type V = Seq<u8>;

    closed spec fn view(&self) -> Seq<u8> {
        self.bytes@
    }
}

impl HeaderValue {
    /// The header value with these bytes, where they may stand in one.
    pub fn from_bytes(bytes: &[u8]) -> (value: Option<HeaderValue>)
        ensures
            value is Some <==> valid_header_bytes(bytes@),
            value matches Some(v) ==> v@ == bytes@,
    {
        if outside::header_accepts(bytes) {
            Some(HeaderValue { bytes: slice_to_vec(bytes) })
        } else {
            None
        }
    }

    /// The bytes of the value.
    pub fn as_bytes(&self) -> (bytes: &[u8])
        ensures
            bytes@ == self@,
    {
        self.bytes.as_slice()
    }

    /// The value as text, where it is text.
    pub fn to_str(&self) -> (text: Option<String>)
        ensures
            text is Some <==> header_text(self@) is Some,
            text matches Some(t) ==> header_text(self@) == Some(t@),
    {
        let text = outside::header_to_str(self.bytes.as_slice());
        proof {
            if text is Some {
                assert(text->0@ =~= Seq::new(self@.len(), |i: int| self@[i] as char));
            }
        }
        text
    }
}

/// The characters of a header value's text: visible ASCII, the space and the
/// tab.
pub open spec fn is_header_text_char(c: char) -> bool {
    c == '\t' || ' ' <= c <= '~'
}

/// A text of visible ASCII characters, spaces and tabs is what a header value
/// with its bytes reads as.
pub proof fn lemma_ascii_header_text(text: Seq<char>)
    requires
        forall|i: int| 0 <= i < text.len() ==> is_header_text_char(#[trigger] text[i]),
    ensures
        valid_header_bytes(vstd::utf8::encode_utf8(text)),
        header_text(vstd::utf8::encode_utf8(text)) == Some(text),
{
    let bytes = vstd::utf8::encode_utf8(text);
    vstd::utf8::is_ascii_chars_encode_utf8(text);
    assert(bytes.len() == text.len());
    assert forall|i: int| 0 <= i < bytes.len() implies outside::is_header_text_byte(
        #[trigger] bytes[i],
    ) && bytes[i] as char == text[i] by {
        assert(bytes[i] == text[i] as u8);
    }
    assert(Seq::new(bytes.len(), |i: int| bytes[i] as char) =~= text);
}

} // verus!
