//! The text codec: null-terminated bytes on the caller's side, validated text
//! on this side.
//!
//! Borrowed text is a byte region that belongs to the caller and ends at its
//! first zero byte. Owned text is a buffer made here, handed to the caller,
//! and given back through [`release_text`].

use crate::ledger::{Footprint, Reclaimed};
use vstd::prelude::*;
use vstd::slice::slice_subrange;
use vstd::string::*;
use vstd::utf8::*;

verus! {

/// The byte that ends a text on the caller's side.
pub const NUL: u8 = 0;

/// Whether the text holds the character U+0000, whose encoding is the
/// terminator itself.
pub open spec fn embeds_nul(text: Seq<char>) -> bool {
    text.contains('\0')
}

/// The owned buffer for a text: its UTF-8 bytes and one terminator. A text
/// that embeds the terminator has none.
pub open spec fn encoded(text: Seq<char>) -> Option<Seq<u8>> {
    if embeds_nul(text) {
        None
    } else {
        Some(encode_utf8(text).push(NUL))
    }
}

/// The text that a borrowed region holds: the bytes before its first
/// terminator, read as UTF-8. A null region, one without a terminator, and
/// one whose bytes are not UTF-8 hold none.
pub open spec fn decoded(borrowed: Option<Seq<u8>>) -> Option<Seq<char>> {
    match borrowed {
        None => None,
        Some(bytes) => match bytes.index_of_first(NUL) {
            None => None,
            Some(end) => if valid_utf8(bytes.take(end)) {
                Some(decode_utf8(bytes.take(end)))
            } else {
                None
            },
        },
    }
}

/// [`decoded`] of a borrowed slice.
pub open spec fn borrowed_text(borrowed: Option<&[u8]>) -> Option<Seq<char>> {
    match borrowed {
        None => None,
        Some(bytes) => decoded(Some(bytes@)),
    }
}

/// What an exported text field holds: the text, or null where the text
/// embeds the terminator.
pub open spec fn exported(text: Seq<char>) -> Option<Seq<char>> {
    if embeds_nul(text) {
        None
    } else {
        Some(text)
    }
}

proof fn lemma_one_byte_nul(v: u32)
    by (bit_vector)
    requires
        v <= 0x7F,
    ensures
        ((v & 0x7F) as u8 == 0) <==> v == 0,
{
}

proof fn lemma_marked_bytes_not_nul(v: u32)
    by (bit_vector)
    ensures
        0xC0u8 | ((v >> 6) & 0x1F) as u8 != 0,
        0xE0u8 | ((v >> 12) & 0x0F) as u8 != 0,
        0xF0u8 | ((v >> 18) & 0x7) as u8 != 0,
        0x80u8 | (v & 0x3F) as u8 != 0,
        0x80u8 | ((v >> 6) & 0x3F) as u8 != 0,
        0x80u8 | ((v >> 12) & 0x3F) as u8 != 0,
{
}

/// An element is in a concatenation exactly when it is in one of the parts.
proof fn lemma_contains_concat<A>(front: Seq<A>, back: Seq<A>, needle: A)
    ensures
        (front + back).contains(needle) <==> front.contains(needle) || back.contains(needle),
{
    let whole = front + back;
    if front.contains(needle) {
        let i = choose|i: int| 0 <= i < front.len() && front[i] == needle;
        assert(whole[i] == needle);
    }
    if back.contains(needle) {
        let i = choose|i: int| 0 <= i < back.len() && back[i] == needle;
        assert(whole[front.len() + i] == needle);
    }
    if whole.contains(needle) {
        let i = choose|i: int| 0 <= i < whole.len() && whole[i] == needle;
        if i < front.len() {
            assert(front[i] == needle);
        } else {
            assert(back[i - front.len()] == needle);
        }
    }
}

/// Only U+0000 has a zero byte in its encoding.
proof fn lemma_scalar_nul(c: char)
    ensures
        encode_scalar(c as u32).contains(NUL) <==> c == '\0',
{
    let v = c as u32;
    let bytes = encode_scalar(v);
    lemma_marked_bytes_not_nul(v);
    if has_width_1_encoding(v) {
        lemma_one_byte_nul(v);
        assert(bytes[0] == (v & 0x7F) as u8);
    }
    if bytes.contains(NUL) {
        let i = choose|i: int| 0 <= i < bytes.len() && bytes[i] == NUL;
        assert(bytes[i] == NUL);
        assert(v == 0);
    }
    if v == 0 {
        assert(bytes[0] == NUL);
    }
}

/// A text embeds the terminator exactly when its UTF-8 bytes hold a zero.
pub proof fn lemma_nul_byte_iff_nul_char(text: Seq<char>)
    ensures
        encode_utf8(text).contains(NUL) <==> embeds_nul(text),
    decreases text.len(),
{
    if text.len() == 0 {
        assert(!encode_utf8(text).contains(NUL));
        assert(!text.contains('\0'));
    } else {
        let first = seq![text[0]];
        let rest = text.drop_first();
        lemma_scalar_nul(text[0]);
        lemma_nul_byte_iff_nul_char(rest);
        lemma_contains_concat(encode_scalar(text[0] as u32), encode_utf8(rest), NUL);
        lemma_contains_concat(first, rest, '\0');
        assert(text =~= first + rest);
        assert(first.contains('\0') <==> text[0] == '\0') by {
            if first.contains('\0') {
                let i = choose|i: int| 0 <= i < first.len() && first[i] == '\0';
                assert(first[i] == text[0]);
            }
            if text[0] == '\0' {
                assert(first[0] == '\0');
            }
        }
    }
}

/// The buffer made for a text ends at its own terminator and holds no other.
pub proof fn lemma_encoded_terminator(text: Seq<char>)
    requires
        !embeds_nul(text),
    ensures
        encoded(text)->0.index_of_first(NUL) == Some(encode_utf8(text).len() as int),
        encoded(text)->0.take(encode_utf8(text).len() as int) == encode_utf8(text),
{
    let body = encode_utf8(text);
    let bytes = body.push(NUL);
    lemma_nul_byte_iff_nul_char(text);
    bytes.index_of_first_ensures(NUL);
    assert(bytes[body.len() as int] == NUL);
}

/// Encoding a text and decoding the buffer gives the text back, and a text
/// that embeds the terminator is not encoded at all.
pub proof fn lemma_text_round_trip(text: Seq<char>)
    ensures
        !embeds_nul(text) ==> decoded(encoded(text)) == Some(text),
        embeds_nul(text) ==> encoded(text) is None,
{
    if !embeds_nul(text) {
        lemma_encoded_terminator(text);
        encode_utf8_valid_utf8(text);
        encode_utf8_decode_utf8(text);
    }
}

/// Validates a byte slice as UTF-8 with `core::str::from_utf8`: the slice is
/// accepted exactly when it is well-formed UTF-8, and the text returned is
/// the one those bytes encode.
#[verifier::external_body]
fn utf8_text(bytes: &[u8]) -> (text: Option<&str>)
    ensures
        text is Some <==> valid_utf8(bytes@),
        text is Some ==> text->0.spec_bytes() == bytes@,
{
    core::str::from_utf8(bytes).ok()
}

/// The position of the first terminator in a region, if it has one.
fn find_terminator(bytes: &[u8]) -> (end: Option<usize>)
    ensures
        end is Some <==> bytes@.index_of_first(NUL) is Some,
        end is Some ==> bytes@.index_of_first(NUL) == Some(end->0 as int) && end->0 < bytes@.len(),
{
    let mut i: usize = 0;
    while i < bytes.len()
        invariant
            i <= bytes.len(),
            forall|j: int| 0 <= j < i ==> bytes@[j] != NUL,
        decreases bytes.len() - i,
    {
        if bytes[i] == NUL {
            proof {
                bytes@.index_of_first_ensures(NUL);
            }
            return Some(i);
        }
        i += 1;
    }
    proof {
        bytes@.index_of_first_ensures(NUL);
    }
    None
}

/// Reads borrowed text into an owned string. The region is only read during
/// the call.
pub fn cstr_to_string(s: Option<&[u8]>) -> (text: Option<String>)
    ensures
        text is Some <==> borrowed_text(s) is Some,
        text is Some ==> text->0@ == borrowed_text(s)->0,
{
    let bytes = match s {
        None => {
            return None;
        },
        Some(bytes) => bytes,
    };
    let end: usize = match find_terminator(bytes) {
        None => {
            return None;
        },
        Some(end) => end,
    };
    let body = slice_subrange(bytes, 0, end);
    match utf8_text(body) {
        None => None,
        Some(text) => {
            proof {
                encode_utf8_decode_utf8(text@);
            }
            Some(text.to_owned())
        },
    }
}

/// A text buffer made on this side of the boundary: the UTF-8 bytes of a
/// text without U+0000, and one terminator.
#[derive(Debug)]
pub struct OwnedText {
    bytes: Vec<u8>,
}

impl View for OwnedText {
    type V = Seq<char>;

    closed spec fn view(&self) -> Seq<char> {
        decode_utf8(self.bytes@.drop_last())
    }
}

impl OwnedText {
    #[verifier::type_invariant]
    spec fn well_formed(self) -> bool {
        encoded(self@) == Some(self.bytes@)
    }

    /// The bytes of the buffer, terminator included.
    pub closed spec fn bytes(&self) -> Seq<u8> {
        self.bytes@
    }

    /// The buffer as the caller sees it.
    pub fn as_bytes(&self) -> (bytes: &[u8])
        ensures
            bytes@ == self.bytes(),
            encoded(self@) == Some(self.bytes()),
    {
        proof {
            use_type_invariant(self);
        }
        self.bytes.as_slice()
    }

    /// The text that the buffer holds.
    pub fn text(&self) -> (text: String)
        ensures
            text@ == self@,
    {
        let bytes = self.as_bytes();
        proof {
            lemma_text_round_trip(self@);
        }
        cstr_to_string(Some(bytes)).unwrap()
    }

    /// Gives the buffer up as plain bytes, terminator included.
    pub fn into_bytes(self) -> (bytes: Vec<u8>)
        ensures
            bytes@ == self.bytes(),
            encoded(self@) == Some(self.bytes()),
    {
        proof {
            use_type_invariant(&self);
        }
        self.bytes
    }

    /// Takes back a buffer that [`OwnedText::into_bytes`] gave up. Bytes that
    /// are not the buffer of any text are refused.
    pub fn from_bytes_with_nul(bytes: Vec<u8>) -> (owned: Option<OwnedText>)
        ensures
            owned is Some <==> exists|text: Seq<char>| encoded(text) == Some(bytes@),
            owned is Some ==> owned->0.bytes() == bytes@ && encoded(owned->0@) == Some(bytes@),
    {
        let len: usize = bytes.len();
        let end: usize = match find_terminator(bytes.as_slice()) {
            None => {
                proof {
                    assert forall|text: Seq<char>| encoded(text) != Some(bytes@) by {
                        if !embeds_nul(text) {
                            lemma_encoded_terminator(text);
                        }
                    }
                }
                return None;
            },
            Some(end) => end,
        };
        if end + 1 != len {
            proof {
                assert forall|text: Seq<char>| encoded(text) != Some(bytes@) by {
                    if !embeds_nul(text) {
                        lemma_encoded_terminator(text);
                    }
                }
            }
            return None;
        }
        let valid = utf8_text(slice_subrange(bytes.as_slice(), 0, end)).is_some();
        proof {
            let body = bytes@.take(end as int);
            bytes@.index_of_first_ensures(NUL);
            if valid {
                decode_utf8_encode_utf8(body);
                let text = decode_utf8(body);
                lemma_nul_byte_iff_nul_char(text);
                assert(encoded(text) == Some(bytes@));
            } else {
                assert forall|text: Seq<char>| encoded(text) != Some(bytes@) by {
                    if encoded(text) == Some(bytes@) {
                        lemma_encoded_terminator(text);
                        encode_utf8_valid_utf8(text);
                    }
                }
            }
        }
        if valid {
            Some(OwnedText { bytes })
        } else {
            None
        }
    }
}

/// Makes the owned buffer for a text. A text that embeds the terminator
/// cannot be represented and gives null.
pub fn string_to_cstr(s: &str) -> (owned: Option<OwnedText>)
    ensures
        owned is Some <==> !embeds_nul(s@),
        owned is Some ==> owned->0@ == s@,
{
    let source = s.as_bytes();
    let mut bytes: Vec<u8> = Vec::new();
    let mut i: usize = 0;
    while i < source.len()
        invariant
            i <= source.len(),
            source@ == encode_utf8(s@),
            bytes@ == source@.take(i as int),
            forall|j: int| 0 <= j < i ==> source@[j] != NUL,
        decreases source.len() - i,
    {
        let byte: u8 = source[i];
        if byte == NUL {
            proof {
                lemma_nul_byte_iff_nul_char(s@);
            }
            return None;
        }
        bytes.push(byte);
        i += 1;
    }
    bytes.push(NUL);
    proof {
        lemma_nul_byte_iff_nul_char(s@);
        assert(source@.take(i as int) =~= source@);
        assert(bytes@.drop_last() =~= encode_utf8(s@));
        encode_utf8_decode_utf8(s@);
    }
    Some(OwnedText { bytes })
}

/// The text that a string-returning entry point exports for an outcome of
/// its pipeline: the first text, where the pipeline succeeded and gave one
/// that can be represented.
pub open spec fn first_exported(outcome: Option<Vec<String>>) -> Option<Seq<char>> {
    match outcome {
        None => None,
        Some(texts) => if texts@.len() == 0 {
            None
        } else {
            exported(texts@[0]@)
        },
    }
}

/// Exports the first text of an outcome, or null where there is none.
pub fn export_first(outcome: &Option<Vec<String>>) -> (owned: Option<OwnedText>)
    ensures
        owned is Some <==> first_exported(*outcome) is Some,
        owned is Some ==> owned->0@ == first_exported(*outcome)->0,
{
    match outcome {
        None => None,
        Some(texts) => if texts.len() == 0 {
            None
        } else {
            string_to_cstr(texts[0].as_str())
        },
    }
}

/// What an owned text field holds across the boundary.
pub open spec fn text_footprint(owned: Option<OwnedText>) -> Footprint {
    match owned {
        None => Footprint::nothing(),
        Some(_) => Footprint { texts: 1, arrays: 0, boxes: 0 },
    }
}

/// Releases an owned text. Null is accepted and releases nothing.
pub fn release_text(owned: Option<OwnedText>) -> (reclaimed: Reclaimed)
    ensures
        reclaimed@ == text_footprint(owned),
{
    match owned {
        None => Reclaimed::nothing(),
        Some(_) => Reclaimed { texts: 1, arrays: 0, boxes: 0 },
    }
}

} // verus!
