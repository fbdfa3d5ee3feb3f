//! Plain ASCII bytes and the strings they spell.

use vstd::prelude::*;
use vstd::utf8::*;

verus! {

/// Whether every byte is an ASCII code.
pub open spec fn is_ascii_bytes(bytes: Seq<u8>) -> bool {
    forall|i: int| 0 <= i < bytes.len() ==> #[trigger] bytes[i] < 128
}

/// The characters that ASCII bytes spell, one for each byte.
pub open spec fn ascii_text(bytes: Seq<u8>) -> Seq<char> {
    Seq::new(bytes.len(), |i: int| bytes[i] as char)
}

/// ASCII bytes are UTF-8 as they stand: they decode to the characters they
/// spell, and those characters encode to the same bytes.
pub proof fn lemma_ascii_is_utf8(bytes: Seq<u8>)
    requires
        is_ascii_bytes(bytes),
    ensures
        valid_utf8(bytes),
        decode_utf8(bytes) == ascii_text(bytes),
        encode_utf8(ascii_text(bytes)) == bytes,
{
    let chars = ascii_text(bytes);
    assert forall|i: int| 0 <= i < chars.len() implies '\0' <= #[trigger] chars[i] <= '\u{7f}' by {
        assert(bytes[i] < 128);
    }
    assert(is_ascii_chars(chars));
    is_ascii_chars_encode_utf8(chars);
    assert forall|i: int| 0 <= i < bytes.len() implies encode_utf8(chars)[i] == bytes[i] by {
        assert(bytes[i] < 128);
        assert(chars[i] as u8 == encode_utf8(chars)[i]);
    }
    assert(encode_utf8(chars) =~= bytes);
    encode_utf8_valid_utf8(chars);
    encode_utf8_decode_utf8(chars);
}

/// `String::from_utf8` of the standard library: the string whose UTF-8
/// encoding is the given bytes, or nothing where the bytes are not UTF-8.
#[verifier::external_body]
fn string_from_utf8(bytes: Vec<u8>) -> (text: Option<String>)
    ensures
        text is Some <==> valid_utf8(bytes@),
        text is Some ==> text->0@ == decode_utf8(bytes@),
{
    String::from_utf8(bytes).ok()
}

/// The string that the bytes encode, where they are UTF-8.
pub fn utf8_string(bytes: Vec<u8>) -> (text: Option<String>)
    ensures
        text is Some <==> valid_utf8(bytes@),
        text is Some ==> text->0@ == decode_utf8(bytes@) && encode_utf8(text->0@) == bytes@,
{
    let ghost given = bytes@;
    let text = string_from_utf8(bytes);
    proof {
        if valid_utf8(given) {
            decode_utf8_encode_utf8(given);
        }
    }
    text
}

/// The string that ASCII bytes spell.
pub(crate) fn ascii_string(bytes: Vec<u8>) -> (text: String)
    requires
        is_ascii_bytes(bytes@),
    ensures
        text@ == ascii_text(bytes@),
        encode_utf8(text@) == bytes@,
{
    proof {
        lemma_ascii_is_utf8(bytes@);
    }
    match utf8_string(bytes) {
        Some(text) => text,
        None => String::new(),
    }
}

} // verus!
