//! Lower-case hexadecimal text, the form in which tokens carry their bytes.
//!
//! Every byte becomes two digits, high nibble first. Only the digits `0-9`
//! and `a-f` are read back, so a byte string has exactly one text and a text
//! at most one byte string.

use vstd::prelude::*;

verus! {

/// The digit that stands for a nibble (a value below 16).
pub open spec fn hex_digit(nibble: int) -> u8 {
    if nibble < 10 {
        (48 + nibble) as u8
    } else {
        (87 + nibble) as u8
    }
}

/// Whether a byte is one of `0-9` or `a-f`.
pub open spec fn is_hex_digit(digit: u8) -> bool {
    (48 <= digit <= 57) || (97 <= digit <= 102)
}

/// The nibble that a digit stands for.
pub open spec fn hex_value(digit: u8) -> int {
    if digit <= 57 {
        digit - 48
    } else {
        digit - 87
    }
}

/// The text of a byte string.
pub open spec fn hex_encode(bytes: Seq<u8>) -> Seq<u8> {
    Seq::new(
        2 * bytes.len(),
        |i: int|
            if i % 2 == 0 {
                hex_digit(bytes[i / 2] as int / 16)
            } else {
                hex_digit(bytes[i / 2] as int % 16)
            },
    )
}

/// Whether a text is the text of some byte string: an even number of digits.
pub open spec fn is_hex(text: Seq<u8>) -> bool {
    &&& text.len() % 2 == 0
    &&& forall|i: int| 0 <= i < text.len() ==> is_hex_digit(#[trigger] text[i])
}

/// The byte string that a text stands for, if it stands for one.
pub open spec fn hex_decode(text: Seq<u8>) -> Option<Seq<u8>> {
    if is_hex(text) {
        Some(
            Seq::new(
                text.len() / 2,
                |i: int| (hex_value(text[2 * i]) * 16 + hex_value(text[2 * i + 1])) as u8,
            ),
        )
    } else {
        None
    }
}

fn digit_of(nibble: u8) -> (digit: u8)
    requires
        nibble < 16,
    ensures
        digit == hex_digit(nibble as int),
        is_hex_digit(digit),
        hex_value(digit) == nibble,
{
    if nibble < 10 {
        48 + nibble
    } else {
        87 + nibble
    }
}

fn value_of(digit: u8) -> (nibble: Option<u8>)
    ensures
        nibble is Some <==> is_hex_digit(digit),
        nibble is Some ==> nibble->0 == hex_value(digit) && nibble->0 < 16,
{
    if 48 <= digit && digit <= 57 {
        Some(digit - 48)
    } else if 97 <= digit && digit <= 102 {
        Some(digit - 87)
    } else {
        None
    }
}

/// Writes a byte string as text.
pub fn encode(bytes: &[u8]) -> (text: Vec<u8>)
    ensures
        text@ == hex_encode(bytes@),
{
    let mut text: Vec<u8> = Vec::new();
    let mut i: usize = 0;
    while i < bytes.len()
        invariant
            i <= bytes.len(),
            text@.len() == 2 * i,
            forall|k: int| 0 <= k < 2 * i ==> text@[k] == #[trigger] hex_encode(bytes@)[k],
        decreases bytes.len() - i,
    {
        let byte: u8 = bytes[i];
        text.push(digit_of(byte / 16));
        text.push(digit_of(byte % 16));
        i += 1;
    }
    assert(text@ =~= hex_encode(bytes@));
    text
}

/// Reads a text back into the byte string it stands for. A text of odd length,
/// or one that holds anything but the digits `0-9` and `a-f`, stands for none.
pub fn decode(text: &[u8]) -> (bytes: Option<Vec<u8>>)
    ensures
        match bytes {
            Some(found) => hex_decode(text@) == Some(found@),
            None => hex_decode(text@) is None,
        },
{
    if text.len() % 2 != 0 {
        return None;
    }
    let mut bytes: Vec<u8> = Vec::new();
    let mut i: usize = 0;
    while i < text.len()
        invariant
            i <= text.len(),
            i % 2 == 0,
            text.len() % 2 == 0,
            bytes@.len() == i / 2,
            forall|k: int| 0 <= k < i ==> is_hex_digit(#[trigger] text@[k]),
            forall|k: int|
                0 <= k < i / 2 ==> #[trigger] bytes@[k] == (hex_value(text@[2 * k]) * 16
                    + hex_value(text@[2 * k + 1])) as u8,
        decreases text.len() - i,
    {
        let high = value_of(text[i]);
        let low = value_of(text[i + 1]);
        match (high, low) {
            (Some(h), Some(l)) => {
                bytes.push(h * 16 + l);
            },
            _ => {
                assert(!is_hex(text@));
                return None;
            },
        }
        i += 2;
    }
    assert(is_hex(text@));
    assert(bytes@ =~= hex_decode(text@)->0);
    Some(bytes)
}

/// Reading back the text of a byte string gives that byte string.
pub proof fn lemma_decode_encode(bytes: Seq<u8>)
    ensures
        is_hex(hex_encode(bytes)),
        hex_decode(hex_encode(bytes)) == Some(bytes),
{
    let text = hex_encode(bytes);
    assert(is_hex(text));
    let back = hex_decode(text)->0;
    assert forall|i: int| 0 <= i < bytes.len() implies back[i] == bytes[i] by {
        assert(text[2 * i] == hex_digit(bytes[i] as int / 16));
        assert(text[2 * i + 1] == hex_digit(bytes[i] as int % 16));
    }
    assert(back =~= bytes);
}

/// A text that stands for a byte string is the text of that byte string: no
/// byte string has two texts.
pub proof fn lemma_encode_decode(text: Seq<u8>)
    requires
        is_hex(text),
    ensures
        hex_encode(hex_decode(text)->0) == text,
{
    let bytes = hex_decode(text)->0;
    let again = hex_encode(bytes);
    assert forall|i: int| 0 <= i < text.len() implies again[i] == text[i] by {
        let k = i / 2;
        assert(is_hex_digit(text[2 * k]));
        assert(is_hex_digit(text[2 * k + 1]));
    }
    assert(again =~= text);
}

} // verus!
