//! Fixed-width numbers as bytes, most significant byte first.

use vstd::prelude::*;

verus! {

/// The eight bytes of a number, most significant first.
pub open spec fn be64(value: u64) -> Seq<u8> {
    let q1 = value as int / 256;
    let q2 = q1 / 256;
    let q3 = q2 / 256;
    let q4 = q3 / 256;
    let q5 = q4 / 256;
    let q6 = q5 / 256;
    let q7 = q6 / 256;
    seq![
        q7 as u8,
        (q6 % 256) as u8,
        (q5 % 256) as u8,
        (q4 % 256) as u8,
        (q3 % 256) as u8,
        (q2 % 256) as u8,
        (q1 % 256) as u8,
        (value as int % 256) as u8,
    ]
}

/// The number that eight bytes spell, most significant first.
pub open spec fn from_be64(bytes: Seq<u8>) -> u64
    recommends
        bytes.len() == 8,
{
    (((((((bytes[0] as int * 256 + bytes[1]) * 256 + bytes[2]) * 256 + bytes[3]) * 256
        + bytes[4]) * 256 + bytes[5]) * 256 + bytes[6]) * 256 + bytes[7]) as u64
}

/// Appends the eight bytes of a number to a buffer.
pub fn put_be64(buffer: &mut Vec<u8>, value: u64)
    ensures
        final(buffer)@ == old(buffer)@ + be64(value),
{
    let q1: u64 = value / 256;
    let q2: u64 = q1 / 256;
    let q3: u64 = q2 / 256;
    let q4: u64 = q3 / 256;
    let q5: u64 = q4 / 256;
    let q6: u64 = q5 / 256;
    let q7: u64 = q6 / 256;
    buffer.push(q7 as u8);
    buffer.push((q6 % 256) as u8);
    buffer.push((q5 % 256) as u8);
    buffer.push((q4 % 256) as u8);
    buffer.push((q3 % 256) as u8);
    buffer.push((q2 % 256) as u8);
    buffer.push((q1 % 256) as u8);
    buffer.push((value % 256) as u8);
    assert(buffer@ =~= old(buffer)@ + be64(value));
}

/// Reads the number spelled by the eight bytes that start at `at`, if there
/// are eight bytes from there on.
pub fn get_be64(bytes: &[u8], at: usize) -> (value: Option<u64>)
    ensures
        match value {
            Some(number) => at + 8 <= bytes@.len() && number == from_be64(
                bytes@.subrange(at as int, at + 8),
            ),
            None => at + 8 > bytes@.len(),
        },
{
    if bytes.len() < 8 || at > bytes.len() - 8 {
        return None;
    }
    let a0: u64 = bytes[at] as u64;
    let a1: u64 = a0 * 256 + bytes[at + 1] as u64;
    let a2: u64 = a1 * 256 + bytes[at + 2] as u64;
    let a3: u64 = a2 * 256 + bytes[at + 3] as u64;
    let a4: u64 = a3 * 256 + bytes[at + 4] as u64;
    let a5: u64 = a4 * 256 + bytes[at + 5] as u64;
    let a6: u64 = a5 * 256 + bytes[at + 6] as u64;
    Some(a6 * 256 + bytes[at + 7] as u64)
}

/// Reading back the bytes of a number gives that number.
pub proof fn lemma_from_be64_be64(value: u64)
    ensures
        be64(value).len() == 8,
        from_be64(be64(value)) == value,
{
    let q1 = value as int / 256;
    let q2 = q1 / 256;
    let q3 = q2 / 256;
    let q4 = q3 / 256;
    let q5 = q4 / 256;
    let q6 = q5 / 256;
    let q7 = q6 / 256;
    assert(q7 < 256);
    let bytes = be64(value);
    let a1 = bytes[0] as int * 256 + bytes[1];
    assert(a1 == q6);
    let a2 = a1 * 256 + bytes[2];
    assert(a2 == q5);
    let a3 = a2 * 256 + bytes[3];
    assert(a3 == q4);
    let a4 = a3 * 256 + bytes[4];
    assert(a4 == q3);
    let a5 = a4 * 256 + bytes[5];
    assert(a5 == q2);
    let a6 = a5 * 256 + bytes[6];
    assert(a6 == q1);
    assert(a6 * 256 + bytes[7] == value);
}

/// Eight bytes are the bytes of the number they spell: no number has two
/// spellings.
pub proof fn lemma_be64_from_be64(bytes: Seq<u8>)
    requires
        bytes.len() == 8,
    ensures
        be64(from_be64(bytes)) == bytes,
{
    let a1 = bytes[0] as int * 256 + bytes[1];
    let a2 = a1 * 256 + bytes[2];
    let a3 = a2 * 256 + bytes[3];
    let a4 = a3 * 256 + bytes[4];
    let a5 = a4 * 256 + bytes[5];
    let a6 = a5 * 256 + bytes[6];
    let a7 = a6 * 256 + bytes[7];
    assert(a1 < 0x1_0000);
    assert(a2 < 0x100_0000);
    assert(a3 < 0x1_0000_0000);
    assert(a4 < 0x100_0000_0000);
    assert(a5 < 0x1_0000_0000_0000);
    assert(a6 < 0x100_0000_0000_0000);
    assert(a7 <= u64::MAX);
    let value = from_be64(bytes);
    assert(value == a7);
    assert(a7 / 256 == a6 && a7 % 256 == bytes[7]);
    assert(a6 / 256 == a5 && a6 % 256 == bytes[6]);
    assert(a5 / 256 == a4 && a5 % 256 == bytes[5]);
    assert(a4 / 256 == a3 && a4 % 256 == bytes[4]);
    assert(a3 / 256 == a2 && a3 % 256 == bytes[3]);
    assert(a2 / 256 == a1 && a2 % 256 == bytes[2]);
    assert(a1 / 256 == bytes[0] && a1 % 256 == bytes[1]);
    assert(be64(value) =~= bytes);
}

} // verus!
