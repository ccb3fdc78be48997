//! Fixed-width integers and text as they appear on the wire.

use byteorder::{BigEndian, ByteOrder};
use vstd::prelude::*;
use vstd::utf8::*;

verus! {

/// The eight bytes of `n`, most significant first.
pub open spec fn u64_be_bytes(n: u64) -> Seq<u8> {
    seq![
        (n >> 56) as u8,
        (n >> 48) as u8,
        (n >> 40) as u8,
        (n >> 32) as u8,
        (n >> 24) as u8,
        (n >> 16) as u8,
        (n >> 8) as u8,
        n as u8,
    ]
}

/// The number with the eight given bytes as its digits, most significant first.
pub open spec fn u64_of_digits(b0: u8, b1: u8, b2: u8, b3: u8, b4: u8, b5: u8, b6: u8, b7: u8) -> u64 {
    (b0 as u64) << 56 | (b1 as u64) << 48 | (b2 as u64) << 40 | (b3 as u64) << 32 | (b4 as u64)
        << 24 | (b5 as u64) << 16 | (b6 as u64) << 8 | (b7 as u64)
}

/// The number whose big-endian digits are the first eight bytes of `bytes`.
pub open spec fn u64_from_be_bytes(bytes: Seq<u8>) -> u64
    recommends
        bytes.len() >= 8,
{
    u64_of_digits(
        bytes[0],
        bytes[1],
        bytes[2],
        bytes[3],
        bytes[4],
        bytes[5],
        bytes[6],
        bytes[7],
    )
}

pub(crate) proof fn lemma_digits_of_number(n: u64)
    by (bit_vector)
    ensures
        (((n >> 56) as u8) as u64) << 56 | (((n >> 48) as u8) as u64) << 48 | (((n >> 40) as u8) as u64)
            << 40 | (((n >> 32) as u8) as u64) << 32 | (((n >> 24) as u8) as u64) << 24 | (((n
            >> 16) as u8) as u64) << 16 | (((n >> 8) as u8) as u64) << 8 | ((n as u8) as u64) == n,
{
}

proof fn lemma_number_of_digits(b0: u8, b1: u8, b2: u8, b3: u8, b4: u8, b5: u8, b6: u8, b7: u8)
    by (bit_vector)
    ensures
        ({
            let n = (b0 as u64) << 56 | (b1 as u64) << 48 | (b2 as u64) << 40 | (b3 as u64) << 32 | (
            b4 as u64) << 24 | (b5 as u64) << 16 | (b6 as u64) << 8 | (b7 as u64);
            &&& (n >> 56) as u8 == b0
            &&& (n >> 48) as u8 == b1
            &&& (n >> 40) as u8 == b2
            &&& (n >> 32) as u8 == b3
            &&& (n >> 24) as u8 == b4
            &&& (n >> 16) as u8 == b5
            &&& (n >> 8) as u8 == b6
            &&& n as u8 == b7
        }),
{
}

/// Decoding the big-endian bytes of a number gives the number back, also when
/// other bytes follow them.
pub proof fn lemma_u64_be_round_trip(n: u64, rest: Seq<u8>)
    ensures
        u64_be_bytes(n).len() == 8,
        u64_from_be_bytes(u64_be_bytes(n) + rest) == n,
{
    lemma_digits_of_number(n);
}

/// Encoding the number read from eight bytes gives those bytes back.
pub proof fn lemma_u64_be_bytes_of_decoded(bytes: Seq<u8>)
    requires
        bytes.len() == 8,
    ensures
        u64_be_bytes(u64_from_be_bytes(bytes)) == bytes,
{
    lemma_number_of_digits(
        bytes[0],
        bytes[1],
        bytes[2],
        bytes[3],
        bytes[4],
        bytes[5],
        bytes[6],
        bytes[7],
    );
    assert(u64_be_bytes(u64_from_be_bytes(bytes)) =~= bytes);
}

/// `byteorder::BigEndian::write_u64` on a fresh eight-byte buffer: the buffer
/// then holds the big-endian digits of `n`.
#[verifier::external_body]
pub(crate) fn be_bytes_of(n: u64) -> (out: [u8; 8])
    ensures
        out@ == u64_be_bytes(n),
{
    let mut out = [0u8; 8];
    BigEndian::write_u64(&mut out, n);
    out
}

/// `byteorder::BigEndian::read_u64`: the number whose big-endian digits are the
/// first eight bytes of the slice. The outside function panics on a shorter
/// slice, which `requires` leaves out.
#[verifier::external_body]
pub(crate) fn be_number_of(bytes: &[u8]) -> (n: u64)
    requires
        bytes@.len() >= 8,
    ensures
        n == u64_from_be_bytes(bytes@),
{
    BigEndian::read_u64(bytes)
}

/// `core::str::from_utf8`: succeeds exactly on well-formed UTF-8, and the
/// text it returns is made of the bytes it was given.
#[verifier::external_body]
fn str_from_utf8(bytes: &[u8]) -> (text: Option<String>)
    ensures
        text is Some <==> valid_utf8(bytes@),
        text matches Some(s) ==> encode_utf8(s@) == bytes@,
{
    match core::str::from_utf8(bytes) {
        Ok(s) => Some(String::from(s)),
        Err(_) => None,
    }
}

/// The text that the bytes encode, where they are well-formed UTF-8.
pub fn text_of_utf8(bytes: &[u8]) -> (text: Option<String>)
    ensures
        text is Some <==> valid_utf8(bytes@),
        text matches Some(s) ==> s@ == decode_utf8(bytes@),
{
    let text = str_from_utf8(bytes);
    proof {
        if text is Some {
            encode_utf8_decode_utf8(text->0@);
        }
    }
    text
}

/// Appends the eight big-endian bytes of `n` to `buffer`.
pub fn write_u64(buffer: &mut Vec<u8>, n: u64)
    ensures
        final(buffer)@ == old(buffer)@ + u64_be_bytes(n),
{
    let digits = be_bytes_of(n);
    let ghost before = buffer@;
    let mut i: usize = 0;
    while i < 8
        invariant
            i <= 8,
            digits@ == u64_be_bytes(n),
            buffer@ == before + digits@.subrange(0, i as int),
        decreases 8 - i,
    {
        buffer.push(digits[i]);
        i += 1;
    }
    assert(digits@.subrange(0, 8) =~= digits@);
}

/// Appends `bytes` to `buffer`.
pub fn write_bytes(buffer: &mut Vec<u8>, bytes: &[u8])
    ensures
        final(buffer)@ == old(buffer)@ + bytes@,
{
    let ghost before = buffer@;
    let mut i: usize = 0;
    while i < bytes.len()
        invariant
            i <= bytes@.len(),
            buffer@ == before + bytes@.subrange(0, i as int),
        decreases bytes@.len() - i,
    {
        buffer.push(bytes[i]);
        i += 1;
    }
    assert(bytes@.subrange(0, bytes@.len() as int) =~= bytes@);
}

/// Whether two byte strings are the same.
pub fn same_bytes(a: &[u8], b: &[u8]) -> (out: bool)
    ensures
        out == (a@ == b@),
{
    if a.len() != b.len() {
        return false;
    }
    let mut i: usize = 0;
    while i < a.len()
        invariant
            i <= a@.len(),
            a@.len() == b@.len(),
            a@.subrange(0, i as int) == b@.subrange(0, i as int),
        decreases a@.len() - i,
    {
        if a[i] != b[i] {
            return false;
        }
        assert(a@.subrange(0, i + 1) =~= a@.subrange(0, i as int).push(a@[i as int]));
        assert(b@.subrange(0, i + 1) =~= b@.subrange(0, i as int).push(b@[i as int]));
        i += 1;
    }
    assert(a@ =~= a@.subrange(0, a@.len() as int));
    assert(b@ =~= b@.subrange(0, b@.len() as int));
    true
}

/// Two texts are the same exactly where their UTF-8 encodings are.
pub proof fn lemma_same_encoding(a: Seq<char>, b: Seq<char>)
    ensures
        (encode_utf8(a) == encode_utf8(b)) == (a == b),
{
    encode_utf8_decode_utf8(a);
    encode_utf8_decode_utf8(b);
}

/// Whether two texts are the same.
pub fn same_text(a: &str, b: &str) -> (out: bool)
    ensures
        out == (a@ == b@),
{
    proof {
        lemma_same_encoding(a@, b@);
    }
    same_bytes(a.as_bytes(), b.as_bytes())
}

} // verus!
