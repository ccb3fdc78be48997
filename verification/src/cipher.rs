//! The symmetric cipher and the envelope that carries a sealed message.

use aes::cipher::typenum::{U12, U16};
use aes::Aes256;
use aes_gcm::aead::{Aead, KeyInit};
use aes_gcm::{AesGcm, Key, Nonce};
use crate::encoding::lemma_digits_of_number;
use rand::rngs::OsRng;
use rand::RngCore;
use vstd::prelude::*;

verus! {

/// Length of the nonce that seals one frame, in bytes.
pub const NONCE_LENGTH: usize = 12;

/// Longest message that the cipher seals, in bytes.
pub const SEAL_LIMIT: u64 = 0x10_0000_0000;

/// What AES-256-GCM makes of a message under a key and a nonce: the sealed
/// bytes with the tag behind them, or nothing where the cipher refuses.
pub uninterp spec fn aes256_gcm_seal(key: Seq<u8>, nonce: Seq<u8>, plaintext: Seq<u8>) -> Option<
    Seq<u8>,
>;

/// What AES-256-GCM recovers from sealed bytes under a key and a nonce, or
/// nothing where the tag does not match.
pub uninterp spec fn aes256_gcm_open(key: Seq<u8>, nonce: Seq<u8>, ciphertext: Seq<u8>) -> Option<
    Seq<u8>,
>;

/// The bytes held by an optional buffer.
pub open spec fn bytes_view(bytes: Option<Vec<u8>>) -> Option<Seq<u8>> {
    match bytes {
        Some(b) => Some(b@),
        None => None,
    }
}

/// The eight bytes of `n`, least significant first.
pub open spec fn u64_le_bytes(n: u64) -> Seq<u8> {
    seq![
        n as u8,
        (n >> 8) as u8,
        (n >> 16) as u8,
        (n >> 24) as u8,
        (n >> 32) as u8,
        (n >> 40) as u8,
        (n >> 48) as u8,
        (n >> 56) as u8,
    ]
}

/// The number whose little-endian digits are the first eight bytes of `bytes`.
pub open spec fn u64_from_le_bytes(bytes: Seq<u8>) -> u64
    recommends
        bytes.len() >= 8,
{
    (bytes[7] as u64) << 56 | (bytes[6] as u64) << 48 | (bytes[5] as u64) << 40 | (bytes[4] as u64)
        << 32 | (bytes[3] as u64) << 24 | (bytes[2] as u64) << 16 | (bytes[1] as u64) << 8 | (
    bytes[0] as u64)
}

/// A nonce and sealed bytes as one payload: each is preceded by its length as
/// eight little-endian bytes.
pub open spec fn envelope_bytes(nonce: Seq<u8>, content: Seq<u8>) -> Seq<u8> {
    u64_le_bytes(nonce.len() as u64) + nonce + u64_le_bytes(content.len() as u64) + content
}

/// A byte string that starts with its own length, split into that many bytes
/// and what follows them.
pub open spec fn counted_bytes(bytes: Seq<u8>) -> Option<(Seq<u8>, Seq<u8>)> {
    if bytes.len() < 8 {
        None
    } else {
        let n = u64_from_le_bytes(bytes) as int;
        if bytes.len() - 8 < n {
            None
        } else {
            Some((bytes.subrange(8, 8 + n), bytes.subrange(8 + n, bytes.len() as int)))
        }
    }
}

/// The nonce and the sealed bytes at the start of a payload, if it holds both
/// in full. Bytes behind them are not looked at.
pub open spec fn envelope_parts(bytes: Seq<u8>) -> Option<(Seq<u8>, Seq<u8>)> {
    match counted_bytes(bytes) {
        None => None,
        Some((nonce, rest)) => match counted_bytes(rest) {
            None => None,
            Some((content, _)) => Some((nonce, content)),
        },
    }
}

/// A byte string behind its little-endian length is split at that length.
pub proof fn lemma_counted_bytes(part: Seq<u8>, rest: Seq<u8>)
    requires
        part.len() <= u64::MAX,
    ensures
        counted_bytes(u64_le_bytes(part.len() as u64) + part + rest) == Some((part, rest)),
{
    let n = part.len() as u64;
    let all = u64_le_bytes(n) + part + rest;
    lemma_digits_of_number(n);
    assert(u64_from_le_bytes(all) == n);
    assert(all.subrange(8, 8 + n as int) =~= part);
    assert(all.subrange(8 + n as int, all.len() as int) =~= rest);
}

/// An envelope gives back the nonce and the sealed bytes it was made of.
pub proof fn lemma_envelope_round_trip(nonce: Seq<u8>, content: Seq<u8>)
    requires
        nonce.len() <= u64::MAX,
        content.len() <= u64::MAX,
    ensures
        envelope_parts(envelope_bytes(nonce, content)) == Some((nonce, content)),
{
    let tail = u64_le_bytes(content.len() as u64) + content;
    assert(envelope_bytes(nonce, content) =~= u64_le_bytes(nonce.len() as u64) + nonce + tail);
    lemma_counted_bytes(nonce, tail);
    assert(tail =~= u64_le_bytes(content.len() as u64) + content + Seq::<u8>::empty());
    lemma_counted_bytes(content, Seq::<u8>::empty());
}

/// `aes_gcm::aead::Aead::encrypt` of AES-256-GCM with a 12-byte nonce and no
/// associated data, under a cipher made from `key`. The result is a function
/// of key, nonce and message. The cipher refuses exactly the messages longer
/// than 2^36 bytes, and opening what it returns under the same key and nonce
/// gives the message back. The outside code panics on a nonce of another
/// length, which `requires` leaves out.
#[verifier::external_body]
pub(crate) fn aes_encrypt(key: &[u8; 32], nonce: &[u8], plaintext: &[u8]) -> (out: Option<Vec<u8>>)
    requires
        nonce@.len() == NONCE_LENGTH,
    ensures
        bytes_view(out) == aes256_gcm_seal(key@, nonce@, plaintext@),
        out is Some <==> plaintext@.len() <= SEAL_LIMIT,
        out matches Some(sealed) ==> aes256_gcm_open(key@, nonce@, sealed@) == Some(plaintext@),
{
    let cipher = AesGcm::<Aes256, U12, U16>::new(Key::<AesGcm<Aes256, U12, U16>>::from_slice(key));
    cipher.encrypt(Nonce::from_slice(nonce), plaintext).ok()
}

/// `aes_gcm::aead::Aead::decrypt` of AES-256-GCM with a 12-byte nonce and no
/// associated data, under a cipher made from `key`. The result is a function
/// of key, nonce and sealed bytes. The outside code panics on a nonce of
/// another length, which `requires` leaves out.
#[verifier::external_body]
pub(crate) fn aes_decrypt(key: &[u8; 32], nonce: &[u8], ciphertext: &[u8]) -> (out: Option<Vec<u8>>)
    requires
        nonce@.len() == NONCE_LENGTH,
    ensures
        bytes_view(out) == aes256_gcm_open(key@, nonce@, ciphertext@),
{
    let cipher = AesGcm::<Aes256, U12, U16>::new(Key::<AesGcm<Aes256, U12, U16>>::from_slice(key));
    cipher.decrypt(Nonce::from_slice(nonce), ciphertext).ok()
}

/// `rand::RngCore::try_fill_bytes` of `rand::rngs::OsRng` on twelve bytes:
/// random bytes from the operating system, or nothing where it has none to
/// give. Nothing is known of the bytes but their number.
#[verifier::external_body]
pub(crate) fn os_random_nonce() -> (out: Option<Vec<u8>>)
    ensures
        out matches Some(nonce) ==> nonce@.len() == NONCE_LENGTH,
{
    let mut nonce = vec![0u8; 12];
    match OsRng.try_fill_bytes(&mut nonce) {
        Ok(()) => Some(nonce),
        Err(_) => None,
    }
}

/// `bincode::serialize` of a pair of byte vectors: each vector's length as
/// eight little-endian bytes, then its bytes. Writing into a vector without a
/// size limit has no failing path.
#[verifier::external_body]
pub(crate) fn bincode_envelope(nonce: &Vec<u8>, content: &Vec<u8>) -> (out: Option<Vec<u8>>)
    ensures
        out is Some,
        out matches Some(bytes) ==> bytes@ == envelope_bytes(nonce@, content@),
{
    bincode::serialize(&(nonce, content)).ok()
}

/// `bincode::deserialize` to a pair of byte vectors: succeeds exactly where
/// the slice starts with two byte strings, each behind its length as eight
/// little-endian bytes, and returns those two. Bytes behind them are accepted.
#[verifier::external_body]
pub(crate) fn bincode_envelope_parts(bytes: &[u8]) -> (out: Option<(Vec<u8>, Vec<u8>)>)
    ensures
        out is Some <==> envelope_parts(bytes@) is Some,
        out matches Some(parts) ==> envelope_parts(bytes@) == Some((parts.0@, parts.1@)),
{
    bincode::deserialize::<(Vec<u8>, Vec<u8>)>(bytes).ok()
}

} // verus!
