//! The hash of a proof of work: SHA-256 over the data followed by the decimal
//! numerals of the timestamp and of the nonce.

use crate::encoding::{
    decimal, hex, hex_encode, lemma_decimal_injective, lemma_decimal_len, push_decimal,
};
use sha2::{Digest, Sha256};
use vstd::prelude::*;
use vstd::string::{StringExecFns, StringSliceAdditionalSpecFns};

verus! {

/// The SHA-256 digest of `message`, as FIPS 180-4 defines it for messages
/// shorter than 2^64 bits.
pub uninterp spec fn sha256(message: Seq<u8>) -> Seq<u8>;

/// Longest message, in bytes, that SHA-256 is defined for.
pub const SHA256_MAX_MESSAGE_LEN: u64 = 0x1fff_ffff_ffff_ffff;

/// Longest data, in bytes, that can be hashed with a timestamp and a nonce,
/// whose numerals take up to twenty bytes each.
pub const MAX_DATA_LEN: u64 = 0x1fff_ffff_ffff_ffd7;

/// Computes SHA-256 with `sha2::Sha256::digest`, which feeds the whole message
/// to a fresh hasher and finalizes it. The result is the 32-byte digest of the
/// message. The message must be shorter than 2^61 bytes: beyond that the
/// length in bits, which the hasher writes into the padding, no longer fits
/// its 64-bit counter.
#[verifier::external_body]
fn sha256_digest(message: &[u8]) -> (out: [u8; 32])
    requires
        message@.len() <= SHA256_MAX_MESSAGE_LEN,
    ensures
        out@ == sha256(message@),
{
    Sha256::digest(message).into()
}

/// The bytes that are hashed: the data, then the timestamp, then the nonce,
/// the two numbers as decimal numerals, with nothing in between.
pub open spec fn payload(data: Seq<u8>, timestamp: u64, nonce: u64) -> Seq<u8> {
    data + decimal(timestamp as nat) + decimal(nonce as nat)
}

/// The 32 bytes of the digest of `(data, timestamp, nonce)`.
pub open spec fn pow_digest(data: Seq<u8>, timestamp: u64, nonce: u64) -> Seq<u8> {
    sha256(payload(data, timestamp, nonce))
}

/// The digest of `(data, timestamp, nonce)` as lowercase hexadecimal text.
pub open spec fn pow_digest_hex(data: Seq<u8>, timestamp: u64, nonce: u64) -> Seq<char> {
    hex(pow_digest(data, timestamp, nonce))
}

/// Whether `data` is short enough to be hashed with a timestamp and a nonce.
pub open spec fn hashable(data: Seq<u8>) -> bool {
    data.len() <= MAX_DATA_LEN
}

/// Whether two triples differ in exactly one of data, timestamp and nonce.
pub open spec fn differ_in_one(
    data1: Seq<u8>,
    timestamp1: u64,
    nonce1: u64,
    data2: Seq<u8>,
    timestamp2: u64,
    nonce2: u64,
) -> bool {
    ||| data1 != data2 && timestamp1 == timestamp2 && nonce1 == nonce2
    ||| data1 == data2 && timestamp1 != timestamp2 && nonce1 == nonce2
    ||| data1 == data2 && timestamp1 == timestamp2 && nonce1 != nonce2
}

/// The payload is at most forty bytes longer than the data.
pub proof fn lemma_payload_len(data: Seq<u8>, timestamp: u64, nonce: u64)
    ensures
        data.len() + 2 <= payload(data, timestamp, nonce).len() <= data.len() + 40,
{
    lemma_decimal_len(timestamp);
    lemma_decimal_len(nonce);
}

/// A change to exactly one of data, timestamp and nonce changes the bytes
/// that are hashed.
pub proof fn lemma_single_change_alters_payload(
    data1: Seq<u8>,
    timestamp1: u64,
    nonce1: u64,
    data2: Seq<u8>,
    timestamp2: u64,
    nonce2: u64,
)
    requires
        differ_in_one(data1, timestamp1, nonce1, data2, timestamp2, nonce2),
    ensures
        payload(data1, timestamp1, nonce1) != payload(data2, timestamp2, nonce2),
{
    let stamp1 = decimal(timestamp1 as nat);
    let stamp2 = decimal(timestamp2 as nat);
    let count1 = decimal(nonce1 as nat);
    let count2 = decimal(nonce2 as nat);
    let whole1 = payload(data1, timestamp1, nonce1);
    let whole2 = payload(data2, timestamp2, nonce2);
    if whole1 == whole2 {
        assert(whole1.len() == data1.len() + stamp1.len() + count1.len());
        assert(whole2.len() == data2.len() + stamp2.len() + count2.len());
        if data1 != data2 {
            assert forall|i: int| 0 <= i < data1.len() implies data1[i] == data2[i] by {
                assert(whole1[i] == data1[i]);
                assert(whole2[i] == data2[i]);
            }
            assert(data1 =~= data2);
        } else if timestamp1 != timestamp2 {
            assert forall|i: int| 0 <= i < stamp1.len() implies stamp1[i] == stamp2[i] by {
                assert(whole1[data1.len() + i] == stamp1[i]);
                assert(whole2[data1.len() + i] == stamp2[i]);
            }
            assert(stamp1 =~= stamp2);
            lemma_decimal_injective(timestamp1 as nat, timestamp2 as nat);
        } else {
            assert forall|i: int| 0 <= i < count1.len() implies count1[i] == count2[i] by {
                assert(whole1[data1.len() + stamp1.len() + i] == count1[i]);
                assert(whole2[data1.len() + stamp1.len() + i] == count2[i]);
            }
            assert(count1 =~= count2);
            lemma_decimal_injective(nonce1 as nat, nonce2 as nat);
        }
    }
}

/// A 256-bit digest.
#[derive(Clone, Copy, Debug, PartialEq, Eq)]
pub struct PowDigest {
    bytes: [u8; 32],
}

impl View for PowDigest {
    type V = Seq<u8>;

    closed spec fn view(&self) -> Seq<u8> {
        self.bytes@
    }
}

impl PowDigest {
    /// The digest as text: 64 lowercase hexadecimal digits.
    pub open spec fn hex_text(&self) -> Seq<char> {
        hex(self@)
    }

    /// A digest holds 32 bytes, and its text 64 characters.
    pub proof fn lemma_len(&self)
        ensures
            self@.len() == 32,
            self.hex_text().len() == 64,
    {
    }

    /// The digest with the given bytes.
    pub fn from_bytes(bytes: [u8; 32]) -> (digest: PowDigest)
        ensures
            digest@ == bytes@,
    {
        PowDigest { bytes }
    }

    /// The 32 bytes of the digest.
    pub fn as_bytes(&self) -> (bytes: &[u8; 32])
        ensures
            bytes@ == self@,
    {
        &self.bytes
    }

    /// The digest as 64 lowercase hexadecimal digits.
    pub fn to_hex(&self) -> (text: String)
        ensures
            text@ == self.hex_text(),
            text@.len() == 64,
    {
        hex_encode(self.bytes.as_slice())
    }
}

/// Tells whether `data` is short enough to be hashed with a timestamp and a
/// nonce.
pub fn is_hashable(data: &[u8]) -> (short: bool)
    ensures
        short == hashable(data@),
{
    data.len() as u64 <= MAX_DATA_LEN
}

/// The text that says that data is too long to be hashed.
pub open spec fn oversize_text() -> Seq<char> {
    "Les données sont trop longues pour être hachées"@
}

/// The text that says that data is too long to be hashed.
pub fn oversize_message() -> (text: String)
    ensures
        text@ == oversize_text(),
{
    String::from_str("Les données sont trop longues pour être hachées")
}

/// Writes the bytes that are hashed for `(data, timestamp, nonce)`.
pub fn serialize(data: &[u8], timestamp: u64, nonce: u64) -> (bytes: Vec<u8>)
    ensures
        bytes@ == payload(data@, timestamp, nonce),
{
    let mut bytes: Vec<u8> = Vec::new();
    bytes.extend_from_slice(data);
    assert(bytes@ =~= data@);
    push_decimal(&mut bytes, timestamp as u128);
    push_decimal(&mut bytes, nonce as u128);
    bytes
}

/// Hashes `(data, timestamp, nonce)`. The digest depends on nothing but the
/// three arguments.
pub fn hash(data: &[u8], timestamp: u64, nonce: u64) -> (digest: PowDigest)
    requires
        hashable(data@),
    ensures
        digest@ == pow_digest(data@, timestamp, nonce),
{
    let message = serialize(data, timestamp, nonce);
    proof {
        lemma_payload_len(data@, timestamp, nonce);
    }
    PowDigest { bytes: sha256_digest(message.as_slice()) }
}

/// Hashes the text `data` with `timestamp` and `nonce`, and renders the digest
/// as 64 lowercase hexadecimal digits.
pub fn calculate_hash(nonce: u64, data: &str, timestamp: u64) -> (text: String)
    requires
        hashable(data.spec_bytes()),
    ensures
        text@ == pow_digest_hex(data.spec_bytes(), timestamp, nonce),
        text@.len() == 64,
{
    hash(data.as_bytes(), timestamp, nonce).to_hex()
}

} // verus!
