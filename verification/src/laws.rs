//! What hashing, mining and verification guarantee of each other.

use crate::clock::ClockError;
use crate::encoding::lemma_hex_injective;
use crate::hashing::{
    differ_in_one, lemma_single_change_alters_payload, payload, pow_digest, pow_digest_hex, sha256,
};
use crate::pow_generation::{repeated, search_shows, MiningError, MiningResult};
use crate::pow_verification::{freshness, verdict, Rejection, HASH_VALIDITY_DURATION};
use vstd::prelude::*;

verus! {

/// Determinism: the digest depends on the data, the timestamp and the nonce
/// and on nothing else, so equal inputs give equal digests.
pub proof fn lemma_digest_is_deterministic(
    data1: Seq<u8>,
    timestamp1: u64,
    nonce1: u64,
    data2: Seq<u8>,
    timestamp2: u64,
    nonce2: u64,
)
    requires
        data1 == data2,
        timestamp1 == timestamp2,
        nonce1 == nonce2,
    ensures
        pow_digest(data1, timestamp1, nonce1) == pow_digest(data2, timestamp2, nonce2),
        pow_digest_hex(data1, timestamp1, nonce1) == pow_digest_hex(data2, timestamp2, nonce2),
{
}

/// A search that succeeds returns the digest of the data with the timestamp
/// and the nonce of the result, and the hexadecimal text of that digest starts
/// with the pattern written `difficulty` times.
pub proof fn lemma_search_result_meets_target(
    data: Seq<u8>,
    pattern: Seq<char>,
    difficulty: usize,
    last_nonce: u64,
    found: MiningResult,
)
    requires
        search_shows(data, pattern, difficulty, last_nonce, Ok::<MiningResult, MiningError>(found)),
    ensures
        found.digest.hex_text() == pow_digest_hex(data, found.timestamp, found.nonce),
        repeated(pattern, difficulty as nat).is_prefix_of(found.digest.hex_text()),
{
}

/// Round trip: a mined proof, presented with the data it was mined for, is
/// accepted at every time up to the end of its validity window.
pub proof fn lemma_mined_proof_is_accepted(
    found: MiningResult,
    data: Seq<u8>,
    pattern: Seq<char>,
    difficulty: usize,
    now: u64,
)
    requires
        found.answers(data, pattern, difficulty),
        now <= found.timestamp + HASH_VALIDITY_DURATION,
    ensures
        verdict(
            pow_digest_hex(data, found.timestamp, found.nonce),
            found.digest.hex_text(),
            found.timestamp,
            Ok(now),
        ) == Ok::<(), Rejection>(()),
{
}

/// The validity window is closed at its end: a proof that is exactly
/// `HASH_VALIDITY_DURATION` seconds old is still valid, and one second later
/// it has expired, by one second.
pub proof fn lemma_expiry_boundary(now: u64)
    ensures
        now >= HASH_VALIDITY_DURATION ==> freshness((now - HASH_VALIDITY_DURATION) as u64, now)
            == Ok::<(), Rejection>(()),
        now >= HASH_VALIDITY_DURATION + 1 ==> freshness(
            (now - HASH_VALIDITY_DURATION - 1) as u64,
            now,
        ) == Err::<(), Rejection>(Rejection::Expired { overdue: 1 }),
{
}

/// A digest presented with inputs whose own digest has other bytes is refused
/// with a digest mismatch, whatever the clock says.
pub proof fn lemma_distinct_digest_is_rejected(
    data: Seq<u8>,
    timestamp: u64,
    nonce: u64,
    presented_data: Seq<u8>,
    presented_timestamp: u64,
    presented_nonce: u64,
    clock: Result<u64, ClockError>,
)
    requires
        pow_digest(presented_data, presented_timestamp, presented_nonce) != pow_digest(
            data,
            timestamp,
            nonce,
        ),
    ensures
        verdict(
            pow_digest_hex(presented_data, presented_timestamp, presented_nonce),
            pow_digest_hex(data, timestamp, nonce),
            presented_timestamp,
            clock,
        ) == Err::<(), Rejection>(
            Rejection::DigestMismatch {
                expected: pow_digest_hex(data, timestamp, nonce),
                computed: pow_digest_hex(presented_data, presented_timestamp, presented_nonce),
            },
        ),
{
    if pow_digest_hex(presented_data, presented_timestamp, presented_nonce) == pow_digest_hex(
        data,
        timestamp,
        nonce,
    ) {
        lemma_hex_injective(
            pow_digest(presented_data, presented_timestamp, presented_nonce),
            pow_digest(data, timestamp, nonce),
        );
    }
}

/// Tamper sensitivity, short of a collision: where exactly one of data,
/// timestamp and nonce is changed and the digest is kept, verification fails
/// with a digest mismatch, unless SHA-256 gives the two different payloads
/// the same digest.
pub proof fn lemma_tampering_is_detected(
    data: Seq<u8>,
    timestamp: u64,
    nonce: u64,
    tampered_data: Seq<u8>,
    tampered_timestamp: u64,
    tampered_nonce: u64,
    clock: Result<u64, ClockError>,
)
    requires
        differ_in_one(data, timestamp, nonce, tampered_data, tampered_timestamp, tampered_nonce),
        sha256(payload(data, timestamp, nonce)) == sha256(
            payload(tampered_data, tampered_timestamp, tampered_nonce),
        ) ==> payload(data, timestamp, nonce) == payload(
            tampered_data,
            tampered_timestamp,
            tampered_nonce,
        ),
    ensures
        verdict(
            pow_digest_hex(tampered_data, tampered_timestamp, tampered_nonce),
            pow_digest_hex(data, timestamp, nonce),
            tampered_timestamp,
            clock,
        ) == Err::<(), Rejection>(
            Rejection::DigestMismatch {
                expected: pow_digest_hex(data, timestamp, nonce),
                computed: pow_digest_hex(tampered_data, tampered_timestamp, tampered_nonce),
            },
        ),
{
    lemma_single_change_alters_payload(
        data,
        timestamp,
        nonce,
        tampered_data,
        tampered_timestamp,
        tampered_nonce,
    );
    lemma_distinct_digest_is_rejected(
        data,
        timestamp,
        nonce,
        tampered_data,
        tampered_timestamp,
        tampered_nonce,
        clock,
    );
}

} // verus!
