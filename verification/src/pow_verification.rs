//! Verification of a proof of work: the digest is recomputed and compared with
//! the one that was claimed, and the proof must not be older than the validity
//! window.

use crate::clock::{get_current_timestamp, ClockError};
use crate::encoding::{ascii_text, decimal, push_decimal_text};
use crate::hashing::{
    calculate_hash, hashable, is_hashable, oversize_message, oversize_text, pow_digest_hex,
};
use vstd::prelude::*;
use vstd::string::{StringExecFns, StringSliceAdditionalSpecFns};

verus! {

/// For how many seconds after its timestamp a proof is accepted.
pub const HASH_VALIDITY_DURATION: u64 = 100;

/// Why a proof was rejected.
#[derive(Debug, PartialEq, Eq)]
pub enum VerificationError {
    /// The digest of the stated inputs is not the claimed one.
    DigestMismatch { expected: String, computed: String },
    /// The digest is right, but the proof is `overdue` seconds past the end of
    /// its validity window.
    Expired { overdue: u64 },
    /// The digest is right, but the clock could not be read.
    ClockError,
}

/// A `VerificationError` with its texts as sequences of characters: what the
/// contracts speak of.
pub enum Rejection {
    /// The digest of the stated inputs is `computed`, not `expected`.
    DigestMismatch { expected: Seq<char>, computed: Seq<char> },
    /// The proof is `overdue` seconds past the end of its validity window.
    Expired { overdue: u64 },
    /// The clock could not be read.
    ClockError,
}

impl View for VerificationError {
    type V = Rejection;

    open spec fn view(&self) -> Rejection {
        match self {
            VerificationError::DigestMismatch { expected, computed } => Rejection::DigestMismatch {
                expected: expected@,
                computed: computed@,
            },
            VerificationError::Expired { overdue } => Rejection::Expired { overdue: *overdue },
            VerificationError::ClockError => Rejection::ClockError,
        }
    }
}

impl Rejection {
    /// The text that describes the rejection.
    pub open spec fn description(self) -> Seq<char> {
        match self {
            Rejection::DigestMismatch { expected, computed } => {
                "La vérification du PoW a échoué.\nExpected: "@ + expected + "\nComputed: "@
                    + computed
            },
            Rejection::Expired { overdue } => {
                "Le hash a expiré ! Expiré de "@ + ascii_text(decimal(overdue as nat))
                    + " secondes."@
            },
            Rejection::ClockError => "Erreur lors de la récupération du timestamp actuel"@,
        }
    }
}

impl VerificationError {
    /// The text that describes the error.
    pub fn message(&self) -> (text: String)
        ensures
            text@ == self@.description(),
    {
        match self {
            VerificationError::DigestMismatch { expected, computed } => {
                let mut text = String::from_str("La vérification du PoW a échoué.\nExpected: ");
                text.append(expected.as_str());
                text.append("\nComputed: ");
                text.append(computed.as_str());
                text
            },
            VerificationError::Expired { overdue } => {
                let mut text = String::from_str("Le hash a expiré ! Expiré de ");
                push_decimal_text(&mut text, *overdue as u128);
                text.append(" secondes.");
                text
            },
            VerificationError::ClockError => String::from_str(
                "Erreur lors de la récupération du timestamp actuel",
            ),
        }
    }
}

/// The outcome of a verification with the texts of its error as sequences of
/// characters.
pub open spec fn outcome(result: Result<(), VerificationError>) -> Result<(), Rejection> {
    match result {
        Ok(()) => Ok(()),
        Err(error) => Err(error@),
    }
}

/// Whether the recomputed digest is the claimed one, character by character.
pub open spec fn comparison(computed: Seq<char>, expected: Seq<char>) -> Result<(), Rejection> {
    if computed == expected {
        Ok(())
    } else {
        Err(Rejection::DigestMismatch { expected, computed })
    }
}

/// Whether a proof stamped `timestamp` is still valid at time `now`: it expires
/// once `now` is past `timestamp + HASH_VALIDITY_DURATION`, and is then overdue
/// by the seconds beyond that.
pub open spec fn freshness(timestamp: u64, now: u64) -> Result<(), Rejection> {
    if now > timestamp + HASH_VALIDITY_DURATION {
        Err(Rejection::Expired { overdue: (now - (timestamp + HASH_VALIDITY_DURATION)) as u64 })
    } else {
        Ok(())
    }
}

/// The outcome of verifying a proof whose recomputed digest is `computed`
/// against the claimed digest `expected`, given what the clock returned. The
/// digests are compared first; the clock matters only where they agree.
pub open spec fn verdict(
    computed: Seq<char>,
    expected: Seq<char>,
    timestamp: u64,
    clock: Result<u64, ClockError>,
) -> Result<(), Rejection> {
    match comparison(computed, expected) {
        Err(mismatch) => Err(mismatch),
        Ok(()) => match clock {
            Ok(now) => freshness(timestamp, now),
            Err(_) => Err(Rejection::ClockError),
        },
    }
}

/// Compares the recomputed digest with the claimed one.
pub fn check_digest(expected: &str, computed: String) -> (result: Result<(), VerificationError>)
    ensures
        outcome(result) == comparison(computed@, expected@),
{
    let claimed = String::from_str(expected);
    if computed == claimed {
        Ok(())
    } else {
        Err(VerificationError::DigestMismatch { expected: claimed, computed })
    }
}

/// Checks that a proof stamped `timestamp` has not expired at time `now`.
pub fn check_freshness(timestamp: u64, now: u64) -> (result: Result<(), VerificationError>)
    ensures
        outcome(result) == freshness(timestamp, now),
{
    if now > timestamp && now - timestamp > HASH_VALIDITY_DURATION {
        Err(VerificationError::Expired { overdue: now - timestamp - HASH_VALIDITY_DURATION })
    } else {
        Ok(())
    }
}

/// Verifies a proof of work as of time `now`.
pub fn verify_at(
    nonce: u64,
    data: &str,
    timestamp: u64,
    expected_digest: &str,
    now: u64,
) -> (result: Result<(), VerificationError>)
    requires
        hashable(data.spec_bytes()),
    ensures
        outcome(result) == verdict(
            pow_digest_hex(data.spec_bytes(), timestamp, nonce),
            expected_digest@,
            timestamp,
            Ok(now),
        ),
        expected_digest@.len() != 64 ==> outcome(result) is Err && outcome(result)->Err_0
            is DigestMismatch,
{
    let computed = calculate_hash(nonce, data, timestamp);
    match check_digest(expected_digest, computed) {
        Err(mismatch) => Err(mismatch),
        Ok(()) => check_freshness(timestamp, now),
    }
}

/// Verifies a proof of work as of the present time. The clock is read only
/// where the digest is the claimed one.
pub fn verify(nonce: u64, data: &str, timestamp: u64, expected_digest: &str) -> (result: Result<
    (),
    VerificationError,
>)
    requires
        hashable(data.spec_bytes()),
    ensures
        exists|clock: Result<u64, ClockError>|
            outcome(result) == #[trigger] verdict(
                pow_digest_hex(data.spec_bytes(), timestamp, nonce),
                expected_digest@,
                timestamp,
                clock,
            ),
        expected_digest@.len() != 64 ==> outcome(result) is Err && outcome(result)->Err_0
            is DigestMismatch,
{
    let computed = calculate_hash(nonce, data, timestamp);
    let ghost digest = computed@;
    match check_digest(expected_digest, computed) {
        Err(mismatch) => {
            assert(outcome(Err(mismatch)) == verdict(
                digest,
                expected_digest@,
                timestamp,
                Err(ClockError),
            ));
            Err(mismatch)
        },
        Ok(()) => {
            let clock = get_current_timestamp();
            let result = match clock {
                Ok(now) => check_freshness(timestamp, now),
                Err(_) => Err(VerificationError::ClockError),
            };
            assert(outcome(result) == verdict(digest, expected_digest@, timestamp, clock));
            result
        },
    }
}

/// Verifies a proof of work as of the present time, and describes a rejection
/// in words. Data too long to be hashed is refused.
pub fn verify_pow(nonce: u64, data: &str, timestamp: u64, expected_hash: &str) -> (result: Result<
    bool,
    String,
>)
    ensures
        !hashable(data.spec_bytes()) ==> result is Err && result->Err_0@ == oversize_text(),
        hashable(data.spec_bytes()) ==> exists|clock: Result<u64, ClockError>|
            match #[trigger] verdict(
                pow_digest_hex(data.spec_bytes(), timestamp, nonce),
                expected_hash@,
                timestamp,
                clock,
            ) {
                Ok(()) => result == Ok::<bool, String>(true),
                Err(rejection) => result is Err && result->Err_0@ == rejection.description(),
            },
        expected_hash@.len() != 64 ==> result is Err,
{
    if !is_hashable(data.as_bytes()) {
        return Err(oversize_message());
    }
    match verify(nonce, data, timestamp, expected_hash) {
        Ok(()) => Ok(true),
        Err(error) => Err(error.message()),
    }
}

} // verus!
