use proof_of_work::clock::ClockError;
use proof_of_work::hashing::calculate_hash;
use proof_of_work::pow_verification::{
    check_digest, check_freshness, verify, verify_at, verify_pow, VerificationError,
    HASH_VALIDITY_DURATION,
};
use std::time::{SystemTime, UNIX_EPOCH};

const TOTO_DIGEST: &str = "5e969fa1fd8b80d21d0c42f16d961254d4e428dd5840a431220db9ac9f79cc9c";

#[test]
fn test_pow_verification_success_within_time() {
    let nonce: u64 = 3361;
    let data = "toto";
    let timestamp: u64 = SystemTime::now()
        .duration_since(UNIX_EPOCH)
        .unwrap()
        .as_secs();
    let expected_hash = calculate_hash(nonce, data, timestamp);

    let result = verify_pow(nonce, data, timestamp, &expected_hash);
    assert!(result.is_ok(), "La vérification aurait dû réussir.");
}

#[test]
fn test_pow_verification_failure_due_to_expiry() {
    let nonce: u64 = 3361;
    let data = "toto";
    let expired_timestamp: u64 = SystemTime::now()
        .duration_since(UNIX_EPOCH)
        .unwrap()
        .as_secs() - (HASH_VALIDITY_DURATION + 1);
    let expected_hash = calculate_hash(nonce, data, expired_timestamp);

    let result = verify_pow(nonce, data, expired_timestamp, &expected_hash);
    assert!(result.is_err(), "La vérification aurait dû échouer en raison de l'expiration.");
    assert_eq!(result.unwrap_err(), "Le hash a expiré ! Expiré de 1 secondes.");
}

#[test]
fn test_pow_verification_failure_due_to_wrong_data() {
    let nonce: u64 = 3361;
    let data = "toto";
    let timestamp: u64 = SystemTime::now()
        .duration_since(UNIX_EPOCH)
        .unwrap()
        .as_secs();
    let wrong_hash = "abcdef1234567890";

    let result = verify_pow(nonce, data, timestamp, wrong_hash);
    assert!(result.is_err(), "La vérification aurait dû échouer avec un mauvais hash.");
}

#[test]
fn verify_pow_accepts_with_true() {
    let timestamp: u64 = SystemTime::now().duration_since(UNIX_EPOCH).unwrap().as_secs();
    let digest = calculate_hash(7, "data", timestamp);
    assert_eq!(verify_pow(7, "data", timestamp, &digest), Ok(true));
}

#[test]
fn verify_pow_describes_a_mismatch_with_both_digests() {
    let result = verify_pow(3361, "toto", 1_700_000_000, "abcdef1234567890");
    assert_eq!(
        result,
        Err(format!(
            "La vérification du PoW a échoué.\nExpected: abcdef1234567890\nComputed: {}",
            TOTO_DIGEST
        ))
    );
}

#[test]
fn verify_compares_before_it_reads_the_clock() {
    // An old timestamp with a wrong digest is a mismatch, not an expiry.
    let result = verify(3361, "toto", 5, "00");
    assert_eq!(
        result,
        Err(VerificationError::DigestMismatch {
            expected: "00".to_string(),
            computed: calculate_hash(3361, "toto", 5),
        })
    );
}

#[test]
fn verify_accepts_a_fresh_proof_and_refuses_a_stale_one() {
    let now: u64 = SystemTime::now().duration_since(UNIX_EPOCH).unwrap().as_secs();
    let fresh = calculate_hash(1, "x", now);
    assert_eq!(verify(1, "x", now, &fresh), Ok(()));
    let stale_time = now - 1000;
    let stale = calculate_hash(1, "x", stale_time);
    match verify(1, "x", stale_time, &stale) {
        Err(VerificationError::Expired { overdue }) => {
            assert!(overdue >= 900 && overdue <= 910)
        }
        other => panic!("expected an expiry, got {:?}", other),
    }
}

#[test]
fn verify_at_accepts_at_the_timestamp_and_expires_150_seconds_later() {
    let timestamp: u64 = 1_700_000_000;
    assert_eq!(verify_at(3361, "toto", timestamp, TOTO_DIGEST, timestamp), Ok(()));
    assert_eq!(
        verify_at(3361, "toto", timestamp, TOTO_DIGEST, timestamp + 150),
        Err(VerificationError::Expired { overdue: 50 })
    );
}

#[test]
fn verify_at_accepts_a_timestamp_in_the_future() {
    assert_eq!(verify_at(3361, "toto", 1_700_000_000, TOTO_DIGEST, 0), Ok(()));
}

#[test]
fn verify_at_expiry_boundary() {
    let now: u64 = 1_700_000_000;
    let on_time = calculate_hash(9, "d", now - 100);
    assert_eq!(verify_at(9, "d", now - 100, &on_time, now), Ok(()));
    let late = calculate_hash(9, "d", now - 101);
    let result = verify_at(9, "d", now - 101, &late, now);
    assert_eq!(result, Err(VerificationError::Expired { overdue: 1 }));
    assert_eq!(result.unwrap_err().message(), "Le hash a expiré ! Expiré de 1 secondes.");
}

#[test]
fn verify_at_detects_a_changed_nonce_data_or_timestamp() {
    let timestamp: u64 = 1_700_000_000;
    assert_eq!(verify_at(3361, "toto", timestamp, TOTO_DIGEST, timestamp), Ok(()));
    for (nonce, data, stamp) in [
        (3362u64, "toto", timestamp),
        (3361u64, "tota", timestamp),
        (3361u64, "toto", timestamp + 1),
    ] {
        match verify_at(nonce, data, stamp, TOTO_DIGEST, timestamp) {
            Err(VerificationError::DigestMismatch { expected, computed }) => {
                assert_eq!(expected, TOTO_DIGEST);
                assert_eq!(computed, calculate_hash(nonce, data, stamp));
                assert_ne!(computed, TOTO_DIGEST);
            }
            other => panic!("expected a mismatch, got {:?}", other),
        }
    }
}

#[test]
fn verify_at_compares_case_sensitively() {
    let timestamp: u64 = 1_700_000_000;
    let upper = TOTO_DIGEST.to_uppercase();
    assert_eq!(
        verify_at(3361, "toto", timestamp, &upper, timestamp),
        Err(VerificationError::DigestMismatch {
            expected: upper.clone(),
            computed: TOTO_DIGEST.to_string(),
        })
    );
}

#[test]
fn verify_at_reports_a_mismatch_before_an_expiry() {
    let result = verify_at(3361, "toto", 1_700_000_000, "abcdef1234567890", 1_800_000_000);
    assert_eq!(
        result,
        Err(VerificationError::DigestMismatch {
            expected: "abcdef1234567890".to_string(),
            computed: TOTO_DIGEST.to_string(),
        })
    );
}

#[test]
fn check_digest_compares_whole_texts() {
    assert_eq!(check_digest("abc", "abc".to_string()), Ok(()));
    assert_eq!(
        check_digest("abc", "abd".to_string()),
        Err(VerificationError::DigestMismatch {
            expected: "abc".to_string(),
            computed: "abd".to_string(),
        })
    );
    assert_eq!(
        check_digest("ab", "abc".to_string()),
        Err(VerificationError::DigestMismatch {
            expected: "ab".to_string(),
            computed: "abc".to_string(),
        })
    );
}

#[test]
fn check_freshness_window() {
    assert_eq!(HASH_VALIDITY_DURATION, 100);
    assert_eq!(check_freshness(1000, 1000), Ok(()));
    assert_eq!(check_freshness(1000, 999), Ok(()));
    assert_eq!(check_freshness(1000, 1100), Ok(()));
    assert_eq!(check_freshness(1000, 1101), Err(VerificationError::Expired { overdue: 1 }));
    assert_eq!(check_freshness(1000, 1250), Err(VerificationError::Expired { overdue: 150 }));
    assert_eq!(
        check_freshness(0, u64::MAX),
        Err(VerificationError::Expired { overdue: u64::MAX - 100 })
    );
}

#[test]
fn check_freshness_does_not_overflow_near_the_largest_timestamp() {
    assert_eq!(check_freshness(u64::MAX, u64::MAX), Ok(()));
    assert_eq!(check_freshness(u64::MAX - 50, u64::MAX), Ok(()));
    assert_eq!(check_freshness(u64::MAX - 100, u64::MAX), Ok(()));
    assert_eq!(
        check_freshness(u64::MAX - 101, u64::MAX),
        Err(VerificationError::Expired { overdue: 1 })
    );
    assert_eq!(check_freshness(u64::MAX, 0), Ok(()));
}

#[test]
fn verification_error_messages() {
    assert_eq!(
        VerificationError::DigestMismatch { expected: "aa".to_string(), computed: "bb".to_string() }
            .message(),
        "La vérification du PoW a échoué.\nExpected: aa\nComputed: bb"
    );
    assert_eq!(
        VerificationError::Expired { overdue: 0 }.message(),
        "Le hash a expiré ! Expiré de 0 secondes."
    );
    assert_eq!(
        VerificationError::Expired { overdue: u64::MAX }.message(),
        "Le hash a expiré ! Expiré de 18446744073709551615 secondes."
    );
    assert_eq!(
        VerificationError::ClockError.message(),
        "Erreur lors de la récupération du timestamp actuel"
    );
}

#[test]
fn clock_error_is_a_plain_value() {
    assert_eq!(ClockError, ClockError);
}
