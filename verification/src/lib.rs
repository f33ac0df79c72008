//! Proof of work over SHA-256.
//!
//! A miner searches for a nonce such that the digest of some data, the time
//! of the attempt and the nonce starts, in hexadecimal, with a required
//! prefix. A verifier recomputes the digest of a presented proof, compares it
//! with the claimed one, and accepts the proof while it is fresh.
//!
//! - [`encoding`]: decimal numerals and lowercase hexadecimal.
//! - [`hashing`]: the bytes that are hashed, and their digest.
//! - [`clock`]: the wall clock.
//! - [`pow_generation`]: the target prefix and the search for a nonce.
//! - [`pow_verification`]: the comparison of digests and the validity window.
//! - [`laws`]: what the parts guarantee of each other.

pub mod clock;
pub mod encoding;
pub mod hashing;
pub mod laws;
pub mod pow_generation;
pub mod pow_verification;
