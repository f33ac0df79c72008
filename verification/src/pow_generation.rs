//! Mining: the search for a nonce whose digest starts with the target prefix.

use crate::clock::get_current_timestamp;
use crate::encoding::{ascii_text, decimal, hex, hex_digit_at, push_decimal_text};
use crate::hashing::{
    hash, hashable, is_hashable, oversize_message, oversize_text, pow_digest, pow_digest_hex,
    PowDigest,
};
use std::time::SystemTime;
use vstd::prelude::*;
use vstd::string::{StringExecFns, StringSliceAdditionalSpecFns};

verus! {

/// `pattern` written `count` times in a row.
pub open spec fn repeated(pattern: Seq<char>, count: nat) -> Seq<char>
    decreases count,
{
    if count == 0 {
        Seq::empty()
    } else {
        repeated(pattern, (count - 1) as nat) + pattern
    }
}

/// Whether a digest, as hexadecimal text, starts with `pattern` written
/// `difficulty` times.
pub open spec fn meets_target(digest_hex: Seq<char>, pattern: Seq<char>, difficulty: nat) -> bool {
    repeated(pattern, difficulty).is_prefix_of(digest_hex)
}

/// A pattern written `count` times is `count` times as long as the pattern.
pub proof fn lemma_repeated_len(pattern: Seq<char>, count: nat)
    ensures
        repeated(pattern, count).len() == count * pattern.len(),
    decreases count,
{
    if count > 0 {
        lemma_repeated_len(pattern, (count - 1) as nat);
        assert(count * pattern.len() == (count - 1) * pattern.len() + pattern.len())
            by (nonlinear_arith);
    } else {
        assert(count * pattern.len() == 0) by (nonlinear_arith)
            requires
                count == 0,
        ;
    }
}

/// The character at place `offset` of the copy numbered `round` is the
/// pattern's character at `offset`.
pub proof fn lemma_repeated_index(pattern: Seq<char>, count: nat, round: int, offset: int)
    requires
        0 <= round < count,
        0 <= offset < pattern.len(),
    ensures
        0 <= round * pattern.len() + offset < repeated(pattern, count).len(),
        repeated(pattern, count)[round * pattern.len() + offset] == pattern[offset],
    decreases count,
{
    let width = pattern.len() as int;
    let shorter = repeated(pattern, (count - 1) as nat);
    lemma_repeated_len(pattern, count);
    lemma_repeated_len(pattern, (count - 1) as nat);
    assert(count * width == (count - 1) * width + width) by (nonlinear_arith);
    if round == count - 1 {
        assert((shorter + pattern)[shorter.len() + offset] == pattern[offset]);
    } else {
        lemma_repeated_index(pattern, (count - 1) as nat, round, offset);
        assert((shorter + pattern)[round * width + offset] == shorter[round * width + offset]);
    }
}

/// An empty target is met by every digest.
pub proof fn lemma_empty_target(digest_hex: Seq<char>, pattern: Seq<char>, difficulty: nat)
    requires
        pattern.len() == 0 || difficulty == 0,
    ensures
        meets_target(digest_hex, pattern, difficulty),
{
    lemma_repeated_len(pattern, difficulty);
    assert(difficulty * pattern.len() == 0) by (nonlinear_arith)
        requires
            pattern.len() == 0 || difficulty == 0,
    ;
}

/// A sequence that differs from `text` at one of its places is no prefix of it.
proof fn lemma_differing_place(target: Seq<char>, text: Seq<char>, place: int)
    requires
        0 <= place < target.len(),
        place < text.len(),
        target[place] != text[place],
    ensures
        !target.is_prefix_of(text),
{
    if target.len() <= text.len() {
        assert(text.subrange(0, target.len() as int)[place] == text[place]);
    }
}

/// Tells whether the hexadecimal text of `digest` starts with `pattern`
/// written `difficulty` times. The target is compared place by place and is
/// never built, so its length is not limited.
pub fn digest_meets_target(digest: &PowDigest, pattern: &[char], difficulty: usize) -> (met: bool)
    ensures
        met == meets_target(digest.hex_text(), pattern@, difficulty as nat),
{
    let width = pattern.len();
    let ghost target = repeated(pattern@, difficulty as nat);
    let ghost text = digest.hex_text();
    proof {
        lemma_repeated_len(pattern@, difficulty as nat);
        digest.lemma_len();
    }
    if width == 0 || difficulty == 0 {
        proof {
            lemma_empty_target(text, pattern@, difficulty as nat);
        }
        return true;
    }
    let bytes = digest.as_bytes();
    let mut position: usize = 0;
    let mut offset: usize = 0;
    let mut round: usize = 0;
    while round < difficulty
        invariant
            width == pattern@.len(),
            width > 0,
            target == repeated(pattern@, difficulty as nat),
            target.len() == difficulty * width,
            text == digest.hex_text(),
            text == hex(bytes@),
            text.len() == 64,
            round <= difficulty,
            offset < width,
            position == round * width + offset,
            position <= 64,
            position <= target.len(),
            round == difficulty ==> offset == 0,
            forall|k: int| 0 <= k < position ==> target[k] == text[k],
        decreases 64 - position,
    {
        proof {
            lemma_repeated_index(pattern@, difficulty as nat, round as int, offset as int);
        }
        if position == 64 {
            return false;
        }
        if hex_digit_at(bytes.as_slice(), position) != pattern[offset] {
            proof {
                lemma_differing_place(target, text, position as int);
            }
            return false;
        }
        assert((round + 1) * width == round * width + width) by (nonlinear_arith);
        position = position + 1;
        offset = offset + 1;
        if offset == width {
            offset = 0;
            round = round + 1;
        }
    }
    assert(target =~= text.subrange(0, target.len() as int));
    true
}

/// The characters of `text`.
pub fn chars_of(text: &str) -> (chars: Vec<char>)
    ensures
        chars@ == text@,
{
    let mut chars: Vec<char> = Vec::new();
    for c in it: text.chars()
        invariant
            it.seq() == text@,
            chars@ == it.seq().take(it.index() as int),
    {
        chars.push(c);
        assert(chars@ =~= it.seq().take(it.index() + 1));
    }
    assert(chars@ =~= text@);
    chars
}

/// What a successful search found.
#[derive(Debug)]
pub struct MiningResult {
    /// The pattern that was asked for.
    pub pattern: String,
    /// How many times the pattern had to be repeated.
    pub difficulty: usize,
    /// The time, in seconds since the Unix epoch, of the winning attempt.
    pub timestamp: u64,
    /// The winning nonce.
    pub nonce: u64,
    /// The digest of the data with that timestamp and nonce.
    pub digest: PowDigest,
    /// The time that the search took, in whole milliseconds.
    pub elapsed_millis: u128,
}

impl MiningResult {
    /// The digest starts with the pattern written `difficulty` times.
    pub open spec fn well_formed(&self) -> bool {
        meets_target(self.digest.hex_text(), self.pattern@, self.difficulty as nat)
    }

    /// The result answers the request `(data, pattern, difficulty)`: it names
    /// the request, its digest is that of `data` with its timestamp and nonce,
    /// and the digest meets the target.
    pub open spec fn answers(&self, data: Seq<u8>, pattern: Seq<char>, difficulty: usize) -> bool {
        &&& self.pattern@ == pattern
        &&& self.difficulty == difficulty
        &&& self.digest@ == pow_digest(data, self.timestamp, self.nonce)
        &&& self.well_formed()
    }

    /// The lines of the report on a successful search: a heading, then the
    /// pattern, the difficulty, the timestamp, the nonce, the digest in
    /// hexadecimal and the time taken in milliseconds.
    pub open spec fn report(&self) -> Seq<Seq<char>> {
        seq![
            "Bloc miné !"@,
            "Pattern attendu : "@ + self.pattern@,
            "Difficulté: "@ + ascii_text(decimal(self.difficulty as nat)),
            "Timestamp: "@ + ascii_text(decimal(self.timestamp as nat)),
            "Nonce trouvé: "@ + ascii_text(decimal(self.nonce as nat)),
            "Hash correspondant: "@ + self.digest.hex_text(),
            "Temps de minage : "@ + ascii_text(decimal(self.elapsed_millis as nat)) + " ms"@,
        ]
    }

    /// Writes the report on a successful search, line by line.
    pub fn report_lines(&self) -> (lines: Vec<String>)
        ensures
            lines@.len() == self.report().len(),
            forall|i: int| 0 <= i < lines@.len() ==> lines@[i]@ == self.report()[i],
    {
        let mut lines: Vec<String> = Vec::new();
        lines.push(String::from_str("Bloc miné !"));
        let mut line = String::from_str("Pattern attendu : ");
        line.append(self.pattern.as_str());
        lines.push(line);
        let mut line = String::from_str("Difficulté: ");
        push_decimal_text(&mut line, self.difficulty as u128);
        lines.push(line);
        let mut line = String::from_str("Timestamp: ");
        push_decimal_text(&mut line, self.timestamp as u128);
        lines.push(line);
        let mut line = String::from_str("Nonce trouvé: ");
        push_decimal_text(&mut line, self.nonce as u128);
        lines.push(line);
        let mut line = String::from_str("Hash correspondant: ");
        line.append(self.digest.to_hex().as_str());
        lines.push(line);
        let mut line = String::from_str("Temps de minage : ");
        push_decimal_text(&mut line, self.elapsed_millis);
        line.append(" ms");
        lines.push(line);
        lines
    }
}

/// Why a search ended without a result.
#[derive(Clone, Copy, Debug, PartialEq, Eq)]
pub enum MiningError {
    /// The clock could not be read before an attempt.
    ClockError,
    /// The time that the search took could not be measured.
    ElapsedTimeError,
    /// Every nonce that the search was allowed was tried, and none met the
    /// target.
    NoncesExhausted,
}

impl MiningError {
    /// The text that describes the error.
    pub open spec fn description(self) -> Seq<char> {
        match self {
            MiningError::ClockError => "Erreur lors de la récupération du timestamp"@,
            MiningError::ElapsedTimeError => "Erreur lors du calcul du temps écoulé"@,
            MiningError::NoncesExhausted => "Aucun nonce ne satisfait le pattern demandé"@,
        }
    }

    /// The text that describes the error.
    pub fn message(&self) -> (text: String)
        ensures
            text@ == self.description(),
    {
        match self {
            MiningError::ClockError => String::from_str(
                "Erreur lors de la récupération du timestamp",
            ),
            MiningError::ElapsedTimeError => String::from_str(
                "Erreur lors du calcul du temps écoulé",
            ),
            MiningError::NoncesExhausted => String::from_str(
                "Aucun nonce ne satisfait le pattern demandé",
            ),
        }
    }
}

/// Whether the attempt `(timestamp, nonce)` on `data` misses the target.
pub open spec fn misses(
    data: Seq<u8>,
    pattern: Seq<char>,
    difficulty: usize,
    timestamp: u64,
    nonce: u64,
) -> bool {
    !meets_target(pow_digest_hex(data, timestamp, nonce), pattern, difficulty as nat)
}

/// Whether `nonce` misses the target at some time.
pub open spec fn missed_once(
    data: Seq<u8>,
    pattern: Seq<char>,
    difficulty: usize,
    nonce: u64,
) -> bool {
    exists|timestamp: u64| misses(data, pattern, difficulty, timestamp, nonce)
}

/// Whether every nonce below `nonce` misses the target at some time.
pub open spec fn all_missed_below(
    data: Seq<u8>,
    pattern: Seq<char>,
    difficulty: usize,
    nonce: u64,
) -> bool {
    forall|earlier: u64|
        earlier < nonce ==> #[trigger] missed_once(data, pattern, difficulty, earlier)
}

/// What a search over the nonces up to `last_nonce` has shown of the request
/// `(data, pattern, difficulty)` when it ends with `result`.
///
/// A result answers the request with a nonce within the limit, and every
/// smaller nonce missed the target at the time it was tried. With an empty
/// target the first attempt succeeds, so the nonce is zero. Where the nonces
/// ran out, each of them missed the target at the time it was tried, and the
/// target is not empty. Where the time taken could not be measured, an attempt
/// had just met the target. A failure of the clock before an attempt shows
/// nothing.
pub open spec fn search_shows(
    data: Seq<u8>,
    pattern: Seq<char>,
    difficulty: usize,
    last_nonce: u64,
    result: Result<MiningResult, MiningError>,
) -> bool {
    match result {
        Ok(found) => {
            &&& found.answers(data, pattern, difficulty)
            &&& found.nonce <= last_nonce
            &&& all_missed_below(data, pattern, difficulty, found.nonce)
            &&& pattern.len() == 0 || difficulty == 0 ==> found.nonce == 0
        },
        Err(MiningError::NoncesExhausted) => {
            &&& all_missed_below(data, pattern, difficulty, last_nonce)
            &&& missed_once(data, pattern, difficulty, last_nonce)
            &&& pattern.len() > 0 && difficulty > 0
        },
        Err(MiningError::ElapsedTimeError) => exists|timestamp: u64, nonce: u64|
            {
                &&& nonce <= last_nonce
                &&& !#[trigger] misses(data, pattern, difficulty, timestamp, nonce)
                &&& all_missed_below(data, pattern, difficulty, nonce)
            },
        Err(MiningError::ClockError) => true,
    }
}

/// One attempt: hashes `(data, timestamp, nonce)` and returns the digest where
/// it meets the target.
pub fn attempt(
    data: &[u8],
    pattern: &[char],
    difficulty: usize,
    timestamp: u64,
    nonce: u64,
) -> (found: Option<PowDigest>)
    requires
        hashable(data@),
    ensures
        match found {
            Some(digest) => {
                &&& digest@ == pow_digest(data@, timestamp, nonce)
                &&& !misses(data@, pattern@, difficulty, timestamp, nonce)
            },
            None => misses(data@, pattern@, difficulty, timestamp, nonce),
        },
{
    let digest = hash(data, timestamp, nonce);
    if digest_meets_target(&digest, pattern, difficulty) {
        Some(digest)
    } else {
        None
    }
}

/// Searches for a proof of work on `data` among the nonces up to `last_nonce`:
/// tries the nonces 0, 1, 2, ... in turn, each with the time at which it is
/// tried, until the digest starts with `pattern` written `difficulty` times.
pub fn mine_within(
    data: &str,
    pattern: &str,
    difficulty: usize,
    last_nonce: u64,
) -> (result: Result<MiningResult, MiningError>)
    requires
        hashable(data.spec_bytes()),
    ensures
        search_shows(data.spec_bytes(), pattern@, difficulty, last_nonce, result),
{
    let bytes = data.as_bytes();
    let wanted = chars_of(pattern);
    let started = SystemTime::now();
    let mut nonce: u64 = 0;
    loop
        invariant
            bytes@ == data.spec_bytes(),
            hashable(bytes@),
            wanted@ == pattern@,
            nonce <= last_nonce,
            all_missed_below(bytes@, wanted@, difficulty, nonce),
            pattern@.len() == 0 || difficulty == 0 ==> nonce == 0,
        decreases last_nonce - nonce,
    {
        let timestamp = match get_current_timestamp() {
            Ok(now) => now,
            Err(_) => {
                return Err(MiningError::ClockError);
            },
        };
        match attempt(bytes, wanted.as_slice(), difficulty, timestamp, nonce) {
            Some(digest) => {
                return match started.elapsed() {
                    Ok(elapsed) => Ok(
                        MiningResult {
                            pattern: String::from_str(pattern),
                            difficulty,
                            timestamp,
                            nonce,
                            digest,
                            elapsed_millis: elapsed.as_millis(),
                        },
                    ),
                    Err(_) => Err(MiningError::ElapsedTimeError),
                };
            },
            None => {
                proof {
                    assert(misses(bytes@, wanted@, difficulty, timestamp, nonce));
                    if pattern@.len() == 0 || difficulty == 0 {
                        lemma_empty_target(
                            pow_digest_hex(bytes@, timestamp, nonce),
                            pattern@,
                            difficulty as nat,
                        );
                    }
                }
            },
        }
        if nonce == last_nonce {
            return Err(MiningError::NoncesExhausted);
        }
        nonce = nonce + 1;
    }
}

/// Searches for a proof of work on `data` among all 64-bit nonces.
pub fn mine(data: &str, pattern: &str, difficulty: usize) -> (result: Result<
    MiningResult,
    MiningError,
>)
    requires
        hashable(data.spec_bytes()),
    ensures
        search_shows(data.spec_bytes(), pattern@, difficulty, u64::MAX, result),
{
    mine_within(data, pattern, difficulty, u64::MAX)
}

/// Searches for a proof of work as `mine` does, and describes a failure in
/// words. Data too long to be hashed is refused.
pub fn mine_block(data: &str, pattern: &str, difficulty: usize) -> (result: Result<
    MiningResult,
    String,
>)
    ensures
        !hashable(data.spec_bytes()) ==> result is Err && result->Err_0@ == oversize_text(),
        hashable(data.spec_bytes()) ==> match result {
            Ok(found) => search_shows(data.spec_bytes(), pattern@, difficulty, u64::MAX, Ok(found)),
            Err(text) => exists|error: MiningError|
                {
                    &&& text@ == #[trigger] error.description()
                    &&& search_shows(
                        data.spec_bytes(),
                        pattern@,
                        difficulty,
                        u64::MAX,
                        Err(error),
                    )
                },
        },
{
    if !is_hashable(data.as_bytes()) {
        return Err(oversize_message());
    }
    match mine(data, pattern, difficulty) {
        Ok(found) => Ok(found),
        Err(error) => Err(error.message()),
    }
}

} // verus!
