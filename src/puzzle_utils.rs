//! Byte-level puzzles committed by SHA-256: a number to factor, a hexadecimal
//! prefix, or the next term of a sequence. Each generator returns the puzzle
//! data and the digest of the expected solution; a solution is checked by
//! comparing its digest with that commitment.

use vstd::prelude::*;
use vstd::utf8::encode_utf8;
use crate::bytes::{le_bytes, le_bytes_of, bytes_equal};
use crate::text::{dec_chars, format_u64};
use crate::types::PuzzleError;

verus! {

pub const PUZZLE_TYPE_MATH: u8 = 0;

pub const PUZZLE_TYPE_HASH: u8 = 1;

pub const PUZZLE_TYPE_PATTERN: u8 = 2;

/// The SHA-256 digest of the data, as `sha2` computes it.
pub uninterp spec fn sha256_of(data: Seq<u8>) -> Seq<u8>;

/// Relies on `sha2::Digest::digest` for `sha2::Sha256`: a 32-byte digest that
/// depends on the data alone.
#[verifier::external_body]
fn sha256(data: &[u8]) -> (r: Vec<u8>)
    ensures
        r@ == sha256_of(data@),
        r@.len() == 32,
{
    <sha2::Sha256 as sha2::Digest>::digest(data).to_vec()
}

/// The range a factoring puzzle's number is drawn from.
pub open spec fn math_base(difficulty: u8) -> u64 {
    if difficulty == 0 {
        100
    } else if difficulty == 1 {
        1000
    } else if difficulty == 2 {
        10000
    } else {
        100000
    }
}

/// The least divisor of `t` in `i..t`, or 1 when there is none.
pub open spec fn first_factor_from(t: nat, i: nat) -> nat
    decreases t - i,
{
    if i >= t {
        1
    } else if t % i == 0 {
        i
    } else {
        first_factor_from(t, i + 1)
    }
}

/// The least divisor of `t` other than 1 and `t`, or 1 when there is none.
pub open spec fn smallest_factor(t: nat) -> nat {
    first_factor_from(t, 2)
}

pub open spec fn prefix_length(difficulty: u8) -> nat {
    if difficulty == 0 {
        1
    } else if difficulty == 1 {
        2
    } else if difficulty == 2 {
        3
    } else {
        4
    }
}

/// The target prefix of a hash puzzle: the low nibbles of the seed's first
/// little-endian bytes.
pub open spec fn hash_prefix(seed: u64, len: nat) -> Seq<u8> {
    Seq::new(len, |i: int| (le_bytes(seed as nat, 8)[i % 8] % 16) as u8)
}

pub open spec fn sequence_length(difficulty: u8) -> nat {
    if difficulty == 0 {
        3
    } else if difficulty == 1 {
        4
    } else if difficulty == 2 {
        5
    } else {
        6
    }
}

/// One step of a sequence: add 2, double, or square, modulo 100.
pub open spec fn pattern_step(c: nat, kind: nat) -> nat {
    if kind == 0 {
        (c + 2) % 100
    } else if kind == 1 {
        (c * 2) % 100
    } else {
        (c * c) % 100
    }
}

/// Term `k` of the sequence that `seed` starts: it begins at `seed mod 10`
/// and steps by the kind `(seed / 10) mod 3`.
pub open spec fn pattern_term(seed: u64, k: nat) -> nat
    decreases k,
{
    if k == 0 {
        (seed % 10) as nat
    } else {
        pattern_step(pattern_term(seed, (k - 1) as nat), ((seed / 10) % 3) as nat)
    }
}

pub open spec fn pattern_terms(seed: u64, len: nat) -> Seq<u8> {
    Seq::new(len, |k: int| pattern_term(seed, k as nat) as u8)
}

/// The least divisor of `t` other than 1 and `t`, or 1 for none.
fn smallest_factor_of(t: u32) -> (r: u32)
    ensures
        r == smallest_factor(t as nat),
{
    let mut i: u32 = 2;
    while i < t
        invariant
            2 <= i,
            first_factor_from(t as nat, i as nat) == smallest_factor(t as nat),
        decreases t - i,
    {
        if t % i == 0 {
            return i;
        }
        i += 1;
    }
    1
}

/// A factoring puzzle: the number `seed mod base` as four little-endian
/// bytes, and the digest of its least proper divisor (1 for a prime, 0 or 1)
/// as four little-endian bytes.
pub fn generate_math_puzzle(difficulty: u8, seed: u64) -> (r: (Vec<u8>, Vec<u8>))
    ensures
        ({
            let target = seed % math_base(difficulty);
            &&& r.0@ == le_bytes(target as nat, 4)
            &&& r.1@ == sha256_of(le_bytes(smallest_factor(target as nat), 4))
            &&& r.1@.len() == 32
        }),
{
    let base: u64 = if difficulty == 0 {
        100
    } else if difficulty == 1 {
        1000
    } else if difficulty == 2 {
        10000
    } else {
        100000
    };
    let target_number = (seed % base) as u32;
    let factor = smallest_factor_of(target_number);
    let puzzle_data = le_bytes_of(target_number as u64, 4);
    let factor_bytes = le_bytes_of(factor as u64, 4);
    let solution_hash = sha256(factor_bytes.as_slice());
    (puzzle_data, solution_hash)
}

/// A hash puzzle: a target prefix of one to four nibbles taken from the
/// seed, and the digest of the seed's decimal text.
pub fn generate_hash_puzzle(difficulty: u8, seed: u64) -> (r: (Vec<u8>, Vec<u8>))
    ensures
        r.0@ == hash_prefix(seed, prefix_length(difficulty)),
        r.1@ == sha256_of(encode_utf8(dec_chars(seed as nat))),
        r.1@.len() == 32,
{
    let prefix_length: usize = if difficulty == 0 {
        1
    } else if difficulty == 1 {
        2
    } else if difficulty == 2 {
        3
    } else {
        4
    };
    let seed_bytes = le_bytes_of(seed, 8);
    let mut target_prefix: Vec<u8> = Vec::new();
    let mut i: usize = 0;
    while i < prefix_length
        invariant
            i <= prefix_length <= 4,
            seed_bytes@ == le_bytes(seed as nat, 8),
            seed_bytes@.len() == 8,
            target_prefix@ =~= hash_prefix(seed, i as nat),
        decreases prefix_length - i,
    {
        target_prefix.push(seed_bytes[i % 8] % 16);
        i += 1;
    }
    let solution = format_u64(seed);
    let solution_hash = sha256(solution.as_str().as_bytes());
    (target_prefix, solution_hash)
}

/// A sequence puzzle: the first three to six terms of the seed's sequence,
/// and the digest of the next term as four little-endian bytes.
pub fn generate_pattern_puzzle(difficulty: u8, seed: u64) -> (r: (Vec<u8>, Vec<u8>))
    ensures
        r.0@ == pattern_terms(seed, sequence_length(difficulty)),
        r.1@ == sha256_of(le_bytes(pattern_term(seed, sequence_length(difficulty)), 4)),
        r.1@.len() == 32,
{
    let sequence_length: usize = if difficulty == 0 {
        3
    } else if difficulty == 1 {
        4
    } else if difficulty == 2 {
        5
    } else {
        6
    };
    let mut sequence: Vec<u8> = Vec::new();
    let mut current = seed % 10;
    let pattern_type = (seed / 10) % 3;
    let mut k: usize = 0;
    while k < sequence_length
        invariant
            k <= sequence_length,
            pattern_type == (seed / 10) % 3,
            current == pattern_term(seed, k as nat),
            current < 100,
            sequence@ =~= pattern_terms(seed, k as nat),
        decreases sequence_length - k,
    {
        sequence.push(current as u8);
        if pattern_type == 0 {
            current = (current + 2) % 100;
        } else if pattern_type == 1 {
            current = (current * 2) % 100;
        } else {
            assert(current * current < 10000) by (nonlinear_arith)
                requires
                    current < 100,
            ;
            current = (current * current) % 100;
        }
        k += 1;
    }
    let solution_bytes = le_bytes_of(current, 4);
    let solution_hash = sha256(solution_bytes.as_slice());
    (sequence, solution_hash)
}

/// The puzzle of the kind that `puzzle_type` selects: its data and the
/// digest of its solution; `InvalidPuzzleType` for an unknown selector.
pub fn generate_puzzle(puzzle_type: u8, difficulty: u8, seed: u64) -> (r: Result<
    (Vec<u8>, Vec<u8>),
    PuzzleError,
>)
    ensures
        puzzle_type == PUZZLE_TYPE_MATH ==> (r matches Ok(p) && {
            let target = seed % math_base(difficulty);
            &&& p.0@ == le_bytes(target as nat, 4)
            &&& p.1@ == sha256_of(le_bytes(smallest_factor(target as nat), 4))
            &&& p.1@.len() == 32
        }),
        puzzle_type == PUZZLE_TYPE_HASH ==> (r matches Ok(p) && {
            &&& p.0@ == hash_prefix(seed, prefix_length(difficulty))
            &&& p.1@ == sha256_of(encode_utf8(dec_chars(seed as nat)))
            &&& p.1@.len() == 32
        }),
        puzzle_type == PUZZLE_TYPE_PATTERN ==> (r matches Ok(p) && {
            &&& p.0@ == pattern_terms(seed, sequence_length(difficulty))
            &&& p.1@ == sha256_of(le_bytes(pattern_term(seed, sequence_length(difficulty)), 4))
            &&& p.1@.len() == 32
        }),
        puzzle_type > PUZZLE_TYPE_PATTERN ==> r == Err::<(Vec<u8>, Vec<u8>), PuzzleError>(
            PuzzleError::InvalidPuzzleType,
        ),
{
    if puzzle_type == PUZZLE_TYPE_MATH {
        Ok(generate_math_puzzle(difficulty, seed))
    } else if puzzle_type == PUZZLE_TYPE_HASH {
        Ok(generate_hash_puzzle(difficulty, seed))
    } else if puzzle_type == PUZZLE_TYPE_PATTERN {
        Ok(generate_pattern_puzzle(difficulty, seed))
    } else {
        Err(PuzzleError::InvalidPuzzleType)
    }
}

/// Whether the digest of `solution` equals `solution_hash`, for a known
/// puzzle kind; `InvalidPuzzleType` for an unknown one. The puzzle's data
/// takes no part in the check.
pub fn verify_solution(
    puzzle_type: u8,
    puzzle_data: &[u8],
    solution: &[u8],
    solution_hash: &[u8],
) -> (r: Result<bool, PuzzleError>)
    ensures
        puzzle_type <= PUZZLE_TYPE_PATTERN ==> r == Ok::<bool, PuzzleError>(
            sha256_of(solution@) == solution_hash@,
        ),
        puzzle_type > PUZZLE_TYPE_PATTERN ==> r == Err::<bool, PuzzleError>(
            PuzzleError::InvalidPuzzleType,
        ),
{
    if puzzle_type > PUZZLE_TYPE_PATTERN {
        return Err(PuzzleError::InvalidPuzzleType);
    }
    let calculated_hash = sha256(solution);
    Ok(bytes_equal(calculated_hash.as_slice(), solution_hash))
}

} // verus!
