//! Checking a candidate solution against a stored puzzle.

use vstd::prelude::*;
use crate::codec::{PuzzleInstance, PuzzleModel, decode_spec, lookup};
use crate::text::{hex_chars, lemma_unsigned_round_trip};
use crate::generator::{commitment_of, lemma_commitment_injective};
use crate::types::PuzzleType;

verus! {

/// Whether `solution` solves the puzzle: for a factoring puzzle, a non-zero
/// divisor of its number (1 and the number itself included); for the other
/// kinds, a number whose commitment equals the stored one.
pub open spec fn accepts_spec(m: PuzzleModel, solution: u64) -> bool {
    match m.puzzle_type {
        PuzzleType::MathFactor => solution > 0 && m.puzzle_number % solution == 0,
        _ => commitment_of(solution) == m.solution_hash,
    }
}

/// Whether `solution` solves puzzle `p`.
pub fn check_solution(p: &PuzzleInstance, solution: u64) -> (r: bool)
    ensures
        r == accepts_spec(p@, solution),
{
    match p.puzzle_type {
        PuzzleType::MathFactor => solution > 0 && p.puzzle_number % solution == 0,
        _ => crate::generator::solution_commitment(solution) == p.solution_hash,
    }
}

/// A factoring puzzle accepts exactly the divisors of its number.
pub proof fn lemma_math_factor_accepts_divisors(m: PuzzleModel, d: u64)
    requires
        m.puzzle_type == PuzzleType::MathFactor,
    ensures
        accepts_spec(m, d) <==> (d > 0 && m.puzzle_number % d == 0),
{
}

/// A hash puzzle accepts at most one number, so no number that differs from
/// an accepted one in a single bit is accepted.
pub proof fn lemma_hash_puzzle_exact(m: PuzzleModel, s: u64, k: u64)
    requires
        m.puzzle_type != PuzzleType::MathFactor,
        accepts_spec(m, s),
        k < 64,
    ensures
        forall|s2: u64| #[trigger] accepts_spec(m, s2) ==> s2 == s,
        !accepts_spec(m, s ^ (1u64 << k)),
{
    assert forall|s2: u64| #[trigger] accepts_spec(m, s2) implies s2 == s by {
        lemma_commitment_injective(s, s2);
    }
    assert(s ^ (1u64 << k) != s) by (bit_vector)
        requires
            k < 64,
    ;
}

/// For a puzzle read from a list, comparing commitments as numbers is
/// comparing the recomputed hex text with the stored `solution_hash` text.
pub proof fn lemma_commitment_compared_as_text(l: Seq<(Seq<char>, Seq<char>)>, s: u64)
    requires
        decode_spec(l) is Ok,
        decode_spec(l)->Ok_0.puzzle_type != PuzzleType::MathFactor,
    ensures
        accepts_spec(decode_spec(l)->Ok_0, s) <==> hex_chars(commitment_of(s) as nat) == lookup(
            l,
            "solution_hash"@,
        )->0,
{
    let m = decode_spec(l)->Ok_0;
    lemma_unsigned_round_trip(commitment_of(s), 16);
    lemma_unsigned_round_trip(m.solution_hash, 16);
}

} // verus!
