//! Puzzle generation from the mint slot, and the hash commitment.
//!
//! The number of a puzzle is `((slot mod 1000) + 1) * (difficulty + 1) +
//! (type index + 1) * 100`, and its commitment is that number put through
//! three rounds of `x -> 31 x + 17` modulo 2^64, stored in lowercase hex.
//! This slot-based scheme is the one that `mint_puzzle_nft` and
//! `solve_puzzle` use; the seed-based schemes of `puzzle` and `puzzle_utils`
//! stand apart from it.

use vstd::prelude::*;
use crate::codec::PuzzleInstance;
use crate::codec::PuzzleModel;
use crate::text::{format_hex_u64, hex_chars};
use crate::types::{PuzzleError, PuzzleType, puzzle_type_name, type_index, type_of_selector};

verus! {

/// One round of the commitment: `31 x + 17` modulo 2^64.
pub open spec fn mix(x: u64) -> u64 {
    ((x as int * 31 + 17) % 0x1_0000_0000_0000_0000) as u64
}

/// The commitment of a number: three rounds of `mix`.
pub open spec fn commitment_of(x: u64) -> u64 {
    mix(mix(mix(x)))
}

pub open spec fn puzzle_number_spec(slot: u64, puzzle_type: u8, difficulty: u8) -> u64 {
    (((slot % 1000) + 1) * (difficulty + 1) + (puzzle_type + 1) * 100) as u64
}

/// The puzzle that a mint at `slot` creates.
pub open spec fn new_puzzle_spec(t: PuzzleType, difficulty: u8, slot: u64) -> PuzzleModel {
    let n = puzzle_number_spec(slot, type_index(t), difficulty);
    PuzzleModel {
        puzzle_type: t,
        difficulty,
        puzzle_number: n,
        solution_hash: commitment_of(n),
        solved: false,
        mint_slot: slot,
        solver: None,
        solution: None,
        solved_at: None,
        rarity: None,
    }
}

/// Distinct numbers have distinct rounds: `mix` is a bijection, since 31 is
/// invertible modulo 2^64.
pub proof fn lemma_mix_injective(x: u64, y: u64)
    ensures
        mix(x) == mix(y) ==> x == y,
{
    assert(((x * 31 + 17) % 0x1_0000_0000_0000_0000) as u64 == (x * 31 + 17) as u64)
        by (bit_vector);
    assert(((y * 31 + 17) % 0x1_0000_0000_0000_0000) as u64 == (y * 31 + 17) as u64)
        by (bit_vector);
    assert((((((x * 31 + 17) as u64 - 17) as u64) * 0xef7bdef7bdef7bdfu64) as u64) == x)
        by (bit_vector);
    assert((((((y * 31 + 17) as u64 - 17) as u64) * 0xef7bdef7bdef7bdfu64) as u64) == y)
        by (bit_vector);
}

/// Distinct numbers have distinct commitments.
pub proof fn lemma_commitment_injective(x: u64, y: u64)
    ensures
        commitment_of(x) == commitment_of(y) ==> x == y,
{
    lemma_mix_injective(mix(mix(x)), mix(mix(y)));
    lemma_mix_injective(mix(x), mix(y));
    lemma_mix_injective(x, y);
}

fn mix_round(x: u64) -> (r: u64)
    ensures
        r == mix(x),
{
    ((x as u128 * 31 + 17) % 0x1_0000_0000_0000_0000u128) as u64
}

/// The commitment of `x`, as a number.
pub fn solution_commitment(x: u64) -> (r: u64)
    ensures
        r == commitment_of(x),
{
    let mut h = x;
    let mut i: u32 = 0;
    while i < 3
        invariant
            i <= 3,
            i == 0 ==> h == x,
            i == 1 ==> h == mix(x),
            i == 2 ==> h == mix(mix(x)),
            i == 3 ==> h == commitment_of(x),
        decreases 3 - i,
    {
        h = mix_round(h);
        i += 1;
    }
    h
}

/// The commitment of a puzzle number, in lowercase hex.
pub fn generate_solution_hash(puzzle_number: u64) -> (r: String)
    ensures
        r@ == hex_chars(commitment_of(puzzle_number) as nat),
{
    format_hex_u64(solution_commitment(puzzle_number))
}

/// The number of a puzzle minted at `slot`.
pub fn generate_puzzle_number(slot: u64, puzzle_type: u8, difficulty: u8) -> (r: u64)
    ensures
        r == puzzle_number_spec(slot, puzzle_type, difficulty),
{
    let a = (slot % 1000) + 1;
    let b = difficulty as u64 + 1;
    assert(a * b <= 1000 * 256) by (nonlinear_arith)
        requires
            a <= 1000,
            b <= 256,
    ;
    let base = a * b;
    let modifier = (puzzle_type as u64 + 1) * 100;
    base + modifier
}

/// The stored name of the kind that a selector denotes; `InvalidPuzzleType`
/// for an unknown selector.
pub fn get_puzzle_type_name(puzzle_type: u8) -> (r: Result<String, PuzzleError>)
    ensures
        match type_of_selector(puzzle_type) {
            Some(t) => r is Ok && r->Ok_0@ == puzzle_type_name(t),
            None => r == Err::<String, PuzzleError>(PuzzleError::InvalidPuzzleType),
        },
{
    match PuzzleType::from_selector(puzzle_type) {
        Some(t) => Ok(t.to_string()),
        None => Err(PuzzleError::InvalidPuzzleType),
    }
}

/// A fresh, unsolved puzzle of kind `t` minted at `slot`.
pub fn new_puzzle(t: PuzzleType, difficulty: u8, slot: u64) -> (r: PuzzleInstance)
    ensures
        r@ == new_puzzle_spec(t, difficulty, slot),
{
    let n = generate_puzzle_number(slot, t.index(), difficulty);
    PuzzleInstance {
        puzzle_type: t,
        difficulty,
        puzzle_number: n,
        solution_hash: solution_commitment(n),
        solved: false,
        mint_slot: slot,
        solver: None,
        solution: None,
        solved_at: None,
        rarity: None,
    }
}

} // verus!
