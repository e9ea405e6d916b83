//! The seed-commitment scheme: a puzzle drawn from the hash of the
//! requester's key and the slot, stored with `puzzle_type`, `puzzle_number`,
//! `solved` and `hidden_trait` attributes, and for a hash riddle the seed
//! hash as `puzzle_hash` in lowercase hex.

use vstd::prelude::*;
use vstd::utf8::encode_utf8;
use crate::bytes::{le_bytes, le_bytes_of};
use crate::codec::{attrs_view, find_value, lemma_key_index_at, lookup};
use crate::solana::{identity_text, pubkey_text_of, solana_hash, solana_hash_of};
use crate::text::{
    dec_chars, format_hex_bytes, format_u64, hex_byte_chars, lemma_hex_bytes_round_trip,
    lemma_unsigned_round_trip, parse_hex_bytes, parse_hex_bytes_spec, parse_radix_spec, parse_u64,
};
use crate::types::{Attribute, Identity, PuzzleError, PuzzleType, puzzle_type_name};

verus! {

/// A generated puzzle: its number, the seed hash, and its kind.
pub struct PuzzleParameters {
    pub number: u64,
    pub hash: [u8; 32],
    pub puzzle_type: PuzzleType,
}

/// The text hashed to seed a puzzle: the key's text, then the slot in decimal.
pub open spec fn seed_text(pubkey: Seq<u8>, slot: u64) -> Seq<char> {
    pubkey_text_of(pubkey) + dec_chars(slot as nat)
}

/// Even first seed byte: a factoring puzzle; odd: a hash riddle.
pub open spec fn seeded_type(b0: u8) -> PuzzleType {
    if b0 % 2 == 0 {
        PuzzleType::MathFactor
    } else {
        PuzzleType::HashRiddle
    }
}

/// An even number from 20 to 108, from the first seed byte.
pub open spec fn seeded_number(b0: u8) -> u64 {
    let n = ((b0 % 45 + 10) * 2) as u64;
    if n < 20 {
        20
    } else {
        n
    }
}

/// Draws a puzzle from the hash of the slot and `pubkey`.
pub fn generate_puzzle(pubkey: &Identity, slot: u64) -> (r: Result<PuzzleParameters, PuzzleError>)
    ensures
        r matches Ok(p) && {
            &&& p.hash@ == solana_hash_of(encode_utf8(seed_text(pubkey@, slot)))
            &&& p.puzzle_type == seeded_type(p.hash@[0])
            &&& p.number == seeded_number(p.hash@[0])
        },
{
    let mut seed = identity_text(pubkey);
    let slot_text = format_u64(slot);
    seed.append(slot_text.as_str());
    let hash = solana_hash(seed.as_str().as_bytes());
    let b0 = hash[0];
    let puzzle_type = if b0 % 2 == 0 {
        PuzzleType::MathFactor
    } else {
        PuzzleType::HashRiddle
    };
    let mut number: u64 = ((b0 as u64) % 45 + 10) * 2;
    if number < 20 {
        number = 20;
    }
    Ok(PuzzleParameters { number, hash, puzzle_type })
}

/// The attribute list of a seeded puzzle.
pub open spec fn seeded_attrs_spec(number: u64, hash: Seq<u8>, t: PuzzleType) -> Seq<
    (Seq<char>, Seq<char>),
> {
    let base = seq![
        ("puzzle_type"@, puzzle_type_name(t)),
        ("puzzle_number"@, dec_chars(number as nat)),
        ("solved"@, "false"@),
        ("hidden_trait"@, "???"@),
    ];
    if t == PuzzleType::HashRiddle {
        base.push(("puzzle_hash"@, hex_byte_chars(hash)))
    } else {
        base
    }
}

/// The attribute list of a seeded puzzle.
pub fn create_puzzle_attributes(puzzle_params: &PuzzleParameters) -> (r: Vec<Attribute>)
    ensures
        attrs_view(r@) == seeded_attrs_spec(
            puzzle_params.number,
            puzzle_params.hash@,
            puzzle_params.puzzle_type,
        ),
{
    let mut attributes: Vec<Attribute> = Vec::new();
    attributes.push(Attribute::new("puzzle_type", puzzle_params.puzzle_type.to_string()));
    attributes.push(Attribute::new("puzzle_number", format_u64(puzzle_params.number)));
    attributes.push(Attribute::new("solved", String::from_str("false")));
    attributes.push(Attribute::new("hidden_trait", String::from_str("???")));
    if puzzle_params.puzzle_type == PuzzleType::HashRiddle {
        attributes.push(Attribute::new("puzzle_hash", format_hex_bytes(&puzzle_params.hash)));
    }
    assert(attrs_view(attributes@) =~= seeded_attrs_spec(
        puzzle_params.number,
        puzzle_params.hash@,
        puzzle_params.puzzle_type,
    ));
    attributes
}

/// Checking a solution of a seeded puzzle. A missing `puzzle_number` or
/// `puzzle_type`, or for a hash riddle a missing `puzzle_hash`, is
/// `PuzzleNotFound`; a number that is not decimal, or a `puzzle_hash` that
/// is not the hex text of a 32-byte hash, is `FailedToParsePuzzleData`; a
/// type other than `math_factor` and `hash_riddle` is `InvalidPuzzleType`.
/// A factoring puzzle accepts the non-zero divisors of its number; a hash
/// riddle accepts a number whose hash (of its eight little-endian bytes)
/// shares its first four bytes with the stored hash.
pub open spec fn seeded_verify_spec(l: Seq<(Seq<char>, Seq<char>)>, solution: u64) -> Result<
    bool,
    PuzzleError,
> {
    let nv = lookup(l, "puzzle_number"@);
    let tv = lookup(l, "puzzle_type"@);
    let hv = lookup(l, "puzzle_hash"@);
    if nv is None {
        Err(PuzzleError::PuzzleNotFound)
    } else if parse_radix_spec(nv->0, 10) is None {
        Err(PuzzleError::FailedToParsePuzzleData)
    } else if tv is None {
        Err(PuzzleError::PuzzleNotFound)
    } else if tv->0 == "math_factor"@ {
        let n = parse_radix_spec(nv->0, 10)->0;
        Ok(solution > 0 && n % solution == 0)
    } else if tv->0 == "hash_riddle"@ {
        if hv is None {
            Err(PuzzleError::PuzzleNotFound)
        } else if parse_hex_bytes_spec(hv->0) is None || parse_hex_bytes_spec(hv->0)->0.len() != 32 {
            Err(PuzzleError::FailedToParsePuzzleData)
        } else {
            Ok(
                solana_hash_of(le_bytes(solution as nat, 8)).subrange(0, 4)
                    == parse_hex_bytes_spec(hv->0)->0.subrange(0, 4),
            )
        }
    } else {
        Err(PuzzleError::InvalidPuzzleType)
    }
}

/// Checks `solution` against the seeded puzzle in `attributes`; see
/// `seeded_verify_spec`.
#[verifier::loop_isolation(false)]
pub fn verify_solution(attributes: &Vec<Attribute>, solution: u64) -> (r: Result<bool, PuzzleError>)
    ensures
        r == seeded_verify_spec(attrs_view(attributes@), solution),
{
    let number = match find_value(attributes, "puzzle_number") {
        Some(v) => match parse_u64(v.as_str()) {
            Some(n) => n,
            None => return Err(PuzzleError::FailedToParsePuzzleData),
        },
        None => return Err(PuzzleError::PuzzleNotFound),
    };
    let ptype = match find_value(attributes, "puzzle_type") {
        Some(v) => v,
        None => return Err(PuzzleError::PuzzleNotFound),
    };
    if ptype == String::from_str("math_factor") {
        Ok(solution > 0 && number % solution == 0)
    } else if ptype == String::from_str("hash_riddle") {
        let hash_str = match find_value(attributes, "puzzle_hash") {
            Some(v) => v,
            None => return Err(PuzzleError::PuzzleNotFound),
        };
        let stored = match parse_hex_bytes(hash_str.as_str()) {
            Some(b) => b,
            None => return Err(PuzzleError::FailedToParsePuzzleData),
        };
        if stored.len() != 32 {
            return Err(PuzzleError::FailedToParsePuzzleData);
        }
        let le = le_bytes_of(solution, 8);
        let h = solana_hash(le.as_slice());
        let mut i: usize = 0;
        while i < 4
            invariant
                i <= 4,
                h@.len() == 32,
                stored@.len() == 32,
                forall|j: int| 0 <= j < i ==> h@[j] == stored@[j],
            decreases 4 - i,
        {
            if h[i] != stored[i] {
                assert(h@.subrange(0, 4)[i as int] != stored@.subrange(0, 4)[i as int]);
                assert(h@.subrange(0, 4) != stored@.subrange(0, 4));
                return Ok(false);
            }
            i += 1;
        }
        assert(h@.subrange(0, 4) =~= stored@.subrange(0, 4));
        Ok(true)
    } else {
        Err(PuzzleError::InvalidPuzzleType)
    }
}

/// Checking a solution against the list that `create_puzzle_attributes`
/// wrote: a factoring puzzle accepts the non-zero divisors of its number, a
/// hash riddle compares the first four bytes of the solution's hash with
/// those of the seed hash, and any other kind is refused.
pub proof fn lemma_seeded_check_reads_parameters(number: u64, hash: Seq<u8>, t: PuzzleType, solution: u64)
    requires
        hash.len() == 32,
    ensures
        seeded_verify_spec(seeded_attrs_spec(number, hash, t), solution) == match t {
            PuzzleType::MathFactor => Ok::<bool, PuzzleError>(solution > 0 && number % solution == 0),
            PuzzleType::HashRiddle => Ok::<bool, PuzzleError>(
                solana_hash_of(le_bytes(solution as nat, 8)).subrange(0, 4) == hash.subrange(0, 4),
            ),
            PuzzleType::Pattern => Err::<bool, PuzzleError>(PuzzleError::InvalidPuzzleType),
        },
{
    reveal_strlit("puzzle_type");
    reveal_strlit("puzzle_number");
    reveal_strlit("solved");
    reveal_strlit("hidden_trait");
    reveal_strlit("puzzle_hash");
    reveal_strlit("math_factor");
    reveal_strlit("hash_riddle");
    reveal_strlit("pattern");
    assert("puzzle_type"@.len() != "puzzle_number"@.len());
    assert("puzzle_type"@[0] != "solved"@[0]);
    assert("puzzle_type"@[0] != "hidden_trait"@[0]);
    assert("puzzle_type"@[7] != "puzzle_hash"@[7]);
    assert("puzzle_number"@[0] != "solved"@[0]);
    assert("puzzle_number"@[0] != "hidden_trait"@[0]);
    assert("puzzle_number"@.len() != "puzzle_hash"@.len());
    assert("solved"@[0] != "puzzle_hash"@[0]);
    assert("hidden_trait"@[0] != "puzzle_hash"@[0]);
    assert("math_factor"@[0] != "hash_riddle"@[0]);
    assert("math_factor"@[0] != "pattern"@[0]);
    assert("hash_riddle"@[0] != "pattern"@[0]);
    let l = seeded_attrs_spec(number, hash, t);
    lemma_key_index_at(l, "puzzle_number"@, 1);
    lemma_key_index_at(l, "puzzle_type"@, 0);
    lemma_unsigned_round_trip(number, 10);
    if t == PuzzleType::HashRiddle {
        lemma_key_index_at(l, "puzzle_hash"@, 4);
        lemma_hex_bytes_round_trip(hash);
    }
}

} // verus!
