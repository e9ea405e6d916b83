use puzzle_nft::auth::{
    require_update_authority, verify_nft_owner, verify_update_authority, AssetRecord, TokenHolding,
};
use puzzle_nft::checker::check_solution;
use puzzle_nft::codec::decode;
use puzzle_nft::generator::{
    generate_puzzle_number, generate_solution_hash, get_puzzle_type_name, new_puzzle,
    solution_commitment,
};
use puzzle_nft::machine::{mint_puzzle_nft, solve_puzzle};
use puzzle_nft::rarity::rarity_for_timestamp;
use puzzle_nft::types::{Attribute, Identity, PuzzleError, PuzzleType, Rarity};

fn id(b: u8) -> Identity {
    Identity::new([b; 32])
}

fn record(owner: u8) -> AssetRecord {
    AssetRecord { key: id(9), owner: id(owner), update_authority: id(3) }
}

fn value(l: &[Attribute], k: &str) -> Option<String> {
    l.iter().find(|a| a.key == k).map(|a| a.value.clone())
}

#[test]
fn puzzle_number_and_commitment() {
    assert_eq!(generate_puzzle_number(42, 0, 1), 186);
    assert_eq!(generate_puzzle_number(999, 2, 255), 1000 * 256 + 300);
    assert_eq!(generate_puzzle_number(1000, 1, 0), 201);
    assert_eq!(generate_solution_hash(186), "54cef7");
    assert_eq!(generate_solution_hash(0), "41f1");
    assert_eq!(get_puzzle_type_name(2).unwrap(), "pattern");
    assert_eq!(get_puzzle_type_name(3).err(), Some(PuzzleError::InvalidPuzzleType));
}

#[test]
fn math_factor_accepts_divisors_only() {
    let p = new_puzzle(PuzzleType::MathFactor, 1, 42);
    assert_eq!(p.puzzle_number, 186);
    for d in 0..400u64 {
        let divides = d > 0 && 186 % d == 0;
        assert_eq!(check_solution(&p, d), divides, "candidate {}", d);
    }
}

#[test]
fn hash_riddle_accepts_its_number_and_no_bit_flip() {
    let p = new_puzzle(PuzzleType::HashRiddle, 0, 7);
    assert_eq!(p.solution_hash, solution_commitment(p.puzzle_number));
    assert!(check_solution(&p, p.puzzle_number));
    for k in 0..64 {
        assert!(!check_solution(&p, p.puzzle_number ^ (1u64 << k)));
    }
}

#[test]
fn rarity_boundaries() {
    let cases = [
        (0, Rarity::Legendary),
        (9, Rarity::Legendary),
        (10, Rarity::Epic),
        (29, Rarity::Epic),
        (30, Rarity::Rare),
        (59, Rarity::Rare),
        (60, Rarity::Common),
        (99, Rarity::Common),
        (1_700_000_045, Rarity::Rare),
        (-1, Rarity::Common),
    ];
    for (t, r) in cases {
        assert_eq!(rarity_for_timestamp(t), r, "timestamp {}", t);
    }
    assert_eq!(Rarity::Legendary.to_string(), "Legendary");
}

#[test]
fn mint_then_solve_once() {
    let minted = mint_puzzle_nft(0, 1, 42, &id(9), &id(1)).unwrap();
    assert_eq!(minted.event.puzzle_number, 186);
    assert_eq!(minted.event.puzzle_type, "math_factor");
    assert!(minted.event.minter == id(1));
    assert_eq!(value(&minted.attributes, "puzzle_number").unwrap(), "186");
    assert_eq!(value(&minted.attributes, "solved").unwrap(), "false");
    assert_eq!(value(&minted.attributes, "mint_slot").unwrap(), "42");

    let wrong = solve_puzzle(&minted.attributes, &record(1), &None, &id(1), 5, None, 100);
    assert_eq!(wrong.err(), Some(PuzzleError::IncorrectSolution));
    assert!(!decode(&minted.attributes).unwrap().solved);

    let uri = Some("https://example.com/solved.json".to_string());
    let ok = solve_puzzle(&minted.attributes, &record(1), &None, &id(1), 31, uri.clone(), 1_700_000_003)
        .unwrap();
    assert_eq!(ok.event.rarity, "Legendary");
    assert_eq!(ok.event.solution_time, 1_700_000_003);
    assert!(ok.event.solver == id(1));
    assert_eq!(ok.new_uri, uri);
    let after = decode(&ok.attributes).unwrap();
    assert!(after.solved);
    assert_eq!(after.solution, Some(31));
    assert_eq!(after.solved_at, Some(1_700_000_003));
    assert_eq!(after.rarity, Some(Rarity::Legendary));
    assert_eq!(after.puzzle_number, 186);
    assert_eq!(
        value(&ok.attributes, "solver").unwrap(),
        "4vJ9JU1bJJE96FWSJKvHsmmFADCg4gpZQff4P3bkLKi"
    );
    assert_eq!(ok.attributes[4].key, "solved");

    for d in (1..=186u64).filter(|d| 186 % d == 0) {
        let fresh = solve_puzzle(&minted.attributes, &record(1), &None, &id(1), d, None, 42);
        assert!(fresh.is_ok(), "divisor {}", d);
    }
    for d in [1u64, 2, 31, 186] {
        let again = solve_puzzle(&ok.attributes, &record(1), &None, &id(1), d, None, 5);
        assert_eq!(again.err(), Some(PuzzleError::AlreadySolved));
    }
    let other = solve_puzzle(&ok.attributes, &record(2), &None, &id(2), 31, None, 5);
    assert_eq!(other.err(), Some(PuzzleError::AlreadySolved));
}

#[test]
fn non_owner_is_refused() {
    let minted = mint_puzzle_nft(0, 1, 42, &id(9), &id(1)).unwrap();
    for d in [2u64, 3, 5] {
        let r = solve_puzzle(&minted.attributes, &record(1), &None, &id(2), d, None, 10);
        assert_eq!(r.err(), Some(PuzzleError::NotNftOwner));
    }
    let empty_token = Some(TokenHolding { owner: id(1), amount: 0, mint: id(9) });
    let r = solve_puzzle(&minted.attributes, &record(1), &empty_token, &id(1), 2, None, 10);
    assert_eq!(r.err(), Some(PuzzleError::NotNftOwner));
}

#[test]
fn ownership_and_authority_checks() {
    let asset = record(1);
    assert!(verify_nft_owner(&asset, &None, &id(1)));
    assert!(!verify_nft_owner(&asset, &None, &id(2)));
    let good = Some(TokenHolding { owner: id(1), amount: 1, mint: id(9) });
    let other_mint = Some(TokenHolding { owner: id(1), amount: 5, mint: id(8) });
    let other_holder = Some(TokenHolding { owner: id(2), amount: 5, mint: id(9) });
    assert!(verify_nft_owner(&asset, &good, &id(1)));
    assert!(!verify_nft_owner(&asset, &other_mint, &id(1)));
    assert!(!verify_nft_owner(&asset, &other_holder, &id(1)));
    assert!(verify_update_authority(&asset, &id(3)));
    assert!(!verify_update_authority(&asset, &id(1)));
    assert_eq!(require_update_authority(&asset, &id(3)), Ok(()));
    assert_eq!(require_update_authority(&asset, &id(1)), Err(PuzzleError::UnauthorizedUpdate));
}

#[test]
fn mint_rejects_unknown_type() {
    assert_eq!(mint_puzzle_nft(3, 0, 1, &id(9), &id(1)).err(), Some(PuzzleError::InvalidPuzzleType));
}

#[test]
fn hash_riddle_commitment_is_compared_as_text() {
    let minted = mint_puzzle_nft(1, 1, 42, &id(9), &id(1)).unwrap();
    assert_eq!(minted.event.puzzle_number, 286);
    assert_eq!(value(&minted.attributes, "solution_hash").unwrap(), "824413");
    let wrong = solve_puzzle(&minted.attributes, &record(1), &None, &id(1), 287, None, 1);
    assert_eq!(wrong.err(), Some(PuzzleError::IncorrectSolution));
    assert!(solve_puzzle(&minted.attributes, &record(1), &None, &id(1), 286, None, 1).is_ok());
    let mut padded = minted.attributes.clone();
    for a in padded.iter_mut() {
        if a.key == "solution_hash" {
            a.value = "0824413".to_string();
        }
    }
    let r = solve_puzzle(&padded, &record(1), &None, &id(1), 286, None, 1);
    assert_eq!(r.err(), Some(PuzzleError::FailedToParsePuzzleData));
}
