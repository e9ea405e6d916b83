use puzzle_nft::codec::{decode, encode, merge_update, PuzzleInstance};
use puzzle_nft::types::{Attribute, PuzzleError, PuzzleType, Rarity};

fn attr(k: &str, v: &str) -> Attribute {
    Attribute { key: k.to_string(), value: v.to_string() }
}

fn sample(solved: bool) -> PuzzleInstance {
    PuzzleInstance {
        puzzle_type: PuzzleType::Pattern,
        difficulty: 3,
        puzzle_number: 1234,
        solution_hash: 0xdeadbeef,
        solved,
        mint_slot: 99,
        solver: if solved { Some("someone".to_string()) } else { None },
        solution: if solved { Some(77) } else { None },
        solved_at: if solved { Some(-5) } else { None },
        rarity: if solved { Some(Rarity::Rare) } else { None },
    }
}

fn pairs(l: &[Attribute]) -> Vec<(String, String)> {
    l.iter().map(|a| (a.key.clone(), a.value.clone())).collect()
}

#[test]
fn encode_writes_schema_keys_in_order() {
    let l = encode(&sample(false));
    let expected = vec![
        ("puzzle_type", "pattern"),
        ("difficulty", "3"),
        ("puzzle_number", "1234"),
        ("solution_hash", "deadbeef"),
        ("solved", "false"),
        ("mint_slot", "99"),
    ];
    let got = pairs(&l);
    assert_eq!(got.len(), expected.len());
    for (g, e) in got.iter().zip(expected.iter()) {
        assert_eq!(g.0, e.0);
        assert_eq!(g.1, e.1);
    }
}

#[test]
fn decode_of_encode_is_identity() {
    for solved in [false, true] {
        let x = sample(solved);
        let y = decode(&encode(&x)).unwrap();
        assert_eq!(y.puzzle_type, x.puzzle_type);
        assert_eq!(y.difficulty, x.difficulty);
        assert_eq!(y.puzzle_number, x.puzzle_number);
        assert_eq!(y.solution_hash, x.solution_hash);
        assert_eq!(y.solved, x.solved);
        assert_eq!(y.mint_slot, x.mint_slot);
        assert_eq!(y.solver, x.solver);
        assert_eq!(y.solution, x.solution);
        assert_eq!(y.solved_at, x.solved_at);
        assert_eq!(y.rarity, x.rarity);
    }
}

#[test]
fn decode_errors() {
    let full = encode(&sample(false));
    let without = |k: &str| -> Vec<Attribute> {
        full.iter().filter(|a| a.key != k).cloned().collect()
    };
    assert_eq!(decode(&without("puzzle_type")).err(), Some(PuzzleError::PuzzleNotFound));
    assert_eq!(decode(&without("puzzle_number")).err(), Some(PuzzleError::PuzzleNotFound));
    assert_eq!(decode(&without("solution_hash")).err(), Some(PuzzleError::PuzzleNotFound));
    assert_eq!(decode(&without("solved")).err(), Some(PuzzleError::AttributeNotFound));
    assert_eq!(decode(&without("difficulty")).err(), Some(PuzzleError::AttributeNotFound));
    assert_eq!(decode(&without("mint_slot")).err(), Some(PuzzleError::AttributeNotFound));
    let mut bad_type = full.clone();
    bad_type[0].value = "sudoku".to_string();
    assert_eq!(decode(&bad_type).err(), Some(PuzzleError::InvalidPuzzleType));
    let mut bad_number = full.clone();
    bad_number[2].value = "12x".to_string();
    assert_eq!(decode(&bad_number).err(), Some(PuzzleError::FailedToParsePuzzleData));
    let mut bad_flag = full.clone();
    bad_flag[4].value = "yes".to_string();
    assert_eq!(decode(&bad_flag).err(), Some(PuzzleError::FailedToParsePuzzleData));
    let mut padded_hash = full.clone();
    padded_hash[3].value = "0deadbeef".to_string();
    assert_eq!(decode(&padded_hash).err(), Some(PuzzleError::FailedToParsePuzzleData));
    let mut bad_rarity = full.clone();
    bad_rarity.push(attr("rarity", "Mythic"));
    assert_eq!(decode(&bad_rarity).err(), Some(PuzzleError::FailedToParsePuzzleData));
}

#[test]
fn merge_update_replaces_in_place_and_appends() {
    let l = vec![attr("a", "1"), attr("solved", "false"), attr("b", "2")];
    let ups = vec![attr("solved", "true"), attr("rarity", "Epic"), attr("solved", "again")];
    let m = pairs(&merge_update(&l, &ups));
    let expected = vec![("a", "1"), ("solved", "again"), ("b", "2"), ("rarity", "Epic")];
    assert_eq!(m.len(), expected.len());
    for (g, e) in m.iter().zip(expected.iter()) {
        assert_eq!(g.0, e.0);
        assert_eq!(g.1, e.1);
    }
    assert_eq!(pairs(&merge_update(&l, &vec![])), pairs(&l));
}
