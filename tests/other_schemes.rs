use puzzle_nft::nft::update_nft_after_solve;
use puzzle_nft::puzzle::{create_puzzle_attributes, generate_puzzle, verify_solution};
use puzzle_nft::puzzle_utils;
use puzzle_nft::types::{Attribute, Identity, PuzzleError, PuzzleType};

fn attr(k: &str, v: &str) -> Attribute {
    Attribute { key: k.to_string(), value: v.to_string() }
}

fn hex(b: &[u8]) -> String {
    b.iter().map(|x| format!("{:02x}", x)).collect()
}

#[test]
fn seeded_puzzle_from_slot_and_key() {
    let p = generate_puzzle(&Identity::new([7; 32]), 42).unwrap();
    assert_eq!(&p.hash[..4], &[36u8, 145, 4, 222]);
    assert_eq!(p.puzzle_type, PuzzleType::MathFactor);
    assert_eq!(p.number, 92);
    let l = create_puzzle_attributes(&p);
    assert_eq!(l.len(), 4);
    assert_eq!(l[1].value, "92");
    assert_eq!(l[3].value, "???");
    assert_eq!(verify_solution(&l, 23), Ok(true));
    assert_eq!(verify_solution(&l, 5), Ok(false));
    assert_eq!(verify_solution(&l, 0), Ok(false));
}

#[test]
fn seeded_hash_riddle_attributes_and_check() {
    let mut p = generate_puzzle(&Identity::new([7; 32]), 42).unwrap();
    p.puzzle_type = PuzzleType::HashRiddle;
    let l = create_puzzle_attributes(&p);
    assert_eq!(l.len(), 5);
    assert_eq!(l[4].key, "puzzle_hash");
    assert_eq!(l[4].value, "249104deb8c812ab776aa69f4d2adb297207b8c550ddf0a82b1fd80b7958491c");
    assert_eq!(verify_solution(&l, 5), Ok(false));
    let five = "f13ee6ed54ea2aae9fc49a9faeb5da6e8ddef0e12ed5d30d35a624ae813e0485";
    let matching = vec![attr("puzzle_type", "hash_riddle"), attr("puzzle_number", "4"), attr("puzzle_hash", five)];
    assert_eq!(verify_solution(&matching, 5), Ok(true));
    assert_eq!(verify_solution(&matching, 4), Ok(false));
    let short = vec![attr("puzzle_type", "hash_riddle"), attr("puzzle_number", "4"), attr("puzzle_hash", "ab")];
    assert_eq!(verify_solution(&short, 5), Err(PuzzleError::FailedToParsePuzzleData));
    let not_hex = vec![attr("puzzle_type", "hash_riddle"), attr("puzzle_number", "4"), attr("puzzle_hash", "zz")];
    assert_eq!(verify_solution(&not_hex, 5), Err(PuzzleError::FailedToParsePuzzleData));
    let no_hash = vec![attr("puzzle_type", "hash_riddle"), attr("puzzle_number", "4")];
    assert_eq!(verify_solution(&no_hash, 5), Err(PuzzleError::PuzzleNotFound));
    let unknown = vec![attr("puzzle_type", "maze"), attr("puzzle_number", "4")];
    assert_eq!(verify_solution(&unknown, 5), Err(PuzzleError::InvalidPuzzleType));
    let missing = vec![attr("puzzle_type", "math_factor")];
    assert_eq!(verify_solution(&missing, 5), Err(PuzzleError::PuzzleNotFound));
    let no_type = vec![attr("puzzle_number", "4")];
    assert_eq!(verify_solution(&no_type, 5), Err(PuzzleError::PuzzleNotFound));
    let bad_number = vec![attr("puzzle_type", "math_factor"), attr("puzzle_number", "four")];
    assert_eq!(verify_solution(&bad_number, 5), Err(PuzzleError::FailedToParsePuzzleData));
}

#[test]
fn digest_puzzles() {
    let (data, h) = puzzle_utils::generate_puzzle(puzzle_utils::PUZZLE_TYPE_MATH, 0, 1234).unwrap();
    assert_eq!(data, vec![34, 0, 0, 0]);
    assert_eq!(hex(&h), "26b25d457597a7b0463f9620f666dd10aa2c4373a505967c7c8d70922a2d6ece");
    assert_eq!(puzzle_utils::verify_solution(0, &data, &[2, 0, 0, 0], &h), Ok(true));
    assert_eq!(puzzle_utils::verify_solution(0, &data, &[3, 0, 0, 0], &h), Ok(false));
    assert_eq!(
        puzzle_utils::verify_solution(3, &data, &[2, 0, 0, 0], &h),
        Err(PuzzleError::InvalidPuzzleType)
    );

    let (prefix, h) = puzzle_utils::generate_puzzle(puzzle_utils::PUZZLE_TYPE_HASH, 1, 1234).unwrap();
    assert_eq!(prefix, vec![2, 4]);
    assert_eq!(hex(&h), "03ac674216f3e15c761ee1a5e255f067953623c8b388b4459e13f978d7c846f4");

    let (seq, h) = puzzle_utils::generate_puzzle(puzzle_utils::PUZZLE_TYPE_PATTERN, 0, 37).unwrap();
    assert_eq!(seq, vec![7, 9, 11]);
    assert_eq!(hex(&h), "43c66c260828c9839f26474151db105481ff92f5e01377f75389d4ce3d2dd574");

    assert_eq!(puzzle_utils::generate_puzzle(3, 0, 97).err(), Some(PuzzleError::InvalidPuzzleType));
    let (data, _) = puzzle_utils::generate_math_puzzle(0, 97);
    assert_eq!(data, vec![97, 0, 0, 0]);
}

#[test]
fn reveal_after_slot_solve() {
    let l = vec![
        attr("puzzle_type", "math_factor"),
        attr("solved", "false"),
        attr("solve_time", "1"),
        attr("hidden_trait", "???"),
        attr("color", "blue"),
    ];
    let r = update_nft_after_solve(&l, 77);
    let got: Vec<(String, String)> = r.iter().map(|a| (a.key.clone(), a.value.clone())).collect();
    let expected = vec![
        ("puzzle_type", "math_factor"),
        ("solved", "true"),
        ("solve_time", "77"),
        ("hidden_trait", "Legendary Solver"),
        ("color", "blue"),
    ];
    assert_eq!(got.len(), expected.len());
    for (g, e) in got.iter().zip(expected.iter()) {
        assert_eq!(g.0, e.0);
        assert_eq!(g.1, e.1);
    }
    let first = update_nft_after_solve(&vec![attr("solve_time", "1"), attr("solved", "false")], 77);
    assert_eq!(first[0].key, "solve_time");
    assert_eq!(first[0].value, "77");
    assert_eq!(first[1].key, "solved");
    assert_eq!(first[1].value, "true");
    let appended = update_nft_after_solve(&vec![attr("solved", "false")], 5);
    assert_eq!(appended.len(), 2);
    assert_eq!(appended[1].key, "solve_time");
    assert_eq!(appended[1].value, "5");
}
