//! The create and solve transitions.
//!
//! A puzzle is created unsolved and may be solved once, by the asset's owner,
//! with a correct solution. Both transitions are pure: they return the new
//! attribute list and the event to emit, or an error, and never change their
//! inputs. A solve re-reads `solved` from the list it is given, so a retry
//! must start from freshly read attributes.

use vstd::prelude::*;
use crate::auth::{AssetRecord, TokenHolding, owns_spec, verify_nft_owner};
use crate::checker::{accepts_spec, check_solution};
use crate::codec::{
    PuzzleModel, attrs_view, lookup, decode, decode_spec, encode, encode_spec, lemma_set_attr,
    lemma_schema_keys_distinct, set_attr, set_attribute, copy_attributes,
};
use crate::generator::{new_puzzle, new_puzzle_spec, puzzle_number_spec};
use crate::rarity::{rarity_for_timestamp, rarity_of};
use crate::solana::{identity_text, pubkey_text_of};
use crate::text::{
    bool_chars, dec_chars, format_i64, format_u64, int_chars, lemma_bool_round_trip,
    lemma_int_round_trip, lemma_unsigned_round_trip,
};
use crate::types::{
    Attribute, Identity, PuzzleError, PuzzleType, puzzle_type_name, rarity_name,
    type_of_selector, lemma_rarity_round_trip,
};

verus! {

/// Emitted when a puzzle asset is minted.
pub struct PuzzleMinted {
    pub asset: Identity,
    /// The stored name of the puzzle kind.
    pub puzzle_type: String,
    pub puzzle_number: u64,
    pub minter: Identity,
}

/// Emitted when a puzzle is solved.
pub struct PuzzleSolved {
    pub asset: Identity,
    pub solver: Identity,
    /// Unix time of the solve.
    pub solution_time: i64,
    /// The stored name of the rarity tier.
    pub rarity: String,
}

/// What a mint produces: the asset's attribute list and the event.
pub struct MintOutcome {
    pub attributes: Vec<Attribute>,
    pub event: PuzzleMinted,
}

/// What a solve produces: the updated attribute list, the event, and the new
/// metadata URI to record, if one was given.
pub struct SolveOutcome {
    pub attributes: Vec<Attribute>,
    pub event: PuzzleSolved,
    pub new_uri: Option<String>,
}

/// The attribute list of a puzzle after a solve by `solver` with `solution`
/// at time `t`: `solved`, `solver`, `solution`, `solve_timestamp` and
/// `rarity` updated in this order, every other pair kept where it stands.
pub open spec fn solved_attrs(
    l: Seq<(Seq<char>, Seq<char>)>,
    solver: Seq<u8>,
    solution: u64,
    t: i64,
) -> Seq<(Seq<char>, Seq<char>)> {
    let l = set_attr(l, "solved"@, bool_chars(true));
    let l = set_attr(l, "solver"@, pubkey_text_of(solver));
    let l = set_attr(l, "solution"@, dec_chars(solution as nat));
    let l = set_attr(l, "solve_timestamp"@, int_chars(t as int));
    set_attr(l, "rarity"@, rarity_name(rarity_of(t as int)))
}

/// The outcome of a solve attempt on list `l`: the puzzle is decoded first,
/// then an already solved puzzle is refused, then a caller who does not own
/// the asset, then a wrong solution.
pub open spec fn solve_spec(
    l: Seq<(Seq<char>, Seq<char>)>,
    asset: AssetRecord,
    token: Option<TokenHolding>,
    caller: Seq<u8>,
    solution: u64,
    t: i64,
) -> Result<Seq<(Seq<char>, Seq<char>)>, PuzzleError> {
    match decode_spec(l) {
        Err(e) => Err(e),
        Ok(m) => if m.solved {
            Err(PuzzleError::AlreadySolved)
        } else if !owns_spec(asset, token, caller) {
            Err(PuzzleError::NotNftOwner)
        } else if !accepts_spec(m, solution) {
            Err(PuzzleError::IncorrectSolution)
        } else {
            Ok(solved_attrs(l, caller, solution, t))
        },
    }
}

/// Mints a puzzle of the kind that `puzzle_type` selects: an unsolved
/// puzzle whose number comes from `slot` and `difficulty`, encoded as the
/// asset's attribute list, and the mint event.
pub fn mint_puzzle_nft(
    puzzle_type: u8,
    difficulty: u8,
    slot: u64,
    asset: &Identity,
    minter: &Identity,
) -> (r: Result<MintOutcome, PuzzleError>)
    ensures
        match type_of_selector(puzzle_type) {
            None => r == Err::<MintOutcome, PuzzleError>(PuzzleError::InvalidPuzzleType),
            Some(t) => r matches Ok(o) && {
                &&& attrs_view(o.attributes@) == encode_spec(new_puzzle_spec(t, difficulty, slot))
                &&& o.event.asset@ == asset@
                &&& o.event.puzzle_type@ == puzzle_type_name(t)
                &&& o.event.puzzle_number == puzzle_number_spec(slot, puzzle_type, difficulty)
                &&& o.event.minter@ == minter@
            },
        },
{
    let t = match PuzzleType::from_selector(puzzle_type) {
        Some(t) => t,
        None => return Err(PuzzleError::InvalidPuzzleType),
    };
    let p = new_puzzle(t, difficulty, slot);
    let attributes = encode(&p);
    let event = PuzzleMinted {
        asset: *asset,
        puzzle_type: t.to_string(),
        puzzle_number: p.puzzle_number,
        minter: *minter,
    };
    Ok(MintOutcome { attributes, event })
}

/// Attempts to solve the puzzle held in `attributes` on behalf of `caller`
/// at time `timestamp`; see `solve_spec` for the order of the checks. On
/// success the list comes back with the solve recorded, with the event; the
/// input list is never changed.
pub fn solve_puzzle(
    attributes: &Vec<Attribute>,
    asset: &AssetRecord,
    token_account: &Option<TokenHolding>,
    caller: &Identity,
    solution: u64,
    new_uri: Option<String>,
    timestamp: i64,
) -> (r: Result<SolveOutcome, PuzzleError>)
    ensures
        match r {
            Ok(o) => {
                &&& solve_spec(attrs_view(attributes@), *asset, *token_account, caller@, solution, timestamp)
                    == Ok::<_, PuzzleError>(attrs_view(o.attributes@))
                &&& o.event.asset@ == asset.key@
                &&& o.event.solver@ == caller@
                &&& o.event.solution_time == timestamp
                &&& o.event.rarity@ == rarity_name(rarity_of(timestamp as int))
                &&& o.new_uri == new_uri
            },
            Err(e) => solve_spec(attrs_view(attributes@), *asset, *token_account, caller@, solution, timestamp)
                == Err::<Seq<(Seq<char>, Seq<char>)>, PuzzleError>(e),
        },
{
    let p = decode(attributes)?;
    if p.solved {
        return Err(PuzzleError::AlreadySolved);
    }
    if !verify_nft_owner(asset, token_account, caller) {
        return Err(PuzzleError::NotNftOwner);
    }
    if !check_solution(&p, solution) {
        return Err(PuzzleError::IncorrectSolution);
    }
    let rarity = rarity_for_timestamp(timestamp);
    let mut updated = copy_attributes(attributes);
    set_attribute(&mut updated, "solved", String::from_str("true"));
    proof {
        reveal_strlit("true");
    }
    set_attribute(&mut updated, "solver", identity_text(caller));
    set_attribute(&mut updated, "solution", format_u64(solution));
    set_attribute(&mut updated, "solve_timestamp", format_i64(timestamp));
    set_attribute(&mut updated, "rarity", rarity.to_string());
    let event = PuzzleSolved {
        asset: asset.key,
        solver: *caller,
        solution_time: timestamp,
        rarity: rarity.to_string(),
    };
    Ok(SolveOutcome { attributes: updated, event, new_uri })
}

/// A solve is single-use. After a successful solve the list decodes as
/// solved, with the solver, solution, time and rarity set and every puzzle
/// field unchanged; and every later attempt on it, by any caller, with any
/// solution, at any time, fails with `AlreadySolved`.
pub proof fn lemma_solve_is_single_use(
    l: Seq<(Seq<char>, Seq<char>)>,
    asset: AssetRecord,
    token: Option<TokenHolding>,
    caller: Seq<u8>,
    solution: u64,
    t: i64,
    asset2: AssetRecord,
    token2: Option<TokenHolding>,
    caller2: Seq<u8>,
    solution2: u64,
    t2: i64,
)
    requires
        solve_spec(l, asset, token, caller, solution, t) is Ok,
    ensures
        ({
            let n = solve_spec(l, asset, token, caller, solution, t)->Ok_0;
            let before = decode_spec(l)->Ok_0;
            &&& !before.solved
            &&& decode_spec(n) == Ok::<PuzzleModel, PuzzleError>(
                PuzzleModel {
                    solved: true,
                    solver: Some(pubkey_text_of(caller)),
                    solution: Some(solution),
                    solved_at: Some(t),
                    rarity: Some(rarity_of(t as int)),
                    ..before
                },
            )
            &&& solve_spec(n, asset2, token2, caller2, solution2, t2) == Err::<
                Seq<(Seq<char>, Seq<char>)>,
                PuzzleError,
            >(PuzzleError::AlreadySolved)
        }),
{
    lemma_schema_keys_distinct();
    let l1 = set_attr(l, "solved"@, bool_chars(true));
    lemma_set_attr(l, "solved"@, bool_chars(true));
    let l2 = set_attr(l1, "solver"@, pubkey_text_of(caller));
    lemma_set_attr(l1, "solver"@, pubkey_text_of(caller));
    let l3 = set_attr(l2, "solution"@, dec_chars(solution as nat));
    lemma_set_attr(l2, "solution"@, dec_chars(solution as nat));
    let l4 = set_attr(l3, "solve_timestamp"@, int_chars(t as int));
    lemma_set_attr(l3, "solve_timestamp"@, int_chars(t as int));
    lemma_set_attr(l4, "rarity"@, rarity_name(rarity_of(t as int)));
    lemma_bool_round_trip(true);
    lemma_unsigned_round_trip(solution, 10);
    lemma_int_round_trip(t);
    lemma_rarity_round_trip(rarity_of(t as int));
}

/// A solve disturbs no other metadata: every pair whose key is none of
/// `solved`, `solver`, `solution`, `solve_timestamp` and `rarity` keeps its
/// value and its position.
pub proof fn lemma_solve_keeps_other_attributes(
    l: Seq<(Seq<char>, Seq<char>)>,
    caller: Seq<u8>,
    solution: u64,
    t: i64,
    i: int,
)
    requires
        0 <= i < l.len(),
        l[i].0 != "solved"@,
        l[i].0 != "solver"@,
        l[i].0 != "solution"@,
        l[i].0 != "solve_timestamp"@,
        l[i].0 != "rarity"@,
    ensures
        solved_attrs(l, caller, solution, t)[i] == l[i],
{
    lemma_solve_keeps_positions(l, caller, solution, t);
    let l1 = set_attr(l, "solved"@, bool_chars(true));
    lemma_set_attr(l, "solved"@, bool_chars(true));
    let l2 = set_attr(l1, "solver"@, pubkey_text_of(caller));
    lemma_set_attr(l1, "solver"@, pubkey_text_of(caller));
    let l3 = set_attr(l2, "solution"@, dec_chars(solution as nat));
    lemma_set_attr(l2, "solution"@, dec_chars(solution as nat));
    let l4 = set_attr(l3, "solve_timestamp"@, int_chars(t as int));
    lemma_set_attr(l3, "solve_timestamp"@, int_chars(t as int));
    lemma_set_attr(l4, "rarity"@, rarity_name(rarity_of(t as int)));
}

/// The pairs a solve leaves where they were: every position of the old list
/// keeps its key, and the list grows by one pair for each of `solved`,
/// `solver`, `solution`, `solve_timestamp` and `rarity` that it lacked.
pub proof fn lemma_solve_keeps_positions(
    l: Seq<(Seq<char>, Seq<char>)>,
    caller: Seq<u8>,
    solution: u64,
    t: i64,
)
    ensures
        forall|i: int| 0 <= i < l.len() ==> #[trigger] solved_attrs(l, caller, solution, t)[i].0 == l[i].0,
        solved_attrs(l, caller, solution, t).len() == l.len()
            + (if lookup(l, "solved"@) is None { 1int } else { 0int })
            + (if lookup(l, "solver"@) is None { 1int } else { 0int })
            + (if lookup(l, "solution"@) is None { 1int } else { 0int })
            + (if lookup(l, "solve_timestamp"@) is None { 1int } else { 0int })
            + (if lookup(l, "rarity"@) is None { 1int } else { 0int }),
{
    lemma_schema_keys_distinct();
    let l1 = set_attr(l, "solved"@, bool_chars(true));
    lemma_set_attr(l, "solved"@, bool_chars(true));
    let l2 = set_attr(l1, "solver"@, pubkey_text_of(caller));
    lemma_set_attr(l1, "solver"@, pubkey_text_of(caller));
    let l3 = set_attr(l2, "solution"@, dec_chars(solution as nat));
    lemma_set_attr(l2, "solution"@, dec_chars(solution as nat));
    let l4 = set_attr(l3, "solve_timestamp"@, int_chars(t as int));
    lemma_set_attr(l3, "solve_timestamp"@, int_chars(t as int));
    let l5 = set_attr(l4, "rarity"@, rarity_name(rarity_of(t as int)));
    lemma_set_attr(l4, "rarity"@, rarity_name(rarity_of(t as int)));
    assert forall|i: int| 0 <= i < l.len() implies #[trigger] l5[i].0 == l[i].0 by {
        assert(l5[i].0 == l4[i].0);
        assert(l4[i].0 == l3[i].0);
        assert(l3[i].0 == l2[i].0);
        assert(l2[i].0 == l1[i].0);
    }
}

/// A caller who does not own the asset cannot solve an open puzzle, whatever
/// solution it offers.
pub proof fn lemma_non_owner_is_refused(
    l: Seq<(Seq<char>, Seq<char>)>,
    asset: AssetRecord,
    token: Option<TokenHolding>,
    caller: Seq<u8>,
    solution: u64,
    t: i64,
)
    requires
        decode_spec(l) is Ok,
        !decode_spec(l)->Ok_0.solved,
        !owns_spec(asset, token, caller),
    ensures
        solve_spec(l, asset, token, caller, solution, t) == Err::<
            Seq<(Seq<char>, Seq<char>)>,
            PuzzleError,
        >(PuzzleError::NotNftOwner),
{
}

} // verus!
