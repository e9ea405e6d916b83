//! The attribute codec: a puzzle record to and from the ordered key/value
//! list that an asset's metadata holds, and in-place updates of that list.
//!
//! Lists are modelled as sequences of `(key, value)` character strings. A
//! lookup reads the first pair with the key; an update replaces the value of
//! that pair where it stands, or appends a new pair when the key is absent.

use vstd::prelude::*;
use crate::text::{
    bool_chars, dec_chars, hex_chars, int_chars, parse_bool, parse_bool_spec, parse_hex_u64,
    parse_i64, parse_i64_spec, parse_radix_spec, parse_u64, parse_u8, parse_u8_spec, format_bool,
    format_hex_u64, format_i64, format_u64, lemma_bool_round_trip, lemma_int_round_trip,
    lemma_unsigned_round_trip,
};
use crate::types::{
    Attribute, PuzzleError, PuzzleType, Rarity, puzzle_type_name, parse_type_spec, rarity_name,
    parse_rarity_spec, lemma_type_round_trip, lemma_rarity_round_trip,
};

verus! {

/// The pairs of a list of attributes.
pub open spec fn attrs_view(l: Seq<Attribute>) -> Seq<(Seq<char>, Seq<char>)> {
    l.map_values(|a: Attribute| a@)
}

/// Position of the first pair with key `k`, or -1.
pub open spec fn key_index(l: Seq<(Seq<char>, Seq<char>)>, k: Seq<char>) -> int
    decreases l.len(),
{
    if l.len() == 0 {
        -1
    } else if l[0].0 == k {
        0
    } else {
        let r = key_index(l.drop_first(), k);
        if r < 0 {
            -1
        } else {
            r + 1
        }
    }
}

/// The value of the first pair with key `k`.
pub open spec fn lookup(l: Seq<(Seq<char>, Seq<char>)>, k: Seq<char>) -> Option<Seq<char>> {
    let i = key_index(l, k);
    if 0 <= i {
        Some(l[i].1)
    } else {
        None
    }
}

/// `l` with the first pair of key `k` given value `v` in place, or with
/// `(k, v)` appended when no pair has key `k`.
pub open spec fn set_attr(l: Seq<(Seq<char>, Seq<char>)>, k: Seq<char>, v: Seq<char>) -> Seq<
    (Seq<char>, Seq<char>),
> {
    let i = key_index(l, k);
    if 0 <= i {
        l.update(i, (k, v))
    } else {
        l.push((k, v))
    }
}

/// `l` with each pair of `ups` applied by `set_attr`, in order.
pub open spec fn merge_spec(
    l: Seq<(Seq<char>, Seq<char>)>,
    ups: Seq<(Seq<char>, Seq<char>)>,
) -> Seq<(Seq<char>, Seq<char>)>
    decreases ups.len(),
{
    if ups.len() == 0 {
        l
    } else {
        set_attr(merge_spec(l, ups.drop_last()), ups.last().0, ups.last().1)
    }
}

pub proof fn lemma_key_index(l: Seq<(Seq<char>, Seq<char>)>, k: Seq<char>)
    ensures
        -1 <= key_index(l, k) < l.len(),
        0 <= key_index(l, k) ==> l[key_index(l, k)].0 == k,
        forall|j: int| 0 <= j < l.len() && (j < key_index(l, k) || key_index(l, k) < 0) ==> l[j].0 != k,
    decreases l.len(),
{
    if l.len() > 0 && l[0].0 != k {
        let t = l.drop_first();
        lemma_key_index(t, k);
        assert forall|j: int| 0 <= j < l.len() && (j < key_index(l, k) || key_index(l, k) < 0) implies l[j].0 != k by {
            if j > 0 {
                assert(l[j] == t[j - 1]);
            }
        }
    }
}

pub proof fn lemma_key_index_at(l: Seq<(Seq<char>, Seq<char>)>, k: Seq<char>, i: int)
    requires
        0 <= i < l.len(),
        l[i].0 == k,
        forall|j: int| 0 <= j < i ==> l[j].0 != k,
    ensures
        key_index(l, k) == i,
{
    lemma_key_index(l, k);
}

pub proof fn lemma_key_index_none(l: Seq<(Seq<char>, Seq<char>)>, k: Seq<char>)
    requires
        forall|j: int| 0 <= j < l.len() ==> l[j].0 != k,
    ensures
        key_index(l, k) == -1,
{
    lemma_key_index(l, k);
}

/// What one update does: the key now reads as the new value, every other key
/// reads as before, and every pair of another key keeps its position.
pub proof fn lemma_set_attr(l: Seq<(Seq<char>, Seq<char>)>, k: Seq<char>, v: Seq<char>)
    ensures
        lookup(set_attr(l, k, v), k) == Some(v),
        forall|k2: Seq<char>| k2 != k ==> #[trigger] lookup(set_attr(l, k, v), k2) == lookup(l, k2),
        set_attr(l, k, v).len() == l.len() + if lookup(l, k) is None {
            1int
        } else {
            0int
        },
        forall|i: int| 0 <= i < l.len() && l[i].0 != k ==> #[trigger] set_attr(l, k, v)[i] == l[i],
        forall|i: int| 0 <= i < l.len() ==> #[trigger] set_attr(l, k, v)[i].0 == l[i].0,
{
    let n = set_attr(l, k, v);
    lemma_key_index(l, k);
    let i = key_index(l, k);
    if 0 <= i {
        lemma_key_index_at(n, k, i);
    } else {
        lemma_key_index_at(n, k, l.len() as int);
    }
    assert forall|k2: Seq<char>| k2 != k implies #[trigger] lookup(n, k2) == lookup(l, k2) by {
        lemma_key_index(l, k2);
        let i2 = key_index(l, k2);
        if 0 <= i2 {
            lemma_key_index_at(n, k2, i2);
        } else {
            lemma_key_index_none(n, k2);
        }
    }
}

/// An update list applied to `l` keeps, at its position, every pair of `l`
/// whose key no update names.
pub proof fn lemma_merge_preserves(
    l: Seq<(Seq<char>, Seq<char>)>,
    ups: Seq<(Seq<char>, Seq<char>)>,
    i: int,
)
    requires
        0 <= i < l.len(),
        forall|j: int| 0 <= j < ups.len() ==> ups[j].0 != l[i].0,
    ensures
        merge_spec(l, ups).len() >= l.len(),
        merge_spec(l, ups)[i] == l[i],
    decreases ups.len(),
{
    if ups.len() > 0 {
        let rest = ups.drop_last();
        assert forall|j: int| 0 <= j < rest.len() implies rest[j].0 != l[i].0 by {
            assert(rest[j] == ups[j]);
        }
        lemma_merge_preserves(l, rest, i);
        lemma_set_attr(merge_spec(l, rest), ups.last().0, ups.last().1);
    }
}

/// A puzzle record as stored on an asset.
pub struct PuzzleInstance {
    pub puzzle_type: PuzzleType,
    pub difficulty: u8,
    /// The number the puzzle is built on.
    pub puzzle_number: u64,
    /// The commitment that a hashed solution must equal.
    pub solution_hash: u64,
    pub solved: bool,
    pub mint_slot: u64,
    /// Text form of the solver's identity, once solved.
    pub solver: Option<String>,
    pub solution: Option<u64>,
    /// Unix time of the solve.
    pub solved_at: Option<i64>,
    pub rarity: Option<Rarity>,
}

/// The mathematical content of a `PuzzleInstance`.
pub struct PuzzleModel {
    pub puzzle_type: PuzzleType,
    pub difficulty: u8,
    pub puzzle_number: u64,
    pub solution_hash: u64,
    pub solved: bool,
    pub mint_slot: u64,
    pub solver: Option<Seq<char>>,
    pub solution: Option<u64>,
    pub solved_at: Option<i64>,
    pub rarity: Option<Rarity>,
}

impl View for PuzzleInstance {
    type V = PuzzleModel;

    open spec fn view(&self) -> PuzzleModel {
        PuzzleModel {
            puzzle_type: self.puzzle_type,
            difficulty: self.difficulty,
            puzzle_number: self.puzzle_number,
            solution_hash: self.solution_hash,
            solved: self.solved,
            mint_slot: self.mint_slot,
            solver: match self.solver {
                Some(s) => Some(s@),
                None => None,
            },
            solution: self.solution,
            solved_at: self.solved_at,
            rarity: self.rarity,
        }
    }
}

/// `set_attr` when a value is present, `l` otherwise.
pub open spec fn put_opt(l: Seq<(Seq<char>, Seq<char>)>, k: Seq<char>, v: Option<Seq<char>>) -> Seq<
    (Seq<char>, Seq<char>),
> {
    match v {
        Some(x) => set_attr(l, k, x),
        None => l,
    }
}

/// The attribute list of a puzzle: the six fixed keys in order, then
/// `solver`, `solution`, `solve_timestamp` and `rarity` where present.
pub open spec fn encode_spec(m: PuzzleModel) -> Seq<(Seq<char>, Seq<char>)> {
    let l = set_attr(Seq::empty(), "puzzle_type"@, puzzle_type_name(m.puzzle_type));
    let l = set_attr(l, "difficulty"@, dec_chars(m.difficulty as nat));
    let l = set_attr(l, "puzzle_number"@, dec_chars(m.puzzle_number as nat));
    let l = set_attr(l, "solution_hash"@, hex_chars(m.solution_hash as nat));
    let l = set_attr(l, "solved"@, bool_chars(m.solved));
    let l = set_attr(l, "mint_slot"@, dec_chars(m.mint_slot as nat));
    let l = put_opt(l, "solver"@, m.solver);
    let l = put_opt(
        l,
        "solution"@,
        match m.solution {
            Some(v) => Some(dec_chars(v as nat)),
            None => None,
        },
    );
    let l = put_opt(
        l,
        "solve_timestamp"@,
        match m.solved_at {
            Some(t) => Some(int_chars(t as int)),
            None => None,
        },
    );
    put_opt(
        l,
        "rarity"@,
        match m.rarity {
            Some(r) => Some(rarity_name(r)),
            None => None,
        },
    )
}

/// Reading a puzzle back from a list. Keys are read in schema order; the
/// first one that is missing or malformed decides the error. A missing
/// `puzzle_type`, `puzzle_number` or `solution_hash` is `PuzzleNotFound`, a
/// missing `difficulty`, `solved` or `mint_slot` is `AttributeNotFound`; an
/// unknown type name is `InvalidPuzzleType`; any other value that does not
/// parse is `FailedToParsePuzzleData`, and so is a `solution_hash` that is not
/// the canonical hex text of its value (no leading zeros), since the
/// commitment is compared as text. The post-solve keys are optional.
pub open spec fn decode_spec(l: Seq<(Seq<char>, Seq<char>)>) -> Result<PuzzleModel, PuzzleError> {
    let tv = lookup(l, "puzzle_type"@);
    let dv = lookup(l, "difficulty"@);
    let nv = lookup(l, "puzzle_number"@);
    let hv = lookup(l, "solution_hash"@);
    let sv = lookup(l, "solved"@);
    let mv = lookup(l, "mint_slot"@);
    let who = lookup(l, "solver"@);
    let xv = lookup(l, "solution"@);
    let tsv = lookup(l, "solve_timestamp"@);
    let rv = lookup(l, "rarity"@);
    if tv is None {
        Err(PuzzleError::PuzzleNotFound)
    } else if parse_type_spec(tv->0) is None {
        Err(PuzzleError::InvalidPuzzleType)
    } else if dv is None {
        Err(PuzzleError::AttributeNotFound)
    } else if parse_u8_spec(dv->0) is None {
        Err(PuzzleError::FailedToParsePuzzleData)
    } else if nv is None {
        Err(PuzzleError::PuzzleNotFound)
    } else if parse_radix_spec(nv->0, 10) is None {
        Err(PuzzleError::FailedToParsePuzzleData)
    } else if hv is None {
        Err(PuzzleError::PuzzleNotFound)
    } else if parse_radix_spec(hv->0, 16) is None || hex_chars(
        parse_radix_spec(hv->0, 16)->0 as nat,
    ) != hv->0 {
        Err(PuzzleError::FailedToParsePuzzleData)
    } else if sv is None {
        Err(PuzzleError::AttributeNotFound)
    } else if parse_bool_spec(sv->0) is None {
        Err(PuzzleError::FailedToParsePuzzleData)
    } else if mv is None {
        Err(PuzzleError::AttributeNotFound)
    } else if parse_radix_spec(mv->0, 10) is None {
        Err(PuzzleError::FailedToParsePuzzleData)
    } else if xv is Some && parse_radix_spec(xv->0, 10) is None {
        Err(PuzzleError::FailedToParsePuzzleData)
    } else if tsv is Some && parse_i64_spec(tsv->0) is None {
        Err(PuzzleError::FailedToParsePuzzleData)
    } else if rv is Some && parse_rarity_spec(rv->0) is None {
        Err(PuzzleError::FailedToParsePuzzleData)
    } else {
        Ok(
            PuzzleModel {
                puzzle_type: parse_type_spec(tv->0)->0,
                difficulty: parse_u8_spec(dv->0)->0,
                puzzle_number: parse_radix_spec(nv->0, 10)->0,
                solution_hash: parse_radix_spec(hv->0, 16)->0,
                solved: parse_bool_spec(sv->0)->0,
                mint_slot: parse_radix_spec(mv->0, 10)->0,
                solver: who,
                solution: if xv is Some {
                    Some(parse_radix_spec(xv->0, 10)->0)
                } else {
                    None
                },
                solved_at: if tsv is Some {
                    Some(parse_i64_spec(tsv->0)->0)
                } else {
                    None
                },
                rarity: if rv is Some {
                    Some(parse_rarity_spec(rv->0)->0)
                } else {
                    None
                },
            },
        )
    }
}

/// The schema's keys are pairwise distinct.
pub proof fn lemma_schema_keys_distinct()
    ensures
        "puzzle_type"@ != "difficulty"@,
        "puzzle_type"@ != "puzzle_number"@,
        "puzzle_type"@ != "solution_hash"@,
        "puzzle_type"@ != "solved"@,
        "puzzle_type"@ != "mint_slot"@,
        "puzzle_type"@ != "solver"@,
        "puzzle_type"@ != "solution"@,
        "puzzle_type"@ != "solve_timestamp"@,
        "puzzle_type"@ != "rarity"@,
        "difficulty"@ != "puzzle_number"@,
        "difficulty"@ != "solution_hash"@,
        "difficulty"@ != "solved"@,
        "difficulty"@ != "mint_slot"@,
        "difficulty"@ != "solver"@,
        "difficulty"@ != "solution"@,
        "difficulty"@ != "solve_timestamp"@,
        "difficulty"@ != "rarity"@,
        "puzzle_number"@ != "solution_hash"@,
        "puzzle_number"@ != "solved"@,
        "puzzle_number"@ != "mint_slot"@,
        "puzzle_number"@ != "solver"@,
        "puzzle_number"@ != "solution"@,
        "puzzle_number"@ != "solve_timestamp"@,
        "puzzle_number"@ != "rarity"@,
        "solution_hash"@ != "solved"@,
        "solution_hash"@ != "mint_slot"@,
        "solution_hash"@ != "solver"@,
        "solution_hash"@ != "solution"@,
        "solution_hash"@ != "solve_timestamp"@,
        "solution_hash"@ != "rarity"@,
        "solved"@ != "mint_slot"@,
        "solved"@ != "solver"@,
        "solved"@ != "solution"@,
        "solved"@ != "solve_timestamp"@,
        "solved"@ != "rarity"@,
        "mint_slot"@ != "solver"@,
        "mint_slot"@ != "solution"@,
        "mint_slot"@ != "solve_timestamp"@,
        "mint_slot"@ != "rarity"@,
        "solver"@ != "solution"@,
        "solver"@ != "solve_timestamp"@,
        "solver"@ != "rarity"@,
        "solution"@ != "solve_timestamp"@,
        "solution"@ != "rarity"@,
        "solve_timestamp"@ != "rarity"@,
{
    reveal_strlit("puzzle_type");
    reveal_strlit("difficulty");
    reveal_strlit("puzzle_number");
    reveal_strlit("solution_hash");
    reveal_strlit("solved");
    reveal_strlit("mint_slot");
    reveal_strlit("solver");
    reveal_strlit("solution");
    reveal_strlit("solve_timestamp");
    reveal_strlit("rarity");
    assert("puzzle_type"@[0] != "difficulty"@[0]);
    assert("puzzle_type"@[7] != "puzzle_number"@[7]);
    assert("puzzle_type"@[0] != "solution_hash"@[0]);
    assert("puzzle_type"@[0] != "solved"@[0]);
    assert("puzzle_type"@[0] != "mint_slot"@[0]);
    assert("puzzle_type"@[0] != "solver"@[0]);
    assert("puzzle_type"@[0] != "solution"@[0]);
    assert("puzzle_type"@[0] != "solve_timestamp"@[0]);
    assert("puzzle_type"@[0] != "rarity"@[0]);
    assert("difficulty"@[0] != "puzzle_number"@[0]);
    assert("difficulty"@[0] != "solution_hash"@[0]);
    assert("difficulty"@[0] != "solved"@[0]);
    assert("difficulty"@[0] != "mint_slot"@[0]);
    assert("difficulty"@[0] != "solver"@[0]);
    assert("difficulty"@[0] != "solution"@[0]);
    assert("difficulty"@[0] != "solve_timestamp"@[0]);
    assert("difficulty"@[0] != "rarity"@[0]);
    assert("puzzle_number"@[0] != "solution_hash"@[0]);
    assert("puzzle_number"@[0] != "solved"@[0]);
    assert("puzzle_number"@[0] != "mint_slot"@[0]);
    assert("puzzle_number"@[0] != "solver"@[0]);
    assert("puzzle_number"@[0] != "solution"@[0]);
    assert("puzzle_number"@[0] != "solve_timestamp"@[0]);
    assert("puzzle_number"@[0] != "rarity"@[0]);
    assert("solution_hash"@[3] != "solved"@[3]);
    assert("solution_hash"@[0] != "mint_slot"@[0]);
    assert("solution_hash"@[3] != "solver"@[3]);
    assert("solution_hash"@.len() != "solution"@.len());
    assert("solution_hash"@[3] != "solve_timestamp"@[3]);
    assert("solution_hash"@[0] != "rarity"@[0]);
    assert("solved"@[0] != "mint_slot"@[0]);
    assert("solved"@[5] != "solver"@[5]);
    assert("solved"@[3] != "solution"@[3]);
    assert("solved"@[5] != "solve_timestamp"@[5]);
    assert("solved"@[0] != "rarity"@[0]);
    assert("mint_slot"@[0] != "solver"@[0]);
    assert("mint_slot"@[0] != "solution"@[0]);
    assert("mint_slot"@[0] != "solve_timestamp"@[0]);
    assert("mint_slot"@[0] != "rarity"@[0]);
    assert("solver"@[3] != "solution"@[3]);
    assert("solver"@[5] != "solve_timestamp"@[5]);
    assert("solver"@[0] != "rarity"@[0]);
    assert("solution"@[3] != "solve_timestamp"@[3]);
    assert("solution"@[0] != "rarity"@[0]);
    assert("solve_timestamp"@[0] != "rarity"@[0]);
}

/// Decoding an encoded puzzle gives the puzzle back.
pub proof fn lemma_decode_encode(m: PuzzleModel)
    ensures
        decode_spec(encode_spec(m)) == Ok::<PuzzleModel, PuzzleError>(m),
{
    lemma_schema_keys_distinct();
    let e = Seq::<(Seq<char>, Seq<char>)>::empty();
    assert(key_index(e, "solver"@) == -1);
    let l0 = set_attr(e, "puzzle_type"@, puzzle_type_name(m.puzzle_type));
    lemma_set_attr(e, "puzzle_type"@, puzzle_type_name(m.puzzle_type));
    let l1 = set_attr(l0, "difficulty"@, dec_chars(m.difficulty as nat));
    lemma_set_attr(l0, "difficulty"@, dec_chars(m.difficulty as nat));
    let l2 = set_attr(l1, "puzzle_number"@, dec_chars(m.puzzle_number as nat));
    lemma_set_attr(l1, "puzzle_number"@, dec_chars(m.puzzle_number as nat));
    let l3 = set_attr(l2, "solution_hash"@, hex_chars(m.solution_hash as nat));
    lemma_set_attr(l2, "solution_hash"@, hex_chars(m.solution_hash as nat));
    let l4 = set_attr(l3, "solved"@, bool_chars(m.solved));
    lemma_set_attr(l3, "solved"@, bool_chars(m.solved));
    let l5 = set_attr(l4, "mint_slot"@, dec_chars(m.mint_slot as nat));
    lemma_set_attr(l4, "mint_slot"@, dec_chars(m.mint_slot as nat));
    let l6 = put_opt(l5, "solver"@, m.solver);
    if m.solver is Some {
        lemma_set_attr(l5, "solver"@, m.solver->0);
    }
    let xo = match m.solution {
        Some(v) => Some(dec_chars(v as nat)),
        None => None,
    };
    let l7 = put_opt(l6, "solution"@, xo);
    if xo is Some {
        lemma_set_attr(l6, "solution"@, xo->0);
        lemma_unsigned_round_trip(m.solution->0, 10);
    }
    let to = match m.solved_at {
        Some(t) => Some(int_chars(t as int)),
        None => None,
    };
    let l8 = put_opt(l7, "solve_timestamp"@, to);
    if to is Some {
        lemma_set_attr(l7, "solve_timestamp"@, to->0);
        lemma_int_round_trip(m.solved_at->0);
    }
    let ro = match m.rarity {
        Some(r) => Some(rarity_name(r)),
        None => None,
    };
    if ro is Some {
        lemma_set_attr(l8, "rarity"@, ro->0);
        lemma_rarity_round_trip(m.rarity->0);
    }
    lemma_type_round_trip(m.puzzle_type);
    lemma_unsigned_round_trip(m.difficulty as u64, 10);
    lemma_unsigned_round_trip(m.puzzle_number, 10);
    lemma_unsigned_round_trip(m.solution_hash, 16);
    lemma_bool_round_trip(m.solved);
    lemma_unsigned_round_trip(m.mint_slot, 10);
}

/// A copy of an attribute pair.
pub fn copy_attribute(a: &Attribute) -> (r: Attribute)
    ensures
        r@ == a@,
{
    Attribute { key: a.key.clone(), value: a.value.clone() }
}

/// A copy of an attribute list.
pub fn copy_attributes(list: &Vec<Attribute>) -> (r: Vec<Attribute>)
    ensures
        attrs_view(r@) == attrs_view(list@),
{
    let mut out: Vec<Attribute> = Vec::new();
    let mut i: usize = 0;
    while i < list.len()
        invariant
            i <= list@.len(),
            out@.len() == i,
            attrs_view(out@) =~= attrs_view(list@).subrange(0, i as int),
        decreases list@.len() - i,
    {
        let a = copy_attribute(&list[i]);
        let ghost prev = out@;
        out.push(a);
        assert(out@ =~= prev.push(a));
        assert(attrs_view(out@)[i as int] == list@[i as int]@);
        assert forall|j: int| 0 <= j < i implies attrs_view(out@)[j] == attrs_view(prev)[j] by {
            assert(out@[j] == prev[j]);
        }
        assert(attrs_view(out@) =~= attrs_view(list@).subrange(0, i + 1));
        i += 1;
    }
    assert(attrs_view(list@).subrange(0, i as int) =~= attrs_view(list@));
    out
}

/// Position of the first attribute with key `key`.
pub fn find_index(list: &Vec<Attribute>, key: &str) -> (r: Option<usize>)
    ensures
        match r {
            Some(i) => i < list@.len() && key_index(attrs_view(list@), key@) == i,
            None => key_index(attrs_view(list@), key@) < 0,
        },
{
    let k = String::from_str(key);
    let mut i: usize = 0;
    while i < list.len()
        invariant
            i <= list@.len(),
            k@ == key@,
            forall|j: int| 0 <= j < i ==> attrs_view(list@)[j].0 != key@,
        decreases list@.len() - i,
    {
        if list[i].key == k {
            proof {
                lemma_key_index_at(attrs_view(list@), key@, i as int);
            }
            return Some(i);
        }
        i += 1;
    }
    proof {
        lemma_key_index_none(attrs_view(list@), key@);
    }
    None
}

/// The value of the first attribute with key `key`.
pub fn find_value(list: &Vec<Attribute>, key: &str) -> (r: Option<String>)
    ensures
        r is Some == lookup(attrs_view(list@), key@) is Some,
        r is Some ==> r->0@ == lookup(attrs_view(list@), key@)->0,
{
    match find_index(list, key) {
        Some(i) => Some(list[i].value.clone()),
        None => None,
    }
}

/// Gives the first attribute with key `key` the value `value` where it
/// stands, or appends the pair when no attribute has that key.
pub fn set_attribute(list: &mut Vec<Attribute>, key: &str, value: String)
    ensures
        attrs_view(final(list)@) == set_attr(attrs_view(old(list)@), key@, value@),
{
    let a = Attribute::new(key, value);
    match find_index(list, key) {
        Some(i) => {
            list.remove(i);
            list.insert(i, a);
            assert(attrs_view(list@) =~= set_attr(attrs_view(old(list)@), key@, value@));
        },
        None => {
            list.push(a);
            assert(attrs_view(list@) =~= set_attr(attrs_view(old(list)@), key@, value@));
        },
    }
}

/// Applies `updates` in order: each replaces the value of the first attribute
/// with its key in place, or is appended when the key is absent. All other
/// attributes are kept, in their order.
pub fn merge_update(list: &Vec<Attribute>, updates: &Vec<Attribute>) -> (r: Vec<Attribute>)
    ensures
        attrs_view(r@) == merge_spec(attrs_view(list@), attrs_view(updates@)),
{
    let mut out = copy_attributes(list);
    let mut i: usize = 0;
    while i < updates.len()
        invariant
            i <= updates@.len(),
            attrs_view(out@) == merge_spec(
                attrs_view(list@),
                attrs_view(updates@).subrange(0, i as int),
            ),
        decreases updates@.len() - i,
    {
        set_attribute(&mut out, updates[i].key.as_str(), updates[i].value.clone());
        proof {
            let ups = attrs_view(updates@);
            assert(ups.subrange(0, i + 1).drop_last() =~= ups.subrange(0, i as int));
        }
        i += 1;
    }
    assert(attrs_view(updates@).subrange(0, i as int) =~= attrs_view(updates@));
    out
}

/// The attribute list of a puzzle record.
pub fn encode(p: &PuzzleInstance) -> (r: Vec<Attribute>)
    ensures
        attrs_view(r@) == encode_spec(p@),
{
    let mut l: Vec<Attribute> = Vec::new();
    assert(attrs_view(l@) =~= Seq::empty());
    set_attribute(&mut l, "puzzle_type", p.puzzle_type.to_string());
    set_attribute(&mut l, "difficulty", format_u64(p.difficulty as u64));
    set_attribute(&mut l, "puzzle_number", format_u64(p.puzzle_number));
    set_attribute(&mut l, "solution_hash", format_hex_u64(p.solution_hash));
    set_attribute(&mut l, "solved", format_bool(p.solved));
    set_attribute(&mut l, "mint_slot", format_u64(p.mint_slot));
    match &p.solver {
        Some(s) => set_attribute(&mut l, "solver", s.clone()),
        None => {},
    }
    match p.solution {
        Some(v) => set_attribute(&mut l, "solution", format_u64(v)),
        None => {},
    }
    match p.solved_at {
        Some(t) => set_attribute(&mut l, "solve_timestamp", format_i64(t)),
        None => {},
    }
    match p.rarity {
        Some(r) => set_attribute(&mut l, "rarity", r.to_string()),
        None => {},
    }
    l
}

/// Reads a puzzle record from an attribute list; see `decode_spec` for which
/// error each missing or malformed key gives.
pub fn decode(list: &Vec<Attribute>) -> (r: Result<PuzzleInstance, PuzzleError>)
    ensures
        match r {
            Ok(p) => decode_spec(attrs_view(list@)) == Ok::<PuzzleModel, PuzzleError>(p@),
            Err(e) => decode_spec(attrs_view(list@)) == Err::<PuzzleModel, PuzzleError>(e),
        },
{
    let tv = match find_value(list, "puzzle_type") {
        Some(v) => v,
        None => return Err(PuzzleError::PuzzleNotFound),
    };
    let puzzle_type = match PuzzleType::parse(&tv) {
        Some(t) => t,
        None => return Err(PuzzleError::InvalidPuzzleType),
    };
    let dv = match find_value(list, "difficulty") {
        Some(v) => v,
        None => return Err(PuzzleError::AttributeNotFound),
    };
    let difficulty = match parse_u8(dv.as_str()) {
        Some(d) => d,
        None => return Err(PuzzleError::FailedToParsePuzzleData),
    };
    let nv = match find_value(list, "puzzle_number") {
        Some(v) => v,
        None => return Err(PuzzleError::PuzzleNotFound),
    };
    let puzzle_number = match parse_u64(nv.as_str()) {
        Some(n) => n,
        None => return Err(PuzzleError::FailedToParsePuzzleData),
    };
    let hv = match find_value(list, "solution_hash") {
        Some(v) => v,
        None => return Err(PuzzleError::PuzzleNotFound),
    };
    let solution_hash = match parse_hex_u64(hv.as_str()) {
        Some(h) => h,
        None => return Err(PuzzleError::FailedToParsePuzzleData),
    };
    if format_hex_u64(solution_hash) != hv {
        return Err(PuzzleError::FailedToParsePuzzleData);
    }
    let sv = match find_value(list, "solved") {
        Some(v) => v,
        None => return Err(PuzzleError::AttributeNotFound),
    };
    let solved = match parse_bool(&sv) {
        Some(b) => b,
        None => return Err(PuzzleError::FailedToParsePuzzleData),
    };
    let mv = match find_value(list, "mint_slot") {
        Some(v) => v,
        None => return Err(PuzzleError::AttributeNotFound),
    };
    let mint_slot = match parse_u64(mv.as_str()) {
        Some(m) => m,
        None => return Err(PuzzleError::FailedToParsePuzzleData),
    };
    let solver = find_value(list, "solver");
    let solution = match find_value(list, "solution") {
        Some(v) => match parse_u64(v.as_str()) {
            Some(x) => Some(x),
            None => return Err(PuzzleError::FailedToParsePuzzleData),
        },
        None => None,
    };
    let solved_at = match find_value(list, "solve_timestamp") {
        Some(v) => match parse_i64(v.as_str()) {
            Some(t) => Some(t),
            None => return Err(PuzzleError::FailedToParsePuzzleData),
        },
        None => None,
    };
    let rarity = match find_value(list, "rarity") {
        Some(v) => match Rarity::parse(&v) {
            Some(x) => Some(x),
            None => return Err(PuzzleError::FailedToParsePuzzleData),
        },
        None => None,
    };
    Ok(
        PuzzleInstance {
            puzzle_type,
            difficulty,
            puzzle_number,
            solution_hash,
            solved,
            mint_slot,
            solver,
            solution,
            solved_at,
            rarity,
        },
    )
}

} // verus!
