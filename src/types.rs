//! The values that the puzzle engine works on: identities, puzzle kinds,
//! rarity tiers, attribute pairs and the error taxonomy.

use vstd::prelude::*;

verus! {

/// Why a request was rejected. Every error aborts the whole operation.
#[derive(Debug, Clone, Copy, PartialEq, Eq, Structural)]
pub enum PuzzleError {
    /// The candidate does not solve the puzzle.
    IncorrectSolution,
    /// A required puzzle attribute is absent.
    PuzzleNotFound,
    /// The caller is not the asset's owner.
    NotNftOwner,
    /// The puzzle has been solved already.
    AlreadySolved,
    /// The puzzle type selector or name is not one of the known kinds.
    InvalidPuzzleType,
    /// A present attribute does not parse as its expected type.
    FailedToParsePuzzleData,
    /// The asset record itself is malformed.
    InvalidAssetData,
    /// A metadata update by an identity other than the update authority.
    UnauthorizedUpdate,
    /// The collection authority does not match.
    InvalidCollectionAuthority,
    /// A required state attribute is absent.
    AttributeNotFound,
}

/// An opaque fixed-width account identity, compared by its bytes only.
#[derive(Debug, Clone, Copy)]
pub struct Identity {
    pub bytes: [u8; 32],
}

impl View for Identity {
    type V = Seq<u8>;

    open spec fn view(&self) -> Seq<u8> {
        self.bytes@
    }
}

impl Identity {
    pub fn new(bytes: [u8; 32]) -> (r: Identity)
        ensures
            r@ == bytes@,
    {
        Identity { bytes }
    }

    /// Whether both identities hold the same bytes.
    pub fn same_as(&self, other: &Identity) -> (r: bool)
        ensures
            r == (self@ == other@),
    {
        let mut i: usize = 0;
        while i < 32
            invariant
                0 <= i <= 32,
                self.bytes@.len() == 32,
                other.bytes@.len() == 32,
                forall|j: int| 0 <= j < i ==> self.bytes@[j] == other.bytes@[j],
            decreases 32 - i,
        {
            if self.bytes[i] != other.bytes[i] {
                return false;
            }
            i += 1;
        }
        assert(self.bytes@ =~= other.bytes@);
        true
    }
}

impl PartialEq for Identity {
    fn eq(&self, other: &Identity) -> (r: bool) {
        self.same_as(other)
    }
}

impl vstd::std_specs::cmp::PartialEqSpecImpl for Identity {
    open spec fn obeys_eq_spec() -> bool {
        true
    }

    open spec fn eq_spec(&self, other: &Identity) -> bool {
        self@ == other@
    }
}

/// The kinds of puzzle.
#[derive(Debug, Clone, Copy, PartialEq, Eq, Structural)]
pub enum PuzzleType {
    MathFactor,
    HashRiddle,
    Pattern,
}

/// The name under which a puzzle kind is stored.
pub open spec fn puzzle_type_name(t: PuzzleType) -> Seq<char> {
    match t {
        PuzzleType::MathFactor => "math_factor"@,
        PuzzleType::HashRiddle => "hash_riddle"@,
        PuzzleType::Pattern => "pattern"@,
    }
}

/// The kind that a stored name denotes, if any.
pub open spec fn parse_type_spec(s: Seq<char>) -> Option<PuzzleType> {
    if s == "math_factor"@ {
        Some(PuzzleType::MathFactor)
    } else if s == "hash_riddle"@ {
        Some(PuzzleType::HashRiddle)
    } else if s == "pattern"@ {
        Some(PuzzleType::Pattern)
    } else {
        None
    }
}

/// The kind that a numeric selector denotes: 0, 1 and 2, in declaration order.
pub open spec fn type_of_selector(sel: u8) -> Option<PuzzleType> {
    if sel == 0 {
        Some(PuzzleType::MathFactor)
    } else if sel == 1 {
        Some(PuzzleType::HashRiddle)
    } else if sel == 2 {
        Some(PuzzleType::Pattern)
    } else {
        None
    }
}

pub open spec fn type_index(t: PuzzleType) -> u8 {
    match t {
        PuzzleType::MathFactor => 0,
        PuzzleType::HashRiddle => 1,
        PuzzleType::Pattern => 2,
    }
}

impl PuzzleType {
    /// The stored name of this kind.
    pub fn to_string(&self) -> (r: String)
        ensures
            r@ == puzzle_type_name(*self),
    {
        match self {
            PuzzleType::MathFactor => String::from_str("math_factor"),
            PuzzleType::HashRiddle => String::from_str("hash_riddle"),
            PuzzleType::Pattern => String::from_str("pattern"),
        }
    }

    /// The kind for a numeric selector; `None` for an unknown one.
    pub fn from_selector(sel: u8) -> (r: Option<PuzzleType>)
        ensures
            r == type_of_selector(sel),
    {
        if sel == 0 {
            Some(PuzzleType::MathFactor)
        } else if sel == 1 {
            Some(PuzzleType::HashRiddle)
        } else if sel == 2 {
            Some(PuzzleType::Pattern)
        } else {
            None
        }
    }

    /// The numeric selector of this kind.
    pub fn index(&self) -> (r: u8)
        ensures
            r == type_index(*self),
    {
        match self {
            PuzzleType::MathFactor => 0,
            PuzzleType::HashRiddle => 1,
            PuzzleType::Pattern => 2,
        }
    }

    /// The kind that a stored name denotes; `None` for an unknown name.
    pub fn parse(s: &String) -> (r: Option<PuzzleType>)
        ensures
            r == parse_type_spec(s@),
    {
        if *s == String::from_str("math_factor") {
            Some(PuzzleType::MathFactor)
        } else if *s == String::from_str("hash_riddle") {
            Some(PuzzleType::HashRiddle)
        } else if *s == String::from_str("pattern") {
            Some(PuzzleType::Pattern)
        } else {
            None
        }
    }
}

/// Stored names read back as the kind they name.
pub proof fn lemma_type_round_trip(t: PuzzleType)
    ensures
        parse_type_spec(puzzle_type_name(t)) == Some(t),
{
    reveal_strlit("math_factor");
    reveal_strlit("hash_riddle");
    reveal_strlit("pattern");
    assert("math_factor"@[0] != "hash_riddle"@[0]);
    assert("math_factor"@[0] != "pattern"@[0]);
    assert("hash_riddle"@[0] != "pattern"@[0]);
}

/// Rarity tiers, rarest first.
#[derive(Debug, Clone, Copy, PartialEq, Eq, Structural)]
pub enum Rarity {
    Legendary,
    Epic,
    Rare,
    Common,
}

pub open spec fn rarity_name(r: Rarity) -> Seq<char> {
    match r {
        Rarity::Legendary => "Legendary"@,
        Rarity::Epic => "Epic"@,
        Rarity::Rare => "Rare"@,
        Rarity::Common => "Common"@,
    }
}

pub open spec fn parse_rarity_spec(s: Seq<char>) -> Option<Rarity> {
    if s == "Legendary"@ {
        Some(Rarity::Legendary)
    } else if s == "Epic"@ {
        Some(Rarity::Epic)
    } else if s == "Rare"@ {
        Some(Rarity::Rare)
    } else if s == "Common"@ {
        Some(Rarity::Common)
    } else {
        None
    }
}

impl Rarity {
    /// The stored name of this tier.
    pub fn to_string(&self) -> (r: String)
        ensures
            r@ == rarity_name(*self),
    {
        match self {
            Rarity::Legendary => String::from_str("Legendary"),
            Rarity::Epic => String::from_str("Epic"),
            Rarity::Rare => String::from_str("Rare"),
            Rarity::Common => String::from_str("Common"),
        }
    }

    /// The tier that a stored name denotes; `None` for an unknown name.
    pub fn parse(s: &String) -> (r: Option<Rarity>)
        ensures
            r == parse_rarity_spec(s@),
    {
        if *s == String::from_str("Legendary") {
            Some(Rarity::Legendary)
        } else if *s == String::from_str("Epic") {
            Some(Rarity::Epic)
        } else if *s == String::from_str("Rare") {
            Some(Rarity::Rare)
        } else if *s == String::from_str("Common") {
            Some(Rarity::Common)
        } else {
            None
        }
    }
}

/// Stored tier names read back as the tier they name.
pub proof fn lemma_rarity_round_trip(r: Rarity)
    ensures
        parse_rarity_spec(rarity_name(r)) == Some(r),
{
    reveal_strlit("Legendary");
    reveal_strlit("Epic");
    reveal_strlit("Rare");
    reveal_strlit("Common");
    assert("Legendary"@[0] != "Epic"@[0]);
    assert("Legendary"@[0] != "Rare"@[0]);
    assert("Legendary"@[0] != "Common"@[0]);
    assert("Epic"@[0] != "Rare"@[0]);
    assert("Epic"@[0] != "Common"@[0]);
    assert("Rare"@[0] != "Common"@[0]);
}

/// One key/value pair of an asset's attribute list.
#[derive(Debug, Clone)]
pub struct Attribute {
    pub key: String,
    pub value: String,
}

impl View for Attribute {
    type V = (Seq<char>, Seq<char>);

    open spec fn view(&self) -> (Seq<char>, Seq<char>) {
        (self.key@, self.value@)
    }
}

impl Attribute {
    pub fn new(key: &str, value: String) -> (r: Attribute)
        ensures
            r@ == (key@, value@),
    {
        Attribute { key: String::from_str(key), value }
    }
}

} // verus!
