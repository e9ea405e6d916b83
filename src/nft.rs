//! The metadata update of the slot-stamped solve scheme: the attribute list
//! that an asset carries after its puzzle was solved at a given slot.

use vstd::prelude::*;
use crate::codec::{attrs_view, copy_attribute, set_attr, set_attribute};
use crate::text::{dec_chars, format_u64};
use crate::types::Attribute;

verus! {

/// `l` with every `solved` pair set to `true` and every `hidden_trait` pair
/// revealed as `Legendary Solver`, in place; other pairs kept as they are.
pub open spec fn revealed_attrs(l: Seq<(Seq<char>, Seq<char>)>) -> Seq<(Seq<char>, Seq<char>)>
    decreases l.len(),
{
    if l.len() == 0 {
        Seq::empty()
    } else {
        let rest = revealed_attrs(l.drop_last());
        let a = l.last();
        if a.0 == "solved"@ {
            rest.push(("solved"@, "true"@))
        } else if a.0 == "hidden_trait"@ {
            rest.push(("hidden_trait"@, "Legendary Solver"@))
        } else {
            rest.push(a)
        }
    }
}

/// The attribute list after a solve at `current_slot`: the pairs of
/// `revealed_attrs`, with `solve_time` set to the slot where it stands, or
/// appended when absent.
pub open spec fn after_solve_spec(l: Seq<(Seq<char>, Seq<char>)>, current_slot: u64) -> Seq<
    (Seq<char>, Seq<char>),
> {
    set_attr(revealed_attrs(l), "solve_time"@, dec_chars(current_slot as nat))
}

/// The attribute list of an asset whose puzzle was solved at `current_slot`.
pub fn update_nft_after_solve(attributes: &Vec<Attribute>, current_slot: u64) -> (r: Vec<
    Attribute,
>)
    ensures
        attrs_view(r@) == after_solve_spec(attrs_view(attributes@), current_slot),
{
    let solved = String::from_str("solved");
    let hidden = String::from_str("hidden_trait");
    let mut out: Vec<Attribute> = Vec::new();
    let mut i: usize = 0;
    while i < attributes.len()
        invariant
            i <= attributes@.len(),
            solved@ == "solved"@,
            hidden@ == "hidden_trait"@,
            attrs_view(out@) == revealed_attrs(attrs_view(attributes@).subrange(0, i as int)),
        decreases attributes@.len() - i,
    {
        let ghost l = attrs_view(attributes@).subrange(0, i + 1);
        assert(l.drop_last() =~= attrs_view(attributes@).subrange(0, i as int));
        let a = &attributes[i];
        if a.key == solved {
            out.push(Attribute::new("solved", String::from_str("true")));
        } else if a.key == hidden {
            out.push(Attribute::new("hidden_trait", String::from_str("Legendary Solver")));
        } else {
            out.push(copy_attribute(a));
        }
        assert(attrs_view(out@) =~= revealed_attrs(l));
        i += 1;
    }
    assert(attrs_view(attributes@).subrange(0, i as int) =~= attrs_view(attributes@));
    set_attribute(&mut out, "solve_time", format_u64(current_slot));
    out
}

} // verus!
