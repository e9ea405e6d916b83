//! Rarity of a solve, bucketed from the solve's timestamp.
//!
//! The tier depends on the timestamp alone, which a submitter can observe and
//! influence: it is no defence against an adversary.

use vstd::prelude::*;
use crate::types::Rarity;

verus! {

/// The tier for timestamp `t`, by `t mod 100` (taken in 0..100):
/// below 10 Legendary, below 30 Epic, below 60 Rare, else Common.
pub open spec fn rarity_of(t: int) -> Rarity {
    let m = t % 100;
    if m < 10 {
        Rarity::Legendary
    } else if m < 30 {
        Rarity::Epic
    } else if m < 60 {
        Rarity::Rare
    } else {
        Rarity::Common
    }
}

/// `t mod 100`, in 0..100 also for a negative `t`.
fn timestamp_bucket(t: i64) -> (r: u64)
    ensures
        r as int == (t as int) % 100,
{
    if t >= 0 {
        (t as u64) % 100
    } else {
        let a: u64 = ((-(t + 1)) as u64) + 1;
        assert(a as int == -(t as int));
        let r = a % 100;
        assert((t as int) % 100 == if r == 0 { 0 } else { 100 - r }) by (nonlinear_arith)
            requires
                a as int == -(t as int),
                r as int == (a as int) % 100,
        ;
        if r == 0 {
            0
        } else {
            100 - r
        }
    }
}

/// The rarity tier of a solve at timestamp `t`.
pub fn rarity_for_timestamp(t: i64) -> (r: Rarity)
    ensures
        r == rarity_of(t as int),
{
    let m = timestamp_bucket(t);
    if m < 10 {
        Rarity::Legendary
    } else if m < 30 {
        Rarity::Epic
    } else if m < 60 {
        Rarity::Rare
    } else {
        Rarity::Common
    }
}

} // verus!
