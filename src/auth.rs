//! Ownership and update-authority checks.

use vstd::prelude::*;
use crate::types::{Identity, PuzzleError};

verus! {

/// What the ledger records of an asset.
#[derive(Debug, Clone, Copy)]
pub struct AssetRecord {
    /// The asset's own address.
    pub key: Identity,
    /// Its current owner.
    pub owner: Identity,
    /// The identity allowed to change its metadata.
    pub update_authority: Identity,
}

/// A token account that holds an asset.
#[derive(Debug, Clone, Copy)]
pub struct TokenHolding {
    pub owner: Identity,
    pub amount: u64,
    /// The asset that the token stands for.
    pub mint: Identity,
}

/// `who` owns the asset: it is the recorded owner and, where a holding token
/// is given, that token is its own, holds at least one unit, and stands for
/// this asset.
pub open spec fn owns_spec(asset: AssetRecord, token: Option<TokenHolding>, who: Seq<u8>) -> bool {
    &&& who == asset.owner@
    &&& match token {
        Some(t) => t.owner@ == who && t.amount >= 1 && t.mint@ == asset.key@,
        None => true,
    }
}

/// Whether `owner_key` owns the asset; see `owns_spec`.
pub fn verify_nft_owner(
    asset: &AssetRecord,
    token_account: &Option<TokenHolding>,
    owner_key: &Identity,
) -> (r: bool)
    ensures
        r == owns_spec(*asset, *token_account, owner_key@),
{
    if !owner_key.same_as(&asset.owner) {
        return false;
    }
    match token_account {
        Some(t) => t.owner.same_as(owner_key) && t.amount >= 1 && t.mint.same_as(&asset.key),
        None => true,
    }
}

/// Whether `authority_key` is the asset's update authority.
pub fn verify_update_authority(asset: &AssetRecord, authority_key: &Identity) -> (r: bool)
    ensures
        r == (asset.update_authority@ == authority_key@),
{
    asset.update_authority.same_as(authority_key)
}

/// Admits a metadata-only update by `authority_key`: `UnauthorizedUpdate`
/// unless it is the asset's update authority.
pub fn require_update_authority(asset: &AssetRecord, authority_key: &Identity) -> (r: Result<
    (),
    PuzzleError,
>)
    ensures
        asset.update_authority@ == authority_key@ ==> r is Ok,
        asset.update_authority@ != authority_key@ ==> r == Err::<(), PuzzleError>(
            PuzzleError::UnauthorizedUpdate,
        ),
{
    if verify_update_authority(asset, authority_key) {
        Ok(())
    } else {
        Err(PuzzleError::UnauthorizedUpdate)
    }
}

} // verus!
