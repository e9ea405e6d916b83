//! What the library takes from `solana_program`: the text form of a public
//! key, and the SHA-256 hash.

use vstd::prelude::*;
use crate::types::Identity;

verus! {

/// The text that `solana_program` writes for a public key of these bytes.
pub uninterp spec fn pubkey_text_of(bytes: Seq<u8>) -> Seq<char>;

/// The hash that `solana_program::hash::hash` gives for these bytes.
pub uninterp spec fn solana_hash_of(data: Seq<u8>) -> Seq<u8>;

/// Relies on `Display for solana_program::pubkey::Pubkey` (base58 of the key's
/// bytes): the text depends on the bytes alone.
#[verifier::external_body]
pub(crate) fn identity_text(id: &Identity) -> (r: String)
    ensures
        r@ == pubkey_text_of(id@),
{
    solana_program::pubkey::Pubkey::new_from_array(id.bytes).to_string()
}

/// Relies on `solana_program::hash::hash`: SHA-256 of the data, 32 bytes that
/// depend on the data alone.
#[verifier::external_body]
pub(crate) fn solana_hash(data: &[u8]) -> (r: [u8; 32])
    ensures
        r@ == solana_hash_of(data@),
{
    solana_program::hash::hash(data).to_bytes()
}

} // verus!
