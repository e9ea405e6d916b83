//! A puzzle-gated collectible: an asset whose metadata holds a puzzle that
//! only its owner may solve, once, after which the metadata records the
//! solver, the time and a rarity tier.
//!
//! - `machine`: the create and solve transitions, with their laws;
//! - `generator`: the slot-based puzzle and its hash commitment, the scheme
//!   that the transitions use;
//! - `checker`: whether a candidate solves a stored puzzle;
//! - `codec`: a puzzle record to and from an ordered key/value list;
//! - `rarity`, `auth`: rarity tiers, ownership and authority checks;
//! - `puzzle`, `puzzle_utils`, `nft`: the seed-based and digest-based
//!   puzzle schemes and the slot-stamped reveal, kept beside the main one;
//! - `text`, `bytes`: canonical text and byte forms of numbers;
//! - `solana`: what is taken from `solana_program` (key text, SHA-256).

pub mod text;
pub mod bytes;
pub mod types;
pub mod codec;
pub mod generator;
pub mod rarity;
pub mod checker;
pub mod solana;
pub mod auth;
pub mod machine;
pub mod nft;
pub mod puzzle;
pub mod puzzle_utils;
