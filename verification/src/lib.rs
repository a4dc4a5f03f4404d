//! Verified planning core of two small Solana program modules.
//!
//! One module mints a single non-fungible token and registers it into an
//! existing collection; the other performs a plain SPL token transfer.
//! Each handler is a fixed choreography of cross-program invocations. The
//! functions here decide that choreography — which instruction comes in
//! which order, with which accounts in which slot, with which argument
//! values, under which signer seeds — and are verified to decide it
//! exactly. Performing the invocations against the chain is left to the
//! unverified shell around this crate.

pub mod keys;
pub mod plan;
pub mod create_nft_in_collection;
pub mod token_transfer;
pub mod mint;
pub mod metadata_ix;
