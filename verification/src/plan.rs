use vstd::prelude::*;
use crate::keys::AccountId;

verus! {

/// Arguments of an SPL-token `mint_to` invocation: mint `amount` new tokens
/// of `mint` into the token account `to`, signed by the mint authority.
#[derive(Clone, Copy, Debug, PartialEq, Eq)]
pub struct MintToStep {
    pub token_program: AccountId,
    pub mint: AccountId,
    pub to: AccountId,
    pub authority: AccountId,
    pub amount: u64,
}

/// One creator entry of a metadata account: the creator's address, whether
/// the entry is already verified, and the creator's royalty share in percent.
#[derive(Clone, Copy, Debug, PartialEq, Eq)]
pub struct Creator {
    pub address: AccountId,
    pub verified: bool,
    pub share: u8,
}

/// Arguments of a token-metadata `create metadata account` invocation.
///
/// The metadata is created with a single creator entry and with no
/// collection link, no uses and no collection details: the collection is
/// attached afterwards by the set-and-verify step of the same plan.
#[derive(Clone, Debug, PartialEq, Eq)]
pub struct CreateMetadataStep {
    pub token_metadata_program: AccountId,
    pub metadata: AccountId,
    pub mint: AccountId,
    pub mint_authority: AccountId,
    pub payer: AccountId,
    pub update_authority: AccountId,
    pub update_authority_is_signer: bool,
    pub name: String,
    pub symbol: String,
    pub uri: String,
    pub seller_fee_basis_points: u16,
    pub creator: Creator,
    pub is_mutable: bool,
}

/// Arguments of a token-metadata `create master edition` invocation.
/// A maximum supply of `Some(0)` forbids any further print editions.
#[derive(Clone, Copy, Debug, PartialEq, Eq)]
pub struct CreateMasterEditionStep {
    pub token_metadata_program: AccountId,
    pub edition: AccountId,
    pub mint: AccountId,
    pub update_authority: AccountId,
    pub mint_authority: AccountId,
    pub payer: AccountId,
    pub metadata: AccountId,
    pub token_program: AccountId,
    pub system_program: AccountId,
    pub max_supply: Option<u64>,
}

/// Arguments of a token-metadata `sign metadata` invocation: the creator
/// signs its own entry of the metadata account, marking it verified.
#[derive(Clone, Copy, Debug, PartialEq, Eq)]
pub struct SignMetadataStep {
    pub token_metadata_program: AccountId,
    pub metadata: AccountId,
    pub creator: AccountId,
}

/// Arguments of a token-metadata `set and verify collection` invocation:
/// link the item's metadata to the collection and mark the link verified.
#[derive(Clone, Copy, Debug, PartialEq, Eq)]
pub struct SetAndVerifyCollectionStep {
    pub token_metadata_program: AccountId,
    pub metadata: AccountId,
    pub collection_authority: AccountId,
    pub payer: AccountId,
    pub update_authority: AccountId,
    pub collection_mint: AccountId,
    pub collection_metadata: AccountId,
    pub collection_master_edition: AccountId,
}

/// Arguments of an SPL-token `transfer` invocation, signed by `authority`
/// as an ordinary transaction signer.
#[derive(Clone, Copy, Debug, PartialEq, Eq)]
pub struct TransferStep {
    pub token_program: AccountId,
    pub from: AccountId,
    pub to: AccountId,
    pub authority: AccountId,
    pub amount: u64,
}

/// One cross-program invocation of the collection-minting choreography,
/// with its arguments.
#[derive(Clone, Debug, PartialEq, Eq)]
pub enum CpiStep {
    MintTo(MintToStep),
    CreateMetadataV3(CreateMetadataStep),
    CreateMasterEditionV3(CreateMasterEditionStep),
    SignMetadata(SignMetadataStep),
    SetAndVerifyCollection(SetAndVerifyCollectionStep),
}

/// The bytes of the seed string `"auth"` in ASCII.
pub open spec fn auth_seed_bytes() -> Seq<u8> {
    seq![0x61u8, 0x75u8, 0x74u8, 0x68u8]
}

/// The signer seeds of the program's mint-authority address: the literal
/// seed `"auth"` followed by the one-byte bump that completes the
/// derivation of that address.
pub fn auth_signer_seeds(bump: u8) -> (r: Vec<Vec<u8>>)
    ensures
        r@.len() == 2,
        r@[0]@ == auth_seed_bytes(),
        r@[1]@ == seq![bump],
{
    let mut seed: Vec<u8> = Vec::new();
    seed.push(0x61u8);
    seed.push(0x75u8);
    seed.push(0x74u8);
    seed.push(0x68u8);
    let mut bump_seed: Vec<u8> = Vec::new();
    bump_seed.push(bump);
    let mut seeds: Vec<Vec<u8>> = Vec::new();
    proof {
        assert(seed@ =~= auth_seed_bytes());
        assert(bump_seed@ =~= seq![bump]);
    }
    seeds.push(seed);
    seeds.push(bump_seed);
    seeds
}

} // verus!
