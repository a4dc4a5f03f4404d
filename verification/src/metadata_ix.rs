use vstd::prelude::*;
use crate::create_nft_in_collection::{
    token_metadata_program_id_bytes, CreateNftInCollection, TokenMetaData,
};
use crate::keys::AccountId;
use crate::plan::{
    CreateMasterEditionStep, CreateMetadataStep, Creator, SetAndVerifyCollectionStep,
    SignMetadataStep,
};
use mpl_token_metadata::accounts::{MasterEdition, Metadata};
use mpl_token_metadata::instructions::{
    CreateMasterEditionV3, CreateMasterEditionV3InstructionArgs, CreateMetadataAccountV3,
    CreateMetadataAccountV3InstructionArgs, SetAndVerifyCollection, SignMetadata,
};
use mpl_token_metadata::types::{Creator as MplCreator, DataV2};
use solana_program::instruction::Instruction;
use solana_program::pubkey::Pubkey;

verus! {

#[verifier::external_type_specification]
#[verifier::external_body]
pub struct ExInstruction(Instruction);

/// The create-metadata instruction that the token-metadata crate builds
/// for these accounts and data.
pub uninterp spec fn create_metadata_v3_ix(
    metadata: Seq<u8>,
    mint: Seq<u8>,
    mint_authority: Seq<u8>,
    payer: Seq<u8>,
    update_authority: Seq<u8>,
    update_authority_is_signer: bool,
    name: Seq<char>,
    symbol: Seq<char>,
    uri: Seq<char>,
    seller_fee_basis_points: u16,
    creator_address: Seq<u8>,
    creator_verified: bool,
    creator_share: u8,
    is_mutable: bool,
) -> Instruction;

/// The create-master-edition instruction that the token-metadata crate
/// builds for these accounts and maximum supply.
pub uninterp spec fn create_master_edition_v3_ix(
    edition: Seq<u8>,
    mint: Seq<u8>,
    update_authority: Seq<u8>,
    mint_authority: Seq<u8>,
    payer: Seq<u8>,
    metadata: Seq<u8>,
    token_program: Seq<u8>,
    system_program: Seq<u8>,
    max_supply: Option<u64>,
) -> Instruction;

/// The sign-metadata instruction that the token-metadata crate builds for
/// these accounts.
pub uninterp spec fn sign_metadata_ix(metadata: Seq<u8>, creator: Seq<u8>) -> Instruction;

/// The set-and-verify-collection instruction that the token-metadata crate
/// builds for these accounts.
pub uninterp spec fn set_and_verify_collection_ix(
    metadata: Seq<u8>,
    collection_authority: Seq<u8>,
    payer: Seq<u8>,
    update_authority: Seq<u8>,
    collection_mint: Seq<u8>,
    collection_metadata: Seq<u8>,
    collection_master_edition: Seq<u8>,
) -> Instruction;

/// The program-derived metadata account address of a mint, with its bump.
pub uninterp spec fn metadata_pda_of(mint: Seq<u8>) -> (Seq<u8>, u8);

/// The program-derived master-edition account address of a mint, with its
/// bump.
pub uninterp spec fn master_edition_pda_of(mint: Seq<u8>) -> (Seq<u8>, u8);

/// Relies on mpl_token_metadata's CreateMetadataAccountV3::instruction: it
/// builds the create-metadata instruction for these accounts and data, a
/// function of its arguments alone, here with a single creator entry, the
/// system program's constant address, no rent account, no collection link,
/// no uses and no collection details.
///
/// The builder serializes each string behind a four-byte length prefix and
/// panics when the encoded length does not fit; a character encodes to at
/// most four bytes, so the bounds below keep every admitted string within
/// it.
#[verifier::external_body]
fn build_create_metadata_v3(s: &CreateMetadataStep) -> (r: Instruction)
    requires
        s.name@.len() < 0x40000000,
        s.symbol@.len() < 0x40000000,
        s.uri@.len() < 0x40000000,
    ensures
        r == create_metadata_v3_ix(
            s.metadata.bytes@,
            s.mint.bytes@,
            s.mint_authority.bytes@,
            s.payer.bytes@,
            s.update_authority.bytes@,
            s.update_authority_is_signer,
            s.name@,
            s.symbol@,
            s.uri@,
            s.seller_fee_basis_points,
            s.creator.address.bytes@,
            s.creator.verified,
            s.creator.share,
            s.is_mutable,
        ),
{
    let pk = |a: AccountId| Pubkey::new_from_array(a.bytes);
    let creators = Some(vec![MplCreator {
        address: pk(s.creator.address), verified: s.creator.verified, share: s.creator.share,
    }]);
    let data = DataV2 {
        name: s.name.clone(), symbol: s.symbol.clone(), uri: s.uri.clone(),
        seller_fee_basis_points: s.seller_fee_basis_points, creators, collection: None, uses: None,
    };
    CreateMetadataAccountV3 {
        metadata: pk(s.metadata), mint: pk(s.mint), mint_authority: pk(s.mint_authority),
        payer: pk(s.payer), update_authority: (pk(s.update_authority), s.update_authority_is_signer),
        system_program: solana_program::system_program::ID, rent: None,
    }.instruction(CreateMetadataAccountV3InstructionArgs {
        data, is_mutable: s.is_mutable, collection_details: None,
    })
}

/// Relies on mpl_token_metadata's CreateMasterEditionV3::instruction: it
/// builds the create-master-edition instruction for these accounts and
/// maximum supply, a function of its arguments alone, with no rent
/// account.
#[verifier::external_body]
fn build_create_master_edition_v3(s: &CreateMasterEditionStep) -> (r: Instruction)
    ensures
        r == create_master_edition_v3_ix(
            s.edition.bytes@,
            s.mint.bytes@,
            s.update_authority.bytes@,
            s.mint_authority.bytes@,
            s.payer.bytes@,
            s.metadata.bytes@,
            s.token_program.bytes@,
            s.system_program.bytes@,
            s.max_supply,
        ),
{
    let pk = |a: AccountId| Pubkey::new_from_array(a.bytes);
    CreateMasterEditionV3 {
        edition: pk(s.edition), mint: pk(s.mint), update_authority: pk(s.update_authority),
        mint_authority: pk(s.mint_authority), payer: pk(s.payer), metadata: pk(s.metadata),
        token_program: pk(s.token_program), system_program: pk(s.system_program), rent: None,
    }.instruction(CreateMasterEditionV3InstructionArgs { max_supply: s.max_supply })
}

/// Relies on mpl_token_metadata's SignMetadata::instruction: it builds the
/// sign-metadata instruction for these accounts, a function of its
/// arguments alone.
#[verifier::external_body]
fn build_sign_metadata(s: &SignMetadataStep) -> (r: Instruction)
    ensures
        r == sign_metadata_ix(s.metadata.bytes@, s.creator.bytes@),
{
    let pk = |a: AccountId| Pubkey::new_from_array(a.bytes);
    SignMetadata { metadata: pk(s.metadata), creator: pk(s.creator) }.instruction()
}

/// Relies on mpl_token_metadata's SetAndVerifyCollection::instruction: it
/// builds the set-and-verify-collection instruction for these accounts, a
/// function of its arguments alone, with no collection authority record.
#[verifier::external_body]
fn build_set_and_verify_collection(s: &SetAndVerifyCollectionStep) -> (r: Instruction)
    ensures
        r == set_and_verify_collection_ix(
            s.metadata.bytes@,
            s.collection_authority.bytes@,
            s.payer.bytes@,
            s.update_authority.bytes@,
            s.collection_mint.bytes@,
            s.collection_metadata.bytes@,
            s.collection_master_edition.bytes@,
        ),
{
    let pk = |a: AccountId| Pubkey::new_from_array(a.bytes);
    SetAndVerifyCollection {
        metadata: pk(s.metadata), collection_authority: pk(s.collection_authority),
        payer: pk(s.payer), update_authority: pk(s.update_authority),
        collection_mint: pk(s.collection_mint), collection: pk(s.collection_metadata),
        collection_master_edition_account: pk(s.collection_master_edition),
        collection_authority_record: None,
    }.instruction()
}

/// Relies on mpl_token_metadata's Metadata::find_pda: the program-derived
/// metadata account address for a mint, a function of the mint key alone.
#[verifier::external_body]
fn find_metadata_pda(mint: &AccountId) -> (r: (AccountId, u8))
    ensures
        (r.0.bytes@, r.1) == metadata_pda_of(mint.bytes@),
{
    let (key, bump) = Metadata::find_pda(&Pubkey::new_from_array(mint.bytes));
    (AccountId { bytes: key.to_bytes() }, bump)
}

/// Relies on mpl_token_metadata's MasterEdition::find_pda: the
/// program-derived master-edition account address for a mint, a function
/// of the mint key alone.
#[verifier::external_body]
fn find_master_edition_pda(mint: &AccountId) -> (r: (AccountId, u8))
    ensures
        (r.0.bytes@, r.1) == master_edition_pda_of(mint.bytes@),
{
    let (key, bump) = MasterEdition::find_pda(&Pubkey::new_from_array(mint.bytes));
    (AccountId { bytes: key.to_bytes() }, bump)
}

/// Whether the fixed addresses of the account set are the ones the
/// token-metadata program expects: the item's metadata and master edition
/// derived from the item's mint, the collection's from the collection's
/// mint, and the token-metadata program account being that program
/// itself.
pub fn check_create_nft_accounts(accounts: &CreateNftInCollection) -> (r: bool)
    ensures
        r == (accounts.metadata.bytes@ == metadata_pda_of(accounts.mint.bytes@).0
            && accounts.master_edition.bytes@ == master_edition_pda_of(accounts.mint.bytes@).0
            && accounts.collection_metadata.bytes@ == metadata_pda_of(
                accounts.collection_mint.bytes@,
            ).0
            && accounts.collection_master_edition.bytes@ == master_edition_pda_of(
                accounts.collection_mint.bytes@,
            ).0
            && accounts.token_metadata_program.bytes@ == token_metadata_program_id_bytes()),
{
    let metadata_pda = find_metadata_pda(&accounts.mint);
    let master_edition_pda = find_master_edition_pda(&accounts.mint);
    let collection_metadata_pda = find_metadata_pda(&accounts.collection_mint);
    let collection_master_edition_pda = find_master_edition_pda(&accounts.collection_mint);
    let ok_metadata = accounts.metadata == metadata_pda.0;
    let ok_master_edition = accounts.master_edition == master_edition_pda.0;
    let ok_collection_metadata = accounts.collection_metadata == collection_metadata_pda.0;
    let ok_collection_master_edition =
        accounts.collection_master_edition == collection_master_edition_pda.0;
    let ok_program = accounts.token_metadata_program == TokenMetaData::id();
    ok_metadata && ok_master_edition && ok_collection_metadata && ok_collection_master_edition
        && ok_program
}

/// Build the real instructions of the four token-metadata steps of the
/// minting choreography, in plan order: create metadata, create master
/// edition, sign metadata, set and verify collection. The argument values
/// — single creator `auth` with a 100 percent share, zero seller fee,
/// mutable metadata, no further print editions — are the ones the minting
/// plan fixes. The length bounds keep the serialized metadata strings
/// within their four-byte length prefixes.
pub fn nft_instructions(
    accounts: &CreateNftInCollection,
    name: String,
    symbol: String,
    uri: String,
) -> (r: Vec<Instruction>)
    requires
        name@.len() < 0x40000000,
        symbol@.len() < 0x40000000,
        uri@.len() < 0x40000000,
    ensures
        r@.len() == 4,
        r@[0] == create_metadata_v3_ix(
            accounts.metadata.bytes@,
            accounts.mint.bytes@,
            accounts.auth.bytes@,
            accounts.payer.bytes@,
            accounts.auth.bytes@,
            true,
            name@,
            symbol@,
            uri@,
            0u16,
            accounts.auth.bytes@,
            false,
            100u8,
            true,
        ),
        r@[1] == create_master_edition_v3_ix(
            accounts.master_edition.bytes@,
            accounts.mint.bytes@,
            accounts.auth.bytes@,
            accounts.auth.bytes@,
            accounts.payer.bytes@,
            accounts.metadata.bytes@,
            accounts.token_program.bytes@,
            accounts.system_program.bytes@,
            Some(0u64),
        ),
        r@[2] == sign_metadata_ix(accounts.metadata.bytes@, accounts.auth.bytes@),
        r@[3] == set_and_verify_collection_ix(
            accounts.metadata.bytes@,
            accounts.auth.bytes@,
            accounts.payer.bytes@,
            accounts.auth.bytes@,
            accounts.collection_mint.bytes@,
            accounts.collection_metadata.bytes@,
            accounts.collection_master_edition.bytes@,
        ),
{
    let mut instructions: Vec<Instruction> = Vec::new();
    instructions.push(build_create_metadata_v3(&CreateMetadataStep {
        token_metadata_program: accounts.token_metadata_program,
        metadata: accounts.metadata,
        mint: accounts.mint,
        mint_authority: accounts.auth,
        payer: accounts.payer,
        update_authority: accounts.auth,
        update_authority_is_signer: true,
        name: name,
        symbol: symbol,
        uri: uri,
        seller_fee_basis_points: 0u16,
        creator: Creator { address: accounts.auth, verified: false, share: 100u8 },
        is_mutable: true,
    }));
    instructions.push(build_create_master_edition_v3(&CreateMasterEditionStep {
        token_metadata_program: accounts.token_metadata_program,
        edition: accounts.master_edition,
        mint: accounts.mint,
        update_authority: accounts.auth,
        mint_authority: accounts.auth,
        payer: accounts.payer,
        metadata: accounts.metadata,
        token_program: accounts.token_program,
        system_program: accounts.system_program,
        max_supply: Some(0u64),
    }));
    instructions.push(build_sign_metadata(&SignMetadataStep {
        token_metadata_program: accounts.token_metadata_program,
        metadata: accounts.metadata,
        creator: accounts.auth,
    }));
    instructions.push(build_set_and_verify_collection(&SetAndVerifyCollectionStep {
        token_metadata_program: accounts.token_metadata_program,
        metadata: accounts.metadata,
        collection_authority: accounts.auth,
        payer: accounts.payer,
        update_authority: accounts.auth,
        collection_mint: accounts.collection_mint,
        collection_metadata: accounts.collection_metadata,
        collection_master_edition: accounts.collection_master_edition,
    }));
    instructions
}

} // verus!
