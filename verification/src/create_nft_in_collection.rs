use vstd::prelude::*;
use crate::keys::AccountId;
use crate::plan::{
    auth_seed_bytes, auth_signer_seeds, CpiStep, CreateMasterEditionStep, CreateMetadataStep,
    Creator, MintToStep, SetAndVerifyCollectionStep, SignMetadataStep,
};

verus! {

/// The accounts that minting a collection item touches. Every field is the
/// address of one account of the instruction, named as the instruction
/// declares it.
#[derive(Clone, Copy, Debug, PartialEq, Eq)]
pub struct CreateNftInCollection {
    pub mint: AccountId,
    pub metadata: AccountId,
    pub master_edition: AccountId,
    pub collection_mint: AccountId,
    pub collection_metadata: AccountId,
    pub collection_master_edition: AccountId,
    pub auth: AccountId,
    pub token_account: AccountId,
    pub user: AccountId,
    pub payer: AccountId,
    pub token_program: AccountId,
    pub associated_token_program: AccountId,
    pub rent: AccountId,
    pub system_program: AccountId,
    pub token_metadata_program: AccountId,
}

/// The token-metadata program, known by its constant address.
pub struct TokenMetaData;

/// The address of the token-metadata program,
/// `metaqbxxUerdq28cj1RbAWkYQm3ybzjb6a8bt518x1s` in base58.
pub open spec fn token_metadata_program_id_bytes() -> Seq<u8> {
    seq![
        11u8, 112u8, 101u8, 177u8, 227u8, 209u8, 124u8, 69u8, 56u8, 157u8, 82u8, 127u8, 107u8,
        4u8, 195u8, 205u8, 88u8, 184u8, 108u8, 115u8, 26u8, 160u8, 253u8, 181u8, 73u8, 182u8,
        209u8, 188u8, 3u8, 248u8, 41u8, 70u8,
    ]
}

impl TokenMetaData {
    /// The constant address of the token-metadata program.
    pub fn id() -> (r: AccountId)
        ensures
            r.bytes@ == token_metadata_program_id_bytes(),
    {
        let id = AccountId {
            bytes: [
                11u8, 112u8, 101u8, 177u8, 227u8, 209u8, 124u8, 69u8, 56u8, 157u8, 82u8, 127u8,
                107u8, 4u8, 195u8, 205u8, 88u8, 184u8, 108u8, 115u8, 26u8, 160u8, 253u8, 181u8,
                73u8, 182u8, 209u8, 188u8, 3u8, 248u8, 41u8, 70u8,
            ],
        };
        proof {
            assert(id.bytes@ =~= token_metadata_program_id_bytes());
        }
        id
    }
}

/// A minting plan: the signer seeds of the program's mint authority, and
/// the cross-program invocations to perform under them, in order.
pub struct NftMintPlan {
    pub signer_seeds: Vec<Vec<u8>>,
    pub steps: Vec<CpiStep>,
}

/// Decide the five-step choreography that mints one collection item:
/// mint a single token, create its metadata, create its master edition,
/// sign the metadata as creator, then link and verify the collection.
///
/// Every step is signed by the program's mint authority `auth`, whose
/// seeds are `"auth"` plus `auth_bump`. The metadata carries the given
/// name, symbol and uri, a zero seller fee, and `auth` as its single,
/// initially unverified creator with a 100 percent share; it stays
/// mutable. The master edition allows no further print editions.
pub fn create_nft_in_collection_handler(
    accounts: &CreateNftInCollection,
    auth_bump: u8,
    uri: String,
    name: String,
    symbol: String,
) -> (r: NftMintPlan)
    ensures
        r.signer_seeds@.len() == 2,
        r.signer_seeds@[0]@ == auth_seed_bytes(),
        r.signer_seeds@[1]@ == seq![auth_bump],
        r.steps@.len() == 5,
        r.steps@[0] == (CpiStep::MintTo(
            MintToStep {
                token_program: accounts.token_program,
                mint: accounts.mint,
                to: accounts.token_account,
                authority: accounts.auth,
                amount: 1u64,
            },
        )),
        r.steps@[1] == (CpiStep::CreateMetadataV3(
            CreateMetadataStep {
                token_metadata_program: accounts.token_metadata_program,
                metadata: accounts.metadata,
                mint: accounts.mint,
                mint_authority: accounts.auth,
                payer: accounts.payer,
                update_authority: accounts.auth,
                update_authority_is_signer: true,
                name: name,
                symbol: symbol,
                uri: uri,
                seller_fee_basis_points: 0u16,
                creator: Creator { address: accounts.auth, verified: false, share: 100u8 },
                is_mutable: true,
            },
        )),
        r.steps@[2] == (CpiStep::CreateMasterEditionV3(
            CreateMasterEditionStep {
                token_metadata_program: accounts.token_metadata_program,
                edition: accounts.master_edition,
                mint: accounts.mint,
                update_authority: accounts.auth,
                mint_authority: accounts.auth,
                payer: accounts.payer,
                metadata: accounts.metadata,
                token_program: accounts.token_program,
                system_program: accounts.system_program,
                max_supply: Some(0u64),
            },
        )),
        r.steps@[3] == (CpiStep::SignMetadata(
            SignMetadataStep {
                token_metadata_program: accounts.token_metadata_program,
                metadata: accounts.metadata,
                creator: accounts.auth,
            },
        )),
        r.steps@[4] == (CpiStep::SetAndVerifyCollection(
            SetAndVerifyCollectionStep {
                token_metadata_program: accounts.token_metadata_program,
                metadata: accounts.metadata,
                collection_authority: accounts.auth,
                payer: accounts.payer,
                update_authority: accounts.auth,
                collection_mint: accounts.collection_mint,
                collection_metadata: accounts.collection_metadata,
                collection_master_edition: accounts.collection_master_edition,
            },
        )),
{
    let signer_seeds = auth_signer_seeds(auth_bump);
    let mut steps: Vec<CpiStep> = Vec::new();
    steps.push(CpiStep::MintTo(
        MintToStep {
            token_program: accounts.token_program,
            mint: accounts.mint,
            to: accounts.token_account,
            authority: accounts.auth,
            amount: 1u64,
        },
    ));
    steps.push(CpiStep::CreateMetadataV3(
        CreateMetadataStep {
            token_metadata_program: accounts.token_metadata_program,
            metadata: accounts.metadata,
            mint: accounts.mint,
            mint_authority: accounts.auth,
            payer: accounts.payer,
            update_authority: accounts.auth,
            update_authority_is_signer: true,
            name: name,
            symbol: symbol,
            uri: uri,
            seller_fee_basis_points: 0u16,
            creator: Creator { address: accounts.auth, verified: false, share: 100u8 },
            is_mutable: true,
        },
    ));
    steps.push(CpiStep::CreateMasterEditionV3(
        CreateMasterEditionStep {
            token_metadata_program: accounts.token_metadata_program,
            edition: accounts.master_edition,
            mint: accounts.mint,
            update_authority: accounts.auth,
            mint_authority: accounts.auth,
            payer: accounts.payer,
            metadata: accounts.metadata,
            token_program: accounts.token_program,
            system_program: accounts.system_program,
            max_supply: Some(0u64),
        },
    ));
    steps.push(CpiStep::SignMetadata(
        SignMetadataStep {
            token_metadata_program: accounts.token_metadata_program,
            metadata: accounts.metadata,
            creator: accounts.auth,
        },
    ));
    steps.push(CpiStep::SetAndVerifyCollection(
        SetAndVerifyCollectionStep {
            token_metadata_program: accounts.token_metadata_program,
            metadata: accounts.metadata,
            collection_authority: accounts.auth,
            payer: accounts.payer,
            update_authority: accounts.auth,
            collection_mint: accounts.collection_mint,
            collection_metadata: accounts.collection_metadata,
            collection_master_edition: accounts.collection_master_edition,
        },
    ));
    NftMintPlan { signer_seeds, steps }
}

} // verus!
