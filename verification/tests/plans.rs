use anchor_misc::create_nft_in_collection::{
    create_nft_in_collection_handler, CreateNftInCollection, TokenMetaData,
};
use anchor_misc::keys::AccountId;
use anchor_misc::mint::{mint, MintToken};
use anchor_misc::plan::{
    auth_signer_seeds, CpiStep, CreateMasterEditionStep, CreateMetadataStep, Creator, MintToStep,
    SetAndVerifyCollectionStep, SignMetadataStep, TransferStep,
};
use anchor_misc::token_transfer::{token_transfer_handler, TokenTransfer};

fn key(n: u8) -> AccountId {
    AccountId { bytes: [n; 32] }
}

fn nft_accounts() -> CreateNftInCollection {
    CreateNftInCollection {
        mint: key(1),
        metadata: key(2),
        master_edition: key(3),
        collection_mint: key(4),
        collection_metadata: key(5),
        collection_master_edition: key(6),
        auth: key(7),
        token_account: key(8),
        user: key(9),
        payer: key(10),
        token_program: key(11),
        associated_token_program: key(12),
        rent: key(13),
        system_program: key(14),
        token_metadata_program: key(15),
    }
}

#[test]
fn auth_signer_seeds_are_auth_and_bump() {
    let seeds = auth_signer_seeds(254);
    assert_eq!(seeds.len(), 2);
    assert_eq!(seeds[0], b"auth".to_vec());
    assert_eq!(seeds[1], vec![254u8]);
}

#[test]
fn nft_plan_has_five_steps_in_order() {
    let accounts = nft_accounts();
    let plan = create_nft_in_collection_handler(
        &accounts,
        251,
        String::from("https://example.com/1.json"),
        String::from("One"),
        String::from("ONE"),
    );
    assert_eq!(plan.signer_seeds.len(), 2);
    assert_eq!(plan.signer_seeds[0], b"auth".to_vec());
    assert_eq!(plan.signer_seeds[1], vec![251u8]);
    assert_eq!(plan.steps.len(), 5);
    assert!(matches!(plan.steps[0], CpiStep::MintTo(_)));
    assert!(matches!(plan.steps[1], CpiStep::CreateMetadataV3(_)));
    assert!(matches!(plan.steps[2], CpiStep::CreateMasterEditionV3(_)));
    assert!(matches!(plan.steps[3], CpiStep::SignMetadata(_)));
    assert!(matches!(plan.steps[4], CpiStep::SetAndVerifyCollection(_)));
}

#[test]
fn nft_plan_mints_exactly_one_token() {
    let accounts = nft_accounts();
    let plan = create_nft_in_collection_handler(
        &accounts,
        251,
        String::from("https://example.com/1.json"),
        String::from("One"),
        String::from("ONE"),
    );
    assert_eq!(
        plan.steps[0],
        CpiStep::MintTo(MintToStep {
            token_program: key(11),
            mint: key(1),
            to: key(8),
            authority: key(7),
            amount: 1,
        })
    );
}

#[test]
fn nft_plan_metadata_values() {
    let accounts = nft_accounts();
    let plan = create_nft_in_collection_handler(
        &accounts,
        251,
        String::from("https://example.com/1.json"),
        String::from("One"),
        String::from("ONE"),
    );
    assert_eq!(
        plan.steps[1],
        CpiStep::CreateMetadataV3(CreateMetadataStep {
            token_metadata_program: key(15),
            metadata: key(2),
            mint: key(1),
            mint_authority: key(7),
            payer: key(10),
            update_authority: key(7),
            update_authority_is_signer: true,
            name: String::from("One"),
            symbol: String::from("ONE"),
            uri: String::from("https://example.com/1.json"),
            seller_fee_basis_points: 0,
            creator: Creator { address: key(7), verified: false, share: 100 },
            is_mutable: true,
        })
    );
}

#[test]
fn nft_plan_master_edition_caps_supply() {
    let accounts = nft_accounts();
    let plan = create_nft_in_collection_handler(
        &accounts,
        251,
        String::from("https://example.com/1.json"),
        String::from("One"),
        String::from("ONE"),
    );
    assert_eq!(
        plan.steps[2],
        CpiStep::CreateMasterEditionV3(CreateMasterEditionStep {
            token_metadata_program: key(15),
            edition: key(3),
            mint: key(1),
            update_authority: key(7),
            mint_authority: key(7),
            payer: key(10),
            metadata: key(2),
            token_program: key(11),
            system_program: key(14),
            max_supply: Some(0),
        })
    );
}

#[test]
fn nft_plan_signs_and_verifies_collection() {
    let accounts = nft_accounts();
    let plan = create_nft_in_collection_handler(
        &accounts,
        251,
        String::from("https://example.com/1.json"),
        String::from("One"),
        String::from("ONE"),
    );
    assert_eq!(
        plan.steps[3],
        CpiStep::SignMetadata(SignMetadataStep {
            token_metadata_program: key(15),
            metadata: key(2),
            creator: key(7),
        })
    );
    assert_eq!(
        plan.steps[4],
        CpiStep::SetAndVerifyCollection(SetAndVerifyCollectionStep {
            token_metadata_program: key(15),
            metadata: key(2),
            collection_authority: key(7),
            payer: key(10),
            update_authority: key(7),
            collection_mint: key(4),
            collection_metadata: key(5),
            collection_master_edition: key(6),
        })
    );
}

#[test]
fn token_transfer_moves_amount_between_accounts() {
    let accounts = TokenTransfer {
        sender: key(21),
        receiver: key(22),
        from_token_account: key(23),
        to_token_account: key(24),
        mint: key(25),
        token_program: key(26),
        associated_token_program: key(27),
        system_program: key(28),
        rent: key(29),
    };
    let step = token_transfer_handler(&accounts, 1_000_000);
    assert_eq!(
        step,
        TransferStep {
            token_program: key(26),
            from: key(23),
            to: key(24),
            authority: key(21),
            amount: 1_000_000,
        }
    );
}

#[test]
fn mint_plan_mints_one_with_auth_seeds() {
    let accounts = MintToken {
        token_account: key(31),
        mint: key(32),
        token_program: key(33),
        associated_token_program: key(34),
        system_program: key(35),
        rent: key(36),
        auth: key(37),
        receipient: key(38),
        payer: key(39),
    };
    let plan = mint(&accounts, 255);
    assert_eq!(plan.signer_seeds.len(), 2);
    assert_eq!(plan.signer_seeds[0], b"auth".to_vec());
    assert_eq!(plan.signer_seeds[1], vec![255u8]);
    assert_eq!(
        plan.step,
        MintToStep {
            token_program: key(33),
            mint: key(32),
            to: key(31),
            authority: key(37),
            amount: 1,
        }
    );
}

#[test]
fn token_metadata_id_matches_crate() {
    assert_eq!(TokenMetaData::id().bytes, mpl_token_metadata::ID.to_bytes());
}
