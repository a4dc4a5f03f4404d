use vstd::prelude::*;
use crate::keys::AccountId;
use crate::plan::{auth_seed_bytes, auth_signer_seeds, MintToStep};

verus! {

/// The accounts that the standalone minting instruction touches, named as
/// the instruction declares them.
#[derive(Clone, Copy, Debug, PartialEq, Eq)]
pub struct MintToken {
    pub token_account: AccountId,
    pub mint: AccountId,
    pub token_program: AccountId,
    pub associated_token_program: AccountId,
    pub system_program: AccountId,
    pub rent: AccountId,
    pub auth: AccountId,
    pub receipient: AccountId,
    pub payer: AccountId,
}

/// A single-invocation minting plan: the signer seeds of the program's
/// mint authority, and the one `mint_to` call to perform under them.
pub struct MintPlan {
    pub signer_seeds: Vec<Vec<u8>>,
    pub step: MintToStep,
}

/// Decide the one SPL `mint_to` invocation that mints exactly one token of
/// `mint` into the recipient's token account, signed by the program's mint
/// authority `auth` under the seeds `"auth"` plus `auth_bump`.
pub fn mint(accounts: &MintToken, auth_bump: u8) -> (r: MintPlan)
    ensures
        r.signer_seeds@.len() == 2,
        r.signer_seeds@[0]@ == auth_seed_bytes(),
        r.signer_seeds@[1]@ == seq![auth_bump],
        r.step == (MintToStep {
            token_program: accounts.token_program,
            mint: accounts.mint,
            to: accounts.token_account,
            authority: accounts.auth,
            amount: 1u64,
        }),
{
    MintPlan {
        signer_seeds: auth_signer_seeds(auth_bump),
        step: MintToStep {
            token_program: accounts.token_program,
            mint: accounts.mint,
            to: accounts.token_account,
            authority: accounts.auth,
            amount: 1u64,
        },
    }
}

} // verus!
