use vstd::prelude::*;
use crate::keys::AccountId;
use crate::plan::TransferStep;

verus! {

/// The accounts that a plain SPL token transfer touches, named as the
/// instruction declares them.
#[derive(Clone, Copy, Debug, PartialEq, Eq)]
pub struct TokenTransfer {
    pub sender: AccountId,
    pub receiver: AccountId,
    pub from_token_account: AccountId,
    pub to_token_account: AccountId,
    pub mint: AccountId,
    pub token_program: AccountId,
    pub associated_token_program: AccountId,
    pub system_program: AccountId,
    pub rent: AccountId,
}

/// Decide the single SPL `transfer` invocation that moves `amount` tokens
/// from the sender's token account to the receiver's, authorized by the
/// sender as an ordinary transaction signer: no program-derived signer
/// seeds are involved.
pub fn token_transfer_handler(accounts: &TokenTransfer, amount: u64) -> (r: TransferStep)
    ensures
        r == (TransferStep {
            token_program: accounts.token_program,
            from: accounts.from_token_account,
            to: accounts.to_token_account,
            authority: accounts.sender,
            amount: amount,
        }),
{
    TransferStep {
        token_program: accounts.token_program,
        from: accounts.from_token_account,
        to: accounts.to_token_account,
        authority: accounts.sender,
        amount: amount,
    }
}

} // verus!
