use vstd::prelude::*;

use crate::errors::IdoError;
use crate::state::{AccountId, IdoCampaign};

verus! {

/// Which error, if any, the deposit's account check reports: the presented
/// mint, the owner's token account and the token treasury must all carry the
/// campaign's token mint.
pub open spec fn check_token_accounts_outcome(
    c: IdoCampaign,
    owner_token_account_mint: AccountId,
    token_mint_account_key: AccountId,
    tokens_treasury_mint: AccountId,
) -> Result<(), IdoError> {
    if token_mint_account_key != c.token_mint {
        Err(IdoError::ErrInvalidMintAccount)
    } else if c.token_mint != owner_token_account_mint {
        Err(IdoError::ErrInvalidOwnerTokenAccount)
    } else if tokens_treasury_mint != token_mint_account_key {
        Err(IdoError::ErrInvalidTokensTreasuryMint)
    } else {
        Ok(())
    }
}

/// What the supply deposit returns: an account-check error, an error when
/// the owner's token account holds less than the hard cap, or the hard cap
/// itself - the amount the runtime must move into the token treasury.
pub open spec fn deposit_outcome(
    c: IdoCampaign,
    owner_token_account_mint: AccountId,
    owner_token_account_amount: u64,
    token_mint_account_key: AccountId,
    tokens_treasury_mint: AccountId,
) -> Result<u64, IdoError> {
    if check_token_accounts_outcome(
        c,
        owner_token_account_mint,
        token_mint_account_key,
        tokens_treasury_mint,
    ) is Err {
        Err(
            check_token_accounts_outcome(
                c,
                owner_token_account_mint,
                token_mint_account_key,
                tokens_treasury_mint,
            )->Err_0,
        )
    } else if owner_token_account_amount < c.hard_cap {
        Err(IdoError::ErrInvalidBalanceOfTokensToDeposit)
    } else {
        Ok(c.hard_cap)
    }
}

/// The campaign record the deposit leaves behind: on success the
/// supply-deposited flag is set, which opens the sale for joins; on an error
/// nothing changes.
pub open spec fn deposit_post(
    c: IdoCampaign,
    owner_token_account_mint: AccountId,
    owner_token_account_amount: u64,
    token_mint_account_key: AccountId,
    tokens_treasury_mint: AccountId,
) -> IdoCampaign {
    if deposit_outcome(
        c,
        owner_token_account_mint,
        owner_token_account_amount,
        token_mint_account_key,
        tokens_treasury_mint,
    ) is Ok {
        IdoCampaign { token_supply_deposited: true, ..c }
    } else {
        c
    }
}

/// Validates the accounts the supply deposit moves between, without changing
/// anything.
pub fn check_token_accounts(
    owner_token_account_mint: AccountId,
    ido_campaign: &IdoCampaign,
    token_mint_account_key: AccountId,
    tokens_treasury_mint: AccountId,
) -> (r: Result<(), IdoError>)
    ensures
        r == check_token_accounts_outcome(
            *ido_campaign,
            owner_token_account_mint,
            token_mint_account_key,
            tokens_treasury_mint,
        ),
{
    if token_mint_account_key != ido_campaign.token_mint {
        return Err(IdoError::ErrInvalidMintAccount);
    }
    if ido_campaign.token_mint != owner_token_account_mint {
        return Err(IdoError::ErrInvalidOwnerTokenAccount);
    }
    if tokens_treasury_mint != token_mint_account_key {
        return Err(IdoError::ErrInvalidTokensTreasuryMint);
    }
    Ok(())
}

/// Deposits the full sellable supply into the token treasury: checks the
/// accounts and that the owner holds at least the hard cap, sets the
/// supply-deposited flag, and returns the hard cap - the amount the runtime
/// must move from the owner's token account into the token treasury. On an
/// error the record is left untouched.
pub fn deposit_tokens_to_sale(
    ido_campaign: &mut IdoCampaign,
    owner_token_account_mint: AccountId,
    owner_token_account_amount: u64,
    token_mint_account_key: AccountId,
    tokens_treasury_mint: AccountId,
) -> (r: Result<u64, IdoError>)
    ensures
        r == deposit_outcome(
            *old(ido_campaign),
            owner_token_account_mint,
            owner_token_account_amount,
            token_mint_account_key,
            tokens_treasury_mint,
        ),
        *final(ido_campaign) == deposit_post(
            *old(ido_campaign),
            owner_token_account_mint,
            owner_token_account_amount,
            token_mint_account_key,
            tokens_treasury_mint,
        ),
        r is Err ==> *final(ido_campaign) == *old(ido_campaign),
        r is Ok ==> final(ido_campaign).token_supply_deposited && r->Ok_0 == old(
            ido_campaign,
        ).hard_cap,
{
    if let Err(e) = check_token_accounts(
        owner_token_account_mint,
        ido_campaign,
        token_mint_account_key,
        tokens_treasury_mint,
    ) {
        return Err(e);
    }

    if owner_token_account_amount < ido_campaign.hard_cap {
        return Err(IdoError::ErrInvalidBalanceOfTokensToDeposit);
    }

    ido_campaign.token_supply_deposited = true;

    Ok(ido_campaign.hard_cap)
}

} // verus!
