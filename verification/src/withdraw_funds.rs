use vstd::prelude::*;

use crate::close_campaign::{close_campaign_outcome, close_campaign_post};
use crate::errors::IdoError;
use crate::state::{AccountId, IdoCampaign};

verus! {

/// The transfers a successful owner withdrawal instructs: the currency
/// treasury's balance split between the campaign owner and the launchpad
/// owner, and the unsold tokens going back to the campaign owner.
#[derive(Clone, Copy, Debug, PartialEq, Eq, Structural)]
pub struct WithdrawSettlement {
    /// Lamports out of the currency treasury to the campaign owner.
    pub amount_to_owner: u64,
    /// Lamports out of the currency treasury to the launchpad owner: the
    /// fixed five-percent platform fee.
    pub amount_to_launchpad_owner: u64,
    /// Token units out of the token treasury back to the campaign owner:
    /// the part of the deposited supply that was never sold.
    pub unsold_tokens: u64,
}

/// The launchpad owner's share of a currency-treasury balance: five percent,
/// rounded down in the treasury owner's favour.
pub open spec fn launchpad_fee(amount: u64) -> int {
    amount / 100 * 5
}

/// The campaign owner's share of a currency-treasury balance: everything the
/// launchpad fee leaves.
pub open spec fn owner_share(amount: u64) -> int {
    amount - launchpad_fee(amount)
}

/// The token units still unsold under the hard cap; zero if the records were
/// somehow oversold rather than a negative amount.
pub open spec fn unsold_tokens_of(c: IdoCampaign) -> int {
    if c.hard_cap >= c.total_sold {
        c.hard_cap - c.total_sold
    } else {
        0
    }
}

/// Which error, if any, blocks the owner withdrawal at time `now`: nothing
/// may have been paid out yet, only the owner may withdraw, the sale window
/// must be over, the supply must have been deposited, and the sale must have
/// reached its soft cap.
pub open spec fn check_ido_campaign_outcome(c: IdoCampaign, owner: AccountId, now: u64) -> Result<
    (),
    IdoError,
> {
    if c.funds_withdrawn {
        Err(IdoError::ErrFundsAlreadyWithdrawn)
    } else if c.authority != owner {
        Err(IdoError::ErrUnauthorized)
    } else if now < c.end_sale_time {
        Err(IdoError::ErrInvalidEndSaleTime)
    } else if !c.token_supply_deposited {
        Err(IdoError::ErrTokenSupplyNotDeposited)
    } else if c.total_sold < c.soft_cap {
        Err(IdoError::ErrSoftCapNotReached)
    } else {
        Ok(())
    }
}

/// Which error, if any, the withdrawal's account check reports: the mint the
/// caller presents and the owner's token account must both carry the
/// campaign's token mint.
pub open spec fn check_withdraw_token_accounts_outcome(
    ido_campaign_token_mint: AccountId,
    token_mint_key: AccountId,
    owner_token_account_mint: AccountId,
) -> Result<(), IdoError> {
    if ido_campaign_token_mint != token_mint_key {
        Err(IdoError::ErrInvalidTokenMint)
    } else if owner_token_account_mint != ido_campaign_token_mint {
        Err(IdoError::ErrInvalidOwnerTokenAccount)
    } else {
        Ok(())
    }
}

/// What the unsold-token return reports: an error when tokens remain unsold
/// but the token treasury no longer covers them, otherwise the unsold amount
/// to move back to the owner.
pub open spec fn withdraw_unsold_tokens_outcome(c: IdoCampaign, tokens_treasury_amount: u64) -> Result<
    u64,
    IdoError,
> {
    let unsold: int = unsold_tokens_of(c);
    if unsold > 0 && tokens_treasury_amount < unsold {
        Err(IdoError::ErrInsufficientFundsInTreasury)
    } else {
        Ok(unsold as u64)
    }
}

/// What the owner withdrawal returns: the first error of its guard chain, or
/// the settlement the runtime must execute - the fee split of the whole
/// currency treasury and the return of the unsold tokens.
pub open spec fn withdraw_funds_outcome(
    c: IdoCampaign,
    owner: AccountId,
    token_mint: AccountId,
    owner_token_account_mint: AccountId,
    sol_treasury_lamports: u64,
    tokens_treasury_amount: u64,
    now: u64,
) -> Result<WithdrawSettlement, IdoError> {
    if check_ido_campaign_outcome(c, owner, now) is Err {
        Err(check_ido_campaign_outcome(c, owner, now)->Err_0)
    } else if check_withdraw_token_accounts_outcome(
        c.token_mint,
        token_mint,
        owner_token_account_mint,
    ) is Err {
        Err(check_withdraw_token_accounts_outcome(c.token_mint, token_mint, owner_token_account_mint)->Err_0)
    } else if withdraw_unsold_tokens_outcome(c, tokens_treasury_amount) is Err {
        Err(withdraw_unsold_tokens_outcome(c, tokens_treasury_amount)->Err_0)
    } else {
        Ok(
            WithdrawSettlement {
                amount_to_owner: owner_share(sol_treasury_lamports) as u64,
                amount_to_launchpad_owner: launchpad_fee(sol_treasury_lamports) as u64,
                unsold_tokens: withdraw_unsold_tokens_outcome(c, tokens_treasury_amount)->Ok_0,
            },
        )
    }
}

/// The campaign record the owner withdrawal leaves behind: on success only
/// `funds_withdrawn` is set, and only after every transfer of the settlement
/// is known to be executable; on an error nothing changes.
pub open spec fn withdraw_funds_post(
    c: IdoCampaign,
    owner: AccountId,
    token_mint: AccountId,
    owner_token_account_mint: AccountId,
    sol_treasury_lamports: u64,
    tokens_treasury_amount: u64,
    now: u64,
) -> IdoCampaign {
    if withdraw_funds_outcome(
        c,
        owner,
        token_mint,
        owner_token_account_mint,
        sol_treasury_lamports,
        tokens_treasury_amount,
        now,
    ) is Ok {
        IdoCampaign { funds_withdrawn: true, ..c }
    } else {
        c
    }
}

/// Validates the owner withdrawal against the campaign's flags, schedule and
/// soft cap, without changing anything.
pub fn check_ido_campaign(ido_campaign: &IdoCampaign, owner: AccountId, now: u64) -> (r: Result<
    (),
    IdoError,
>)
    ensures
        r == check_ido_campaign_outcome(*ido_campaign, owner, now),
{
    if ido_campaign.funds_withdrawn {
        return Err(IdoError::ErrFundsAlreadyWithdrawn);
    }
    if ido_campaign.authority != owner {
        return Err(IdoError::ErrUnauthorized);
    }
    if now < ido_campaign.end_sale_time {
        return Err(IdoError::ErrInvalidEndSaleTime);
    }
    if !ido_campaign.token_supply_deposited {
        return Err(IdoError::ErrTokenSupplyNotDeposited);
    }
    if ido_campaign.total_sold < ido_campaign.soft_cap {
        return Err(IdoError::ErrSoftCapNotReached);
    }
    Ok(())
}

/// Validates the mints of the accounts the withdrawal pays into, without
/// changing anything.
pub fn check_withdraw_token_accounts(
    ido_campaign_token_mint: AccountId,
    token_mint_key: AccountId,
    owner_token_account_mint: AccountId,
) -> (r: Result<(), IdoError>)
    ensures
        r == check_withdraw_token_accounts_outcome(
            ido_campaign_token_mint,
            token_mint_key,
            owner_token_account_mint,
        ),
{
    if ido_campaign_token_mint != token_mint_key {
        return Err(IdoError::ErrInvalidTokenMint);
    }
    if owner_token_account_mint != ido_campaign_token_mint {
        return Err(IdoError::ErrInvalidOwnerTokenAccount);
    }
    Ok(())
}

/// Splits the currency treasury's balance for the payout: five percent
/// (rounded down) to the launchpad owner, the rest to the campaign owner.
/// Returns `(to the campaign owner, to the launchpad owner)`; the two always
/// add up to the whole balance, so the payout drains the treasury exactly.
pub fn withdraw_all_sol_to_owners(sol_treasury_lamports: u64) -> (r: (u64, u64))
    ensures
        r.0 == owner_share(sol_treasury_lamports),
        r.1 == launchpad_fee(sol_treasury_lamports),
        r.0 + r.1 == sol_treasury_lamports,
{
    if sol_treasury_lamports == 0 {
        return (0, 0);
    }

    let amount_to_launchpad_owner: u64 = sol_treasury_lamports / 100 * 5;
    let amount_to_owner: u64 = sol_treasury_lamports - amount_to_launchpad_owner;

    (amount_to_owner, amount_to_launchpad_owner)
}

/// Computes the unsold tokens to hand back to the owner, checking that the
/// token treasury still covers them; nothing is changed.
pub fn withdraw_unsold_tokens_to_owner(ido_campaign: &IdoCampaign, tokens_treasury_amount: u64) -> (r:
    Result<u64, IdoError>)
    ensures
        r == withdraw_unsold_tokens_outcome(*ido_campaign, tokens_treasury_amount),
{
    let unsold_tokens: u64 = match ido_campaign.hard_cap.checked_sub(ido_campaign.total_sold) {
        Some(v) => v,
        None => 0,
    };
    if unsold_tokens == 0 {
        return Ok(0);
    }
    if tokens_treasury_amount < unsold_tokens {
        return Err(IdoError::ErrInsufficientFundsInTreasury);
    }
    Ok(unsold_tokens)
}

/// Pays the campaign owner out of a successful sale: checks the guard chain,
/// sets `funds_withdrawn`, and returns the settlement the runtime must
/// execute - the currency treasury's whole balance split five percent to the
/// launchpad owner and the rest to the campaign owner, and the unsold tokens
/// back to the campaign owner. The flag is set only once every transfer of
/// the settlement is known to be executable; on an error the record is left
/// untouched.
pub fn withdraw_funds(
    ido_campaign: &mut IdoCampaign,
    owner: AccountId,
    token_mint: AccountId,
    owner_token_account_mint: AccountId,
    sol_treasury_lamports: u64,
    tokens_treasury_amount: u64,
    now: u64,
) -> (r: Result<WithdrawSettlement, IdoError>)
    ensures
        r == withdraw_funds_outcome(
            *old(ido_campaign),
            owner,
            token_mint,
            owner_token_account_mint,
            sol_treasury_lamports,
            tokens_treasury_amount,
            now,
        ),
        *final(ido_campaign) == withdraw_funds_post(
            *old(ido_campaign),
            owner,
            token_mint,
            owner_token_account_mint,
            sol_treasury_lamports,
            tokens_treasury_amount,
            now,
        ),
        r is Err ==> *final(ido_campaign) == *old(ido_campaign),
        r is Ok ==> final(ido_campaign).funds_withdrawn,
        r is Ok ==> r->Ok_0.amount_to_owner + r->Ok_0.amount_to_launchpad_owner
            == sol_treasury_lamports,
        r is Ok ==> r->Ok_0.unsold_tokens <= tokens_treasury_amount,
{
    if let Err(e) = check_ido_campaign(ido_campaign, owner, now) {
        return Err(e);
    }
    if let Err(e) = check_withdraw_token_accounts(
        ido_campaign.token_mint,
        token_mint,
        owner_token_account_mint,
    ) {
        return Err(e);
    }

    let (amount_to_owner, amount_to_launchpad_owner): (u64, u64) = withdraw_all_sol_to_owners(
        sol_treasury_lamports,
    );

    let unsold_tokens: u64 = match withdraw_unsold_tokens_to_owner(
        ido_campaign,
        tokens_treasury_amount,
    ) {
        Ok(v) => v,
        Err(e) => {
            return Err(e);
        },
    };

    ido_campaign.funds_withdrawn = true;

    Ok(
        WithdrawSettlement {
            amount_to_owner: amount_to_owner,
            amount_to_launchpad_owner: amount_to_launchpad_owner,
            unsold_tokens: unsold_tokens,
        },
    )
}

/// Mutual-exclusion law, terminal side: once `funds_withdrawn` is set,
/// neither a further owner withdrawal nor an owner cancel succeeds, and
/// neither changes the campaign record.
pub proof fn lemma_withdrawn_is_terminal(
    c: IdoCampaign,
    owner: AccountId,
    token_mint: AccountId,
    owner_token_account_mint: AccountId,
    sol_treasury_lamports: u64,
    tokens_treasury_amount: u64,
    now: u64,
)
    requires
        c.funds_withdrawn,
    ensures
        withdraw_funds_outcome(
            c,
            owner,
            token_mint,
            owner_token_account_mint,
            sol_treasury_lamports,
            tokens_treasury_amount,
            now,
        ) is Err,
        withdraw_funds_post(
            c,
            owner,
            token_mint,
            owner_token_account_mint,
            sol_treasury_lamports,
            tokens_treasury_amount,
            now,
        ) == c,
        close_campaign_outcome(c, owner, tokens_treasury_amount, now) is Err,
        close_campaign_post(c, owner, tokens_treasury_amount, now) == c,
{
}

} // verus!
