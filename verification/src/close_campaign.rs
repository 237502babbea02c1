use vstd::prelude::*;

use crate::errors::IdoError;
use crate::state::{AccountId, IdoCampaign};

verus! {

/// What an owner cancel returns: the first error of its guard chain, or the
/// token treasury's whole balance, which the runtime must return to the
/// owner. Cancelling is only open to the owner, before the sale window ends,
/// before any terminal payout, and before anyone has claimed; the currency
/// treasury is left untouched so that refunds stay possible.
pub open spec fn close_campaign_outcome(
    c: IdoCampaign,
    owner: AccountId,
    tokens_treasury_amount: u64,
    now: u64,
) -> Result<u64, IdoError> {
    if c.authority != owner {
        Err(IdoError::ErrUnauthorized)
    } else if c.sale_closed {
        Err(IdoError::ErrSaleAlreadyClosed)
    } else if now >= c.end_sale_time {
        Err(IdoError::ErrSaleEnded)
    } else if c.funds_withdrawn {
        Err(IdoError::ErrFundsAlreadyWithdrawn)
    } else if c.total_claimed != 0 {
        Err(IdoError::ErrTotalClaimedNotZero)
    } else if !c.token_supply_deposited {
        Err(IdoError::ErrTokenSupplyNotDeposited)
    } else {
        Ok(tokens_treasury_amount)
    }
}

/// The campaign record an owner cancel leaves behind: on success both
/// terminal flags are set - the campaign is closed and no withdrawal can
/// follow; on an error nothing changes.
pub open spec fn close_campaign_post(
    c: IdoCampaign,
    owner: AccountId,
    tokens_treasury_amount: u64,
    now: u64,
) -> IdoCampaign {
    if close_campaign_outcome(c, owner, tokens_treasury_amount, now) is Ok {
        IdoCampaign { sale_closed: true, funds_withdrawn: true, ..c }
    } else {
        c
    }
}

/// Cancels the campaign: checks that the caller owns it and that nothing has
/// been claimed or paid out, sets both terminal flags, and returns the token
/// treasury's whole balance, which the runtime must move back to the owner.
/// The currency treasury is left alone so participants can still be
/// refunded. On an error the record is left untouched.
pub fn close_campaign(
    ido_campaign: &mut IdoCampaign,
    owner: AccountId,
    tokens_treasury_amount: u64,
    now: u64,
) -> (r: Result<u64, IdoError>)
    ensures
        r == close_campaign_outcome(*old(ido_campaign), owner, tokens_treasury_amount, now),
        *final(ido_campaign) == close_campaign_post(
            *old(ido_campaign),
            owner,
            tokens_treasury_amount,
            now,
        ),
        r is Err ==> *final(ido_campaign) == *old(ido_campaign),
        r is Ok ==> final(ido_campaign).sale_closed && final(ido_campaign).funds_withdrawn,
{
    if ido_campaign.authority != owner {
        return Err(IdoError::ErrUnauthorized);
    }
    if ido_campaign.sale_closed {
        return Err(IdoError::ErrSaleAlreadyClosed);
    }
    if now >= ido_campaign.end_sale_time {
        return Err(IdoError::ErrSaleEnded);
    }
    if ido_campaign.funds_withdrawn {
        return Err(IdoError::ErrFundsAlreadyWithdrawn);
    }
    if ido_campaign.total_claimed != 0 {
        return Err(IdoError::ErrTotalClaimedNotZero);
    }
    if !ido_campaign.token_supply_deposited {
        return Err(IdoError::ErrTokenSupplyNotDeposited);
    }

    ido_campaign.sale_closed = true;
    ido_campaign.funds_withdrawn = true;

    Ok(tokens_treasury_amount)
}

} // verus!
