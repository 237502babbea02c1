use vstd::prelude::*;

use crate::errors::IdoError;
use crate::state::{AccountId, IdoCampaign, User};

verus! {

/// What a refund returns: the first error of its guard chain, or the number
/// of lamports - exactly what the participant paid in - that the runtime
/// must move from the currency treasury back to the participant. Refunds are
/// open once the sale is closed, to the record's own participant, as long as
/// the record still holds an entitlement and the currency treasury still
/// holds the funds.
pub open spec fn refund_outcome(
    c: IdoCampaign,
    u: User,
    participant: AccountId,
    ido_campaign_key: AccountId,
    sol_treasury_lamports: u64,
) -> Result<u64, IdoError> {
    if !c.sale_closed {
        Err(IdoError::ErrSaleNotClosed)
    } else if u.amount == 0 {
        Err(IdoError::ErrNothingToRefund)
    } else if u.joined_at == 0 {
        Err(IdoError::ErrUserNotJoined)
    } else if u.participant != participant {
        Err(IdoError::ErrUnauthorized)
    } else if u.ido_campaign != ido_campaign_key {
        Err(IdoError::ErrInvalidIdoCampaign)
    } else if sol_treasury_lamports < u.paid_lamports {
        Err(IdoError::ErrNotEnoughFundsInSolTreasury)
    } else {
        Ok(u.paid_lamports)
    }
}

/// The participation record a refund leaves behind: on success both the
/// entitlement and the paid amount are zeroed, which ends the record's
/// claiming and refunding life while keeping it as an audit record; on an
/// error nothing changes.
pub open spec fn refund_user_post(
    c: IdoCampaign,
    u: User,
    participant: AccountId,
    ido_campaign_key: AccountId,
    sol_treasury_lamports: u64,
) -> User {
    if refund_outcome(c, u, participant, ido_campaign_key, sol_treasury_lamports) is Ok {
        User { amount: 0, paid_lamports: 0, ..u }
    } else {
        u
    }
}

/// Refunds a participant of a closed sale: zeroes the record's entitlement
/// and paid amount and returns the lamports - exactly what this participant
/// paid in - that the runtime must move from the currency treasury back to
/// the participant. The campaign record is not changed by a refund. On an
/// error the participation record is left untouched.
pub fn refund(
    ido_campaign: &IdoCampaign,
    user: &mut User,
    participant: AccountId,
    ido_campaign_key: AccountId,
    sol_treasury_lamports: u64,
) -> (r: Result<u64, IdoError>)
    ensures
        r == refund_outcome(
            *ido_campaign,
            *old(user),
            participant,
            ido_campaign_key,
            sol_treasury_lamports,
        ),
        *final(user) == refund_user_post(
            *ido_campaign,
            *old(user),
            participant,
            ido_campaign_key,
            sol_treasury_lamports,
        ),
        r is Err ==> *final(user) == *old(user),
        r is Ok ==> r->Ok_0 == old(user).paid_lamports && r->Ok_0 <= sol_treasury_lamports,
{
    if !ido_campaign.sale_closed {
        return Err(IdoError::ErrSaleNotClosed);
    }
    if user.amount == 0 {
        return Err(IdoError::ErrNothingToRefund);
    }
    if user.joined_at == 0 {
        return Err(IdoError::ErrUserNotJoined);
    }
    if user.participant != participant {
        return Err(IdoError::ErrUnauthorized);
    }
    if user.ido_campaign != ido_campaign_key {
        return Err(IdoError::ErrInvalidIdoCampaign);
    }

    let amount_to_refund_lamports: u64 = user.paid_lamports;

    if sol_treasury_lamports < amount_to_refund_lamports {
        return Err(IdoError::ErrNotEnoughFundsInSolTreasury);
    }

    user.amount = 0;
    user.paid_lamports = 0;

    Ok(amount_to_refund_lamports)
}

} // verus!
