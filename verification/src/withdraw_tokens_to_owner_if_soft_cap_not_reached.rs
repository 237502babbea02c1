use vstd::prelude::*;

use crate::errors::IdoError;
use crate::state::{AccountId, IdoCampaign};

verus! {

/// What the owner's token recovery after a failed sale returns: an error
/// unless the caller owns the campaign, the sale is closed, and the soft cap
/// was missed; otherwise the token treasury's whole balance, which the
/// runtime must move back to the owner.
pub open spec fn withdraw_tokens_if_soft_cap_not_reached_outcome(
    c: IdoCampaign,
    owner: AccountId,
    tokens_treasury_amount: u64,
) -> Result<u64, IdoError> {
    if c.authority != owner {
        Err(IdoError::ErrUnauthorized)
    } else if !c.sale_closed {
        Err(IdoError::ErrSaleNotClosed)
    } else if c.total_sold >= c.soft_cap {
        Err(IdoError::ErrSoftCapReached)
    } else {
        Ok(tokens_treasury_amount)
    }
}

/// Returns the deposited token supply to the owner of a sale that closed
/// below its soft cap: the mirror of the owner withdrawal for the failure
/// path. It returns the token treasury's whole balance for the runtime to
/// move back to the owner, and changes no record: the currency treasury is
/// left alone so participants can still be refunded, and an emptied token
/// treasury makes a repeat a transfer of nothing.
pub fn withdraw_tokens_to_owner_if_soft_cap_not_reached(
    ido_campaign: &IdoCampaign,
    owner: AccountId,
    tokens_treasury_amount: u64,
) -> (r: Result<u64, IdoError>)
    ensures
        r == withdraw_tokens_if_soft_cap_not_reached_outcome(
            *ido_campaign,
            owner,
            tokens_treasury_amount,
        ),
{
    if ido_campaign.authority != owner {
        return Err(IdoError::ErrUnauthorized);
    }
    if !ido_campaign.sale_closed {
        return Err(IdoError::ErrSaleNotClosed);
    }
    if ido_campaign.total_sold >= ido_campaign.soft_cap {
        return Err(IdoError::ErrSoftCapReached);
    }
    Ok(tokens_treasury_amount)
}

} // verus!
