use vstd::prelude::*;

use crate::errors::IdoError;
use crate::state::IdoCampaign;

verus! {

/// What closing a failed sale returns: an error while the sale is still
/// open, already closed, or actually reached its soft cap; otherwise
/// nothing - the operation only flips the closed flag.
pub open spec fn close_if_soft_cap_not_reached_outcome(c: IdoCampaign, now: u64) -> Result<
    (),
    IdoError,
> {
    if c.sale_closed {
        Err(IdoError::ErrSaleAlreadyClosed)
    } else if now < c.end_sale_time {
        Err(IdoError::ErrInvalidEndSaleTime)
    } else if c.total_sold >= c.soft_cap {
        Err(IdoError::ErrSoftCapReached)
    } else {
        Ok(())
    }
}

/// The campaign record closing a failed sale leaves behind: on success only
/// `sale_closed` is set - no funds move, and the refund path opens; on an
/// error nothing changes.
pub open spec fn close_if_soft_cap_not_reached_post(c: IdoCampaign, now: u64) -> IdoCampaign {
    if close_if_soft_cap_not_reached_outcome(c, now) is Ok {
        IdoCampaign { sale_closed: true, ..c }
    } else {
        c
    }
}

/// Closes a sale that ended below its soft cap. Anyone may call this, not
/// only the owner: it moves no funds, it only sets `sale_closed`, which
/// blocks further joins and opens the refund path. On an error the record is
/// left untouched.
pub fn close_campaign_if_soft_cap_not_reached(ido_campaign: &mut IdoCampaign, now: u64) -> (r:
    Result<(), IdoError>)
    ensures
        r == close_if_soft_cap_not_reached_outcome(*old(ido_campaign), now),
        *final(ido_campaign) == close_if_soft_cap_not_reached_post(*old(ido_campaign), now),
        r is Err ==> *final(ido_campaign) == *old(ido_campaign),
        r is Ok ==> final(ido_campaign).sale_closed && final(ido_campaign).funds_withdrawn == old(
            ido_campaign,
        ).funds_withdrawn,
{
    if ido_campaign.sale_closed {
        return Err(IdoError::ErrSaleAlreadyClosed);
    }
    if now < ido_campaign.end_sale_time {
        return Err(IdoError::ErrInvalidEndSaleTime);
    }
    if ido_campaign.total_sold >= ido_campaign.soft_cap {
        return Err(IdoError::ErrSoftCapReached);
    }

    ido_campaign.sale_closed = true;

    Ok(())
}

} // verus!
