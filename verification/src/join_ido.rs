use vstd::prelude::*;

use crate::errors::IdoError;
use crate::state::{AccountId, IdoCampaign, User};

verus! {

/// Which error, if any, blocks a join of `number_of_allocations` allocations
/// (worth `amount_to_buy` token units at `total_cost_lamports`) at time
/// `now`: the sale must be open and supplied, the requested count must be
/// positive and within the per-participant limit, the purchase must fit
/// under the hard cap, and the participant must be able to pay the cost plus
/// the storage reserve `user_rent` for the new record.
pub open spec fn check_campaign_outcome(
    c: IdoCampaign,
    number_of_allocations: u64,
    total_cost_lamports: u64,
    amount_to_buy: u64,
    participant_lamports: u64,
    user_rent: u64,
    now: u64,
) -> Result<(), IdoError> {
    if c.sale_closed {
        Err(IdoError::ErrSaleAlreadyClosed)
    } else if !c.token_supply_deposited {
        Err(IdoError::ErrTokenSupplyNotDeposited)
    } else if !(number_of_allocations > 0 && number_of_allocations
        <= c.available_allocations_per_participant) {
        Err(IdoError::ErrInvalidNumberOfAllocations)
    } else if !(c.start_sale_time <= now && now <= c.end_sale_time) {
        Err(IdoError::ErrInvalidSalePeriod)
    } else if c.total_sold + amount_to_buy > u64::MAX {
        Err(IdoError::ErrMathOverflow)
    } else if c.total_sold + amount_to_buy > c.hard_cap {
        Err(IdoError::ErrThisAllocationIsNotAvailable)
    } else if total_cost_lamports + user_rent > u64::MAX {
        Err(IdoError::ErrMathOverflow)
    } else if participant_lamports < total_cost_lamports + user_rent {
        Err(IdoError::ErrInsufficientFunds)
    } else {
        Ok(())
    }
}

/// What a join returns: the first error of the guard chain, or the cost in
/// lamports that the participant must move into the currency treasury.
pub open spec fn join_outcome(
    c: IdoCampaign,
    u: User,
    number_of_allocations: u64,
    participant_lamports: u64,
    user_rent: u64,
    now: u64,
) -> Result<u64, IdoError> {
    let amount_to_buy: int = number_of_allocations * c.allocation;
    let total_cost: int = amount_to_buy * c.price_lamports;
    if c.price_lamports == 0 {
        Err(IdoError::ErrInvalidPrice)
    } else if u.joined_at != 0 {
        Err(IdoError::ErrUserAlreadyJoined)
    } else if amount_to_buy > u64::MAX {
        Err(IdoError::ErrMathOverflow)
    } else if total_cost > u64::MAX {
        Err(IdoError::ErrMathOverflow)
    } else {
        match check_campaign_outcome(
            c,
            number_of_allocations,
            total_cost as u64,
            amount_to_buy as u64,
            participant_lamports,
            user_rent,
            now,
        ) {
            Err(e) => Err(e),
            Ok(_) => if c.total_participants == u64::MAX {
                Err(IdoError::ErrMathOverflow)
            } else {
                Ok(total_cost as u64)
            },
        }
    }
}

/// The campaign record a join leaves behind: on success the sold total grows
/// by the bought amount and the participant count by one; on an error
/// nothing changes.
pub open spec fn join_campaign_post(
    c: IdoCampaign,
    u: User,
    number_of_allocations: u64,
    participant_lamports: u64,
    user_rent: u64,
    now: u64,
) -> IdoCampaign {
    if join_outcome(c, u, number_of_allocations, participant_lamports, user_rent, now) is Ok {
        let amount_to_buy: int = number_of_allocations * c.allocation;
        IdoCampaign {
            total_sold: (c.total_sold + amount_to_buy) as u64,
            total_participants: (c.total_participants + 1) as u64,
            ..c
        }
    } else {
        c
    }
}

/// The participation record a join leaves behind: on success a fresh record
/// naming the campaign and the participant, holding the bought amount, the
/// paid cost, no claims yet, and the join time; on an error the old record.
pub open spec fn join_user_post(
    c: IdoCampaign,
    u: User,
    ido_campaign_key: AccountId,
    participant: AccountId,
    number_of_allocations: u64,
    participant_lamports: u64,
    user_rent: u64,
    now: u64,
) -> User {
    if join_outcome(c, u, number_of_allocations, participant_lamports, user_rent, now) is Ok {
        let amount_to_buy: int = number_of_allocations * c.allocation;
        let total_cost: int = amount_to_buy * c.price_lamports;
        User {
            ido_campaign: ido_campaign_key,
            participant: participant,
            amount: amount_to_buy as u64,
            paid_lamports: total_cost as u64,
            claimed: 0,
            joined_at: now,
        }
    } else {
        u
    }
}

/// Validates a join request against the campaign, without changing anything.
pub fn check_campaign(
    ido_campaign: &IdoCampaign,
    number_of_allocations: u64,
    total_cost_lamports: u64,
    amount_to_buy: u64,
    participant_lamports: u64,
    user_rent: u64,
    now: u64,
) -> (r: Result<(), IdoError>)
    ensures
        r == check_campaign_outcome(
            *ido_campaign,
            number_of_allocations,
            total_cost_lamports,
            amount_to_buy,
            participant_lamports,
            user_rent,
            now,
        ),
{
    if ido_campaign.sale_closed {
        return Err(IdoError::ErrSaleAlreadyClosed);
    }
    if !ido_campaign.token_supply_deposited {
        return Err(IdoError::ErrTokenSupplyNotDeposited);
    }
    if !(number_of_allocations > 0 && number_of_allocations
        <= ido_campaign.available_allocations_per_participant) {
        return Err(IdoError::ErrInvalidNumberOfAllocations);
    }
    if !(ido_campaign.start_sale_time <= now && now <= ido_campaign.end_sale_time) {
        return Err(IdoError::ErrInvalidSalePeriod);
    }
    let new_total_sold: u64 = match ido_campaign.total_sold.checked_add(amount_to_buy) {
        Some(v) => v,
        None => {
            return Err(IdoError::ErrMathOverflow);
        },
    };
    if new_total_sold > ido_campaign.hard_cap {
        return Err(IdoError::ErrThisAllocationIsNotAvailable);
    }
    let required_lamports: u64 = match total_cost_lamports.checked_add(user_rent) {
        Some(v) => v,
        None => {
            return Err(IdoError::ErrMathOverflow);
        },
    };
    if participant_lamports < required_lamports {
        return Err(IdoError::ErrInsufficientFunds);
    }
    Ok(())
}

/// Admits a participant into the sale: checks the guard chain, creates the
/// participation record, and grows the running totals. Returns the cost in
/// lamports that the runtime must move from the participant into the
/// currency treasury. On an error both records are left untouched.
///
/// A successful join never pushes the sold total past the hard cap.
pub fn join_ido(
    ido_campaign: &mut IdoCampaign,
    user: &mut User,
    ido_campaign_key: AccountId,
    participant: AccountId,
    number_of_allocations: u64,
    participant_lamports: u64,
    user_rent: u64,
    now: u64,
) -> (r: Result<u64, IdoError>)
    ensures
        r == join_outcome(
            *old(ido_campaign),
            *old(user),
            number_of_allocations,
            participant_lamports,
            user_rent,
            now,
        ),
        *final(ido_campaign) == join_campaign_post(
            *old(ido_campaign),
            *old(user),
            number_of_allocations,
            participant_lamports,
            user_rent,
            now,
        ),
        *final(user) == join_user_post(
            *old(ido_campaign),
            *old(user),
            ido_campaign_key,
            participant,
            number_of_allocations,
            participant_lamports,
            user_rent,
            now,
        ),
        r is Err ==> *final(ido_campaign) == *old(ido_campaign) && *final(user) == *old(user),
        r is Ok ==> final(ido_campaign).total_sold <= final(ido_campaign).hard_cap,
        r is Ok ==> final(user).wf(),
{
    if ido_campaign.price_lamports == 0 {
        return Err(IdoError::ErrInvalidPrice);
    }
    if user.joined_at != 0 {
        return Err(IdoError::ErrUserAlreadyJoined);
    }

    let amount_to_buy: u64 = match number_of_allocations.checked_mul(ido_campaign.allocation) {
        Some(v) => v,
        None => {
            return Err(IdoError::ErrMathOverflow);
        },
    };
    let total_cost_lamports: u64 = match amount_to_buy.checked_mul(ido_campaign.price_lamports) {
        Some(v) => v,
        None => {
            return Err(IdoError::ErrMathOverflow);
        },
    };

    if let Err(e) = check_campaign(
        ido_campaign,
        number_of_allocations,
        total_cost_lamports,
        amount_to_buy,
        participant_lamports,
        user_rent,
        now,
    ) {
        return Err(e);
    }

    if ido_campaign.total_participants == u64::MAX {
        return Err(IdoError::ErrMathOverflow);
    }

    user.joined_at = now;
    user.ido_campaign = ido_campaign_key;
    user.participant = participant;
    user.amount = amount_to_buy;
    user.paid_lamports = total_cost_lamports;
    user.claimed = 0;

    ido_campaign.total_sold = ido_campaign.total_sold + amount_to_buy;
    ido_campaign.total_participants = ido_campaign.total_participants + 1;

    Ok(total_cost_lamports)
}

/// Hard-cap law: however a join turns out, the sold total never passes the
/// hard cap it respected before - a join that would exceed the cap is
/// rejected and leaves the total unchanged, and a successful join lands at
/// or under the cap.
pub proof fn lemma_join_respects_hard_cap(
    c: IdoCampaign,
    u: User,
    number_of_allocations: u64,
    participant_lamports: u64,
    user_rent: u64,
    now: u64,
)
    requires
        c.caps_wf(),
    ensures
        join_campaign_post(c, u, number_of_allocations, participant_lamports, user_rent, now).caps_wf(),
        join_outcome(c, u, number_of_allocations, participant_lamports, user_rent, now) is Err
            ==> join_campaign_post(c, u, number_of_allocations, participant_lamports, user_rent, now)
                == c,
{
}

/// Mutual-exclusion law, join side: once the sale is closed, no join
/// succeeds and none changes the campaign.
pub proof fn lemma_closed_blocks_join(
    c: IdoCampaign,
    u: User,
    number_of_allocations: u64,
    participant_lamports: u64,
    user_rent: u64,
    now: u64,
)
    requires
        c.sale_closed,
    ensures
        join_outcome(c, u, number_of_allocations, participant_lamports, user_rent, now) is Err,
        join_campaign_post(c, u, number_of_allocations, participant_lamports, user_rent, now) == c,
{
}

} // verus!
