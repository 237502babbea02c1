use vstd::prelude::*;

use crate::errors::IdoError;
use crate::state::{AccountId, IdoCampaign};

verus! {

/// Which error, if any, the schedule validation reports: the sale must start
/// in the future, end after it starts, the cliff must lie after the whole
/// sale window, and vesting must end after the sale does.
pub open spec fn check_time_outcome(
    start_sale_time: u64,
    end_sale_time: u64,
    cliff: u64,
    vesting_end_time: u64,
    now: u64,
) -> Result<(), IdoError> {
    if start_sale_time <= now {
        Err(IdoError::ErrInvalidStartSaleTime)
    } else if end_sale_time <= start_sale_time {
        Err(IdoError::ErrInvalidEndSaleTime)
    } else if !(cliff > start_sale_time && cliff > end_sale_time) {
        Err(IdoError::ErrInvalidCliff)
    } else if vesting_end_time <= end_sale_time {
        Err(IdoError::ErrInvalidVestingEndTime)
    } else {
        Ok(())
    }
}

/// Which error, if any, the economic validation reports: price, allocation
/// size, per-participant limit and both caps must be positive, the cliff
/// percentage must lie in (0, 100], and the hard cap must exceed the soft
/// cap.
pub open spec fn check_economic_parameters_outcome(
    price_lamports: u64,
    allocation: u64,
    available_allocations_per_participant: u64,
    soft_cap: u64,
    hard_cap: u64,
    available_tokens_after_cliff_ptc: i32,
) -> Result<(), IdoError> {
    if price_lamports == 0 {
        Err(IdoError::ErrInvalidPrice)
    } else if allocation == 0 {
        Err(IdoError::ErrInvalidAllocation)
    } else if available_allocations_per_participant == 0 {
        Err(IdoError::ErrInvalidAvailableAllocationsPerParticipant)
    } else if !(0 < available_tokens_after_cliff_ptc <= 100) {
        Err(IdoError::ErrInvalidAvailableTokensAfterCliffPtc)
    } else if soft_cap == 0 {
        Err(IdoError::ErrInvalidSoftCap)
    } else if hard_cap == 0 {
        Err(IdoError::ErrInvalidHardCap)
    } else if hard_cap <= soft_cap {
        Err(IdoError::ErrInvalidHardCap)
    } else {
        Ok(())
    }
}

/// The campaign record a successful creation writes: the given identities
/// and parameters, zero running totals, and all flags cleared.
pub open spec fn created_campaign(
    owner: AccountId,
    token_mint: AccountId,
    tokens_treasury: AccountId,
    sol_treasury: AccountId,
    start_sale_time: u64,
    end_sale_time: u64,
    cliff: u64,
    vesting_end_time: u64,
    price_lamports: u64,
    allocation: u64,
    soft_cap: u64,
    hard_cap: u64,
    available_tokens_after_cliff_ptc: i32,
    available_allocations_per_participant: u64,
) -> IdoCampaign {
    IdoCampaign {
        authority: owner,
        token_treasury: tokens_treasury,
        sol_treasury: sol_treasury,
        cliff: cliff,
        available_tokens_after_cliff_ptc: available_tokens_after_cliff_ptc,
        start_sale_time: start_sale_time,
        end_sale_time: end_sale_time,
        vesting_end_time: vesting_end_time,
        price_lamports: price_lamports,
        total_claimed: 0,
        total_sold: 0,
        total_participants: 0,
        allocation: allocation,
        soft_cap: soft_cap,
        hard_cap: hard_cap,
        available_allocations_per_participant: available_allocations_per_participant,
        token_mint: token_mint,
        token_supply_deposited: false,
        sale_closed: false,
        funds_withdrawn: false,
    }
}

/// What campaign creation returns: the first schedule or economic error, in
/// the validations' order, or the fresh record.
pub open spec fn initialize_sale_outcome(
    owner: AccountId,
    token_mint: AccountId,
    tokens_treasury: AccountId,
    sol_treasury: AccountId,
    start_sale_time: u64,
    end_sale_time: u64,
    cliff: u64,
    vesting_end_time: u64,
    price_lamports: u64,
    allocation: u64,
    soft_cap: u64,
    hard_cap: u64,
    available_tokens_after_cliff_ptc: i32,
    available_allocations_per_participant: u64,
    now: u64,
) -> Result<IdoCampaign, IdoError> {
    if check_time_outcome(start_sale_time, end_sale_time, cliff, vesting_end_time, now) is Err {
        Err(check_time_outcome(start_sale_time, end_sale_time, cliff, vesting_end_time, now)->Err_0)
    } else if check_economic_parameters_outcome(
        price_lamports,
        allocation,
        available_allocations_per_participant,
        soft_cap,
        hard_cap,
        available_tokens_after_cliff_ptc,
    ) is Err {
        Err(
            check_economic_parameters_outcome(
                price_lamports,
                allocation,
                available_allocations_per_participant,
                soft_cap,
                hard_cap,
                available_tokens_after_cliff_ptc,
            )->Err_0,
        )
    } else {
        Ok(
            created_campaign(
                owner,
                token_mint,
                tokens_treasury,
                sol_treasury,
                start_sale_time,
                end_sale_time,
                cliff,
                vesting_end_time,
                price_lamports,
                allocation,
                soft_cap,
                hard_cap,
                available_tokens_after_cliff_ptc,
                available_allocations_per_participant,
            ),
        )
    }
}

/// Validates the schedule of a campaign that is being created at time `now`.
pub fn check_time(
    start_sale_time: u64,
    end_sale_time: u64,
    cliff: u64,
    vesting_end_time: u64,
    now: u64,
) -> (r: Result<(), IdoError>)
    ensures
        r == check_time_outcome(start_sale_time, end_sale_time, cliff, vesting_end_time, now),
{
    if start_sale_time <= now {
        return Err(IdoError::ErrInvalidStartSaleTime);
    }
    if end_sale_time <= start_sale_time {
        return Err(IdoError::ErrInvalidEndSaleTime);
    }
    if !(cliff > start_sale_time && cliff > end_sale_time) {
        return Err(IdoError::ErrInvalidCliff);
    }
    if vesting_end_time <= end_sale_time {
        return Err(IdoError::ErrInvalidVestingEndTime);
    }
    Ok(())
}

/// Validates the economic parameters of a campaign that is being created.
pub fn check_economic_parameters(
    price_lamports: u64,
    allocation: u64,
    available_allocations_per_participant: u64,
    soft_cap: u64,
    hard_cap: u64,
    available_tokens_after_cliff_ptc: i32,
) -> (r: Result<(), IdoError>)
    ensures
        r == check_economic_parameters_outcome(
            price_lamports,
            allocation,
            available_allocations_per_participant,
            soft_cap,
            hard_cap,
            available_tokens_after_cliff_ptc,
        ),
{
    if price_lamports == 0 {
        return Err(IdoError::ErrInvalidPrice);
    }
    if allocation == 0 {
        return Err(IdoError::ErrInvalidAllocation);
    }
    if available_allocations_per_participant == 0 {
        return Err(IdoError::ErrInvalidAvailableAllocationsPerParticipant);
    }
    if !(0 < available_tokens_after_cliff_ptc && available_tokens_after_cliff_ptc <= 100) {
        return Err(IdoError::ErrInvalidAvailableTokensAfterCliffPtc);
    }
    if soft_cap == 0 {
        return Err(IdoError::ErrInvalidSoftCap);
    }
    if hard_cap == 0 {
        return Err(IdoError::ErrInvalidHardCap);
    }
    if hard_cap <= soft_cap {
        return Err(IdoError::ErrInvalidHardCap);
    }
    Ok(())
}

/// Creates a campaign record at time `now`, after validating its schedule
/// and its economics. A record this returns is well formed, and every
/// operation of the engine keeps it so.
pub fn initialize_sale(
    owner: AccountId,
    token_mint: AccountId,
    tokens_treasury: AccountId,
    sol_treasury: AccountId,
    start_sale_time: u64,
    end_sale_time: u64,
    cliff: u64,
    vesting_end_time: u64,
    price_lamports: u64,
    allocation: u64,
    soft_cap: u64,
    hard_cap: u64,
    available_tokens_after_cliff_ptc: i32,
    available_allocations_per_participant: u64,
    now: u64,
) -> (r: Result<IdoCampaign, IdoError>)
    ensures
        r == initialize_sale_outcome(
            owner,
            token_mint,
            tokens_treasury,
            sol_treasury,
            start_sale_time,
            end_sale_time,
            cliff,
            vesting_end_time,
            price_lamports,
            allocation,
            soft_cap,
            hard_cap,
            available_tokens_after_cliff_ptc,
            available_allocations_per_participant,
            now,
        ),
        r is Ok ==> r->Ok_0.wf(),
{
    if let Err(e) = check_time(start_sale_time, end_sale_time, cliff, vesting_end_time, now) {
        return Err(e);
    }
    if let Err(e) = check_economic_parameters(
        price_lamports,
        allocation,
        available_allocations_per_participant,
        soft_cap,
        hard_cap,
        available_tokens_after_cliff_ptc,
    ) {
        return Err(e);
    }

    Ok(
        IdoCampaign {
            authority: owner,
            token_treasury: tokens_treasury,
            sol_treasury: sol_treasury,
            cliff: cliff,
            available_tokens_after_cliff_ptc: available_tokens_after_cliff_ptc,
            start_sale_time: start_sale_time,
            end_sale_time: end_sale_time,
            vesting_end_time: vesting_end_time,
            price_lamports: price_lamports,
            total_claimed: 0,
            total_sold: 0,
            total_participants: 0,
            allocation: allocation,
            soft_cap: soft_cap,
            hard_cap: hard_cap,
            available_allocations_per_participant: available_allocations_per_participant,
            token_mint: token_mint,
            token_supply_deposited: false,
            sale_closed: false,
            funds_withdrawn: false,
        },
    )
}

} // verus!
