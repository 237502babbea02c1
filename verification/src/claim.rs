use vstd::prelude::*;

use crate::errors::IdoError;
use crate::state::{AccountId, IdoCampaign, User};
use crate::vesting::{
    calculate_amount_to_claim, calculate_outcome, lemma_claimable_within_entitlement,
};

verus! {

/// Which error, if any, blocks this participation record from claiming: the
/// record must exist (a join stamped it), belong to the calling participant
/// and to this campaign, and still owe tokens.
pub open spec fn check_user_outcome(
    u: User,
    participant_key: AccountId,
    ido_campaign_key: AccountId,
) -> Result<(), IdoError> {
    if u.joined_at == 0 {
        Err(IdoError::ErrUserNotJoined)
    } else if u.participant != participant_key {
        Err(IdoError::ErrInvalidOwner)
    } else if u.ido_campaign != ido_campaign_key {
        Err(IdoError::ErrInvalidIdoCampaign)
    } else if !(u.claimed < u.amount) {
        Err(IdoError::ErrNothingToClaim)
    } else {
        Ok(())
    }
}

/// What a claim returns: the first error of its guard chain, or the number
/// of token units (always positive, and within what the token treasury
/// holds) that the runtime must move from the token treasury to the
/// participant.
pub open spec fn claim_outcome(
    c: IdoCampaign,
    u: User,
    participant: AccountId,
    ido_campaign_key: AccountId,
    token_mint: AccountId,
    tokens_treasury_amount: u64,
    now: u64,
) -> Result<u64, IdoError> {
    if token_mint != c.token_mint {
        Err(IdoError::ErrInvalidTokensTreasuryMint)
    } else if !c.token_supply_deposited {
        Err(IdoError::ErrTokenSupplyNotDeposited)
    } else if tokens_treasury_amount == 0 {
        Err(IdoError::ErrInvalidTokensTreasuryAmount)
    } else if check_user_outcome(u, participant, ido_campaign_key) is Err {
        Err(check_user_outcome(u, participant, ido_campaign_key)->Err_0)
    } else if calculate_outcome(u, c, now) is Err {
        Err(calculate_outcome(u, c, now)->Err_0)
    } else {
        let amount_to_claim: u64 = calculate_outcome(u, c, now)->Ok_0;
        if amount_to_claim == 0 {
            Err(IdoError::ErrNothingToClaim)
        } else if tokens_treasury_amount < amount_to_claim {
            Err(IdoError::ErrInsufficientFundsInTreasury)
        } else if u.claimed + amount_to_claim > u64::MAX {
            Err(IdoError::ErrMathOverflow)
        } else if c.total_claimed + amount_to_claim > u64::MAX {
            Err(IdoError::ErrMathOverflow)
        } else {
            Ok(amount_to_claim)
        }
    }
}

/// The participation record a claim leaves behind: on success the claimed
/// total grows by the claimed amount; on an error nothing changes.
pub open spec fn claim_user_post(
    c: IdoCampaign,
    u: User,
    participant: AccountId,
    ido_campaign_key: AccountId,
    token_mint: AccountId,
    tokens_treasury_amount: u64,
    now: u64,
) -> User {
    let outcome = claim_outcome(
        c,
        u,
        participant,
        ido_campaign_key,
        token_mint,
        tokens_treasury_amount,
        now,
    );
    if outcome is Ok {
        User { claimed: (u.claimed + outcome->Ok_0) as u64, ..u }
    } else {
        u
    }
}

/// The campaign record a claim leaves behind: on success the campaign-wide
/// claimed total grows by the claimed amount; on an error nothing changes.
pub open spec fn claim_campaign_post(
    c: IdoCampaign,
    u: User,
    participant: AccountId,
    ido_campaign_key: AccountId,
    token_mint: AccountId,
    tokens_treasury_amount: u64,
    now: u64,
) -> IdoCampaign {
    let outcome = claim_outcome(
        c,
        u,
        participant,
        ido_campaign_key,
        token_mint,
        tokens_treasury_amount,
        now,
    );
    if outcome is Ok {
        IdoCampaign { total_claimed: (c.total_claimed + outcome->Ok_0) as u64, ..c }
    } else {
        c
    }
}

/// Validates that this participation record may claim, without changing
/// anything.
pub fn check_user(user: &User, participant_key: AccountId, ido_campaign_key: AccountId) -> (r:
    Result<(), IdoError>)
    ensures
        r == check_user_outcome(*user, participant_key, ido_campaign_key),
{
    if user.joined_at == 0 {
        return Err(IdoError::ErrUserNotJoined);
    }
    if user.participant != participant_key {
        return Err(IdoError::ErrInvalidOwner);
    }
    if user.ido_campaign != ido_campaign_key {
        return Err(IdoError::ErrInvalidIdoCampaign);
    }
    if !(user.claimed < user.amount) {
        return Err(IdoError::ErrNothingToClaim);
    }
    Ok(())
}

/// Claims every token unit that has vested and was not claimed yet: checks
/// the guard chain, grows the record's and the campaign's claimed totals,
/// and returns the number of token units the runtime must move from the
/// token treasury to the participant. On an error both records are left
/// untouched.
///
/// A successful claim never pushes a record's claimed total past its
/// entitlement.
pub fn claim(
    ido_campaign: &mut IdoCampaign,
    user: &mut User,
    participant: AccountId,
    ido_campaign_key: AccountId,
    token_mint: AccountId,
    tokens_treasury_amount: u64,
    now: u64,
) -> (r: Result<u64, IdoError>)
    ensures
        r == claim_outcome(
            *old(ido_campaign),
            *old(user),
            participant,
            ido_campaign_key,
            token_mint,
            tokens_treasury_amount,
            now,
        ),
        *final(user) == claim_user_post(
            *old(ido_campaign),
            *old(user),
            participant,
            ido_campaign_key,
            token_mint,
            tokens_treasury_amount,
            now,
        ),
        *final(ido_campaign) == claim_campaign_post(
            *old(ido_campaign),
            *old(user),
            participant,
            ido_campaign_key,
            token_mint,
            tokens_treasury_amount,
            now,
        ),
        r is Err ==> *final(ido_campaign) == *old(ido_campaign) && *final(user) == *old(user),
        r is Ok ==> 0 < r->Ok_0 <= tokens_treasury_amount,
        r is Ok ==> final(user).wf(),
{
    if token_mint != ido_campaign.token_mint {
        return Err(IdoError::ErrInvalidTokensTreasuryMint);
    }
    if !ido_campaign.token_supply_deposited {
        return Err(IdoError::ErrTokenSupplyNotDeposited);
    }
    if tokens_treasury_amount == 0 {
        return Err(IdoError::ErrInvalidTokensTreasuryAmount);
    }
    if let Err(e) = check_user(user, participant, ido_campaign_key) {
        return Err(e);
    }

    let amount_to_claim: u64 = match calculate_amount_to_claim(user, ido_campaign, now) {
        Ok(v) => v,
        Err(e) => {
            return Err(e);
        },
    };
    if amount_to_claim == 0 {
        return Err(IdoError::ErrNothingToClaim);
    }
    if tokens_treasury_amount < amount_to_claim {
        return Err(IdoError::ErrInsufficientFundsInTreasury);
    }

    let new_claimed: u64 = match user.claimed.checked_add(amount_to_claim) {
        Some(v) => v,
        None => {
            return Err(IdoError::ErrMathOverflow);
        },
    };
    let new_total_claimed: u64 = match ido_campaign.total_claimed.checked_add(amount_to_claim) {
        Some(v) => v,
        None => {
            return Err(IdoError::ErrMathOverflow);
        },
    };

    proof {
        // The claim stays within the entitlement: a positive claimable
        // amount means the cliff has passed and the schedule fields passed
        // the calculator's guards.
        lemma_claimable_within_entitlement(
            user.amount,
            user.claimed,
            ido_campaign.cliff,
            ido_campaign.vesting_end_time,
            ido_campaign.available_tokens_after_cliff_ptc,
            now,
        );
    }

    user.claimed = new_claimed;
    ido_campaign.total_claimed = new_total_claimed;

    Ok(amount_to_claim)
}

/// No-over-claim law: a claim against a record that owes at least what was
/// claimed through it leaves a record that still does - claimed amounts
/// accumulate but never pass the entitlement, whatever the time and however
/// often claiming is repeated.
pub proof fn lemma_claim_never_overclaims(
    c: IdoCampaign,
    u: User,
    participant: AccountId,
    ido_campaign_key: AccountId,
    token_mint: AccountId,
    tokens_treasury_amount: u64,
    now: u64,
)
    requires
        u.wf(),
    ensures
        claim_user_post(c, u, participant, ido_campaign_key, token_mint, tokens_treasury_amount, now).wf(),
        claim_user_post(c, u, participant, ido_campaign_key, token_mint, tokens_treasury_amount, now).amount
            == u.amount,
{
    let outcome = claim_outcome(
        c,
        u,
        participant,
        ido_campaign_key,
        token_mint,
        tokens_treasury_amount,
        now,
    );
    if outcome is Ok {
        lemma_claimable_within_entitlement(
            u.amount,
            u.claimed,
            c.cliff,
            c.vesting_end_time,
            c.available_tokens_after_cliff_ptc,
            now,
        );
    }
}

} // verus!
