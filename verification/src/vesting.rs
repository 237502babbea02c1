use vstd::prelude::*;

use vstd::arithmetic::div_mod::{lemma_div_by_multiple, lemma_div_is_ordered, lemma_div_pos_is_pos};
use vstd::arithmetic::mul::{lemma_mul_inequality, lemma_mul_is_commutative, lemma_mul_nonnegative};
use vstd::math::min;

use crate::errors::IdoError;
use crate::state::{IdoCampaign, User};

verus! {

/// How many token units unlock at the cliff: `floor(entitlement * pct / 100)`.
pub open spec fn cliff_unlocked_amount(entitlement: u64, pct: i32) -> int {
    (entitlement as int) * (pct as int) / 100
}

/// How many token units of an entitlement are unlocked at time `now`, for a
/// schedule with the given cliff, vesting end, and cliff percentage:
/// nothing before the cliff, the cliff share at the cliff, the whole
/// entitlement from the vesting end on, and in between the cliff share plus
/// a linear share of the remainder, clamped to the entitlement so that
/// rounding can never unlock more than is owed.
pub open spec fn unlocked_total(
    entitlement: u64,
    cliff: u64,
    vesting_end: u64,
    pct: i32,
    now: u64,
) -> int {
    if now < cliff {
        0
    } else if now >= vesting_end {
        entitlement as int
    } else if now == cliff {
        cliff_unlocked_amount(entitlement, pct)
    } else {
        let cu: int = cliff_unlocked_amount(entitlement, pct);
        let linear: int = (entitlement - cu) * (now - cliff) / (vesting_end - cliff);
        min(cu + linear, entitlement as int)
    }
}

/// How many token units may be claimed at time `now` by a participant who
/// owns `entitlement` and has already claimed `claimed`: the unlocked total
/// minus what was claimed, and zero when that would be negative.
pub open spec fn claimable_amount(
    entitlement: u64,
    claimed: u64,
    cliff: u64,
    vesting_end: u64,
    pct: i32,
    now: u64,
) -> int {
    let unlocked: int = unlocked_total(entitlement, cliff, vesting_end, pct, now);
    if unlocked <= claimed {
        0
    } else {
        unlocked - claimed
    }
}

/// What the claim calculator returns for a participation record and a
/// campaign at time `now`. Before the cliff the answer is zero and the
/// schedule is not even inspected; at and after the cliff a schedule whose
/// vesting end does not lie after the cliff, or whose cliff percentage lies
/// outside [0, 100], is rejected.
pub open spec fn calculate_outcome(user: User, c: IdoCampaign, now: u64) -> Result<u64, IdoError> {
    if now < c.cliff {
        Ok(0u64)
    } else if c.vesting_end_time <= c.cliff {
        Err(IdoError::ErrInvalidVestingEndTime)
    } else if !(0 <= c.available_tokens_after_cliff_ptc <= 100) {
        Err(IdoError::ErrInvalidAvailableTokensAfterCliffPtc)
    } else {
        Ok(
            claimable_amount(
                user.amount,
                user.claimed,
                c.cliff,
                c.vesting_end_time,
                c.available_tokens_after_cliff_ptc,
                now,
            ) as u64,
        )
    }
}

/// A quotient of a scaled value never exceeds the value: for `0 <= b <= d`,
/// `0 <= floor(a * b / d) <= a`.
proof fn lemma_mul_div_le(a: int, b: int, d: int)
    requires
        0 <= a,
        0 <= b <= d,
        0 < d,
    ensures
        0 <= a * b / d <= a,
{
    lemma_mul_nonnegative(a, b);
    lemma_div_pos_is_pos(a * b, d);
    lemma_mul_inequality(b, d, a);
    lemma_mul_is_commutative(a, b);
    lemma_mul_is_commutative(a, d);
    lemma_div_is_ordered(a * b, a * d, d);
    lemma_div_by_multiple(a, d);
}

/// The unlocked total always lies between zero and the entitlement: the
/// clamp in the linear branch and the cliff share's own bound keep rounding
/// from ever unlocking more than is owed.
pub proof fn lemma_unlocked_total_bounds(
    entitlement: u64,
    cliff: u64,
    vesting_end: u64,
    pct: i32,
    now: u64,
)
    requires
        0 <= pct <= 100,
        cliff < vesting_end,
    ensures
        0 <= unlocked_total(entitlement, cliff, vesting_end, pct, now) <= entitlement,
{
    lemma_mul_div_le(entitlement as int, pct as int, 100);
    if cliff < now < vesting_end {
        let cu: int = cliff_unlocked_amount(entitlement, pct);
        lemma_mul_div_le(entitlement - cu, now - cliff, vesting_end - cliff);
    }
}

/// Vesting only moves forward: for one entitlement, claimed amount and
/// schedule, the claimable amount at a later time is never smaller than at
/// an earlier time.
pub proof fn lemma_claimable_monotonic(
    entitlement: u64,
    claimed: u64,
    cliff: u64,
    vesting_end: u64,
    pct: i32,
    t1: u64,
    t2: u64,
)
    requires
        0 <= pct <= 100,
        cliff < vesting_end,
        t1 <= t2,
    ensures
        claimable_amount(entitlement, claimed, cliff, vesting_end, pct, t1)
            <= claimable_amount(entitlement, claimed, cliff, vesting_end, pct, t2),
{
    lemma_unlocked_total_monotonic(entitlement, cliff, vesting_end, pct, t1, t2);
}

/// The unlocked total is non-decreasing in time.
pub proof fn lemma_unlocked_total_monotonic(
    entitlement: u64,
    cliff: u64,
    vesting_end: u64,
    pct: i32,
    t1: u64,
    t2: u64,
)
    requires
        0 <= pct <= 100,
        cliff < vesting_end,
        t1 <= t2,
    ensures
        unlocked_total(entitlement, cliff, vesting_end, pct, t1)
            <= unlocked_total(entitlement, cliff, vesting_end, pct, t2),
{
    lemma_unlocked_total_bounds(entitlement, cliff, vesting_end, pct, t1);
    lemma_unlocked_total_bounds(entitlement, cliff, vesting_end, pct, t2);
    if cliff <= t1 && t2 < vesting_end && t1 != t2 {
        let cu: int = cliff_unlocked_amount(entitlement, pct);
        lemma_mul_div_le(entitlement as int, pct as int, 100);
        let rem: int = entitlement - cu;
        let duration: int = vesting_end - cliff;
        if t1 == cliff {
            lemma_mul_div_le(rem, t2 - cliff, duration);
        } else {
            lemma_mul_inequality(t1 - cliff, t2 - cliff, rem);
            lemma_mul_is_commutative(rem, t1 - cliff);
            lemma_mul_is_commutative(rem, t2 - cliff);
            lemma_div_is_ordered(rem * (t1 - cliff), rem * (t2 - cliff), duration);
        }
    }
}

/// At the cliff, exactly the cliff share minus what was claimed is
/// claimable; at and after the vesting end, exactly the rest of the
/// entitlement is claimable.
pub proof fn lemma_claimable_boundaries(
    entitlement: u64,
    claimed: u64,
    cliff: u64,
    vesting_end: u64,
    pct: i32,
    now: u64,
)
    requires
        0 <= pct <= 100,
        cliff < vesting_end,
    ensures
        now == cliff && claimed <= cliff_unlocked_amount(entitlement, pct)
            ==> claimable_amount(entitlement, claimed, cliff, vesting_end, pct, now)
                == cliff_unlocked_amount(entitlement, pct) - claimed,
        now >= vesting_end && claimed <= entitlement
            ==> claimable_amount(entitlement, claimed, cliff, vesting_end, pct, now)
                == entitlement - claimed,
{
}

/// No claim can overdraw an entitlement: whenever what was claimed so far
/// fits in the entitlement, the claimable amount fits in what is left.
pub proof fn lemma_claimable_within_entitlement(
    entitlement: u64,
    claimed: u64,
    cliff: u64,
    vesting_end: u64,
    pct: i32,
    now: u64,
)
    requires
        0 <= pct <= 100,
        cliff < vesting_end,
        claimed <= entitlement,
    ensures
        0 <= claimable_amount(entitlement, claimed, cliff, vesting_end, pct, now)
            <= entitlement - claimed,
{
    lemma_unlocked_total_bounds(entitlement, cliff, vesting_end, pct, now);
}

/// Computes how many token units the participation record may claim from the
/// campaign at time `now`. A zero result is not an error here; the claim
/// operation is the one that rejects empty claims.
///
/// The wide intermediates can never overflow for 64-bit entitlements and
/// timestamps, so unlike the guards, arithmetic never makes this fail.
pub fn calculate_amount_to_claim(user: &User, ido_campaign: &IdoCampaign, now: u64) -> (r: Result<
    u64,
    IdoError,
>)
    ensures
        r == calculate_outcome(*user, *ido_campaign, now),
{
    let total: u64 = user.amount;
    let claimed: u64 = user.claimed;

    if now < ido_campaign.cliff {
        return Ok(0);
    }

    if ido_campaign.vesting_end_time <= ido_campaign.cliff {
        return Err(IdoError::ErrInvalidVestingEndTime);
    }

    let pct_i32: i32 = ido_campaign.available_tokens_after_cliff_ptc;
    if !(pct_i32 >= 0 && pct_i32 <= 100) {
        return Err(IdoError::ErrInvalidAvailableTokensAfterCliffPtc);
    }
    let pct: u128 = pct_i32 as u128;

    let total_u128: u128 = total as u128;
    let claimed_u128: u128 = claimed as u128;

    proof {
        lemma_mul_div_le(total as int, pct_i32 as int, 100);
        lemma_unlocked_total_bounds(
            total,
            ido_campaign.cliff,
            ido_campaign.vesting_end_time,
            pct_i32,
            now,
        );
        assert(total_u128 * pct <= total_u128 * 100) by {
            lemma_mul_inequality(pct as int, 100, total_u128 as int);
            lemma_mul_is_commutative(total_u128 as int, pct as int);
            lemma_mul_is_commutative(total_u128 as int, 100);
        }
    }
    let cliff_unlocked: u128 = total_u128 * pct / 100;
    assert(cliff_unlocked == cliff_unlocked_amount(total, pct_i32));

    let unlocked_total_now: u128 = if now >= ido_campaign.vesting_end_time {
        total_u128
    } else if now == ido_campaign.cliff {
        cliff_unlocked
    } else {
        // Linear unlock of the remaining part between the cliff and the
        // vesting end.
        let remaining: u128 = total_u128 - cliff_unlocked;
        let elapsed: u128 = (now - ido_campaign.cliff) as u128;
        let duration: u128 = (ido_campaign.vesting_end_time - ido_campaign.cliff) as u128;

        proof {
            lemma_mul_div_le(remaining as int, elapsed as int, duration as int);
            assert(remaining * elapsed <= remaining * duration) by {
                lemma_mul_inequality(elapsed as int, duration as int, remaining as int);
                lemma_mul_is_commutative(remaining as int, elapsed as int);
                lemma_mul_is_commutative(remaining as int, duration as int);
            }
            assert(remaining * duration <= u128::MAX) by (nonlinear_arith)
                requires
                    0 <= remaining <= 0xffff_ffff_ffff_ffffu128,
                    0 < duration <= 0xffff_ffff_ffff_ffffu128,
            ;
        }
        let linear: u128 = remaining * elapsed / duration;

        let sum: u128 = cliff_unlocked + linear;

        // Safety clamp against rounding.
        if sum < total_u128 {
            sum
        } else {
            total_u128
        }
    };
    assert(unlocked_total_now == unlocked_total(
        total,
        ido_campaign.cliff,
        ido_campaign.vesting_end_time,
        pct_i32,
        now,
    ));

    if unlocked_total_now <= claimed_u128 {
        return Ok(0);
    }

    let claimable: u128 = unlocked_total_now - claimed_u128;

    Ok(claimable as u64)
}

} // verus!
