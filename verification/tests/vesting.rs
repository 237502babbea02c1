use solana_ido::errors::IdoError;
use solana_ido::state::{AccountId, IdoCampaign, User};
use solana_ido::vesting::calculate_amount_to_claim;

fn schedule_campaign(cliff: u64, vesting_end_time: u64, pct: i32) -> IdoCampaign {
    IdoCampaign {
        authority: AccountId(1),
        token_treasury: AccountId(2),
        sol_treasury: AccountId(3),
        cliff,
        available_tokens_after_cliff_ptc: pct,
        start_sale_time: 10,
        end_sale_time: 20,
        vesting_end_time,
        price_lamports: 1,
        total_claimed: 0,
        total_sold: 0,
        total_participants: 0,
        allocation: 1,
        soft_cap: 1,
        hard_cap: 2,
        available_allocations_per_participant: 1,
        token_mint: AccountId(4),
        token_supply_deposited: true,
        sale_closed: false,
        funds_withdrawn: false,
    }
}

fn participant(amount: u64, claimed: u64) -> User {
    User {
        ido_campaign: AccountId(9),
        participant: AccountId(8),
        amount,
        paid_lamports: amount,
        claimed,
        joined_at: 15,
    }
}

#[test]
fn claimable_at_cliff_is_the_cliff_share() {
    let c = schedule_campaign(100, 200, 20);
    let u = participant(1000, 0);
    assert_eq!(calculate_amount_to_claim(&u, &c, 100), Ok(200));
}

#[test]
fn claimable_midway_adds_the_linear_share() {
    let c = schedule_campaign(100, 200, 20);
    let u = participant(1000, 0);
    // 200 at the cliff plus half of the remaining 800.
    assert_eq!(calculate_amount_to_claim(&u, &c, 150), Ok(600));
}

#[test]
fn claimable_after_vesting_end_is_everything() {
    let c = schedule_campaign(100, 200, 20);
    let u = participant(1000, 0);
    assert_eq!(calculate_amount_to_claim(&u, &c, 250), Ok(1000));
    assert_eq!(calculate_amount_to_claim(&u, &c, 200), Ok(1000));
}

#[test]
fn claimable_before_cliff_is_zero_not_an_error() {
    let c = schedule_campaign(100, 200, 20);
    let u = participant(1000, 0);
    assert_eq!(calculate_amount_to_claim(&u, &c, 0), Ok(0));
    assert_eq!(calculate_amount_to_claim(&u, &c, 99), Ok(0));
}

#[test]
fn claimed_amount_is_subtracted() {
    let c = schedule_campaign(100, 200, 20);
    let u = participant(1000, 200);
    assert_eq!(calculate_amount_to_claim(&u, &c, 150), Ok(400));
    let all_claimed = participant(1000, 1000);
    assert_eq!(calculate_amount_to_claim(&all_claimed, &c, 250), Ok(0));
}

#[test]
fn linear_share_rounds_down() {
    let c = schedule_campaign(100, 200, 20);
    let u = participant(999, 0);
    // floor(999 * 20 / 100) = 199 at the cliff; remaining 800, half elapsed.
    assert_eq!(calculate_amount_to_claim(&u, &c, 100), Ok(199));
    assert_eq!(calculate_amount_to_claim(&u, &c, 150), Ok(599));
}

#[test]
fn claimable_is_monotonic_in_time() {
    let c = schedule_campaign(100, 200, 33);
    let u = participant(997, 10);
    let mut last: u64 = 0;
    for now in 0..300u64 {
        let r = calculate_amount_to_claim(&u, &c, now).unwrap();
        assert!(r >= last, "claimable shrank from {} to {} at {}", last, r, now);
        last = r;
    }
    assert_eq!(last, 987);
}

#[test]
fn vesting_end_not_after_cliff_is_rejected_once_the_cliff_passed() {
    let mut c = schedule_campaign(100, 100, 20);
    let u = participant(1000, 0);
    assert_eq!(
        calculate_amount_to_claim(&u, &c, 100),
        Err(IdoError::ErrInvalidVestingEndTime)
    );
    // Before the cliff the schedule is not even inspected.
    assert_eq!(calculate_amount_to_claim(&u, &c, 50), Ok(0));
    c.vesting_end_time = 99;
    assert_eq!(
        calculate_amount_to_claim(&u, &c, 120),
        Err(IdoError::ErrInvalidVestingEndTime)
    );
}

#[test]
fn percentage_out_of_range_is_rejected() {
    let c = schedule_campaign(100, 200, 101);
    let u = participant(1000, 0);
    assert_eq!(
        calculate_amount_to_claim(&u, &c, 100),
        Err(IdoError::ErrInvalidAvailableTokensAfterCliffPtc)
    );
    let negative = schedule_campaign(100, 200, -1);
    assert_eq!(
        calculate_amount_to_claim(&u, &negative, 100),
        Err(IdoError::ErrInvalidAvailableTokensAfterCliffPtc)
    );
}

#[test]
fn huge_entitlements_do_not_overflow() {
    let c = schedule_campaign(100, u64::MAX, 100);
    let u = participant(u64::MAX, 0);
    assert_eq!(calculate_amount_to_claim(&u, &c, 100), Ok(u64::MAX));
    let half = schedule_campaign(100, 200, 50);
    assert_eq!(
        calculate_amount_to_claim(&u, &half, 150),
        Ok(u64::MAX / 2 + (u64::MAX - u64::MAX / 2) / 2)
    );
}
