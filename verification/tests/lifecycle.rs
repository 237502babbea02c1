use solana_ido::create_ido_campaign::initialize_sale;
use solana_ido::deposit_tokens_to_sale::deposit_tokens_to_sale;
use solana_ido::errors::IdoError;
use solana_ido::join_ido::join_ido;
use solana_ido::state::{lifecycle_state, AccountId, IdoCampaign, LifecycleState, User};

const OWNER: AccountId = AccountId(1);
const MINT: AccountId = AccountId(4);
const TOKEN_TREASURY: AccountId = AccountId(2);
const SOL_TREASURY: AccountId = AccountId(3);
const CAMPAIGN_KEY: AccountId = AccountId(9);

fn fresh_campaign() -> IdoCampaign {
    initialize_sale(
        OWNER,
        MINT,
        TOKEN_TREASURY,
        SOL_TREASURY,
        10,    // start_sale_time
        20,    // end_sale_time
        100,   // cliff
        200,   // vesting_end_time
        2,     // price_lamports
        10,    // allocation
        5_000, // soft_cap
        10_000, // hard_cap
        20,    // available_tokens_after_cliff_ptc
        50,    // available_allocations_per_participant
        5,     // now
    )
    .unwrap()
}

fn blank_user() -> User {
    User {
        ido_campaign: AccountId(0),
        participant: AccountId(0),
        amount: 0,
        paid_lamports: 0,
        claimed: 0,
        joined_at: 0,
    }
}

#[test]
fn initialize_sale_writes_the_record() {
    let c = fresh_campaign();
    assert_eq!(c.authority, OWNER);
    assert_eq!(c.token_mint, MINT);
    assert_eq!(c.token_treasury, TOKEN_TREASURY);
    assert_eq!(c.sol_treasury, SOL_TREASURY);
    assert_eq!(c.start_sale_time, 10);
    assert_eq!(c.end_sale_time, 20);
    assert_eq!(c.cliff, 100);
    assert_eq!(c.vesting_end_time, 200);
    assert_eq!(c.price_lamports, 2);
    assert_eq!(c.allocation, 10);
    assert_eq!(c.soft_cap, 5_000);
    assert_eq!(c.hard_cap, 10_000);
    assert_eq!(c.available_tokens_after_cliff_ptc, 20);
    assert_eq!(c.available_allocations_per_participant, 50);
    assert_eq!(c.total_sold, 0);
    assert_eq!(c.total_participants, 0);
    assert_eq!(c.total_claimed, 0);
    assert!(!c.token_supply_deposited);
    assert!(!c.sale_closed);
    assert!(!c.funds_withdrawn);
}

#[test]
fn initialize_sale_rejects_bad_schedules() {
    let init = |start: u64, end: u64, cliff: u64, vesting_end: u64, now: u64| {
        initialize_sale(
            OWNER, MINT, TOKEN_TREASURY, SOL_TREASURY, start, end, cliff, vesting_end, 2, 10,
            5_000, 10_000, 20, 50, now,
        )
    };
    assert_eq!(init(10, 20, 100, 200, 10), Err(IdoError::ErrInvalidStartSaleTime));
    assert_eq!(init(10, 20, 100, 200, 15), Err(IdoError::ErrInvalidStartSaleTime));
    assert_eq!(init(10, 10, 100, 200, 5), Err(IdoError::ErrInvalidEndSaleTime));
    assert_eq!(init(10, 9, 100, 200, 5), Err(IdoError::ErrInvalidEndSaleTime));
    assert_eq!(init(10, 20, 20, 200, 5), Err(IdoError::ErrInvalidCliff));
    assert_eq!(init(10, 20, 15, 200, 5), Err(IdoError::ErrInvalidCliff));
    assert_eq!(init(10, 20, 100, 20, 5), Err(IdoError::ErrInvalidVestingEndTime));
    assert_eq!(init(10, 20, 100, 19, 5), Err(IdoError::ErrInvalidVestingEndTime));
}

#[test]
fn initialize_sale_rejects_bad_economics() {
    let init = |price: u64, allocation: u64, soft: u64, hard: u64, pct: i32, per: u64| {
        initialize_sale(
            OWNER, MINT, TOKEN_TREASURY, SOL_TREASURY, 10, 20, 100, 200, price, allocation, soft,
            hard, pct, per, 5,
        )
    };
    assert_eq!(init(0, 10, 5_000, 10_000, 20, 50), Err(IdoError::ErrInvalidPrice));
    assert_eq!(init(2, 0, 5_000, 10_000, 20, 50), Err(IdoError::ErrInvalidAllocation));
    assert_eq!(
        init(2, 10, 5_000, 10_000, 20, 0),
        Err(IdoError::ErrInvalidAvailableAllocationsPerParticipant)
    );
    assert_eq!(
        init(2, 10, 5_000, 10_000, 0, 50),
        Err(IdoError::ErrInvalidAvailableTokensAfterCliffPtc)
    );
    assert_eq!(
        init(2, 10, 5_000, 10_000, 101, 50),
        Err(IdoError::ErrInvalidAvailableTokensAfterCliffPtc)
    );
    assert_eq!(init(2, 10, 0, 10_000, 20, 50), Err(IdoError::ErrInvalidSoftCap));
    assert_eq!(init(2, 10, 5_000, 0, 20, 50), Err(IdoError::ErrInvalidHardCap));
    assert_eq!(init(2, 10, 5_000, 5_000, 20, 50), Err(IdoError::ErrInvalidHardCap));
    assert_eq!(init(2, 10, 5_000, 4_000, 20, 50), Err(IdoError::ErrInvalidHardCap));
}

#[test]
fn deposit_checks_accounts_and_balance() {
    let mut c = fresh_campaign();
    assert_eq!(
        deposit_tokens_to_sale(&mut c, MINT, 10_000, AccountId(77), MINT),
        Err(IdoError::ErrInvalidMintAccount)
    );
    assert_eq!(
        deposit_tokens_to_sale(&mut c, AccountId(77), 10_000, MINT, MINT),
        Err(IdoError::ErrInvalidOwnerTokenAccount)
    );
    assert_eq!(
        deposit_tokens_to_sale(&mut c, MINT, 10_000, MINT, AccountId(77)),
        Err(IdoError::ErrInvalidTokensTreasuryMint)
    );
    assert_eq!(
        deposit_tokens_to_sale(&mut c, MINT, 9_999, MINT, MINT),
        Err(IdoError::ErrInvalidBalanceOfTokensToDeposit)
    );
    assert!(!c.token_supply_deposited);

    assert_eq!(deposit_tokens_to_sale(&mut c, MINT, 10_000, MINT, MINT), Ok(10_000));
    assert!(c.token_supply_deposited);
}

#[test]
fn join_creates_the_participation_record() {
    let mut c = fresh_campaign();
    deposit_tokens_to_sale(&mut c, MINT, 10_000, MINT, MINT).unwrap();
    let mut u = blank_user();

    // 3 allocations of 10 token units at 2 lamports each cost 60 lamports,
    // plus 7 lamports of rent on a balance of 100.
    let r = join_ido(&mut c, &mut u, CAMPAIGN_KEY, AccountId(42), 3, 100, 7, 15);
    assert_eq!(r, Ok(60));
    assert_eq!(u.ido_campaign, CAMPAIGN_KEY);
    assert_eq!(u.participant, AccountId(42));
    assert_eq!(u.amount, 30);
    assert_eq!(u.paid_lamports, 60);
    assert_eq!(u.claimed, 0);
    assert_eq!(u.joined_at, 15);
    assert_eq!(c.total_sold, 30);
    assert_eq!(c.total_participants, 1);
}

#[test]
fn join_guard_chain_rejects_in_order() {
    let mut c = fresh_campaign();
    let mut u = blank_user();

    // Supply not deposited yet.
    assert_eq!(
        join_ido(&mut c, &mut u, CAMPAIGN_KEY, AccountId(42), 3, 100, 7, 15),
        Err(IdoError::ErrTokenSupplyNotDeposited)
    );
    deposit_tokens_to_sale(&mut c, MINT, 10_000, MINT, MINT).unwrap();

    // Zero or too many allocations.
    assert_eq!(
        join_ido(&mut c, &mut u, CAMPAIGN_KEY, AccountId(42), 0, 100, 7, 15),
        Err(IdoError::ErrInvalidNumberOfAllocations)
    );
    assert_eq!(
        join_ido(&mut c, &mut u, CAMPAIGN_KEY, AccountId(42), 51, u64::MAX, 7, 15),
        Err(IdoError::ErrInvalidNumberOfAllocations)
    );

    // Outside the sale window.
    assert_eq!(
        join_ido(&mut c, &mut u, CAMPAIGN_KEY, AccountId(42), 3, 100, 7, 9),
        Err(IdoError::ErrInvalidSalePeriod)
    );
    assert_eq!(
        join_ido(&mut c, &mut u, CAMPAIGN_KEY, AccountId(42), 3, 100, 7, 21),
        Err(IdoError::ErrInvalidSalePeriod)
    );

    // Cannot pay cost plus rent.
    assert_eq!(
        join_ido(&mut c, &mut u, CAMPAIGN_KEY, AccountId(42), 3, 66, 7, 15),
        Err(IdoError::ErrInsufficientFunds)
    );

    // Nothing was changed by any rejected join.
    assert_eq!(c.total_sold, 0);
    assert_eq!(c.total_participants, 0);
    assert_eq!(u.joined_at, 0);

    // A zero price is rejected before anything else.
    let mut broken = fresh_campaign();
    broken.price_lamports = 0;
    assert_eq!(
        join_ido(&mut broken, &mut u, CAMPAIGN_KEY, AccountId(42), 3, 100, 7, 15),
        Err(IdoError::ErrInvalidPrice)
    );

    // A closed sale admits nobody.
    let mut closed = fresh_campaign();
    deposit_tokens_to_sale(&mut closed, MINT, 10_000, MINT, MINT).unwrap();
    closed.sale_closed = true;
    assert_eq!(
        join_ido(&mut closed, &mut u, CAMPAIGN_KEY, AccountId(42), 3, 100, 7, 15),
        Err(IdoError::ErrSaleAlreadyClosed)
    );
}

#[test]
fn join_rejects_a_second_join() {
    let mut c = fresh_campaign();
    deposit_tokens_to_sale(&mut c, MINT, 10_000, MINT, MINT).unwrap();
    let mut u = blank_user();
    join_ido(&mut c, &mut u, CAMPAIGN_KEY, AccountId(42), 3, 100, 7, 15).unwrap();
    assert_eq!(
        join_ido(&mut c, &mut u, CAMPAIGN_KEY, AccountId(42), 1, 100, 7, 16),
        Err(IdoError::ErrUserAlreadyJoined)
    );
    assert_eq!(u.amount, 30);
    assert_eq!(c.total_sold, 30);
}

#[test]
fn join_detects_overflowing_purchases() {
    let mut c = fresh_campaign();
    deposit_tokens_to_sale(&mut c, MINT, 10_000, MINT, MINT).unwrap();
    c.allocation = u64::MAX;
    c.available_allocations_per_participant = u64::MAX;
    let mut u = blank_user();
    assert_eq!(
        join_ido(&mut c, &mut u, CAMPAIGN_KEY, AccountId(42), 2, 100, 7, 15),
        Err(IdoError::ErrMathOverflow)
    );
    // One allocation of u64::MAX units at price 2 overflows the cost.
    assert_eq!(
        join_ido(&mut c, &mut u, CAMPAIGN_KEY, AccountId(42), 1, 100, 7, 15),
        Err(IdoError::ErrMathOverflow)
    );
    assert_eq!(c.total_sold, 0);
}

#[test]
fn hard_cap_example_boundary() {
    // A campaign at 9_500 of 10_000 sold: one more 1_000-unit allocation
    // would overshoot and is rejected; 500 more units exactly fill the cap.
    let mut c = fresh_campaign();
    deposit_tokens_to_sale(&mut c, MINT, 10_000, MINT, MINT).unwrap();
    c.allocation = 1_000;
    c.price_lamports = 1;
    c.total_sold = 9_500;

    let mut u = blank_user();
    assert_eq!(
        join_ido(&mut c, &mut u, CAMPAIGN_KEY, AccountId(42), 1, u64::MAX, 7, 15),
        Err(IdoError::ErrThisAllocationIsNotAvailable)
    );
    assert_eq!(c.total_sold, 9_500);
    assert_eq!(u.joined_at, 0);

    c.allocation = 500;
    assert_eq!(join_ido(&mut c, &mut u, CAMPAIGN_KEY, AccountId(42), 1, u64::MAX, 7, 15), Ok(500));
    assert_eq!(c.total_sold, 10_000);
}

#[test]
fn hard_cap_holds_over_any_join_sequence() {
    let mut c = fresh_campaign();
    deposit_tokens_to_sale(&mut c, MINT, 10_000, MINT, MINT).unwrap();
    c.allocation = 700;
    c.price_lamports = 1;
    for i in 0..40u64 {
        let mut u = blank_user();
        let _ = join_ido(&mut c, &mut u, CAMPAIGN_KEY, AccountId(100 + i), 1, u64::MAX, 7, 15);
        assert!(c.total_sold <= c.hard_cap);
    }
    // 14 joins of 700 fit under 10_000; the 15th was rejected.
    assert_eq!(c.total_sold, 9_800);
    assert_eq!(c.total_participants, 14);
}

#[test]
fn lifecycle_states_follow_flags_and_clock() {
    let mut c = fresh_campaign();
    assert_eq!(lifecycle_state(&c, 5), LifecycleState::PreSale);
    assert_eq!(lifecycle_state(&c, 10), LifecycleState::Open);
    assert_eq!(lifecycle_state(&c, 20), LifecycleState::Open);
    assert_eq!(lifecycle_state(&c, 21), LifecycleState::EndedUnresolved);

    c.sale_closed = true;
    assert_eq!(lifecycle_state(&c, 21), LifecycleState::ClosedAwaitingSettlement);

    c.sale_closed = false;
    c.funds_withdrawn = true;
    assert_eq!(lifecycle_state(&c, 21), LifecycleState::Settled);

    c.sale_closed = true;
    assert_eq!(lifecycle_state(&c, 21), LifecycleState::Cancelled);
}
