use vstd::prelude::*;

verus! {

/// The identity of an account on the surrounding ledger.
///
/// The engine never looks inside an identity: it only compares identities
/// for equality, to check that a caller, a mint or a treasury is the one a
/// record names. The runtime that hosts the engine maps these to its own
/// addresses.
#[derive(Clone, Copy, Debug, PartialEq, Eq, Structural)]
pub struct AccountId(pub u64);

/// The single authoritative record of one token-sale campaign: its sale
/// parameters, its running totals, and its one-way terminal flags.
///
/// All currency amounts are integers in the smallest currency unit
/// (lamports); token amounts are integers in the smallest token unit.
#[derive(Clone, Copy, Debug, PartialEq, Eq, Structural)]
pub struct IdoCampaign {
    /// The owning authority: the only identity allowed to cancel the
    /// campaign or withdraw its funds.
    pub authority: AccountId,
    /// The token treasury: the escrow account holding the deposited token
    /// supply.
    pub token_treasury: AccountId,
    /// The currency treasury: the escrow account holding what participants
    /// paid in.
    pub sol_treasury: AccountId,
    /// Timestamp before which no tokens are claimable.
    pub cliff: u64,
    /// Percentage of a participant's entitlement that unlocks at the cliff,
    /// in [0, 100].
    pub available_tokens_after_cliff_ptc: i32,
    /// First timestamp at which joins are accepted.
    pub start_sale_time: u64,
    /// Last timestamp at which joins are accepted.
    pub end_sale_time: u64,
    /// Timestamp at and after which the whole entitlement is claimable.
    pub vesting_end_time: u64,
    /// Price of one token unit, in lamports.
    pub price_lamports: u64,
    /// Token units sold so far over all claims: monotonically non-decreasing.
    pub total_claimed: u64,
    /// Token units sold so far over all joins: monotonically non-decreasing,
    /// never above `hard_cap`.
    pub total_sold: u64,
    /// Number of distinct participants that joined.
    pub total_participants: u64,
    /// Token units in one allocation: a join buys a whole number of
    /// allocations.
    pub allocation: u64,
    /// Minimum raise, in token units, for the sale to count as successful.
    pub soft_cap: u64,
    /// Maximum sellable token units; also the supply the owner deposits.
    pub hard_cap: u64,
    /// Maximum number of allocations one participant may buy.
    pub available_allocations_per_participant: u64,
    /// The mint of the token on sale.
    pub token_mint: AccountId,
    /// Set once the owner has moved the full supply into the token treasury.
    pub token_supply_deposited: bool,
    /// Set when the sale ends early (owner cancel) or is closed after the
    /// soft cap was missed; never cleared.
    pub sale_closed: bool,
    /// Set when a terminal payout has happened (owner withdrawal or owner
    /// cancel); never cleared. No further withdrawal or cancel succeeds.
    pub funds_withdrawn: bool,
}

/// One participant's record in one campaign, created at join time and kept
/// as an audit record ever after.
#[derive(Clone, Copy, Debug, PartialEq, Eq, Structural)]
pub struct User {
    /// The campaign this record belongs to.
    pub ido_campaign: AccountId,
    /// The participant's identity; only this identity may claim or be
    /// refunded through this record.
    pub participant: AccountId,
    /// Token units owed to the participant; zeroed by a refund.
    pub amount: u64,
    /// Lamports the participant paid in; zeroed by a refund.
    pub paid_lamports: u64,
    /// Token units already claimed: monotonically non-decreasing.
    pub claimed: u64,
    /// Timestamp of the join; zero means the record is still blank.
    pub joined_at: u64,
}

impl IdoCampaign {
    /// The schedule ordering that campaign creation establishes: the sale
    /// window is non-empty, the cliff lies after the sale, and vesting ends
    /// after the sale.
    pub open spec fn schedule_wf(self) -> bool {
        &&& self.start_sale_time < self.end_sale_time
        &&& self.cliff > self.start_sale_time
        &&& self.cliff > self.end_sale_time
        &&& self.vesting_end_time > self.end_sale_time
    }

    /// The economic parameters that campaign creation establishes.
    pub open spec fn economics_wf(self) -> bool {
        &&& self.price_lamports > 0
        &&& self.allocation > 0
        &&& self.available_allocations_per_participant > 0
        &&& 0 < self.available_tokens_after_cliff_ptc <= 100
        &&& self.soft_cap > 0
        &&& self.hard_cap > self.soft_cap
    }

    /// The running-total invariant every successful join preserves.
    pub open spec fn caps_wf(self) -> bool {
        self.total_sold <= self.hard_cap
    }

    /// A campaign record as creation leaves it and every operation keeps it.
    pub open spec fn wf(self) -> bool {
        self.schedule_wf() && self.economics_wf() && self.caps_wf()
    }
}

impl User {
    /// A participation record never owes fewer tokens than were claimed
    /// through it, until a refund zeroes the entitlement and thereby ends
    /// the record's claiming life.
    pub open spec fn wf(self) -> bool {
        self.claimed <= self.amount
    }
}

/// The campaign lifecycle, derived from the record's flags and timestamps.
/// The flags are one-way, so a campaign only ever moves forward along
/// `PreSale -> Open -> EndedUnresolved -> ClosedAwaitingSettlement -> Settled`,
/// or branches to `Cancelled` when the owner cancels before settlement.
#[derive(Clone, Copy, Debug, PartialEq, Eq, Structural)]
pub enum LifecycleState {
    /// The sale window has not opened yet.
    PreSale,
    /// The sale window is open: joins are accepted.
    Open,
    /// The sale window has passed but nothing terminal happened yet.
    EndedUnresolved,
    /// The owner cancelled: the token supply went back to the owner, the
    /// currency treasury stays for refunds.
    Cancelled,
    /// The sale was closed below the soft cap: refunds are available, no
    /// payout happened yet.
    ClosedAwaitingSettlement,
    /// The owner withdrew the raise: the campaign is finished.
    Settled,
}

/// Which lifecycle state the flags and the clock put a campaign in.
///
/// Both flags together mean an owner cancel (the one operation that sets
/// both); `funds_withdrawn` alone means the owner withdrawal ran; and
/// `sale_closed` alone means the sale was closed below the soft cap and
/// awaits refunds.
pub open spec fn spec_lifecycle_state(c: IdoCampaign, now: u64) -> LifecycleState {
    if c.funds_withdrawn && c.sale_closed {
        LifecycleState::Cancelled
    } else if c.funds_withdrawn {
        LifecycleState::Settled
    } else if c.sale_closed {
        LifecycleState::ClosedAwaitingSettlement
    } else if now < c.start_sale_time {
        LifecycleState::PreSale
    } else if now <= c.end_sale_time {
        LifecycleState::Open
    } else {
        LifecycleState::EndedUnresolved
    }
}

/// Computes the lifecycle state of a campaign at the given time.
pub fn lifecycle_state(c: &IdoCampaign, now: u64) -> (s: LifecycleState)
    ensures
        s == spec_lifecycle_state(*c, now),
{
    if c.funds_withdrawn && c.sale_closed {
        LifecycleState::Cancelled
    } else if c.funds_withdrawn {
        LifecycleState::Settled
    } else if c.sale_closed {
        LifecycleState::ClosedAwaitingSettlement
    } else if now < c.start_sale_time {
        LifecycleState::PreSale
    } else if now <= c.end_sale_time {
        LifecycleState::Open
    } else {
        LifecycleState::EndedUnresolved
    }
}

} // verus!
