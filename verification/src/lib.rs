//! Settlement engine for a token-sale campaign.
//!
//! A campaign sells allocations of a token for a fixed price during a sale
//! window; the bought tokens unlock over a cliff-plus-linear vesting
//! schedule, and the raised currency is either paid out to the campaign
//! owner (when the soft cap was reached) or refunded to the participants
//! (when it was not).
//!
//! The crate holds the campaign lifecycle state machine and its settlement
//! arithmetic: which operation is legal in which state, how many tokens a
//! participant may claim at a point in time, and how much currency moves in
//! each terminal flow. Every operation is a function from the campaign and
//! participation records plus the values the surrounding runtime supplies
//! (the current time, account balances, the caller's identity) to either an
//! error - leaving all records unchanged - or the updated records together
//! with the amounts the runtime must transfer. The actual transfers, account
//! addressing, signature checks and the clock are the runtime's business and
//! stay outside this crate.

pub mod claim;
pub mod close_campaign;
pub mod close_campaign_if_soft_cap_not_reached;
pub mod create_ido_campaign;
pub mod deposit_tokens_to_sale;
pub mod errors;
pub mod join_ido;
pub mod refund;
pub mod state;
pub mod vesting;
pub mod withdraw_funds;
pub mod withdraw_tokens_to_owner_if_soft_cap_not_reached;
