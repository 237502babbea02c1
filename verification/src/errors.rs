use vstd::prelude::*;

verus! {

/// The error kinds the campaign operations report.
///
/// Every operation detects its error before it changes any record, so a
/// caller that receives one of these sees the campaign and participation
/// records exactly as they were before the call.
#[derive(Clone, Copy, Debug, PartialEq, Eq, Structural)]
pub enum IdoError {
    ErrUnauthorized,
    ErrInvalidProof,
    ErrInvalidStartSaleTime,
    ErrInvalidEndSaleTime,
    ErrInvalidCliff,
    ErrInvalidPrice,
    ErrInvalidBalanceOfTokensToDeposit,
    ErrInvalidAllocation,
    ErrMathOverflow,
    ErrNothingToClaim,
    ErrInvalidMintAccount,
    ErrInvalidOwnerTokenAccount,
    ErrInvalidAvailableTokensAfterCliffPtc,
    ErrInvalidTokensTreasuryMint,
    ErrInvalidOwner,
    ErrInvalidSoftCap,
    ErrInvalidHardCap,
    ErrInvalidAvailableAllocationsPerParticipant,
    ErrInvalidNumberOfAllocations,
    ErrInvalidSalePeriod,
    ErrThisAllocationIsNotAvailable,
    ErrUserAlreadyJoined,
    ErrInsufficientFunds,
    ErrTokenSupplyNotDeposited,
    ErrInvalidVestingEndTime,
    ErrUserNotJoined,
    ErrInvalidIdoCampaign,
    ErrInvalidTokensTreasuryAmount,
    ErrInsufficientFundsInTreasury,
    ErrFundsAlreadyWithdrawn,
    ErrSoftCapNotReached,
    ErrSoftCapReached,
    ErrInvalidTokenMint,
    ErrSaleAlreadyClosed,
    ErrSaleEnded,
    ErrTotalClaimedNotZero,
    ErrNothingToRefund,
    ErrSaleNotClosed,
    ErrNotEnoughFundsInSolTreasury,
    ErrInvalidSolTreasury,
}

} // verus!
