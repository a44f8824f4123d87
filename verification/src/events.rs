use vstd::prelude::*;
use crate::state::AccountId;

verus! {

/// Emitted once when the honorary position and its policy and progress
/// records are created.
#[derive(Clone, Copy, Debug, PartialEq, Eq, Structural)]
pub struct HonoraryPositionInitialized {
    pub position_key: AccountId,
    pub pool_id: AccountId,
    pub quote_mint: AccountId,
    pub base_mint: AccountId,
    pub timestamp: i64,
}

/// Emitted after every successful claim; base fees are reported for
/// auditability even though they must be zero.
#[derive(Clone, Copy, Debug, PartialEq, Eq, Structural)]
pub struct QuoteFeesClaimed {
    pub position_key: AccountId,
    pub claimed_quote_fees: u64,
    pub claimed_base_fees: u64,
    pub timestamp: i64,
}

/// Emitted after each processed page of rights-holders.
#[derive(Clone, Copy, Debug, PartialEq, Eq, Structural)]
pub struct InvestorPayoutPage {
    pub page_number: u32,
    pub investors_processed: u32,
    pub total_payout: u64,
    pub timestamp: i64,
}

/// Emitted when the final page of a day has been processed and the
/// residual has been routed to the creator.
#[derive(Clone, Copy, Debug, PartialEq, Eq, Structural)]
pub struct CreatorPayoutDayClosed {
    pub daily_total_claimed: u64,
    pub investor_share: u64,
    pub creator_share: u64,
    pub carry_over: u64,
    pub timestamp: i64,
}

/// Emitted after an authorized policy update.
#[derive(Clone, Copy, Debug, PartialEq, Eq, Structural)]
pub struct PolicyUpdated {
    pub new_investor_fee_share_bps: u16,
    pub new_daily_cap_quote: u64,
    pub new_min_payout_lamports: u64,
    pub timestamp: i64,
}

} // verus!
