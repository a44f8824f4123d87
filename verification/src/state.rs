use vstd::prelude::*;

verus! {

/// An opaque account identity. Payout destinations, mints, stream
/// handles and authorities are only ever compared for equality and
/// passed through to the host's transfer primitive, never inspected,
/// so a plain integer token stands for each distinct account.
#[derive(Clone, Copy, Debug, PartialEq, Eq, Structural)]
pub struct AccountId {
    pub id: u64,
}

/// Tunable parameters governing every distribution cycle, mutated only
/// by the stored authority.
#[derive(Clone, Copy, Debug, PartialEq, Eq, Structural)]
pub struct PolicyConfig {
    /// Fee share for investors in basis points (0-10000)
    pub investor_fee_share_bps: u16,
    /// Daily cap for distributions in quote tokens
    pub daily_cap_quote: u64,
    /// Minimum payout threshold to avoid dust
    pub min_payout_lamports: u64,
    /// Authority that can update the policy
    pub authority: AccountId,
}

impl PolicyConfig {
    /// Policy invariant: the investor ceiling is a valid basis-point
    /// fraction and the dust threshold is positive.
    pub open spec fn wf(self) -> bool {
        &&& self.investor_fee_share_bps <= 10000
        &&& self.min_payout_lamports > 0
    }
}

/// Mutable state of the in-flight or most recent daily cycle, owned
/// exclusively by the distribution engine.
#[derive(Clone, Copy, Debug, PartialEq, Eq, Structural)]
pub struct DistributionProgress {
    /// Last distribution timestamp (0 = never run)
    pub last_distribution_ts: i64,
    /// Cumulative amount distributed today
    pub daily_distributed: u64,
    /// Carry-over amount from the previous day-close
    pub carry_over: u64,
    /// Current pagination cursor into the rights-holder list
    pub cursor: u32,
    /// Total investor allocation at baseline (Y0), set on the first
    /// cycle and never overwritten while nonzero
    pub total_investor_allocation: u64,
}

impl DistributionProgress {
    /// A stored trigger time is either 0 (never run) or a nonnegative
    /// clock reading, so gate arithmetic cannot overflow.
    pub open spec fn wf(self) -> bool {
        self.last_distribution_ts >= 0
    }
}

/// Pool coordinates of the honorary position.
#[derive(Clone, Copy, Debug, PartialEq, Eq, Structural)]
pub struct PoolConfig {
    /// Pool identity at the trading venue
    pub pool_id: AccountId,
    /// Lower tick for the position
    pub lower_tick: i32,
    /// Upper tick for the position
    pub upper_tick: i32,
    /// Initial liquidity amount
    pub liquidity: u128,
}

/// The fee-accruing position whose claims the engine distributes.
#[derive(Clone, Copy, Debug, PartialEq, Eq, Structural)]
pub struct HonoraryPosition {
    /// The venue's position key
    pub position_key: AccountId,
    /// Pool configuration
    pub pool_config: PoolConfig,
    /// Quote mint (must be the fee accrual mint)
    pub quote_mint: AccountId,
    /// Base mint
    pub base_mint: AccountId,
    /// Whether the position is active
    pub is_active: bool,
}

/// One caller-supplied rights-holder record: where to pay, which lock
/// schedule backs the claim, and how much is still locked now.
#[derive(Clone, Copy, Debug, PartialEq, Eq, Structural)]
pub struct InvestorData {
    /// Investor's quote token account
    pub investor_quote_ata: AccountId,
    /// Backing lock-schedule stream
    pub stream_pubkey: AccountId,
    /// Amount still locked at the current timestamp
    pub locked_amount: u64,
}

/// A lock-schedule oracle record, kept for callers that mirror the
/// oracle's data alongside the engine's inputs.
#[derive(Clone, Copy, Debug, PartialEq, Eq, Structural)]
pub struct StreamflowStreamData {
    /// Stream identity
    pub stream_pubkey: AccountId,
    /// Total allocated amount
    pub total_allocated: u64,
    /// Amount still locked
    pub locked_amount: u64,
    /// Last update timestamp
    pub last_update_ts: i64,
}

/// Fees claimed from the venue for one cycle trigger, one amount per
/// denomination.
#[derive(Clone, Copy, Debug, PartialEq, Eq, Structural)]
pub struct ClaimedFees {
    pub quote_fees: u64,
    pub base_fees: u64,
}

/// One transfer the host must perform on the engine's behalf.
#[derive(Clone, Copy, Debug, PartialEq, Eq, Structural)]
pub struct PayoutInstruction {
    /// Destination account
    pub destination: AccountId,
    /// Amount in quote tokens
    pub amount: u64,
}

} // verus!
