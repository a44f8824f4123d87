use vstd::prelude::*;
use crate::errors::KyoDlmmError;
use crate::events::HonoraryPositionInitialized;
use crate::state::{AccountId, DistributionProgress, HonoraryPosition, PolicyConfig, PoolConfig};

verus! {

/// Identities involved in creating the honorary position: the paying
/// caller (who becomes the policy authority) and the two mints.
#[derive(Clone, Copy, Debug, PartialEq, Eq, Structural)]
pub struct InitializeHonoraryPosition {
    /// The caller paying for and authorizing the setup
    pub payer: AccountId,
    /// Quote mint (must be the fee accrual mint)
    pub quote_mint: AccountId,
    /// Base mint
    pub base_mint: AccountId,
}

/// Everything the one-time setup produces: the position record, the
/// default policy, the zeroed progress, and the audit event.
#[derive(Clone, Copy, Debug, PartialEq, Eq, Structural)]
pub struct PositionSetup {
    pub honorary_position: HonoraryPosition,
    pub policy: PolicyConfig,
    pub progress: DistributionProgress,
    pub event: HonoraryPositionInitialized,
}

/// Checks that the pool coordinates describe a position that can only
/// accrue quote fees: the tick range must be nonempty and the position
/// must carry liquidity.
pub fn validate_quote_only_config(pool_config: &PoolConfig) -> (r: Result<(), KyoDlmmError>)
    ensures
        r is Ok <==> pool_config.lower_tick < pool_config.upper_tick && pool_config.liquidity > 0,
        r is Err ==> r == Err::<(), KyoDlmmError>(KyoDlmmError::InvalidPoolConfig),
{
    if !(pool_config.lower_tick < pool_config.upper_tick) {
        return Err(KyoDlmmError::InvalidPoolConfig);
    }
    if !(pool_config.liquidity > 0) {
        return Err(KyoDlmmError::InvalidPoolConfig);
    }
    Ok(())
}

/// One-time setup. Validates the pool coordinates, then produces the
/// active position record, a default policy (50% investor ceiling, no
/// daily cap, 1000-lamport dust threshold, the payer as authority) and
/// an all-zero progress record whose baseline will be fixed by the
/// first distribution cycle.
pub fn initialize_honorary_position(
    ctx: &InitializeHonoraryPosition,
    pool_config: PoolConfig,
    now: i64,
) -> (r: Result<PositionSetup, KyoDlmmError>)
    ensures
        r is Ok <==> pool_config.lower_tick < pool_config.upper_tick && pool_config.liquidity > 0,
        r is Err ==> r == Err::<PositionSetup, KyoDlmmError>(KyoDlmmError::InvalidPoolConfig),
        r matches Ok(s) ==> s == (PositionSetup {
            honorary_position: HonoraryPosition {
                position_key: pool_config.pool_id,
                pool_config: pool_config,
                quote_mint: ctx.quote_mint,
                base_mint: ctx.base_mint,
                is_active: true,
            },
            policy: PolicyConfig {
                investor_fee_share_bps: 5000,
                daily_cap_quote: u64::MAX,
                min_payout_lamports: 1000,
                authority: ctx.payer,
            },
            progress: DistributionProgress {
                last_distribution_ts: 0,
                daily_distributed: 0,
                carry_over: 0,
                cursor: 0,
                total_investor_allocation: 0,
            },
            event: HonoraryPositionInitialized {
                position_key: pool_config.pool_id,
                pool_id: pool_config.pool_id,
                quote_mint: ctx.quote_mint,
                base_mint: ctx.base_mint,
                timestamp: now,
            },
        }),
        r matches Ok(s) ==> s.policy.wf() && s.progress.wf() && s.progress.daily_distributed
            <= s.policy.daily_cap_quote,
{
    match validate_quote_only_config(&pool_config) {
        Ok(_) => {},
        Err(e) => {
            return Err(e);
        },
    }
    Ok(
        PositionSetup {
            honorary_position: HonoraryPosition {
                position_key: pool_config.pool_id,
                pool_config: pool_config,
                quote_mint: ctx.quote_mint,
                base_mint: ctx.base_mint,
                is_active: true,
            },
            policy: PolicyConfig {
                investor_fee_share_bps: 5000,
                daily_cap_quote: u64::MAX,
                min_payout_lamports: 1000,
                authority: ctx.payer,
            },
            progress: DistributionProgress {
                last_distribution_ts: 0,
                daily_distributed: 0,
                carry_over: 0,
                cursor: 0,
                total_investor_allocation: 0,
            },
            event: HonoraryPositionInitialized {
                position_key: pool_config.pool_id,
                pool_id: pool_config.pool_id,
                quote_mint: ctx.quote_mint,
                base_mint: ctx.base_mint,
                timestamp: now,
            },
        },
    )
}

} // verus!
