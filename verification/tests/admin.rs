use kyo_dlmm::errors::KyoDlmmError;
use kyo_dlmm::initialize::{
    initialize_honorary_position, validate_quote_only_config, InitializeHonoraryPosition,
};
use kyo_dlmm::policy::{update_policy, UpdatePolicy};
use kyo_dlmm::state::{AccountId, PolicyConfig, PoolConfig};

fn ident(id: u64) -> AccountId {
    AccountId { id }
}

fn setup_ctx() -> InitializeHonoraryPosition {
    InitializeHonoraryPosition {
        payer: ident(1),
        quote_mint: ident(2),
        base_mint: ident(3),
    }
}

fn pool(lower: i32, upper: i32, liquidity: u128) -> PoolConfig {
    PoolConfig { pool_id: ident(4), lower_tick: lower, upper_tick: upper, liquidity }
}

#[test]
fn initialize_produces_defaults() {
    let setup = initialize_honorary_position(&setup_ctx(), pool(-100, 100, 5_000), 77).unwrap();
    assert_eq!(setup.policy.investor_fee_share_bps, 5_000);
    assert_eq!(setup.policy.daily_cap_quote, u64::MAX);
    assert_eq!(setup.policy.min_payout_lamports, 1_000);
    assert_eq!(setup.policy.authority, ident(1));
    assert_eq!(setup.progress.last_distribution_ts, 0);
    assert_eq!(setup.progress.daily_distributed, 0);
    assert_eq!(setup.progress.carry_over, 0);
    assert_eq!(setup.progress.cursor, 0);
    assert_eq!(setup.progress.total_investor_allocation, 0);
    assert_eq!(setup.honorary_position.position_key, ident(4));
    assert_eq!(setup.honorary_position.quote_mint, ident(2));
    assert_eq!(setup.honorary_position.base_mint, ident(3));
    assert!(setup.honorary_position.is_active);
    assert_eq!(setup.event.pool_id, ident(4));
    assert_eq!(setup.event.timestamp, 77);
}

#[test]
fn initialize_rejects_empty_tick_range() {
    let r = initialize_honorary_position(&setup_ctx(), pool(10, 10, 5_000), 77);
    assert_eq!(r.unwrap_err(), KyoDlmmError::InvalidPoolConfig);
}

#[test]
fn initialize_rejects_zero_liquidity() {
    let r = initialize_honorary_position(&setup_ctx(), pool(-100, 100, 0), 77);
    assert_eq!(r.unwrap_err(), KyoDlmmError::InvalidPoolConfig);
}

#[test]
fn quote_only_config_check_is_exact() {
    assert!(validate_quote_only_config(&pool(-1, 1, 1)).is_ok());
    assert!(validate_quote_only_config(&pool(1, -1, 1)).is_err());
    assert!(validate_quote_only_config(&pool(-1, 1, 0)).is_err());
}

fn stored_policy() -> PolicyConfig {
    PolicyConfig {
        investor_fee_share_bps: 5_000,
        daily_cap_quote: 1_000_000,
        min_payout_lamports: 1_000,
        authority: ident(9),
    }
}

fn new_values(bps: u16, cap: u64, min_payout: u64) -> PolicyConfig {
    PolicyConfig {
        investor_fee_share_bps: bps,
        daily_cap_quote: cap,
        min_payout_lamports: min_payout,
        authority: ident(9),
    }
}

#[test]
fn update_policy_applies_validated_values() {
    let mut ctx = UpdatePolicy { authority: ident(9), policy: stored_policy() };
    let event = update_policy(&mut ctx, new_values(7_500, 250_000, 50), 88).unwrap();
    assert_eq!(ctx.policy.investor_fee_share_bps, 7_500);
    assert_eq!(ctx.policy.daily_cap_quote, 250_000);
    assert_eq!(ctx.policy.min_payout_lamports, 50);
    assert_eq!(ctx.policy.authority, ident(9));
    assert_eq!(event.new_investor_fee_share_bps, 7_500);
    assert_eq!(event.new_daily_cap_quote, 250_000);
    assert_eq!(event.new_min_payout_lamports, 50);
    assert_eq!(event.timestamp, 88);
}

#[test]
fn update_policy_rejects_wrong_authority() {
    let mut ctx = UpdatePolicy { authority: ident(8), policy: stored_policy() };
    let before = ctx.policy;
    let r = update_policy(&mut ctx, new_values(7_500, 250_000, 50), 88);
    assert_eq!(r.unwrap_err(), KyoDlmmError::InvalidAuthority);
    assert_eq!(ctx.policy, before);
}

#[test]
fn update_policy_rejects_ceiling_above_10000() {
    let mut ctx = UpdatePolicy { authority: ident(9), policy: stored_policy() };
    let before = ctx.policy;
    let r = update_policy(&mut ctx, new_values(10_001, 250_000, 50), 88);
    assert_eq!(r.unwrap_err(), KyoDlmmError::InvalidAuthority);
    assert_eq!(ctx.policy, before);
}

#[test]
fn update_policy_rejects_zero_dust_threshold() {
    let mut ctx = UpdatePolicy { authority: ident(9), policy: stored_policy() };
    let before = ctx.policy;
    let r = update_policy(&mut ctx, new_values(7_500, 250_000, 0), 88);
    assert_eq!(r.unwrap_err(), KyoDlmmError::InvalidAuthority);
    assert_eq!(ctx.policy, before);
}
