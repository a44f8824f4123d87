use kyo_dlmm::distribution::{execute_distribution_crank, ExecuteDistributionCrank};
use kyo_dlmm::distribution::calculate_total_locked;
use kyo_dlmm::errors::KyoDlmmError;
use kyo_dlmm::state::{
    AccountId, ClaimedFees, DistributionProgress, HonoraryPosition, InvestorData,
    PayoutInstruction, PolicyConfig, PoolConfig,
};

fn acct(id: u64) -> AccountId {
    AccountId { id }
}

fn policy(bps: u16, cap: u64, min_payout: u64) -> PolicyConfig {
    PolicyConfig {
        investor_fee_share_bps: bps,
        daily_cap_quote: cap,
        min_payout_lamports: min_payout,
        authority: acct(900),
    }
}

fn fresh_progress(y0: u64) -> DistributionProgress {
    DistributionProgress {
        last_distribution_ts: 0,
        daily_distributed: 0,
        carry_over: 0,
        cursor: 0,
        total_investor_allocation: y0,
    }
}

fn position() -> HonoraryPosition {
    HonoraryPosition {
        position_key: acct(700),
        pool_config: PoolConfig {
            pool_id: acct(701),
            lower_tick: -10,
            upper_tick: 10,
            liquidity: 1,
        },
        quote_mint: acct(702),
        base_mint: acct(703),
        is_active: true,
    }
}

fn crank_ctx(policy: PolicyConfig, progress: DistributionProgress) -> ExecuteDistributionCrank {
    ExecuteDistributionCrank {
        honorary_position: position(),
        policy,
        progress,
        program_quote_treasury: acct(800),
        creator_quote_ata: acct(801),
    }
}

fn inv(id: u64, locked: u64) -> InvestorData {
    InvestorData {
        investor_quote_ata: acct(id),
        stream_pubkey: acct(id + 100),
        locked_amount: locked,
    }
}

fn fees(quote: u64, base: u64) -> ClaimedFees {
    ClaimedFees { quote_fees: quote, base_fees: base }
}

#[test]
fn full_page_scenario_pays_pro_rata() {
    let mut ctx = crank_ctx(policy(5000, 1_000_000, 100), fresh_progress(1_000_000));
    let investors = vec![inv(1, 600_000), inv(2, 400_000)];
    let out =
        execute_distribution_crank(&mut ctx, &investors, 2, 1_000_000, fees(100_000, 0)).unwrap();
    assert_eq!(
        out.payouts,
        vec![
            PayoutInstruction { destination: acct(1), amount: 30_000 },
            PayoutInstruction { destination: acct(2), amount: 20_000 },
        ]
    );
    assert_eq!(out.total_payout, 50_000);
    let dc = out.day_close.unwrap();
    assert_eq!(dc.daily_total_claimed, 100_000);
    assert_eq!(dc.investor_share, 50_000);
    assert_eq!(dc.creator_share, 50_000);
    assert_eq!(dc.carry_over, 0);
    let cp = out.creator_payout.unwrap();
    assert_eq!(cp.destination, acct(801));
    assert_eq!(cp.amount, 50_000);
    assert_eq!(ctx.progress.daily_distributed, 50_000);
    assert_eq!(ctx.progress.cursor, 2);
    assert_eq!(ctx.progress.last_distribution_ts, 1_000_000);
    assert_eq!(ctx.progress.total_investor_allocation, 1_000_000);
    assert_eq!(ctx.progress.carry_over, 0);
}

#[test]
fn base_fees_detected_fails_without_state_change() {
    let mut ctx = crank_ctx(policy(5000, 1_000_000, 100), fresh_progress(1_000_000));
    let before = ctx.progress;
    let investors = vec![inv(1, 600_000), inv(2, 400_000)];
    let r = execute_distribution_crank(&mut ctx, &investors, 2, 1_000_000, fees(100_000, 500));
    assert_eq!(r.unwrap_err(), KyoDlmmError::BaseFeesDetected);
    assert_eq!(ctx.progress, before);
}

#[test]
fn gate_blocks_second_invocation_within_a_day() {
    let mut ctx = crank_ctx(policy(5000, 1_000_000, 100), fresh_progress(1_000_000));
    let investors = vec![inv(1, 600_000), inv(2, 400_000)];
    execute_distribution_crank(&mut ctx, &investors, 2, 1_000_000, fees(100_000, 0)).unwrap();
    let before = ctx.progress;
    let r = execute_distribution_crank(
        &mut ctx,
        &investors,
        2,
        1_000_000 + 86_399,
        fees(100_000, 0),
    );
    assert_eq!(r.unwrap_err(), KyoDlmmError::DistributionTooEarly);
    assert_eq!(ctx.progress, before);
    let r2 = execute_distribution_crank(
        &mut ctx,
        &investors,
        2,
        1_000_000 + 86_400,
        fees(100_000, 0),
    );
    assert!(r2.is_ok());
    assert_eq!(ctx.progress.last_distribution_ts, 1_000_000 + 86_400);
}

#[test]
fn first_cycle_sets_baseline_and_pays_against_it() {
    let mut ctx = crank_ctx(policy(5000, 1_000_000, 100), fresh_progress(0));
    let investors = vec![inv(1, 600_000), inv(2, 400_000)];
    let out =
        execute_distribution_crank(&mut ctx, &investors, 2, 5_000, fees(100_000, 0)).unwrap();
    // The baseline was unset, so this cycle fixes it and measures the
    // locked fraction against it: everything is still locked, the
    // ceiling binds, and investors are paid pro rata.
    assert_eq!(ctx.progress.total_investor_allocation, 1_000_000);
    assert_eq!(
        out.payouts,
        vec![
            PayoutInstruction { destination: acct(1), amount: 30_000 },
            PayoutInstruction { destination: acct(2), amount: 20_000 },
        ]
    );
    assert_eq!(out.total_payout, 50_000);
    assert_eq!(out.day_close.unwrap().creator_share, 50_000);
}

#[test]
fn nonzero_baseline_is_never_overwritten() {
    let mut ctx = crank_ctx(policy(5000, u64::MAX, 100), fresh_progress(1_000_000));
    let investors = vec![inv(1, 100_000)];
    execute_distribution_crank(&mut ctx, &investors, 1, 5_000, fees(10_000, 0)).unwrap();
    assert_eq!(ctx.progress.total_investor_allocation, 1_000_000);
    let fewer_locked = vec![inv(1, 50_000)];
    execute_distribution_crank(&mut ctx, &fewer_locked, 1, 5_000 + 86_400, fees(10_000, 0))
        .unwrap();
    assert_eq!(ctx.progress.total_investor_allocation, 1_000_000);
}

#[test]
fn locked_sum_overflow_is_rejected() {
    let mut ctx = crank_ctx(policy(5000, 1_000_000, 100), fresh_progress(1_000_000));
    let before = ctx.progress;
    let investors = vec![inv(1, u64::MAX), inv(2, 1)];
    let r = execute_distribution_crank(&mut ctx, &investors, 2, 1_000_000, fees(100_000, 0));
    assert_eq!(r.unwrap_err(), KyoDlmmError::MathOverflow);
    assert_eq!(ctx.progress, before);
}

#[test]
fn daily_cap_bounds_the_investor_share() {
    let mut ctx = crank_ctx(policy(5000, 10_000, 100), fresh_progress(1_000_000));
    let investors = vec![inv(1, 600_000), inv(2, 400_000)];
    let out =
        execute_distribution_crank(&mut ctx, &investors, 2, 1_000_000, fees(100_000, 0)).unwrap();
    // The uncapped investor share would be 50_000; the cap limits the
    // distributable amount to 10_000, split 6000/4000 bps.
    assert_eq!(
        out.payouts,
        vec![
            PayoutInstruction { destination: acct(1), amount: 6_000 },
            PayoutInstruction { destination: acct(2), amount: 4_000 },
        ]
    );
    assert_eq!(ctx.progress.daily_distributed, 10_000);
    assert!(ctx.progress.daily_distributed <= ctx.policy.daily_cap_quote);
}

#[test]
fn dust_payouts_are_suppressed_not_carried() {
    let mut ctx = crank_ctx(policy(5000, 1_000_000, 25_000), fresh_progress(1_000_000));
    let investors = vec![inv(1, 600_000), inv(2, 400_000)];
    let out =
        execute_distribution_crank(&mut ctx, &investors, 2, 1_000_000, fees(100_000, 0)).unwrap();
    // 30_000 clears the threshold, 20_000 does not and is dropped.
    assert_eq!(
        out.payouts,
        vec![PayoutInstruction { destination: acct(1), amount: 30_000 }]
    );
    assert_eq!(out.total_payout, 30_000);
    let dc = out.day_close.unwrap();
    // Conservation: paid + creator + carry-over accounts for the claim.
    assert_eq!(out.total_payout + dc.creator_share + dc.carry_over, 100_000);
    assert_eq!(dc.creator_share, 70_000);
}

#[test]
fn weights_normalize_within_rounding() {
    // With a full ceiling and a capped share of exactly 10_000, each
    // payout equals the investor's weight in basis points.
    let mut ctx = crank_ctx(policy(10_000, u64::MAX, 100), fresh_progress(1_000));
    let investors = vec![inv(1, 333), inv(2, 333), inv(3, 334)];
    let out =
        execute_distribution_crank(&mut ctx, &investors, 3, 1_000_000, fees(10_000, 0)).unwrap();
    let weights: Vec<u64> = out.payouts.iter().map(|p| p.amount).collect();
    assert_eq!(weights, vec![3_330, 3_330, 3_340]);
    let sum: u64 = weights.iter().sum();
    assert!(sum <= 10_000);
    assert!(sum >= 10_000 - investors.len() as u64);
}

#[test]
fn partial_page_leaves_day_open() {
    let mut progress = fresh_progress(1_000_000);
    progress.carry_over = 7;
    let mut ctx = crank_ctx(policy(5000, 1_000_000, 100), progress);
    let investors = vec![inv(1, 600_000), inv(2, 400_000)];
    let out =
        execute_distribution_crank(&mut ctx, &investors, 1, 1_000_000, fees(100_000, 0)).unwrap();
    assert_eq!(
        out.payouts,
        vec![PayoutInstruction { destination: acct(1), amount: 30_000 }]
    );
    assert!(out.day_close.is_none());
    assert!(out.creator_payout.is_none());
    assert_eq!(ctx.progress.cursor, 1);
    assert_eq!(ctx.progress.daily_distributed, 30_000);
    // Carry-over is only touched at day close.
    assert_eq!(ctx.progress.carry_over, 7);
    assert_eq!(out.investor_payout_page.page_number, 0);
    assert_eq!(out.investor_payout_page.investors_processed, 1);
}

#[test]
fn gate_blocks_even_a_continuation_page() {
    let mut ctx = crank_ctx(policy(5000, 1_000_000, 100), fresh_progress(1_000_000));
    let investors = vec![inv(1, 600_000), inv(2, 400_000)];
    execute_distribution_crank(&mut ctx, &investors, 1, 1_000_000, fees(100_000, 0)).unwrap();
    assert_eq!(ctx.progress.cursor, 1);
    let r = execute_distribution_crank(&mut ctx, &investors, 1, 1_000_001, fees(0, 0));
    assert_eq!(r.unwrap_err(), KyoDlmmError::DistributionTooEarly);
    assert_eq!(ctx.progress.cursor, 1);
}

#[test]
fn cursor_resets_at_new_day() {
    let mut ctx = crank_ctx(policy(5000, 1_000_000, 100), fresh_progress(1_000_000));
    let investors = vec![inv(1, 600_000), inv(2, 400_000)];
    execute_distribution_crank(&mut ctx, &investors, 2, 1_000_000, fees(100_000, 0)).unwrap();
    assert_eq!(ctx.progress.cursor, 2);
    let out = execute_distribution_crank(
        &mut ctx,
        &investors,
        1,
        1_000_000 + 86_400,
        fees(100_000, 0),
    )
    .unwrap();
    // The new day started from cursor 0 and advanced one page.
    assert_eq!(ctx.progress.cursor, 1);
    assert_eq!(out.investor_payout_page.page_number, 0);
    assert_eq!(ctx.progress.daily_distributed, out.total_payout);
}

#[test]
fn empty_record_list_closes_day_to_creator() {
    let mut ctx = crank_ctx(policy(5000, 1_000_000, 100), fresh_progress(0));
    let investors: Vec<InvestorData> = vec![];
    let out =
        execute_distribution_crank(&mut ctx, &investors, 4, 1_000_000, fees(55_000, 0)).unwrap();
    assert!(out.payouts.is_empty());
    assert_eq!(out.day_close.unwrap().creator_share, 55_000);
    assert_eq!(out.creator_payout.unwrap().amount, 55_000);
    assert_eq!(ctx.progress.cursor, 0);
}

#[test]
fn zero_claim_closes_day_with_no_transfers() {
    let mut ctx = crank_ctx(policy(5000, 1_000_000, 100), fresh_progress(1_000_000));
    let investors = vec![inv(1, 600_000), inv(2, 400_000)];
    let out =
        execute_distribution_crank(&mut ctx, &investors, 2, 1_000_000, fees(0, 0)).unwrap();
    assert!(out.payouts.is_empty());
    assert!(out.creator_payout.is_none());
    let dc = out.day_close.unwrap();
    assert_eq!(dc.creator_share, 0);
    assert_eq!(dc.carry_over, 0);
}

#[test]
fn claim_event_reports_both_denominations() {
    let mut ctx = crank_ctx(policy(5000, 1_000_000, 100), fresh_progress(1_000_000));
    let investors = vec![inv(1, 600_000)];
    let out =
        execute_distribution_crank(&mut ctx, &investors, 1, 42, fees(100_000, 0)).unwrap();
    assert_eq!(out.quote_fees_claimed.position_key, acct(700));
    assert_eq!(out.quote_fees_claimed.claimed_quote_fees, 100_000);
    assert_eq!(out.quote_fees_claimed.claimed_base_fees, 0);
    assert_eq!(out.quote_fees_claimed.timestamp, 42);
}

#[test]
fn total_locked_sums_exactly() {
    let investors = vec![inv(1, 10), inv(2, 20), inv(3, 12)];
    assert_eq!(calculate_total_locked(&investors).unwrap(), 42);
    let empty: Vec<InvestorData> = vec![];
    assert_eq!(calculate_total_locked(&empty).unwrap(), 0);
}

#[test]
fn total_locked_overflow_reports_math_overflow() {
    let investors = vec![inv(1, u64::MAX), inv(2, u64::MAX)];
    assert_eq!(
        calculate_total_locked(&investors).unwrap_err(),
        KyoDlmmError::MathOverflow
    );
}
