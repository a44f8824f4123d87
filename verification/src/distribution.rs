use vstd::prelude::*;
use vstd::arithmetic::div_mod::{lemma_div_nonincreasing, lemma_div_pos_is_pos};
use vstd::arithmetic::mul::lemma_mul_upper_bound;
use crate::errors::KyoDlmmError;
use crate::events::{CreatorPayoutDayClosed, InvestorPayoutPage, QuoteFeesClaimed};
use crate::math::{
    int_min, lemma_element_le_sum, lemma_investor_fee_le_quote, lemma_payout_le_capped,
    lemma_payout_total_le_capped, lemma_sum_locked_range_extend, lemma_weight_bps_le,
    payout_seq_range, payout_total_range, spec_eligible_share_bps, spec_investor_fee_quote,
    spec_locked_fraction_bps, spec_payout, spec_remaining_cap, spec_weight_bps, sum_locked,
    sum_locked_range,
};
use crate::state::{
    AccountId, ClaimedFees, DistributionProgress, HonoraryPosition, InvestorData,
    PayoutInstruction, PolicyConfig,
};

verus! {

/// The 24-hour gate: a prior cycle exists and has not yet aged a full
/// day, so no invocation may proceed.
pub open spec fn spec_gate_blocked(progress: DistributionProgress, now: int) -> bool {
    progress.last_distribution_ts > 0 && now - progress.last_distribution_ts < 86400
}

/// A cycle is a new day when nothing ran before or a full day elapsed.
pub open spec fn spec_is_new_day(progress: DistributionProgress, now: int) -> bool {
    progress.last_distribution_ts == 0 || now - progress.last_distribution_ts >= 86400
}

/// The amount available to investors this invocation: the claim's
/// investor portion (lesser of the policy ceiling and the still-locked
/// fraction, applied to the claimed quote) limited by what is left of
/// the daily cap.
pub open spec fn spec_capped_share_for(
    policy: PolicyConfig,
    y0: int,
    daily0: int,
    total_locked: int,
    quote: int,
) -> int {
    let f_locked = spec_locked_fraction_bps(total_locked, y0);
    let eligible = spec_eligible_share_bps(policy.investor_fee_share_bps as int, f_locked);
    let investor_fee = spec_investor_fee_quote(quote, eligible);
    let remaining = spec_remaining_cap(policy.daily_cap_quote as int, daily0);
    int_min(investor_fee, remaining)
}

/// State touched by one crank invocation: the position being claimed
/// from, its policy and progress records, and the treasury and creator
/// accounts that transfers route through.
#[derive(Clone, Copy, Debug, PartialEq, Eq, Structural)]
pub struct ExecuteDistributionCrank {
    /// The fee-accruing position
    pub honorary_position: HonoraryPosition,
    /// Policy configuration
    pub policy: PolicyConfig,
    /// Distribution progress
    pub progress: DistributionProgress,
    /// Program quote treasury account
    pub program_quote_treasury: AccountId,
    /// Creator quote account
    pub creator_quote_ata: AccountId,
}

/// Everything a successful invocation asks of the host and reports to
/// auditors: the investor transfers to perform, the optional creator
/// transfer, and the emitted events.
#[derive(Debug)]
pub struct CrankOutcome {
    /// Claim-observed notification
    pub quote_fees_claimed: QuoteFeesClaimed,
    /// Investor transfers to perform, in record order
    pub payouts: Vec<PayoutInstruction>,
    /// Amount paid to investors by this invocation
    pub total_payout: u64,
    /// Page-completed notification
    pub investor_payout_page: InvestorPayoutPage,
    /// Residual transfer to the creator, when the day closed with a
    /// nonzero residual
    pub creator_payout: Option<PayoutInstruction>,
    /// Day-closed notification, when this page reached the end of the
    /// rights-holder list
    pub day_close: Option<CreatorPayoutDayClosed>,
}

/// Sums the locked amounts over the whole supplied record list, with
/// checked addition.
#[verifier::loop_isolation(false)]
pub fn calculate_total_locked(investor_data: &Vec<InvestorData>) -> (r: Result<u64, KyoDlmmError>)
    ensures
        r matches Ok(total) ==> total as int == sum_locked(investor_data@),
        r is Ok <==> sum_locked(investor_data@) <= u64::MAX,
        r is Err ==> r == Err::<u64, KyoDlmmError>(KyoDlmmError::MathOverflow),
{
    let ghost s = investor_data@;
    let mut total: u64 = 0;
    let mut i: usize = 0;
    while i < investor_data.len()
        invariant
            i <= investor_data.len(),
            total as int == sum_locked_range(s, 0, i as int),
        decreases investor_data.len() - i,
    {
        let locked = investor_data[i].locked_amount;
        if total > u64::MAX - locked {
            proof {
                assert(sum_locked_range(s, 0, i as int + 1) == sum_locked_range(s, 0, i as int)
                    + locked as int);
                lemma_sum_locked_range_extend(s, 0, i as int + 1, s.len() as int);
            }
            return Err(KyoDlmmError::MathOverflow);
        }
        total = total + locked;
        i = i + 1;
        proof {
            assert(sum_locked_range(s, 0, i as int) == sum_locked_range(s, 0, i as int - 1)
                + s[i as int - 1].locked_amount as int);
        }
    }
    Ok(total)
}

/// One invocation of the distribution engine.
///
/// The host supplies the current time, the fees it claimed from the
/// venue, the ordered rights-holder records and a page size; the engine
/// checks the 24-hour gate and the quote-only invariant, fixes the Y0
/// baseline on the first cycle (the locked fraction is measured against
/// the effective baseline, so the triggering cycle sees the full
/// allocation still locked), weights the claimed quote fees over the
/// page pro rata by locked amount subject to the policy ceiling and the
/// daily cap, and, when the page reaches the end of the list, routes
/// the residual of the claim to the creator; nothing remains to carry
/// over, so the stored carry-over is zeroed at day close. On any error
/// the progress record is left untouched.
#[verifier::loop_isolation(false)]
pub fn execute_distribution_crank(
    ctx: &mut ExecuteDistributionCrank,
    investor_data: &Vec<InvestorData>,
    page_size: u8,
    now: i64,
    claimed_fees: ClaimedFees,
) -> (r: Result<CrankOutcome, KyoDlmmError>)
    requires
        old(ctx).policy.wf(),
        old(ctx).progress.wf(),
        now >= 0,
        page_size > 0,
        investor_data@.len() <= u32::MAX,
    ensures
        final(ctx).policy == old(ctx).policy,
        final(ctx).honorary_position == old(ctx).honorary_position,
        final(ctx).program_quote_treasury == old(ctx).program_quote_treasury,
        final(ctx).creator_quote_ata == old(ctx).creator_quote_ata,
        final(ctx).progress.wf(),
        r is Ok ==> final(ctx).progress.daily_distributed <= old(ctx).policy.daily_cap_quote,
        r is Err ==> final(ctx).progress == old(ctx).progress,
        spec_gate_blocked(old(ctx).progress, now as int) <==> r == Err::<
            CrankOutcome,
            KyoDlmmError,
        >(KyoDlmmError::DistributionTooEarly),
        !spec_gate_blocked(old(ctx).progress, now as int) ==> (claimed_fees.base_fees != 0 <==> r
            == Err::<CrankOutcome, KyoDlmmError>(KyoDlmmError::BaseFeesDetected)),
        !spec_gate_blocked(old(ctx).progress, now as int) && claimed_fees.base_fees == 0 ==> (
        sum_locked(investor_data@) > u64::MAX <==> r == Err::<CrankOutcome, KyoDlmmError>(
            KyoDlmmError::MathOverflow,
        )),
        r is Ok <==> !spec_gate_blocked(old(ctx).progress, now as int) && claimed_fees.base_fees
            == 0 && sum_locked(investor_data@) <= u64::MAX,
        r is Ok ==> spec_is_new_day(old(ctx).progress, now as int),
        final(ctx).progress.cursor as int >= (if spec_is_new_day(old(ctx).progress, now as int) {
            0int
        } else {
            old(ctx).progress.cursor as int
        }),
        old(ctx).progress.total_investor_allocation != 0
            ==> final(ctx).progress.total_investor_allocation
            == old(ctx).progress.total_investor_allocation,
        r matches Ok(o) ==> ({
            let p0 = old(ctx).progress;
            let nd = spec_is_new_day(p0, now as int);
            let start: int = if nd {
                0
            } else {
                p0.cursor as int
            };
            let daily0: int = if nd {
                0
            } else {
                p0.daily_distributed as int
            };
            let total_locked = sum_locked(investor_data@);
            let baseline: int = if p0.total_investor_allocation == 0 {
                total_locked
            } else {
                p0.total_investor_allocation as int
            };
            let capped = spec_capped_share_for(
                old(ctx).policy,
                baseline,
                daily0,
                total_locked,
                claimed_fees.quote_fees as int,
            );
            let len = investor_data@.len() as int;
            let end = int_min(start + page_size as int, len);
            let minp = old(ctx).policy.min_payout_lamports as int;
            let tp = payout_total_range(investor_data@, capped, total_locked, minp, start, end);
            &&& final(ctx).progress.last_distribution_ts as int == (if nd {
                now as int
            } else {
                p0.last_distribution_ts as int
            })
            &&& final(ctx).progress.cursor as int == end
            &&& final(ctx).progress.daily_distributed as int == daily0 + tp
            &&& final(ctx).progress.total_investor_allocation as int == (if
                p0.total_investor_allocation == 0 {
                total_locked
            } else {
                p0.total_investor_allocation as int
            })
            &&& final(ctx).progress.carry_over as int == (if end >= len {
                0int
            } else {
                p0.carry_over as int
            })
            &&& o.payouts@ == payout_seq_range(
                investor_data@,
                capped,
                total_locked,
                minp,
                start,
                end,
            )
            &&& o.total_payout as int == tp
            &&& o.quote_fees_claimed == (QuoteFeesClaimed {
                position_key: old(ctx).honorary_position.position_key,
                claimed_quote_fees: claimed_fees.quote_fees,
                claimed_base_fees: claimed_fees.base_fees,
                timestamp: now,
            })
            &&& o.investor_payout_page == (InvestorPayoutPage {
                page_number: (start / page_size as int) as u32,
                investors_processed: (end - start) as u32,
                total_payout: (tp as u64),
                timestamp: now,
            })
            &&& (o.day_close is Some <==> end >= len)
            &&& (o.day_close matches Some(dc) ==> dc == (CreatorPayoutDayClosed {
                daily_total_claimed: claimed_fees.quote_fees,
                investor_share: (tp as u64),
                creator_share: ((claimed_fees.quote_fees as int - tp) as u64),
                carry_over: 0,
                timestamp: now,
            }))
            &&& (o.creator_payout is Some <==> end >= len && claimed_fees.quote_fees as int - tp
                > 0)
            &&& (o.creator_payout matches Some(cp) ==> cp == (PayoutInstruction {
                destination: old(ctx).creator_quote_ata,
                amount: ((claimed_fees.quote_fees as int - tp) as u64),
            }))
        }),
        r matches Ok(o) ==> (o.day_close matches Some(dc) ==> o.total_payout as int
            + dc.creator_share as int + final(ctx).progress.carry_over as int
            == claimed_fees.quote_fees as int),
{
    let ghost s = investor_data@;

    // 24h gate: too early means no state is touched.
    let time_since_last: i64 = now - ctx.progress.last_distribution_ts;
    if ctx.progress.last_distribution_ts > 0 && time_since_last < 86400 {
        return Err(KyoDlmmError::DistributionTooEarly);
    }
    let is_new_day: bool = ctx.progress.last_distribution_ts == 0 || time_since_last >= 86400;
    // An invocation that was not too early has either never run or aged
    // a full day, so it necessarily starts a new day.
    assert(is_new_day);
    let cursor0: u32 = if is_new_day {
        0
    } else {
        ctx.progress.cursor
    };
    let daily0: u64 = if is_new_day {
        0
    } else {
        ctx.progress.daily_distributed
    };
    let last1: i64 = if is_new_day {
        now
    } else {
        ctx.progress.last_distribution_ts
    };

    // Quote-only enforcement: the position must never accrue base fees.
    if claimed_fees.base_fees != 0 {
        return Err(KyoDlmmError::BaseFeesDetected);
    }

    let total_locked: u64 = match calculate_total_locked(investor_data) {
        Ok(t) => t,
        Err(e) => {
            return Err(e);
        },
    };

    // First-ever cycle establishes the Y0 baseline. The fraction is
    // taken against the effective baseline, so the triggering cycle
    // itself sees the full allocation still locked.
    let y0: u64 = ctx.progress.total_investor_allocation;
    let y1: u64 = if y0 == 0 {
        total_locked
    } else {
        y0
    };

    let f_locked: u128 = if y1 > 0 {
        (total_locked as u128 * 10000) / (y1 as u128)
    } else {
        0
    };
    assert(f_locked as int == spec_locked_fraction_bps(total_locked as int, y1 as int));

    let eligible_investor_share_bps: u16 = if (ctx.policy.investor_fee_share_bps as u128)
        <= f_locked {
        ctx.policy.investor_fee_share_bps
    } else {
        f_locked as u16
    };
    assert(eligible_investor_share_bps as int == spec_eligible_share_bps(
        ctx.policy.investor_fee_share_bps as int,
        f_locked as int,
    ));
    assert(eligible_investor_share_bps <= 10000);

    proof {
        lemma_mul_upper_bound(
            claimed_fees.quote_fees as int,
            u64::MAX as int,
            eligible_investor_share_bps as int,
            10000,
        );
        lemma_investor_fee_le_quote(
            claimed_fees.quote_fees as int,
            eligible_investor_share_bps as int,
        );
    }
    let investor_fee_quote_wide: u128 = (claimed_fees.quote_fees as u128
        * eligible_investor_share_bps as u128) / 10000;
    let investor_fee_quote: u64 = investor_fee_quote_wide as u64;
    assert(investor_fee_quote <= claimed_fees.quote_fees);

    // Daily cap.
    let remaining_cap: u64 = if ctx.policy.daily_cap_quote > daily0 {
        ctx.policy.daily_cap_quote - daily0
    } else {
        0
    };
    let capped_investor_share: u64 = if investor_fee_quote <= remaining_cap {
        investor_fee_quote
    } else {
        remaining_cap
    };
    let ghost capped = spec_capped_share_for(
        ctx.policy,
        y1 as int,
        daily0 as int,
        total_locked as int,
        claimed_fees.quote_fees as int,
    );
    assert(capped_investor_share as int == capped);

    // Pagination bounds.
    let len: usize = investor_data.len();
    let start_idx: usize = cursor0 as usize;
    let end_idx: usize = if start_idx + page_size as usize <= len {
        start_idx + page_size as usize
    } else {
        len
    };
    assert(end_idx as int == int_min(start_idx as int + page_size as int, len as int));
    assert(start_idx <= end_idx);

    let ghost minp = ctx.policy.min_payout_lamports as int;
    let mut payouts: Vec<PayoutInstruction> = Vec::new();
    let mut total_payout: u64 = 0;
    let mut processed_count: u32 = 0;
    let mut i: usize = start_idx;
    while i < end_idx
        invariant
            start_idx <= i <= end_idx,
            payouts@ == payout_seq_range(
                s,
                capped,
                total_locked as int,
                minp,
                start_idx as int,
                i as int,
            ),
            total_payout as int == payout_total_range(
                s,
                capped,
                total_locked as int,
                minp,
                start_idx as int,
                i as int,
            ),
            total_payout <= capped_investor_share,
            processed_count as int == i - start_idx,
        decreases end_idx - i,
    {
        let investor = investor_data[i];
        proof {
            lemma_element_le_sum(s, 0, s.len() as int, i as int);
            lemma_weight_bps_le(investor.locked_amount as int, total_locked as int);
            lemma_payout_le_capped(capped, investor.locked_amount as int, total_locked as int);
        }
        let weight: u128 = if total_locked > 0 {
            (investor.locked_amount as u128 * 10000) / (total_locked as u128)
        } else {
            0
        };
        assert(weight as int == spec_weight_bps(investor.locked_amount as int, total_locked as int));

        proof {
            lemma_mul_upper_bound(capped_investor_share as int, u64::MAX as int, weight as int, 10000);
        }
        let payout_wide: u128 = (capped_investor_share as u128 * weight) / 10000;
        assert(payout_wide as int == spec_payout(capped, weight as int));
        assert(payout_wide <= capped_investor_share as u128);
        let payout: u64 = payout_wide as u64;

        if payout >= ctx.policy.min_payout_lamports {
            payouts.push(
                PayoutInstruction { destination: investor.investor_quote_ata, amount: payout },
            );
            proof {
                lemma_payout_total_le_capped(s, capped, minp, start_idx as int, i as int + 1);
                assert(payout_total_range(s, capped, total_locked as int, minp, start_idx as int, i as int + 1)
                    == payout_total_range(s, capped, total_locked as int, minp, start_idx as int, i as int)
                    + payout as int);
            }
            total_payout = total_payout + payout;
        }
        processed_count = processed_count + 1;
        i = i + 1;
        proof {
            assert(payout_total_range(s, capped, total_locked as int, minp, start_idx as int, i as int)
                == payout_total_range(s, capped, total_locked as int, minp, start_idx as int, i as int - 1)
                + (if spec_payout(capped, spec_weight_bps(s[i - 1].locked_amount as int, total_locked as int)) >= minp {
                    spec_payout(capped, spec_weight_bps(s[i - 1].locked_amount as int, total_locked as int))
                } else {
                    0
                }));
            assert(payouts@ == payout_seq_range(s, capped, total_locked as int, minp, start_idx as int, i as int));
        }
    }

    // Commit the cycle state; the cap bounds what was paid.
    let new_cursor: u32 = end_idx as u32;
    assert(daily0 as int + total_payout as int <= ctx.policy.daily_cap_quote as int);
    let new_daily: u64 = daily0 + total_payout;

    // Day close: the creator receives the full residual of this claim,
    // so nothing remains to carry over.
    let quote: u64 = claimed_fees.quote_fees;
    assert(total_payout <= quote);
    let mut creator_payout: Option<PayoutInstruction> = None;
    let mut day_close: Option<CreatorPayoutDayClosed> = None;
    let mut new_carry: u64 = ctx.progress.carry_over;
    if end_idx >= len {
        let creator_share: u64 = quote - total_payout;
        if creator_share > 0 {
            creator_payout = Some(
                PayoutInstruction { destination: ctx.creator_quote_ata, amount: creator_share },
            );
        }
        new_carry = quote - total_payout - creator_share;
        day_close = Some(
            CreatorPayoutDayClosed {
                daily_total_claimed: quote,
                investor_share: total_payout,
                creator_share,
                carry_over: new_carry,
                timestamp: now,
            },
        );
    }

    proof {
        lemma_div_pos_is_pos(start_idx as int, page_size as int);
        lemma_div_nonincreasing(start_idx as int, page_size as int);
    }
    let page_number: u32 = (start_idx / page_size as usize) as u32;

    ctx.progress = DistributionProgress {
        last_distribution_ts: last1,
        daily_distributed: new_daily,
        carry_over: new_carry,
        cursor: new_cursor,
        total_investor_allocation: y1,
    };

    Ok(
        CrankOutcome {
            quote_fees_claimed: QuoteFeesClaimed {
                position_key: ctx.honorary_position.position_key,
                claimed_quote_fees: quote,
                claimed_base_fees: claimed_fees.base_fees,
                timestamp: now,
            },
            payouts,
            total_payout,
            investor_payout_page: InvestorPayoutPage {
                page_number,
                investors_processed: processed_count,
                total_payout,
                timestamp: now,
            },
            creator_payout,
            day_close,
        },
    )
}

} // verus!
