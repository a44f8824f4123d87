use vstd::prelude::*;
use vstd::arithmetic::div_mod::{
    lemma_div_is_ordered, lemma_div_multiples_vanish, lemma_div_of0, lemma_div_pos_is_pos,
    lemma_fundamental_div_mod, lemma_mod_division_less_than_divisor, lemma_multiply_divide_le,
    lemma_multiply_divide_lt, lemma_remainder_lower,
};
use vstd::arithmetic::mul::{
    lemma_mul_inequality, lemma_mul_is_commutative, lemma_mul_is_distributive_add,
    lemma_mul_nonnegative,
};
use crate::state::{InvestorData, PayoutInstruction};

verus! {

/// The lesser of two integers.
pub open spec fn int_min(a: int, b: int) -> int {
    if a <= b {
        a
    } else {
        b
    }
}

/// Sum of the locked amounts of the records at indices `[lo, hi)`.
pub open spec fn sum_locked_range(s: Seq<InvestorData>, lo: int, hi: int) -> int
    decreases hi - lo,
{
    if lo >= hi {
        0
    } else {
        sum_locked_range(s, lo, hi - 1) + s[hi - 1].locked_amount as int
    }
}

/// Sum of the locked amounts over the whole record list.
pub open spec fn sum_locked(s: Seq<InvestorData>) -> int {
    sum_locked_range(s, 0, s.len() as int)
}

/// The fraction of the baseline allocation that is still locked, as a
/// basis-point ratio; 0 when no baseline has been established.
pub open spec fn spec_locked_fraction_bps(total_locked: int, y0: int) -> int {
    if y0 > 0 {
        total_locked * 10000 / y0
    } else {
        0
    }
}

/// The share of claimed fees owed to investors: the lesser of the
/// policy ceiling and the still-locked fraction.
pub open spec fn spec_eligible_share_bps(ceiling_bps: int, locked_fraction_bps: int) -> int {
    int_min(ceiling_bps, locked_fraction_bps)
}

/// The investor portion of the claimed quote fees before the daily cap.
pub open spec fn spec_investor_fee_quote(quote: int, share_bps: int) -> int {
    quote * share_bps / 10000
}

/// How much of the daily cap is still available.
pub open spec fn spec_remaining_cap(daily_cap: int, daily_distributed: int) -> int {
    if daily_cap > daily_distributed {
        daily_cap - daily_distributed
    } else {
        0
    }
}

/// One record's pro-rata weight in basis points; 0 when nothing is
/// locked page-wide.
pub open spec fn spec_weight_bps(locked: int, total_locked: int) -> int {
    if total_locked > 0 {
        locked * 10000 / total_locked
    } else {
        0
    }
}

/// The payout a weight earns out of the capped investor share.
pub open spec fn spec_payout(capped_share: int, weight_bps: int) -> int {
    capped_share * weight_bps / 10000
}

/// Sum of the weights of the records at indices `[lo, hi)`.
pub open spec fn weight_sum_range(s: Seq<InvestorData>, total_locked: int, lo: int, hi: int) -> int
    decreases hi - lo,
{
    if lo >= hi {
        0
    } else {
        weight_sum_range(s, total_locked, lo, hi - 1) + spec_weight_bps(
            s[hi - 1].locked_amount as int,
            total_locked,
        )
    }
}

/// Total amount actually paid over the records at indices `[lo, hi)`:
/// each record's payout counts only when it reaches the dust threshold.
pub open spec fn payout_total_range(
    s: Seq<InvestorData>,
    capped_share: int,
    total_locked: int,
    min_payout: int,
    lo: int,
    hi: int,
) -> int
    decreases hi - lo,
{
    if lo >= hi {
        0
    } else {
        let p = spec_payout(capped_share, spec_weight_bps(s[hi - 1].locked_amount as int, total_locked));
        payout_total_range(s, capped_share, total_locked, min_payout, lo, hi - 1) + if p
            >= min_payout {
            p
        } else {
            0
        }
    }
}

/// The transfer instructions issued over the records at indices
/// `[lo, hi)`, in list order, dust suppressed.
pub open spec fn payout_seq_range(
    s: Seq<InvestorData>,
    capped_share: int,
    total_locked: int,
    min_payout: int,
    lo: int,
    hi: int,
) -> Seq<PayoutInstruction>
    decreases hi - lo,
{
    if lo >= hi {
        Seq::empty()
    } else {
        let prev = payout_seq_range(s, capped_share, total_locked, min_payout, lo, hi - 1);
        let p = spec_payout(capped_share, spec_weight_bps(s[hi - 1].locked_amount as int, total_locked));
        if p >= min_payout {
            prev.push(
                PayoutInstruction { destination: s[hi - 1].investor_quote_ata, amount: p as u64 },
            )
        } else {
            prev
        }
    }
}

/// A range sum of locked amounts is nonnegative.
pub proof fn lemma_sum_locked_range_nonneg(s: Seq<InvestorData>, lo: int, hi: int)
    ensures
        sum_locked_range(s, lo, hi) >= 0,
    decreases hi - lo,
{
    if lo < hi {
        lemma_sum_locked_range_nonneg(s, lo, hi - 1);
    }
}

/// Extending a sum range to the right cannot decrease it.
pub proof fn lemma_sum_locked_range_extend(s: Seq<InvestorData>, lo: int, hi: int, hi2: int)
    requires
        hi <= hi2,
    ensures
        sum_locked_range(s, lo, hi) <= sum_locked_range(s, lo, hi2),
    decreases hi2 - hi,
{
    if hi < hi2 {
        lemma_sum_locked_range_extend(s, lo, hi, hi2 - 1);
        if lo >= hi2 - 1 {
            lemma_sum_locked_range_nonneg(s, lo, hi2);
        }
    }
}

/// Each record's locked amount is at most the sum over any range that
/// contains it.
pub proof fn lemma_element_le_sum(s: Seq<InvestorData>, lo: int, hi: int, i: int)
    requires
        lo <= i < hi,
    ensures
        s[i].locked_amount as int <= sum_locked_range(s, lo, hi),
    decreases hi - lo,
{
    if i == hi - 1 {
        lemma_sum_locked_range_nonneg(s, lo, hi - 1);
    } else {
        lemma_element_le_sum(s, lo, hi - 1, i);
    }
}

/// Floor division distributes over addition with at most one unit lost:
/// `a/d + b/d` lies between `(a+b)/d - 1` and `(a+b)/d`.
pub proof fn lemma_div_sum_bounds(a: int, b: int, d: int)
    requires
        a >= 0,
        b >= 0,
        d > 0,
    ensures
        a / d + b / d <= (a + b) / d,
        a / d + b / d >= (a + b) / d - 1,
{
    lemma_fundamental_div_mod(a, d);
    lemma_fundamental_div_mod(b, d);
    lemma_mod_division_less_than_divisor(a, d);
    lemma_mod_division_less_than_divisor(b, d);
    let qa = a / d;
    let qb = b / d;
    assert(d * (qa + qb) == d * qa + d * qb) by {
        lemma_mul_is_distributive_add(d, qa, qb);
    }
    assert(a + b >= d * (qa + qb));
    lemma_div_multiples_vanish(qa + qb, d);
    lemma_div_is_ordered(d * (qa + qb), a + b, d);
    assert(d * (qa + qb + 2) == d * (qa + qb) + d * 2) by {
        lemma_mul_is_distributive_add(d, qa + qb, 2);
    }
    assert(a + b < d * (qa + qb + 2));
    lemma_multiply_divide_lt(a + b, d, qa + qb + 2);
}

/// A weight is nonnegative.
pub proof fn lemma_weight_bps_nonneg(locked: int, total_locked: int)
    requires
        locked >= 0,
    ensures
        spec_weight_bps(locked, total_locked) >= 0,
{
    if total_locked > 0 {
        lemma_div_pos_is_pos(locked * 10000, total_locked);
    }
}

/// A weight of a record whose locked amount is within the page total is
/// at most 10000 basis points.
pub proof fn lemma_weight_bps_le(locked: int, total_locked: int)
    requires
        0 <= locked <= total_locked,
    ensures
        spec_weight_bps(locked, total_locked) <= 10000,
{
    if total_locked > 0 {
        lemma_mul_inequality(locked, total_locked, 10000);
        lemma_div_is_ordered(locked * 10000, total_locked * 10000, total_locked);
        lemma_div_multiples_vanish(10000, total_locked);
    }
}

/// A range sum of weights is nonnegative.
pub proof fn lemma_weight_sum_range_nonneg(s: Seq<InvestorData>, total_locked: int, lo: int, hi: int)
    ensures
        weight_sum_range(s, total_locked, lo, hi) >= 0,
    decreases hi - lo,
{
    if lo < hi {
        lemma_weight_sum_range_nonneg(s, total_locked, lo, hi - 1);
        lemma_weight_bps_nonneg(s[hi - 1].locked_amount as int, total_locked);
    }
}

/// Extending a weight-sum range to the right cannot decrease it.
pub proof fn lemma_weight_sum_range_extend_right(
    s: Seq<InvestorData>,
    total_locked: int,
    lo: int,
    hi: int,
    hi2: int,
)
    requires
        hi <= hi2,
    ensures
        weight_sum_range(s, total_locked, lo, hi) <= weight_sum_range(s, total_locked, lo, hi2),
    decreases hi2 - hi,
{
    if hi < hi2 {
        lemma_weight_sum_range_extend_right(s, total_locked, lo, hi, hi2 - 1);
        lemma_weight_bps_nonneg(s[hi2 - 1].locked_amount as int, total_locked);
        if lo >= hi2 - 1 {
            lemma_weight_sum_range_nonneg(s, total_locked, lo, hi2 - 1);
        }
    }
}

/// Extending a weight-sum range to the left cannot decrease it.
pub proof fn lemma_weight_sum_range_extend_left(
    s: Seq<InvestorData>,
    total_locked: int,
    lo2: int,
    lo: int,
    hi: int,
)
    requires
        lo2 <= lo,
    ensures
        weight_sum_range(s, total_locked, lo, hi) <= weight_sum_range(s, total_locked, lo2, hi),
    decreases hi - lo2,
{
    if lo >= hi {
        lemma_weight_sum_range_nonneg(s, total_locked, lo2, hi);
    } else {
        lemma_weight_sum_range_extend_left(s, total_locked, lo2, lo, hi - 1);
    }
}

/// The weights over `[lo, hi)` sum to at most the range's share of
/// 10000 basis points: `sum_of_weights <= range_locked * 10000 / total`.
pub proof fn lemma_weight_sum_range_le(s: Seq<InvestorData>, total_locked: int, lo: int, hi: int)
    requires
        total_locked > 0,
    ensures
        weight_sum_range(s, total_locked, lo, hi) <= sum_locked_range(s, lo, hi) * 10000
            / total_locked,
    decreases hi - lo,
{
    if lo >= hi {
        lemma_div_of0(total_locked);
    } else {
        lemma_weight_sum_range_le(s, total_locked, lo, hi - 1);
        let x = s[hi - 1].locked_amount as int;
        let rest = sum_locked_range(s, lo, hi - 1);
        lemma_sum_locked_range_nonneg(s, lo, hi - 1);
        lemma_div_sum_bounds(rest * 10000, x * 10000, total_locked);
    }
}

/// The weights over `[lo, hi)` lose at most one basis point per record
/// to rounding: `sum_of_weights >= range_locked * 10000 / total - (hi - lo)`.
pub proof fn lemma_weight_sum_range_ge(s: Seq<InvestorData>, total_locked: int, lo: int, hi: int)
    requires
        total_locked > 0,
        lo <= hi,
    ensures
        weight_sum_range(s, total_locked, lo, hi) >= sum_locked_range(s, lo, hi) * 10000
            / total_locked - (hi - lo),
    decreases hi - lo,
{
    if lo >= hi {
        lemma_div_of0(total_locked);
    } else {
        lemma_weight_sum_range_ge(s, total_locked, lo, hi - 1);
        let x = s[hi - 1].locked_amount as int;
        let rest = sum_locked_range(s, lo, hi - 1);
        lemma_sum_locked_range_nonneg(s, lo, hi - 1);
        lemma_div_sum_bounds(rest * 10000, x * 10000, total_locked);
    }
}

/// Weight normalization: when anything is locked, the weights over the
/// full record list sum to 10000 basis points up to one basis point of
/// rounding loss per record.
pub proof fn lemma_weight_normalization(s: Seq<InvestorData>)
    requires
        sum_locked(s) > 0,
    ensures
        weight_sum_range(s, sum_locked(s), 0, s.len() as int) <= 10000,
        weight_sum_range(s, sum_locked(s), 0, s.len() as int) >= 10000 - s.len(),
{
    let total = sum_locked(s);
    let n = s.len() as int;
    lemma_weight_sum_range_le(s, total, 0, n);
    lemma_weight_sum_range_ge(s, total, 0, n);
    lemma_div_multiples_vanish(10000, total);
    assert(total * 10000 == 10000 * total) by {
        lemma_mul_is_commutative(total, 10000);
    }
}

/// Ten-thousand times the amount paid over a range is bounded by the
/// capped share times the range's weight sum.
pub proof fn lemma_payout_total_vs_weights(
    s: Seq<InvestorData>,
    capped_share: int,
    total_locked: int,
    min_payout: int,
    lo: int,
    hi: int,
)
    requires
        capped_share >= 0,
    ensures
        10000 * payout_total_range(s, capped_share, total_locked, min_payout, lo, hi)
            <= capped_share * weight_sum_range(s, total_locked, lo, hi),
    decreases hi - lo,
{
    if lo >= hi {
    } else {
        lemma_payout_total_vs_weights(s, capped_share, total_locked, min_payout, lo, hi - 1);
        let w = spec_weight_bps(s[hi - 1].locked_amount as int, total_locked);
        let p = spec_payout(capped_share, w);
        lemma_weight_bps_nonneg(s[hi - 1].locked_amount as int, total_locked);
        lemma_mul_nonnegative(capped_share, w);
        lemma_remainder_lower(capped_share * w, 10000);
        lemma_div_pos_is_pos(capped_share * w, 10000);
        let ws_rest = weight_sum_range(s, total_locked, lo, hi - 1);
        assert(capped_share * (ws_rest + w) == capped_share * ws_rest + capped_share * w) by {
            lemma_mul_is_distributive_add(capped_share, ws_rest, w);
        }
    }
}

/// When every weight is zero (nothing locked page-wide) nothing is paid.
pub proof fn lemma_payout_total_zero_total(
    s: Seq<InvestorData>,
    capped_share: int,
    total_locked: int,
    min_payout: int,
    lo: int,
    hi: int,
)
    requires
        total_locked <= 0,
        min_payout > 0,
    ensures
        payout_total_range(s, capped_share, total_locked, min_payout, lo, hi) == 0,
    decreases hi - lo,
{
    if lo < hi {
        lemma_payout_total_zero_total(s, capped_share, total_locked, min_payout, lo, hi - 1);
    }
}

/// Cap soundness: the amount paid over any sub-range of the record list
/// never exceeds the capped investor share, because the weights are
/// taken against the list-wide locked total.
pub proof fn lemma_payout_total_le_capped(
    s: Seq<InvestorData>,
    capped_share: int,
    min_payout: int,
    lo: int,
    hi: int,
)
    requires
        capped_share >= 0,
        min_payout > 0,
        0 <= lo <= hi <= s.len(),
    ensures
        payout_total_range(s, capped_share, sum_locked(s), min_payout, lo, hi) <= capped_share,
{
    let total = sum_locked(s);
    let n = s.len() as int;
    lemma_sum_locked_range_nonneg(s, 0, n);
    if total > 0 {
        let pt = payout_total_range(s, capped_share, total, min_payout, lo, hi);
        lemma_payout_total_vs_weights(s, capped_share, total, min_payout, lo, hi);
        lemma_weight_sum_range_extend_right(s, total, lo, hi, n);
        lemma_weight_sum_range_extend_left(s, total, 0, lo, n);
        lemma_weight_sum_range_le(s, total, 0, n);
        lemma_div_multiples_vanish(10000, total);
        assert(total * 10000 == 10000 * total) by {
            lemma_mul_is_commutative(total, 10000);
        }
        let ws = weight_sum_range(s, total, lo, hi);
        assert(capped_share * ws <= capped_share * 10000) by {
            lemma_mul_inequality(ws, 10000, capped_share);
            lemma_mul_is_commutative(ws, capped_share);
            lemma_mul_is_commutative(10000, capped_share);
        }
        assert(10000 * pt <= 10000 * capped_share);
    } else {
        lemma_payout_total_zero_total(s, capped_share, total, min_payout, lo, hi);
    }
}

/// A single record's payout never exceeds the capped share.
pub proof fn lemma_payout_le_capped(capped_share: int, locked: int, total_locked: int)
    requires
        capped_share >= 0,
        0 <= locked <= total_locked,
    ensures
        0 <= spec_payout(capped_share, spec_weight_bps(locked, total_locked)) <= capped_share,
{
    let w = spec_weight_bps(locked, total_locked);
    lemma_weight_bps_nonneg(locked, total_locked);
    lemma_weight_bps_le(locked, total_locked);
    lemma_mul_nonnegative(capped_share, w);
    lemma_div_pos_is_pos(capped_share * w, 10000);
    assert(capped_share * w <= 10000 * capped_share) by {
        lemma_mul_inequality(w, 10000, capped_share);
        lemma_mul_is_commutative(w, capped_share);
    }
    lemma_multiply_divide_le(capped_share * w, 10000, capped_share);
}

/// The investor portion of the claim never exceeds the claim itself
/// when the share is a valid basis-point fraction.
pub proof fn lemma_investor_fee_le_quote(quote: int, share_bps: int)
    requires
        quote >= 0,
        0 <= share_bps <= 10000,
    ensures
        0 <= spec_investor_fee_quote(quote, share_bps) <= quote,
{
    lemma_mul_nonnegative(quote, share_bps);
    lemma_div_pos_is_pos(quote * share_bps, 10000);
    assert(quote * share_bps <= 10000 * quote) by {
        lemma_mul_inequality(share_bps, 10000, quote);
        lemma_mul_is_commutative(share_bps, quote);
    }
    lemma_multiply_divide_le(quote * share_bps, 10000, quote);
}

} // verus!
