use vstd::prelude::*;
use crate::errors::KyoDlmmError;
use crate::events::PolicyUpdated;
use crate::state::{AccountId, PolicyConfig};

verus! {

/// State touched by a policy update: the verified identity of the
/// caller and the stored policy record.
#[derive(Clone, Copy, Debug, PartialEq, Eq, Structural)]
pub struct UpdatePolicy {
    /// The caller's verified identity
    pub authority: AccountId,
    /// The stored policy
    pub policy: PolicyConfig,
}

/// Authorized mutation of the tunable policy fields. The caller must
/// be the stored authority, the new ceiling must be a valid basis-point
/// fraction, and the new dust threshold must be positive; otherwise the
/// update is rejected and nothing changes. The stored authority itself
/// is never transferred by an update.
pub fn update_policy(ctx: &mut UpdatePolicy, new_policy: PolicyConfig, now: i64) -> (r: Result<
    PolicyUpdated,
    KyoDlmmError,
>)
    ensures
        final(ctx).authority == old(ctx).authority,
        r is Err ==> *final(ctx) == *old(ctx) && r == Err::<PolicyUpdated, KyoDlmmError>(
            KyoDlmmError::InvalidAuthority,
        ),
        r is Err <==> old(ctx).authority != old(ctx).policy.authority
            || new_policy.investor_fee_share_bps > 10000 || new_policy.min_payout_lamports == 0,
        r is Ok ==> final(ctx).policy == (PolicyConfig {
            investor_fee_share_bps: new_policy.investor_fee_share_bps,
            daily_cap_quote: new_policy.daily_cap_quote,
            min_payout_lamports: new_policy.min_payout_lamports,
            authority: old(ctx).policy.authority,
        }),
        r is Ok ==> final(ctx).policy.wf(),
        r == Ok::<PolicyUpdated, KyoDlmmError>(
            PolicyUpdated {
                new_investor_fee_share_bps: new_policy.investor_fee_share_bps,
                new_daily_cap_quote: new_policy.daily_cap_quote,
                new_min_payout_lamports: new_policy.min_payout_lamports,
                timestamp: now,
            },
        ) <==> r is Ok,
{
    if ctx.authority != ctx.policy.authority {
        return Err(KyoDlmmError::InvalidAuthority);
    }
    if new_policy.investor_fee_share_bps > 10000 {
        return Err(KyoDlmmError::InvalidAuthority);
    }
    if new_policy.min_payout_lamports == 0 {
        return Err(KyoDlmmError::InvalidAuthority);
    }
    ctx.policy.investor_fee_share_bps = new_policy.investor_fee_share_bps;
    ctx.policy.daily_cap_quote = new_policy.daily_cap_quote;
    ctx.policy.min_payout_lamports = new_policy.min_payout_lamports;
    Ok(
        PolicyUpdated {
            new_investor_fee_share_bps: new_policy.investor_fee_share_bps,
            new_daily_cap_quote: new_policy.daily_cap_quote,
            new_min_payout_lamports: new_policy.min_payout_lamports,
            timestamp: now,
        },
    )
}

} // verus!
