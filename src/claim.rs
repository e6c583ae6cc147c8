//! Settlement: paying a winning (or refunded) entry out of the pool, once.
use vstd::prelude::*;

use crate::events::WinningsClaimed;
use crate::state::{is_authorized, Entry, ErrorCode, Pool, PoolStatus, Principal, Side, Winner};

verus! {

/// The records a claim works on: the resolved pool and its custody address,
/// the entry being paid, and the principal asking for the payout.
#[derive(Clone, Copy, Debug)]
pub struct ClaimWinnings {
    pub pool: Pool,
    pub pool_key: Principal,
    pub entry: Entry,
    pub user: Principal,
}

/// Whether a stake on `side` is paid under `winner`: the matching side wins,
/// and under `Void` every side is refunded.
pub open spec fn wins(side: Side, winner: Winner) -> bool {
    match winner {
        Winner::Over => side == Side::Over,
        Winner::Under => side == Side::Under,
        Winner::Void => true,
        Winner::Pending => false,
    }
}

/// The total of the side that won, the payout's denominator.
pub open spec fn winning_total(pool: Pool) -> int {
    match pool.winner {
        Winner::Over => pool.total_over as int,
        Winner::Under => pool.total_under as int,
        _ => 0,
    }
}

/// What an entry is paid: its net stake back under `Void`, else its share of
/// the whole pool in proportion to its part of the winning side, rounded down.
pub open spec fn payout_of(pool: Pool, entry: Entry) -> int {
    if pool.winner == Winner::Void {
        entry.amount as int
    } else {
        entry.amount * pool.total() / winning_total(pool)
    }
}

/// The error a claim by `caller` on `entry` against the pool at `pool_key`
/// meets, checked in this order. An entry is paid only by the pool it was
/// staked in, and only to its own participant.
pub open spec fn claim_error(pool: Pool, pool_key: Principal, entry: Entry, caller: Principal) -> Option<ErrorCode> {
    if pool.status != PoolStatus::Resolved {
        Some(ErrorCode::PoolNotResolved)
    } else if entry.claimed {
        Some(ErrorCode::AlreadyClaimed)
    } else if caller != entry.user || entry.pool != pool_key {
        Some(ErrorCode::Unauthorized)
    } else if !wins(entry.side, pool.winner) {
        Some(ErrorCode::NotWinner)
    } else if pool.winner != Winner::Void && (pool.total() > u64::MAX || entry.amount
        * pool.total() > u64::MAX || winning_total(pool) == 0) {
        Some(ErrorCode::ArithmeticError)
    } else {
        None
    }
}

/// Computes the payout of a winning entry, failing where it does not fit.
fn compute_payout(pool: &Pool, entry: &Entry) -> (r: Option<u64>)
    requires
        wins(entry.side, pool.winner),
    ensures
        pool.winner == Winner::Void ==> r == Some(entry.amount),
        pool.winner != Winner::Void ==> (r is None <==> (pool.total() > u64::MAX || entry.amount
            * pool.total() > u64::MAX || winning_total(*pool) == 0)),
        r matches Some(p) ==> p == payout_of(*pool, *entry),
{
    let winning_side_total = match pool.winner {
        Winner::Void => {
            return Some(entry.amount);
        },
        Winner::Over => pool.total_over,
        Winner::Under => pool.total_under,
        Winner::Pending => {
            return None;
        },
    };
    let total_pool = match pool.total_over.checked_add(pool.total_under) {
        Some(t) => t,
        None => {
            return None;
        },
    };
    let stake_share = match entry.amount.checked_mul(total_pool) {
        Some(s) => s,
        None => {
            return None;
        },
    };
    stake_share.checked_div(winning_side_total)
}

/// Pays out `ctx.entry`: on success the entry is marked claimed and the
/// returned notification carries the amount to move from the pool's custody
/// to the participant. On failure nothing changes.
pub fn claim_winnings(ctx: &mut ClaimWinnings) -> (r: Result<WinningsClaimed, ErrorCode>)
    ensures
        r is Ok <==> claim_error(old(ctx).pool, old(ctx).pool_key, old(ctx).entry, old(ctx).user) is None,
        r matches Err(e) ==> claim_error(old(ctx).pool, old(ctx).pool_key, old(ctx).entry, old(ctx).user) == Some(e)
            && *final(ctx) == *old(ctx),
        r matches Ok(ev) ==> {
            &&& ev.pool == old(ctx).pool_key
            &&& ev.user == old(ctx).user
            &&& ev.amount == payout_of(old(ctx).pool, old(ctx).entry)
            &&& final(ctx).entry == (Entry { claimed: true, ..old(ctx).entry })
            &&& final(ctx).pool == old(ctx).pool
            &&& final(ctx).pool_key == old(ctx).pool_key
            &&& final(ctx).user == old(ctx).user
        },
{
    if ctx.pool.status != PoolStatus::Resolved {
        return Err(ErrorCode::PoolNotResolved);
    }
    if ctx.entry.claimed {
        return Err(ErrorCode::AlreadyClaimed);
    }
    if !is_authorized(&ctx.user, &ctx.entry.user) || !is_authorized(&ctx.entry.pool, &ctx.pool_key) {
        return Err(ErrorCode::Unauthorized);
    }
    let user_won = match (ctx.entry.side, ctx.pool.winner) {
        (Side::Over, Winner::Over) => true,
        (Side::Under, Winner::Under) => true,
        (_, Winner::Void) => true,
        _ => false,
    };
    if !user_won {
        return Err(ErrorCode::NotWinner);
    }
    let payout = match compute_payout(&ctx.pool, &ctx.entry) {
        Some(p) => p,
        None => {
            return Err(ErrorCode::ArithmeticError);
        },
    };
    ctx.entry.claimed = true;
    Ok(WinningsClaimed { pool: ctx.pool_key, user: ctx.user, amount: payout })
}

} // verus!
