//! Stake accounting: taking a participant's stake into a pool.
use vstd::prelude::*;

use crate::events::EntryCreated;
use crate::state::{BPS_DENOMINATOR, Entry, ErrorCode, FEE_BPS, Pool, PoolStatus, Principal, Side};

verus! {

/// The records a stake works on: the pool and its address, the participant's
/// entry if one exists yet, the participant, and the bump recorded on a new entry.
#[derive(Clone, Copy, Debug)]
pub struct EnterPool {
    pub pool: Pool,
    pub pool_key: Principal,
    pub entry: Option<Entry>,
    pub user: Principal,
    pub entry_bump: u8,
}

/// The fee kept from a stake of `amount`: 0.75%, rounded down.
pub open spec fn fee_of(amount: u64) -> int {
    (amount * FEE_BPS) as int / BPS_DENOMINATOR as int
}

/// The stake net of its fee.
pub open spec fn net_of(amount: u64) -> int {
    amount - fee_of(amount)
}

/// The side a stake is credited to: an existing entry keeps its own side,
/// whatever side the new stake names.
pub open spec fn staked_side(entry: Option<Entry>, side: Side) -> Side {
    match entry {
        Some(e) => e.side,
        None => side,
    }
}

/// The error a stake of `amount` at time `now` meets, checked in this order.
pub open spec fn enter_error(pool: Pool, entry: Option<Entry>, now: i64, amount: u64, side: Side) -> Option<ErrorCode> {
    if now >= pool.lock_ts {
        Some(ErrorCode::PoolLocked)
    } else if pool.status != PoolStatus::Open {
        Some(ErrorCode::PoolNotOpen)
    } else if amount * FEE_BPS > u64::MAX {
        Some(ErrorCode::ArithmeticError)
    } else if pool.side_total(staked_side(entry, side)) + net_of(amount) > u64::MAX {
        Some(ErrorCode::ArithmeticError)
    } else if entry matches Some(e) && (e.amount + net_of(amount) > u64::MAX || e.fee_paid
        + fee_of(amount) > u64::MAX) {
        Some(ErrorCode::ArithmeticError)
    } else {
        None
    }
}

/// The pool once `net` has been added to the total of `side`.
pub open spec fn pool_after_stake(pool: Pool, side: Side, net: int) -> Pool {
    match side {
        Side::Over => Pool { total_over: (pool.total_over + net) as u64, ..pool },
        Side::Under => Pool { total_under: (pool.total_under + net) as u64, ..pool },
    }
}

/// The entry once a stake with net `net` and fee `fee` is added to it; a
/// missing entry is created on `side`, unclaimed.
pub open spec fn entry_after_stake(
    entry: Option<Entry>,
    pool_key: Principal,
    user: Principal,
    side: Side,
    bump: u8,
    net: int,
    fee: int,
) -> Entry {
    match entry {
        Some(e) => Entry {
            amount: (e.amount + net) as u64,
            fee_paid: (e.fee_paid + fee) as u64,
            ..e
        },
        None => Entry {
            pool: pool_key,
            user,
            side,
            amount: net as u64,
            fee_paid: fee as u64,
            claimed: false,
            bump,
        },
    }
}

/// Computes the fee of a stake, failing where `amount * FEE_BPS` overflows.
fn stake_fee(amount: u64) -> (r: Option<u64>)
    ensures
        r is None <==> amount * FEE_BPS > u64::MAX,
        r matches Some(f) ==> f == fee_of(amount) && f <= amount,
{
    match amount.checked_mul(FEE_BPS) {
        Some(scaled) => {
            let fee = scaled / BPS_DENOMINATOR;
            assert(scaled / 10000 <= amount) by (nonlinear_arith)
                requires
                    scaled == amount * 75,
            ;
            Some(fee)
        },
        None => None,
    }
}

/// Takes a stake of `amount` (gross) on `side` at time `now`. On success the
/// net stake is added to the credited side's total and to the participant's
/// entry, the fee to the entry's `fee_paid`, and the returned notification
/// names the credited side, the net amount and the fee; the caller then moves
/// `amount` into the pool's custody. On failure nothing changes.
pub fn enter_pool(ctx: &mut EnterPool, now: i64, amount: u64, side: Side) -> (r: Result<
    EntryCreated,
    ErrorCode,
>)
    ensures
        r is Ok <==> enter_error(old(ctx).pool, old(ctx).entry, now, amount, side) is None,
        r matches Err(e) ==> enter_error(old(ctx).pool, old(ctx).entry, now, amount, side) == Some(
            e,
        ) && *final(ctx) == *old(ctx),
        r matches Ok(ev) ==> {
            let credited = staked_side(old(ctx).entry, side);
            &&& ev == (EntryCreated {
                pool: old(ctx).pool_key,
                user: old(ctx).user,
                side: credited,
                amount: net_of(amount) as u64,
                fee: fee_of(amount) as u64,
            })
            &&& final(ctx).pool == pool_after_stake(old(ctx).pool, credited, net_of(amount))
            &&& old(ctx).pool.wf() ==> final(ctx).pool.wf()
            &&& final(ctx).entry == Some(
                entry_after_stake(
                    old(ctx).entry,
                    old(ctx).pool_key,
                    old(ctx).user,
                    side,
                    old(ctx).entry_bump,
                    net_of(amount),
                    fee_of(amount),
                ),
            )
            &&& final(ctx).pool_key == old(ctx).pool_key
            &&& final(ctx).user == old(ctx).user
            &&& final(ctx).entry_bump == old(ctx).entry_bump
        },
{
    if now >= ctx.pool.lock_ts {
        return Err(ErrorCode::PoolLocked);
    }
    if ctx.pool.status != PoolStatus::Open {
        return Err(ErrorCode::PoolNotOpen);
    }
    let fee = match stake_fee(amount) {
        Some(f) => f,
        None => {
            return Err(ErrorCode::ArithmeticError);
        },
    };
    let net_amount = amount - fee;
    let credited = match ctx.entry {
        Some(e) => e.side,
        None => side,
    };
    let side_total = match credited {
        Side::Over => ctx.pool.total_over,
        Side::Under => ctx.pool.total_under,
    };
    let new_total = match side_total.checked_add(net_amount) {
        Some(t) => t,
        None => {
            return Err(ErrorCode::ArithmeticError);
        },
    };
    let new_entry = match ctx.entry {
        Some(e) => {
            let new_amount = match e.amount.checked_add(net_amount) {
                Some(a) => a,
                None => {
                    return Err(ErrorCode::ArithmeticError);
                },
            };
            let new_fee_paid = match e.fee_paid.checked_add(fee) {
                Some(f) => f,
                None => {
                    return Err(ErrorCode::ArithmeticError);
                },
            };
            Entry { amount: new_amount, fee_paid: new_fee_paid, ..e }
        },
        None => Entry {
            pool: ctx.pool_key,
            user: ctx.user,
            side,
            amount: net_amount,
            fee_paid: fee,
            claimed: false,
            bump: ctx.entry_bump,
        },
    };
    match credited {
        Side::Over => {
            ctx.pool.total_over = new_total;
        },
        Side::Under => {
            ctx.pool.total_under = new_total;
        },
    }
    ctx.entry = Some(new_entry);
    Ok(EntryCreated {
        pool: ctx.pool_key,
        user: ctx.user,
        side: credited,
        amount: net_amount,
        fee,
    })
}

} // verus!
