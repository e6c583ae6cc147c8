//! The pool lifecycle: creation, locking and resolution.
use vstd::prelude::*;

use crate::events::{PoolLocked, PoolResolved};
use crate::state::{
    is_authorized, ErrorCode, MAX_LINE_BPS, MIN_LINE_BPS, Pool, PoolStatus, Principal, Winner,
};

verus! {

/// The records a pool's creation works on: the principal that will govern the
/// pool and the bump recorded on it.
#[derive(Clone, Copy, Debug)]
pub struct InitializePool {
    pub authority: Principal,
    pub pool_bump: u8,
}

/// The records a resolution works on: the pool, its address and the caller.
#[derive(Clone, Copy, Debug)]
pub struct ResolvePool {
    pub pool: Pool,
    pub pool_key: Principal,
    pub authority: Principal,
}

/// The records a lock works on: the pool, its address and the caller.
#[derive(Clone, Copy, Debug)]
pub struct LockPool {
    pub pool: Pool,
    pub pool_key: Principal,
    pub authority: Principal,
}

/// The error a pool's creation meets, checked in this order.
pub open spec fn initialize_error(start_ts: i64, lock_ts: i64, end_ts: i64, line_bps: i16) -> Option<ErrorCode> {
    if !(start_ts < lock_ts < end_ts) {
        Some(ErrorCode::InvalidTimestamps)
    } else if !(MIN_LINE_BPS <= line_bps <= MAX_LINE_BPS) {
        Some(ErrorCode::InvalidLineBps)
    } else {
        None
    }
}

/// The error locking meets when `caller` asks at time `now`, checked in this order.
pub open spec fn lock_error(pool: Pool, caller: Principal, now: i64) -> Option<ErrorCode> {
    if pool.status != PoolStatus::Open {
        Some(ErrorCode::PoolNotOpen)
    } else if now < pool.lock_ts {
        Some(ErrorCode::PoolNotLockable)
    } else if caller != pool.authority {
        Some(ErrorCode::Unauthorized)
    } else {
        None
    }
}

/// The error a resolution to `winner` by `caller` at time `now` meets,
/// checked in this order.
pub open spec fn resolve_error(pool: Pool, caller: Principal, now: i64, winner: Winner) -> Option<ErrorCode> {
    if pool.status == PoolStatus::Resolved {
        Some(ErrorCode::PoolAlreadyResolved)
    } else if now < pool.end_ts {
        Some(ErrorCode::PoolNotEnded)
    } else if caller != pool.authority {
        Some(ErrorCode::Unauthorized)
    } else if winner == Winner::Pending {
        Some(ErrorCode::InvalidWinner)
    } else {
        None
    }
}

/// Creates an open pool with empty totals and no outcome, governed by
/// `ctx.authority`, once the schedule and the line are checked.
pub fn initialize_pool(
    ctx: &InitializePool,
    pool_id: u64,
    start_ts: i64,
    lock_ts: i64,
    end_ts: i64,
    line_bps: i16,
    ai_commit: [u8; 32],
) -> (r: Result<Pool, ErrorCode>)
    ensures
        r is Ok <==> initialize_error(start_ts, lock_ts, end_ts, line_bps) is None,
        r matches Err(e) ==> initialize_error(start_ts, lock_ts, end_ts, line_bps) == Some(e),
        r matches Ok(pool) ==> {
            &&& pool == (Pool {
                authority: ctx.authority,
                pool_id,
                start_ts,
                lock_ts,
                end_ts,
                line_bps,
                status: PoolStatus::Open,
                total_over: 0,
                total_under: 0,
                ai_commit,
                winner: Winner::Pending,
                proof_hash: pool.proof_hash,
                bump: ctx.pool_bump,
            })
            &&& forall|i: int| 0 <= i < 32 ==> pool.proof_hash[i] == 0
            &&& pool.wf()
        },
{
    if !(lock_ts > start_ts) {
        return Err(ErrorCode::InvalidTimestamps);
    }
    if !(end_ts > lock_ts) {
        return Err(ErrorCode::InvalidTimestamps);
    }
    if !(line_bps >= MIN_LINE_BPS && line_bps <= MAX_LINE_BPS) {
        return Err(ErrorCode::InvalidLineBps);
    }
    Ok(Pool {
        authority: ctx.authority,
        pool_id,
        start_ts,
        lock_ts,
        end_ts,
        line_bps,
        status: PoolStatus::Open,
        total_over: 0,
        total_under: 0,
        ai_commit,
        winner: Winner::Pending,
        proof_hash: [0u8; 32],
        bump: ctx.pool_bump,
    })
}

/// Locks an open pool once its lock time has come, at the request of its
/// authority. On failure nothing changes.
pub fn lock_pool(ctx: &mut LockPool, now: i64) -> (r: Result<PoolLocked, ErrorCode>)
    ensures
        r is Ok <==> lock_error(old(ctx).pool, old(ctx).authority, now) is None,
        r matches Err(e) ==> lock_error(old(ctx).pool, old(ctx).authority, now) == Some(e)
            && *final(ctx) == *old(ctx),
        r matches Ok(ev) ==> {
            &&& ev == (PoolLocked { pool: old(ctx).pool_key })
            &&& final(ctx).pool == (Pool { status: PoolStatus::Locked, ..old(ctx).pool })
            &&& old(ctx).pool.wf() ==> final(ctx).pool.wf()
            &&& final(ctx).pool_key == old(ctx).pool_key
            &&& final(ctx).authority == old(ctx).authority
        },
{
    if ctx.pool.status != PoolStatus::Open {
        return Err(ErrorCode::PoolNotOpen);
    }
    if now < ctx.pool.lock_ts {
        return Err(ErrorCode::PoolNotLockable);
    }
    if !is_authorized(&ctx.authority, &ctx.pool.authority) {
        return Err(ErrorCode::Unauthorized);
    }
    ctx.pool.status = PoolStatus::Locked;
    Ok(PoolLocked { pool: ctx.pool_key })
}

/// Resolves an open or locked pool once its event has ended, at the request
/// of its authority, recording `winner` and `proof_hash` as given. No funds
/// move here. On failure nothing changes.
pub fn resolve_pool(ctx: &mut ResolvePool, now: i64, winner: Winner, proof_hash: [u8; 32]) -> (r:
    Result<PoolResolved, ErrorCode>)
    ensures
        r is Ok <==> resolve_error(old(ctx).pool, old(ctx).authority, now, winner) is None,
        r matches Err(e) ==> resolve_error(old(ctx).pool, old(ctx).authority, now, winner) == Some(
            e,
        ) && *final(ctx) == *old(ctx),
        r matches Ok(ev) ==> {
            &&& ev == (PoolResolved { pool: old(ctx).pool_key, winner, proof_hash })
            &&& final(ctx).pool == (Pool {
                status: PoolStatus::Resolved,
                winner,
                proof_hash,
                ..old(ctx).pool
            })
            &&& old(ctx).pool.wf() ==> final(ctx).pool.wf()
            &&& final(ctx).pool_key == old(ctx).pool_key
            &&& final(ctx).authority == old(ctx).authority
        },
{
    if !(ctx.pool.status == PoolStatus::Open || ctx.pool.status == PoolStatus::Locked) {
        return Err(ErrorCode::PoolAlreadyResolved);
    }
    if now < ctx.pool.end_ts {
        return Err(ErrorCode::PoolNotEnded);
    }
    if !is_authorized(&ctx.authority, &ctx.pool.authority) {
        return Err(ErrorCode::Unauthorized);
    }
    if winner == Winner::Pending {
        return Err(ErrorCode::InvalidWinner);
    }
    ctx.pool.status = PoolStatus::Resolved;
    ctx.pool.winner = winner;
    ctx.pool.proof_hash = proof_hash;
    Ok(PoolResolved { pool: ctx.pool_key, winner, proof_hash })
}

} // verus!
