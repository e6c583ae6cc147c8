//! The records of the ledger: pools, entries and the identities that own them.
use vstd::prelude::*;

verus! {

/// Basis points in one whole.
pub const BPS_DENOMINATOR: u64 = 10000;

/// Protocol fee taken from every stake, in basis points (0.75%).
pub const FEE_BPS: u64 = 75;

/// Bounds of a pool's line, in basis points.
pub const MIN_LINE_BPS: i16 = -10000;
pub const MAX_LINE_BPS: i16 = 10000;

/// The identity of an account or a participant: a 32-byte public key.
#[derive(Clone, Copy, Debug, PartialEq, Eq)]
pub struct Principal {
    pub key: [u8; 32],
}

/// Where a pool stands in its lifecycle.
#[derive(Clone, Copy, Debug, PartialEq, Eq, Structural)]
pub enum PoolStatus {
    Open,
    Locked,
    Resolved,
}

/// The direction a participant stakes on.
#[derive(Clone, Copy, Debug, PartialEq, Eq, Structural)]
pub enum Side {
    Over,
    Under,
}

/// The outcome of a pool: `Pending` until it is resolved; `Void` refunds everyone.
#[derive(Clone, Copy, Debug, PartialEq, Eq, Structural)]
pub enum Winner {
    Pending,
    Over,
    Under,
    Void,
}

/// Why an operation was refused.
#[derive(Clone, Copy, Debug, PartialEq, Eq, Structural)]
pub enum ErrorCode {
    /// The schedule does not satisfy `start_ts < lock_ts < end_ts`.
    InvalidTimestamps,
    /// The line lies outside `[-10000, 10000]` basis points.
    InvalidLineBps,
    /// The pool no longer takes entries, or can no longer be locked.
    PoolNotOpen,
    /// The lock time has come: no more entries.
    PoolLocked,
    /// The event has not ended yet.
    PoolNotEnded,
    /// The pool already has an outcome.
    PoolAlreadyResolved,
    /// The pool has no outcome yet.
    PoolNotResolved,
    /// The entry was already paid out.
    AlreadyClaimed,
    /// The entry's side lost.
    NotWinner,
    /// The caller is not the principal the record names.
    Unauthorized,
    /// The lock time has not come yet.
    PoolNotLockable,
    /// A fee, a total or a payout does not fit in 64 bits, or the winning side is empty.
    ArithmeticError,
    /// A resolution must name `Over`, `Under` or `Void`.
    InvalidWinner,
}

/// The ledger of one pool.
#[derive(Clone, Copy, Debug, PartialEq, Eq)]
pub struct Pool {
    pub authority: Principal,
    pub pool_id: u64,
    pub start_ts: i64,
    pub lock_ts: i64,
    pub end_ts: i64,
    pub line_bps: i16,
    pub status: PoolStatus,
    pub total_over: u64,
    pub total_under: u64,
    pub ai_commit: [u8; 32],
    pub winner: Winner,
    pub proof_hash: [u8; 32],
    pub bump: u8,
}

/// One participant's cumulative stake in one pool.
#[derive(Clone, Copy, Debug, PartialEq, Eq)]
pub struct Entry {
    pub pool: Principal,
    pub user: Principal,
    pub side: Side,
    pub amount: u64,
    pub fee_paid: u64,
    pub claimed: bool,
    pub bump: u8,
}

impl Pool {
    /// A pool is well formed when its schedule is strictly increasing, its line
    /// is in range, and it has an outcome exactly when it is resolved.
    pub open spec fn wf(&self) -> bool {
        &&& self.start_ts < self.lock_ts < self.end_ts
        &&& MIN_LINE_BPS <= self.line_bps <= MAX_LINE_BPS
        &&& (self.winner != Winner::Pending <==> self.status == PoolStatus::Resolved)
    }

    /// The running total of one side.
    pub open spec fn side_total(&self, side: Side) -> u64 {
        match side {
            Side::Over => self.total_over,
            Side::Under => self.total_under,
        }
    }

    /// Everything staked in the pool, net of fees.
    pub open spec fn total(&self) -> int {
        self.total_over + self.total_under
    }
}

/// Whether `caller` is exactly the principal `owner`, compared byte by byte.
pub fn is_authorized(caller: &Principal, owner: &Principal) -> (r: bool)
    ensures
        r == (*caller == *owner),
{
    let mut i: usize = 0;
    while i < 32
        invariant
            0 <= i <= 32,
            forall|j: int| 0 <= j < i ==> caller.key[j] == owner.key[j],
        decreases 32 - i,
    {
        if caller.key[i] != owner.key[i] {
            return false;
        }
        i = i + 1;
    }
    assert(caller.key =~= owner.key);
    true
}

} // verus!
