//! Properties of the ledger that hold across operations, proved over the
//! same spec functions that the operations' contracts use.
use vstd::prelude::*;

use crate::claim::claim_error;
use crate::lifecycle::{lock_error, resolve_error};
use crate::stake::{enter_error, entry_after_stake, fee_of, net_of, pool_after_stake, staked_side};
use crate::state::{Entry, ErrorCode, Pool, PoolStatus, Principal, Side, Winner};

verus! {

/// The net stake an entry slot holds; an empty slot holds nothing.
pub open spec fn slot_amount(slot: Option<Entry>) -> int {
    match slot {
        Some(e) => e.amount as int,
        None => 0,
    }
}

/// The sum of the net stakes of all entries of a pool.
pub open spec fn staked_total(slots: Seq<Option<Entry>>) -> int
    decreases slots.len(),
{
    if slots.len() == 0 {
        0
    } else {
        staked_total(slots.drop_last()) + slot_amount(slots.last())
    }
}

/// One call of `enter_pool`: which participant slot, the time, the gross
/// amount and the side named.
pub struct Stake {
    pub slot: int,
    pub user: Principal,
    pub now: i64,
    pub amount: u64,
    pub side: Side,
    pub bump: u8,
}

/// The pool and its entries after one stake, as `enter_pool` leaves them:
/// unchanged when the stake fails or names no slot.
pub open spec fn apply_stake(
    pool: Pool,
    slots: Seq<Option<Entry>>,
    pool_key: Principal,
    s: Stake,
) -> (Pool, Seq<Option<Entry>>) {
    if 0 <= s.slot < slots.len() && enter_error(pool, slots[s.slot], s.now, s.amount, s.side)
        is None {
        let entry = slots[s.slot];
        (
            pool_after_stake(pool, staked_side(entry, s.side), net_of(s.amount)),
            slots.update(
                s.slot,
                Some(
                    entry_after_stake(
                        entry,
                        pool_key,
                        s.user,
                        s.side,
                        s.bump,
                        net_of(s.amount),
                        fee_of(s.amount),
                    ),
                ),
            ),
        )
    } else {
        (pool, slots)
    }
}

/// The pool and its entries after a sequence of stakes, in order.
pub open spec fn apply_stakes(
    pool: Pool,
    slots: Seq<Option<Entry>>,
    pool_key: Principal,
    stakes: Seq<Stake>,
) -> (Pool, Seq<Option<Entry>>)
    decreases stakes.len(),
{
    if stakes.len() == 0 {
        (pool, slots)
    } else {
        let (p, s) = apply_stakes(pool, slots, pool_key, stakes.drop_last());
        apply_stake(p, s, pool_key, stakes.last())
    }
}

proof fn lemma_staked_total_update(slots: Seq<Option<Entry>>, i: int, v: Option<Entry>)
    requires
        0 <= i < slots.len(),
    ensures
        staked_total(slots.update(i, v)) == staked_total(slots) - slot_amount(slots[i])
            + slot_amount(v),
    decreases slots.len(),
{
    let u = slots.update(i, v);
    if i == slots.len() - 1 {
        assert(u.drop_last() =~= slots.drop_last());
    } else {
        assert(u.drop_last() =~= slots.drop_last().update(i, v));
        lemma_staked_total_update(slots.drop_last(), i, v);
    }
}

/// A successful stake adds the same net amount to the pool's totals and to
/// the sum of its entries, so their equality is kept.
pub proof fn lemma_stake_conserves(
    pool: Pool,
    slots: Seq<Option<Entry>>,
    pool_key: Principal,
    s: Stake,
)
    requires
        pool.total() == staked_total(slots),
    ensures
        ({
            let (p, e) = apply_stake(pool, slots, pool_key, s);
            p.total() == staked_total(e)
        }),
{
    if 0 <= s.slot < slots.len() && enter_error(pool, slots[s.slot], s.now, s.amount, s.side)
        is None {
        let entry = slots[s.slot];
        let new_entry = entry_after_stake(
            entry,
            pool_key,
            s.user,
            s.side,
            s.bump,
            net_of(s.amount),
            fee_of(s.amount),
        );
        lemma_staked_total_update(slots, s.slot, Some(new_entry));
    }
}

/// Conservation: whatever sequence of stakes is made on a pool whose totals
/// equal the sum of its entries' net stakes (a new pool has both at zero),
/// the totals still equal that sum afterwards.
pub proof fn lemma_stakes_conserve(
    pool: Pool,
    slots: Seq<Option<Entry>>,
    pool_key: Principal,
    stakes: Seq<Stake>,
)
    requires
        pool.total() == staked_total(slots),
    ensures
        ({
            let (p, e) = apply_stakes(pool, slots, pool_key, stakes);
            p.total() == staked_total(e)
        }),
    decreases stakes.len(),
{
    if stakes.len() > 0 {
        lemma_stakes_conserve(pool, slots, pool_key, stakes.drop_last());
        let (p, e) = apply_stakes(pool, slots, pool_key, stakes.drop_last());
        lemma_stake_conserves(p, e, pool_key, stakes.last());
    }
}

/// A fresh pool has no stake and no entries: conservation holds from the start.
pub proof fn lemma_empty_entries_conserve(pool: Pool, n: nat)
    requires
        pool.total_over == 0,
        pool.total_under == 0,
    ensures
        pool.total() == staked_total(Seq::new(n, |i: int| None::<Entry>)),
    decreases n,
{
    if n > 0 {
        let s = Seq::new(n, |i: int| None::<Entry>);
        assert(s.drop_last() =~= Seq::new((n - 1) as nat, |i: int| None::<Entry>));
        lemma_empty_entries_conserve(pool, (n - 1) as nat);
    }
}

/// The order of the lifecycle: `Open` before `Locked` before `Resolved`.
pub open spec fn status_rank(s: PoolStatus) -> int {
    match s {
        PoolStatus::Open => 0,
        PoolStatus::Locked => 1,
        PoolStatus::Resolved => 2,
    }
}

/// Status never regresses: a stake leaves it as it is, and a successful lock
/// or resolution only moves it forward.
pub proof fn lemma_status_never_regresses(
    pool: Pool,
    side: Side,
    net: int,
    caller: Principal,
    now: i64,
    winner: Winner,
    proof_hash: [u8; 32],
)
    ensures
        pool_after_stake(pool, side, net).status == pool.status,
        lock_error(pool, caller, now) is None ==> status_rank(pool.status) < status_rank(
            PoolStatus::Locked,
        ),
        resolve_error(pool, caller, now, winner) is None ==> status_rank(pool.status)
            < status_rank(
            (Pool { status: PoolStatus::Resolved, winner, proof_hash, ..pool }).status,
        ),
{
}

/// Deadlines are enforced: no lock before the lock time, no resolution before
/// the end time, and every stake from the lock time on is refused with
/// `PoolLocked`, whatever the pool's status.
pub proof fn lemma_deadlines(
    pool: Pool,
    entry: Option<Entry>,
    caller: Principal,
    now: i64,
    amount: u64,
    side: Side,
    winner: Winner,
)
    ensures
        now < pool.lock_ts ==> lock_error(pool, caller, now) is Some,
        now < pool.end_ts ==> resolve_error(pool, caller, now, winner) is Some,
        now >= pool.lock_ts ==> enter_error(
            pool,
            entry,
            now,
            amount,
            side,
        ) == Some(ErrorCode::PoolLocked),
{
}

/// Single resolution: once a pool is resolved, every further resolution fails
/// with `PoolAlreadyResolved`, so the first outcome and proof stay.
pub proof fn lemma_single_resolution(
    pool: Pool,
    caller: Principal,
    now: i64,
    winner: Winner,
    proof_hash: [u8; 32],
    caller2: Principal,
    now2: i64,
    winner2: Winner,
)
    requires
        resolve_error(pool, caller, now, winner) is None,
    ensures
        resolve_error(
            Pool { status: PoolStatus::Resolved, winner, proof_hash, ..pool },
            caller2,
            now2,
            winner2,
        ) == Some(ErrorCode::PoolAlreadyResolved),
{
}

/// No replay: once an entry is paid, every further claim on it, by anyone,
/// fails with `AlreadyClaimed`.
pub proof fn lemma_claim_not_repeatable(
    pool: Pool,
    pool_key: Principal,
    entry: Entry,
    caller: Principal,
    caller2: Principal,
)
    requires
        claim_error(pool, pool_key, entry, caller) is None,
    ensures
        claim_error(pool, pool_key, Entry { claimed: true, ..entry }, caller2) == Some(
            ErrorCode::AlreadyClaimed,
        ),
{
}

/// The entry after one claim by `caller`, and whether that claim paid out.
pub open spec fn claim_step(pool: Pool, pool_key: Principal, entry: Entry, caller: Principal) -> (Entry, bool) {
    if claim_error(pool, pool_key, entry, caller) is None {
        (Entry { claimed: true, ..entry }, true)
    } else {
        (entry, false)
    }
}

/// How many of a sequence of claims on one entry, applied one after the
/// other, pay out.
pub open spec fn claim_payouts(pool: Pool, pool_key: Principal, entry: Entry, callers: Seq<Principal>) -> nat
    decreases callers.len(),
{
    if callers.len() == 0 {
        0
    } else {
        let (e, paid) = claim_step(pool, pool_key, entry, callers[0]);
        (if paid {
            1nat
        } else {
            0nat
        }) + claim_payouts(pool, pool_key, e, callers.skip(1))
    }
}

proof fn lemma_claimed_pays_nothing(pool: Pool, pool_key: Principal, entry: Entry, callers: Seq<Principal>)
    requires
        entry.claimed,
    ensures
        claim_payouts(pool, pool_key, entry, callers) == 0,
    decreases callers.len(),
{
    if callers.len() > 0 {
        lemma_claimed_pays_nothing(pool, pool_key, entry, callers.skip(1));
    }
}

/// No double spend: however many claims are made on one entry, at most one
/// pays out; and when the entry's owner may claim it, exactly one does.
pub proof fn lemma_single_payout(pool: Pool, pool_key: Principal, entry: Entry, callers: Seq<Principal>)
    ensures
        claim_payouts(pool, pool_key, entry, callers) <= 1,
        callers.len() > 0 && (forall|i: int| 0 <= i < callers.len() ==> callers[i] == entry.user)
            && claim_error(pool, pool_key, entry, entry.user) is None ==> claim_payouts(
            pool,
            pool_key,
            entry,
            callers,
        ) == 1,
    decreases callers.len(),
{
    if callers.len() > 0 {
        let (e, paid) = claim_step(pool, pool_key, entry, callers[0]);
        if paid {
            lemma_claimed_pays_nothing(pool, pool_key, e, callers.skip(1));
        } else {
            lemma_single_payout(pool, pool_key, e, callers.skip(1));
        }
    }
}

} // verus!
