use solpve::{
    claim_winnings, enter_pool, initialize_pool, is_authorized, lock_pool, resolve_pool,
    ClaimWinnings, EnterPool, Entry, ErrorCode, InitializePool, LockPool, Pool, PoolStatus,
    Principal, ResolvePool, Side, Winner,
};

fn principal(b: u8) -> Principal {
    Principal { key: [b; 32] }
}

fn new_pool() -> Pool {
    let ctx = InitializePool { authority: principal(1), pool_bump: 254 };
    initialize_pool(&ctx, 7, 100, 200, 300, 150, [9; 32]).unwrap()
}

fn stake(pool: &mut Pool, entry: &mut Option<Entry>, user: u8, now: i64, amount: u64, side: Side) -> Result<solpve::EntryCreated, ErrorCode> {
    let mut ctx = EnterPool {
        pool: *pool,
        pool_key: principal(50),
        entry: *entry,
        user: principal(user),
        entry_bump: 3,
    };
    let r = enter_pool(&mut ctx, now, amount, side);
    *pool = ctx.pool;
    *entry = ctx.entry;
    r
}

fn resolved(total_over: u64, total_under: u64, winner: Winner) -> Pool {
    Pool {
        status: PoolStatus::Resolved,
        winner,
        total_over,
        total_under,
        ..new_pool()
    }
}

fn entry_of(user: u8, side: Side, amount: u64) -> Entry {
    Entry {
        pool: principal(50),
        user: principal(user),
        side,
        amount,
        fee_paid: 0,
        claimed: false,
        bump: 3,
    }
}

fn claim(pool: Pool, entry: Entry, caller: u8) -> (Result<u64, ErrorCode>, Entry) {
    let mut ctx = ClaimWinnings { pool, pool_key: principal(50), entry, user: principal(caller) };
    let r = claim_winnings(&mut ctx).map(|ev| ev.amount);
    (r, ctx.entry)
}

#[test]
fn initialize_creates_open_empty_pool() {
    let p = new_pool();
    assert_eq!(p.authority, principal(1));
    assert_eq!(p.pool_id, 7);
    assert_eq!((p.start_ts, p.lock_ts, p.end_ts), (100, 200, 300));
    assert_eq!(p.line_bps, 150);
    assert_eq!(p.status, PoolStatus::Open);
    assert_eq!((p.total_over, p.total_under), (0, 0));
    assert_eq!(p.ai_commit, [9; 32]);
    assert_eq!(p.winner, Winner::Pending);
    assert_eq!(p.proof_hash, [0; 32]);
    assert_eq!(p.bump, 254);
}

#[test]
fn initialize_rejects_bad_schedule() {
    let ctx = InitializePool { authority: principal(1), pool_bump: 0 };
    assert_eq!(initialize_pool(&ctx, 1, 200, 200, 300, 0, [0; 32]), Err(ErrorCode::InvalidTimestamps));
    assert_eq!(initialize_pool(&ctx, 1, 100, 300, 300, 0, [0; 32]), Err(ErrorCode::InvalidTimestamps));
    assert_eq!(initialize_pool(&ctx, 1, 300, 200, 100, 0, [0; 32]), Err(ErrorCode::InvalidTimestamps));
}

#[test]
fn initialize_checks_line_range() {
    let ctx = InitializePool { authority: principal(1), pool_bump: 0 };
    assert_eq!(initialize_pool(&ctx, 1, 1, 2, 3, 10001, [0; 32]), Err(ErrorCode::InvalidLineBps));
    assert_eq!(initialize_pool(&ctx, 1, 1, 2, 3, -10001, [0; 32]), Err(ErrorCode::InvalidLineBps));
    assert!(initialize_pool(&ctx, 1, 1, 2, 3, 10000, [0; 32]).is_ok());
    assert!(initialize_pool(&ctx, 1, 1, 2, 3, -10000, [0; 32]).is_ok());
}

#[test]
fn fee_on_ten_thousand() {
    let mut pool = new_pool();
    let mut entry = None;
    let ev = stake(&mut pool, &mut entry, 2, 150, 10000, Side::Over).unwrap();
    assert_eq!(ev.fee, 75);
    assert_eq!(ev.amount, 9925);
    assert_eq!(ev.side, Side::Over);
    assert_eq!(ev.user, principal(2));
    assert_eq!(ev.pool, principal(50));
    assert_eq!(pool.total_over, 9925);
    assert_eq!(pool.total_under, 0);
    let e = entry.unwrap();
    assert_eq!((e.amount, e.fee_paid, e.claimed, e.side), (9925, 75, false, Side::Over));
}

#[test]
fn no_fee_on_tiny_stake() {
    let mut pool = new_pool();
    let mut entry = None;
    let ev = stake(&mut pool, &mut entry, 2, 150, 1, Side::Over).unwrap();
    assert_eq!((ev.fee, ev.amount), (0, 1));
    assert_eq!(pool.total_over, 1);
}

#[test]
fn repeat_stake_keeps_original_side() {
    let mut pool = new_pool();
    let mut entry = None;
    stake(&mut pool, &mut entry, 2, 150, 10000, Side::Under).unwrap();
    let ev = stake(&mut pool, &mut entry, 2, 160, 1000, Side::Over).unwrap();
    assert_eq!(ev.side, Side::Under);
    assert_eq!((ev.amount, ev.fee), (993, 7));
    assert_eq!(pool.total_under, 9925 + 993);
    assert_eq!(pool.total_over, 0);
    let e = entry.unwrap();
    assert_eq!((e.side, e.amount, e.fee_paid), (Side::Under, 10918, 82));
}

#[test]
fn totals_match_entries() {
    let mut pool = new_pool();
    let mut a = None;
    let mut b = None;
    let mut c = None;
    stake(&mut pool, &mut a, 2, 150, 10000, Side::Over).unwrap();
    stake(&mut pool, &mut b, 3, 151, 4000, Side::Under).unwrap();
    stake(&mut pool, &mut a, 2, 152, 123, Side::Over).unwrap();
    stake(&mut pool, &mut c, 4, 199, 77, Side::Over).unwrap();
    assert_eq!(stake(&mut pool, &mut c, 4, 200, 77, Side::Over), Err(ErrorCode::PoolLocked));
    let sum = a.unwrap().amount + b.unwrap().amount + c.unwrap().amount;
    assert_eq!(pool.total_over + pool.total_under, sum);
}

#[test]
fn stake_at_lock_time_fails() {
    let mut pool = new_pool();
    let mut entry = None;
    assert_eq!(stake(&mut pool, &mut entry, 2, 200, 10, Side::Over), Err(ErrorCode::PoolLocked));
    assert_eq!(stake(&mut pool, &mut entry, 2, 500, 10, Side::Over), Err(ErrorCode::PoolLocked));
    assert_eq!(pool, new_pool());
    assert!(entry.is_none());
}

#[test]
fn stake_on_locked_pool_fails() {
    let mut pool = Pool { status: PoolStatus::Locked, ..new_pool() };
    let mut entry = None;
    assert_eq!(stake(&mut pool, &mut entry, 2, 150, 10, Side::Over), Err(ErrorCode::PoolNotOpen));
}

#[test]
fn stake_after_lock_on_locked_pool_is_pool_locked() {
    let mut lock = LockPool { pool: new_pool(), pool_key: principal(50), authority: principal(1) };
    lock_pool(&mut lock, 200).unwrap();
    let mut pool = lock.pool;
    let before = pool;
    let mut entry = None;
    assert_eq!(stake(&mut pool, &mut entry, 2, 200, 10, Side::Over), Err(ErrorCode::PoolLocked));
    assert_eq!(stake(&mut pool, &mut entry, 2, 250, 10, Side::Under), Err(ErrorCode::PoolLocked));
    let mut done = Pool { status: PoolStatus::Resolved, winner: Winner::Over, ..new_pool() };
    assert_eq!(stake(&mut done, &mut entry, 2, 400, 10, Side::Over), Err(ErrorCode::PoolLocked));
    assert_eq!(pool, before);
    assert!(entry.is_none());
}

#[test]
fn entry_of_another_pool_is_not_paid() {
    let mut foreign = entry_of(2, Side::Over, 250);
    foreign.pool = principal(51);
    let (r, e) = claim(resolved(1000, 500, Winner::Over), foreign, 2);
    assert_eq!(r, Err(ErrorCode::Unauthorized));
    assert!(!e.claimed);
}

#[test]
fn stake_overflow_fails_without_change() {
    let mut pool = new_pool();
    let mut entry = None;
    assert_eq!(stake(&mut pool, &mut entry, 2, 150, u64::MAX, Side::Over), Err(ErrorCode::ArithmeticError));
    let mut full = Pool { total_over: u64::MAX - 5, ..new_pool() };
    let before = full;
    assert_eq!(stake(&mut full, &mut entry, 2, 150, 100, Side::Over), Err(ErrorCode::ArithmeticError));
    assert_eq!(full, before);
    assert!(entry.is_none());
}

#[test]
fn lock_rules() {
    let mut ctx = LockPool { pool: new_pool(), pool_key: principal(50), authority: principal(1) };
    assert_eq!(lock_pool(&mut ctx, 199), Err(ErrorCode::PoolNotLockable));
    let mut stranger = LockPool { authority: principal(2), ..ctx };
    assert_eq!(lock_pool(&mut stranger, 250), Err(ErrorCode::Unauthorized));
    let ev = lock_pool(&mut ctx, 200).unwrap();
    assert_eq!(ev.pool, principal(50));
    assert_eq!(ctx.pool.status, PoolStatus::Locked);
    assert_eq!(lock_pool(&mut ctx, 250), Err(ErrorCode::PoolNotOpen));
}

#[test]
fn resolve_rules() {
    let mut ctx = ResolvePool { pool: new_pool(), pool_key: principal(50), authority: principal(1) };
    assert_eq!(resolve_pool(&mut ctx, 299, Winner::Over, [5; 32]), Err(ErrorCode::PoolNotEnded));
    let mut stranger = ResolvePool { authority: principal(2), ..ctx };
    assert_eq!(resolve_pool(&mut stranger, 300, Winner::Over, [5; 32]), Err(ErrorCode::Unauthorized));
    assert_eq!(resolve_pool(&mut ctx, 300, Winner::Pending, [5; 32]), Err(ErrorCode::InvalidWinner));
    assert_eq!(ctx.pool, new_pool());
    let ev = resolve_pool(&mut ctx, 300, Winner::Under, [5; 32]).unwrap();
    assert_eq!((ev.pool, ev.winner, ev.proof_hash), (principal(50), Winner::Under, [5; 32]));
    assert_eq!(ctx.pool.status, PoolStatus::Resolved);
}

#[test]
fn resolve_from_locked() {
    let mut lock = LockPool { pool: new_pool(), pool_key: principal(50), authority: principal(1) };
    lock_pool(&mut lock, 210).unwrap();
    let mut ctx = ResolvePool { pool: lock.pool, pool_key: principal(50), authority: principal(1) };
    resolve_pool(&mut ctx, 310, Winner::Void, [1; 32]).unwrap();
    assert_eq!(ctx.pool.winner, Winner::Void);
}

#[test]
fn second_resolution_fails() {
    let mut ctx = ResolvePool { pool: new_pool(), pool_key: principal(50), authority: principal(1) };
    resolve_pool(&mut ctx, 300, Winner::Over, [5; 32]).unwrap();
    assert_eq!(resolve_pool(&mut ctx, 400, Winner::Under, [6; 32]), Err(ErrorCode::PoolAlreadyResolved));
    assert_eq!(ctx.pool.winner, Winner::Over);
    assert_eq!(ctx.pool.proof_hash, [5; 32]);
}

#[test]
fn void_refunds_net_stake() {
    let (r, e) = claim(resolved(1000, 500, Winner::Void), entry_of(2, Side::Under, 300), 2);
    assert_eq!(r, Ok(300));
    assert!(e.claimed);
}

#[test]
fn over_winner_gets_share() {
    let (r, e) = claim(resolved(1000, 500, Winner::Over), entry_of(2, Side::Over, 250), 2);
    assert_eq!(r, Ok(375));
    assert!(e.claimed);
}

#[test]
fn payout_rounds_down() {
    let (r, _) = claim(resolved(3, 1, Winner::Over), entry_of(2, Side::Over, 1), 2);
    assert_eq!(r, Ok(1));
    let (r, _) = claim(resolved(7, 3, Winner::Under), entry_of(2, Side::Under, 2), 2);
    assert_eq!(r, Ok(6));
}

#[test]
fn loser_cannot_claim() {
    let (r, e) = claim(resolved(1000, 500, Winner::Over), entry_of(2, Side::Under, 250), 2);
    assert_eq!(r, Err(ErrorCode::NotWinner));
    assert!(!e.claimed);
}

#[test]
fn second_claim_fails() {
    let (r, e) = claim(resolved(1000, 500, Winner::Over), entry_of(2, Side::Over, 250), 2);
    assert_eq!(r, Ok(375));
    let (r2, e2) = claim(resolved(1000, 500, Winner::Over), e, 2);
    assert_eq!(r2, Err(ErrorCode::AlreadyClaimed));
    assert!(e2.claimed);
}

#[test]
fn many_claims_pay_once() {
    let pool = resolved(1000, 500, Winner::Over);
    let mut entry = entry_of(2, Side::Over, 250);
    let mut paid = 0;
    for _ in 0..10 {
        let (r, e) = claim(pool, entry, 2);
        entry = e;
        if r.is_ok() {
            paid += 1;
        }
    }
    assert_eq!(paid, 1);
}

#[test]
fn claim_rules() {
    let open = Pool { total_over: 10, ..new_pool() };
    assert_eq!(claim(open, entry_of(2, Side::Over, 10), 2).0, Err(ErrorCode::PoolNotResolved));
    assert_eq!(claim(resolved(10, 0, Winner::Over), entry_of(2, Side::Over, 10), 3).0, Err(ErrorCode::Unauthorized));
}

#[test]
fn claim_overflow_and_empty_side() {
    let big = resolved(u64::MAX, 1, Winner::Over);
    assert_eq!(claim(big, entry_of(2, Side::Over, 5), 2).0, Err(ErrorCode::ArithmeticError));
    let wide = resolved(1 << 40, 1 << 40, Winner::Over);
    assert_eq!(claim(wide, entry_of(2, Side::Over, 1 << 40), 2).0, Err(ErrorCode::ArithmeticError));
    let empty = resolved(0, 100, Winner::Over);
    let (r, e) = claim(empty, entry_of(2, Side::Over, 0), 2);
    assert_eq!(r, Err(ErrorCode::ArithmeticError));
    assert!(!e.claimed);
}

#[test]
fn authorization_compares_every_byte() {
    let a = principal(4);
    let mut b = principal(4);
    assert!(is_authorized(&a, &b));
    b.key[31] = 5;
    assert!(!is_authorized(&a, &b));
    b.key[31] = 4;
    b.key[0] = 0;
    assert!(!is_authorized(&a, &b));
}
