//! Pari-mutuel prediction pools: a pool ledger that moves from `Open` to
//! `Locked` to `Resolved`, per-participant stake entries, and the settlement
//! arithmetic that pays winners out of the combined pool.
//!
//! Every operation is a verified transition on plain records: it either fails
//! with an [`ErrorCode`] and leaves its records untouched, or applies its whole
//! effect and returns the notification to publish. Moving funds, reading the
//! clock and establishing who signed are left to the caller.
pub mod state;
pub mod events;
pub mod claim;
pub mod stake;
pub mod lifecycle;
pub mod laws;

pub use claim::{claim_winnings, ClaimWinnings};
pub use events::{EntryCreated, PoolLocked, PoolResolved, WinningsClaimed};
pub use lifecycle::{initialize_pool, lock_pool, resolve_pool, InitializePool, LockPool, ResolvePool};
pub use stake::{enter_pool, EnterPool};
pub use state::{is_authorized, Entry, ErrorCode, Pool, PoolStatus, Principal, Side, Winner};
