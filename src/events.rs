//! Notifications that a successful operation hands back for publication.
use vstd::prelude::*;

use crate::state::{Principal, Side, Winner};

verus! {

/// A stake was taken: `amount` is the net stake, `fee` what was kept from it.
#[derive(Clone, Copy, Debug, PartialEq, Eq)]
pub struct EntryCreated {
    pub pool: Principal,
    pub user: Principal,
    pub side: Side,
    pub amount: u64,
    pub fee: u64,
}

/// A pool received its outcome.
#[derive(Clone, Copy, Debug, PartialEq, Eq)]
pub struct PoolResolved {
    pub pool: Principal,
    pub winner: Winner,
    pub proof_hash: [u8; 32],
}

/// A participant was paid `amount` out of the pool's custody.
#[derive(Clone, Copy, Debug, PartialEq, Eq)]
pub struct WinningsClaimed {
    pub pool: Principal,
    pub user: Principal,
    pub amount: u64,
}

/// A pool stopped taking entries.
#[derive(Clone, Copy, Debug, PartialEq, Eq)]
pub struct PoolLocked {
    pub pool: Principal,
}

} // verus!
