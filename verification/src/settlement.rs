//! Prize-split arithmetic of the settlement engine.
//!
//! At settlement the escrow pool is divided once: the winner receives 97% of
//! the pool rounded down, and the platform fee absorbs the integer-division
//! remainder, so the two shares always sum to exactly the pool.

use vstd::prelude::*;
use vstd::arithmetic::div_mod::{lemma_div_is_ordered, lemma_div_multiples_vanish, lemma_div_pos_is_pos};

verus! {

/// The winner's share of a prize pool: 97%, rounded down.
pub open spec fn prize_of(pool: u64) -> int {
    pool * 97 / 100
}

/// The platform's share of a prize pool: whatever the winner's share leaves.
pub open spec fn platform_fee_of(pool: u64) -> int {
    pool - prize_of(pool)
}

/// Fund conservation at settlement: for any pool, the winner's prize and the
/// platform fee sum to exactly the pool — the rounding remainder is absorbed
/// into the fee, never lost or duplicated — and neither share is negative or
/// exceeds the pool.
pub proof fn lemma_prize_split_conserves(pool: u64)
    ensures
        prize_of(pool) + platform_fee_of(pool) == pool,
        0 <= prize_of(pool) <= pool,
        0 <= platform_fee_of(pool) <= pool,
{
    lemma_div_pos_is_pos(pool * 97, 100);
    lemma_div_is_ordered(pool * 97, pool * 100, 100);
    lemma_div_multiples_vanish(pool as int, 100);
}

/// Splits a prize pool into the winner's prize and the platform fee.
pub fn split_prize(pool: u64) -> (r: (u64, u64))
    ensures
        r.0 == prize_of(pool),
        r.1 == platform_fee_of(pool),
        r.0 + r.1 == pool,
{
    proof {
        lemma_prize_split_conserves(pool);
    }
    let prize: u64 = ((pool as u128) * 97 / 100) as u64;
    (prize, pool - prize)
}

} // verus!
