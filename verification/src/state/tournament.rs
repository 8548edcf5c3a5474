use vstd::prelude::*;

verus! {

/// The per-competition record driving the tournament lifecycle:
/// open for registration until `start_time`, running until `end_time`,
/// then finalized (winner designated, pool distributed) exactly once.
#[derive(Clone, Copy, Debug)]
pub struct Tournament {
    /// Identifier, unique per creator: `(creator, id)` identifies the
    /// tournament and its derived address.
    pub id: u64,
    /// Address of the account that created the tournament.
    pub creator: u64,
    /// Fixed fee each participant deposits to join, in currency units.
    pub entry_fee: u64,
    /// Registration closes at this timestamp; the competition begins.
    pub start_time: u64,
    /// The competition ends at this timestamp; settlement may follow.
    pub end_time: u64,
    /// Running total of collected entry fees, in currency units.
    pub prize_pool: u64,
    /// Whether settlement has designated a winner and distributed the pool.
    pub is_finalized: bool,
    /// Whether the prize has been paid out.
    pub is_claimed: bool,
    /// The designated winner, present exactly once finalized.
    pub winner: Option<u64>,
    /// Upper bound on the number of assets in one participant's portfolio.
    pub max_tokens_per_user: u8,
    /// Upper bound on the number of participants.
    pub max_users: u8,
    /// Number of participants currently registered (the creator counts).
    pub current_users: u8,
}

impl Tournament {
    /// Well-formedness of a tournament record. Creation establishes it and
    /// every lifecycle step preserves it:
    /// the participant count never exceeds its cap; before settlement the
    /// pool is exactly the entry fee times the participant count; a winner
    /// is recorded exactly once finalized; and the prize can only have been
    /// claimed once finalized.
    pub open spec fn inv(self) -> bool {
        &&& self.start_time < self.end_time
        &&& self.max_users >= 2
        &&& 1 <= self.current_users <= self.max_users
        &&& (!self.is_finalized ==> self.prize_pool == self.entry_fee * self.current_users)
        &&& (self.is_finalized <==> self.winner is Some)
        &&& (self.is_claimed ==> self.is_finalized)
    }
}

} // verus!
