use vstd::prelude::*;

verus! {

/// Failures of prize withdrawal by the designated winner.
#[derive(Clone, Copy, Debug, PartialEq, Eq, Structural)]
pub enum ClaimPrizeError {
    /// The tournament has not been finalized yet.
    TournamentNotFinalized,
    /// The caller is not the recorded winner of this tournament.
    NotWinner,
    /// The prize has already been claimed.
    AlreadyClaimed,
}

} // verus!
