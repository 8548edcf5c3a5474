use vstd::prelude::*;

verus! {

/// Failures of tournament finalization by the platform authority.
#[derive(Clone, Copy, Debug, PartialEq, Eq, Structural)]
pub enum FinalizeTournamentError {
    /// The caller is not the registered platform authority.
    NotTournamentAuthority,
    /// The tournament has not yet ended.
    TournamentNotEnded,
    /// The tournament has already been finalized.
    AlreadyFinalized,
    /// The supplied winner account does not match the designated winner.
    InvalidWinnerAccount,
}

} // verus!
