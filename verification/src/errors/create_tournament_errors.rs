use vstd::prelude::*;

verus! {

/// Failures of tournament creation. Each precondition of creation is a
/// distinct failure, and any of them leaves no record behind.
#[derive(Clone, Copy, Debug, PartialEq, Eq, Structural)]
pub enum CreateTournamentError {
    /// The start time must be strictly before the end time.
    StartTimeMustBeLessThanEndTime,
    /// A tournament needs room for at least two participants.
    TournamentNeedsAtLeastTwoUsers,
    /// The creator's portfolio holds more assets than the per-user bound.
    MaxTokensExceeded,
    /// The creator's portfolio weights do not sum to exactly 100.
    InvalidPortfolio,
    /// The creator's balance could not cover the entry fee.
    VaultTransferFailed,
}

} // verus!
