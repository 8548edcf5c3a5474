use vstd::prelude::*;

verus! {

/// Failures of participant registration.
#[derive(Clone, Copy, Debug, PartialEq, Eq, Structural)]
pub enum RegisterUserError {
    /// The tournament has already been finalized.
    AlreadyFinalized,
    /// The registration window has closed: the tournament has started.
    RegistrationClosed,
    /// The tournament is already at its participant cap.
    MaxUsersReached,
    /// The portfolio holds more assets than the per-user bound.
    MaxTokensExceeded,
    /// The portfolio weights do not sum to exactly 100.
    InvalidPortfolio,
    /// The participant's balance could not cover the entry fee.
    VaultTransferFailed,
}

} // verus!
