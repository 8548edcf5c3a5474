use vstd::prelude::*;

verus! {

/// The escrow vault of one tournament. Its only state is a balance: the
/// pooled entry fees it holds until settlement drains it. The balance can
/// never go negative — any transfer that would underflow it is rejected and
/// the enclosing operation aborts.
#[derive(Clone, Copy, Debug, PartialEq, Eq, Structural)]
pub struct TournamentVault {
    /// Pooled funds currently held in escrow, in currency units.
    pub balance: u64,
}

} // verus!
