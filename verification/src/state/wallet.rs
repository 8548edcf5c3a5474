use vstd::prelude::*;

verus! {

/// A fund-holding account of the external ledger, as this core sees it: its
/// derived address and its balance. Creators and participants pay entry fees
/// from such an account; the winner and the platform fee recipient receive
/// payouts into one.
#[derive(Clone, Copy, Debug, PartialEq, Eq, Structural)]
pub struct Wallet {
    /// Stable address of the account on the ledger.
    pub key: u64,
    /// Balance of the account, in currency units.
    pub lamports: u64,
}

} // verus!
