use vstd::prelude::*;

verus! {

/// The singleton registry naming the one address permitted to finalize
/// tournaments. It lives at a fixed derived address, is created once by
/// platform initialization, and is never mutated thereafter.
#[derive(Clone, Copy, Debug, PartialEq, Eq, Structural)]
pub struct PlatformAuthority {
    /// Address of the wallet authorized to settle tournaments.
    pub authority_wallet: u64,
}

} // verus!
