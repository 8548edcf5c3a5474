use vstd::prelude::*;
use crate::state::platform_authority::PlatformAuthority;
use crate::state::wallet::Wallet;

verus! {

/// Accounts of platform initialization: the slot at the fixed derived
/// address where the singleton registry lives, and the caller who becomes
/// the authority. The ledger's create-if-absent semantics guarantee the
/// slot is still empty when the operation runs; a second initialization
/// fails at that level and never reaches the handler.
pub struct Initialize {
    /// The registry slot at the fixed derived address; still unoccupied.
    pub platform_authority: Option<PlatformAuthority>,
    /// The caller; its address becomes the platform authority.
    pub authority: Wallet,
}

/// Creates the platform registry, recording the caller as the one address
/// permitted to finalize tournaments. No other side effects.
pub fn handler(ctx: &mut Initialize)
    requires
        old(ctx).platform_authority is None,
    ensures
        final(ctx).platform_authority == Some(PlatformAuthority {
            authority_wallet: old(ctx).authority.key,
        }),
        final(ctx).authority == old(ctx).authority,
{
    ctx.platform_authority = Some(PlatformAuthority {
        authority_wallet: ctx.authority.key,
    });
}

} // verus!
