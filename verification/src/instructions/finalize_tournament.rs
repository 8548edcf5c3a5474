use vstd::prelude::*;
use crate::errors::finalize_tournament_error::FinalizeTournamentError;
use crate::settlement::{platform_fee_of, prize_of, split_prize};
use crate::state::platform_authority::PlatformAuthority;
use crate::state::tournament::Tournament;
use crate::state::tournament_vault::TournamentVault;
use crate::state::wallet::Wallet;

verus! {

/// Accounts of tournament finalization: the tournament with its escrow
/// vault, the platform registry with the signing caller, the account that
/// is to receive the prize, and the platform fee recipient.
pub struct FinalizeTournament {
    /// The tournament being settled.
    pub tournament: Tournament,
    /// The singleton registry naming the settlement authority.
    pub platform: PlatformAuthority,
    /// The signing caller; must be the registered authority.
    pub authority: Wallet,
    /// The tournament's escrow vault; drained by settlement.
    pub vault: TournamentVault,
    /// The account receiving the prize; must match the designated winner.
    pub winner: Wallet,
    /// The platform fee recipient.
    pub platform_wallet: Wallet,
}

impl FinalizeTournament {
    /// Validity of the accounts handed to finalization: the tournament is
    /// well formed and, until settlement begins, the vault holds exactly
    /// the prize pool.
    pub open spec fn wf(self) -> bool {
        &&& self.tournament.inv()
        &&& !self.tournament.is_finalized ==> self.vault.balance == self.tournament.prize_pool
    }

    /// Finalization succeeds exactly when the caller is the registered
    /// authority, the tournament has ended and is not yet finalized, and
    /// the supplied payout account is the designated winner.
    pub open spec fn allowed(self, winner: u64, now: u64) -> bool {
        &&& self.platform.authority_wallet == self.authority.key
        &&& now > self.tournament.end_time
        &&& !self.tournament.is_finalized
        &&& self.winner.key == winner
    }
}

/// Settles a tournament: designates the winner, pays out 97% of the pool
/// to the winner's account, routes the remainder to the platform fee
/// recipient, and marks the tournament finalized and claimed. The vault is
/// drained to exactly zero; the two payouts sum to exactly the pool.
///
/// Authorization, phase and identity are each a distinct failure, checked
/// before any mutation: only the registered platform authority may settle,
/// only after the tournament's end time, only once, and only to the payout
/// account whose address was authorized.
pub fn handler(ctx: &mut FinalizeTournament, winner: u64, now: u64) -> (r: Result<
    (),
    FinalizeTournamentError,
>)
    requires
        old(ctx).wf(),
        old(ctx).allowed(winner, now) ==> old(ctx).winner.lamports + prize_of(
            old(ctx).tournament.prize_pool,
        ) <= u64::MAX && old(ctx).platform_wallet.lamports + platform_fee_of(
            old(ctx).tournament.prize_pool,
        ) <= u64::MAX,
    ensures
        (r == Err::<(), FinalizeTournamentError>(FinalizeTournamentError::NotTournamentAuthority)
            <==> old(ctx).platform.authority_wallet != old(ctx).authority.key),
        (r == Err::<(), FinalizeTournamentError>(FinalizeTournamentError::TournamentNotEnded)
            <==> old(ctx).platform.authority_wallet == old(ctx).authority.key && now <= old(
            ctx,
        ).tournament.end_time),
        (r == Err::<(), FinalizeTournamentError>(FinalizeTournamentError::AlreadyFinalized)
            <==> old(ctx).platform.authority_wallet == old(ctx).authority.key && now > old(
            ctx,
        ).tournament.end_time && old(ctx).tournament.is_finalized),
        (r == Err::<(), FinalizeTournamentError>(FinalizeTournamentError::InvalidWinnerAccount)
            <==> old(ctx).platform.authority_wallet == old(ctx).authority.key && now > old(
            ctx,
        ).tournament.end_time && !old(ctx).tournament.is_finalized && old(ctx).winner.key
            != winner),
        (r is Ok <==> old(ctx).allowed(winner, now)),
        r is Err ==> *final(ctx) == *old(ctx),
        r is Ok ==> final(ctx).tournament == (Tournament {
            winner: Some(winner),
            is_finalized: true,
            is_claimed: true,
            ..old(ctx).tournament
        }),
        r is Ok ==> final(ctx).vault.balance == 0,
        r is Ok ==> final(ctx).winner == (Wallet {
            key: old(ctx).winner.key,
            lamports: (old(ctx).winner.lamports + prize_of(
                old(ctx).tournament.prize_pool,
            )) as u64,
        }),
        r is Ok ==> final(ctx).platform_wallet == (Wallet {
            key: old(ctx).platform_wallet.key,
            lamports: (old(ctx).platform_wallet.lamports + platform_fee_of(
                old(ctx).tournament.prize_pool,
            )) as u64,
        }),
        r is Ok ==> final(ctx).vault.balance + final(ctx).winner.lamports
            + final(ctx).platform_wallet.lamports == old(ctx).vault.balance
            + old(ctx).winner.lamports + old(ctx).platform_wallet.lamports,
        final(ctx).wf(),
        final(ctx).platform == old(ctx).platform,
        final(ctx).authority == old(ctx).authority,
{
    if ctx.platform.authority_wallet != ctx.authority.key {
        return Err(FinalizeTournamentError::NotTournamentAuthority);
    }
    if now <= ctx.tournament.end_time {
        return Err(FinalizeTournamentError::TournamentNotEnded);
    }
    if ctx.tournament.is_finalized {
        return Err(FinalizeTournamentError::AlreadyFinalized);
    }
    if ctx.winner.key != winner {
        return Err(FinalizeTournamentError::InvalidWinnerAccount);
    }
    let (prize, platform_fee) = split_prize(ctx.tournament.prize_pool);
    ctx.vault.balance = ctx.vault.balance - prize;
    ctx.winner.lamports = ctx.winner.lamports + prize;
    ctx.vault.balance = ctx.vault.balance - platform_fee;
    ctx.platform_wallet.lamports = ctx.platform_wallet.lamports + platform_fee;
    ctx.tournament.winner = Some(winner);
    ctx.tournament.is_finalized = true;
    ctx.tournament.is_claimed = true;
    Ok(())
}

} // verus!
