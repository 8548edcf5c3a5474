use vstd::prelude::*;
use crate::errors::claim_prize_errors::ClaimPrizeError;
use crate::settlement::{prize_of, split_prize};
use crate::state::tournament::Tournament;
use crate::state::tournament_vault::TournamentVault;
use crate::state::wallet::Wallet;

verus! {

/// Accounts of prize withdrawal: the caller claiming to be the winner, the
/// finalized tournament, and its escrow vault.
pub struct ClaimPrize {
    /// The caller; must be the designated winner.
    pub winner: Wallet,
    /// The tournament whose prize is claimed.
    pub tournament: Tournament,
    /// The tournament's escrow vault; pays the prize out.
    pub vault: TournamentVault,
}

impl ClaimPrize {
    /// Withdrawal succeeds exactly when the tournament is finalized, the
    /// caller is the designated winner, and the prize is still unclaimed.
    pub open spec fn allowed(self) -> bool {
        &&& self.tournament.is_finalized
        &&& self.tournament.winner == Some(self.winner.key)
        &&& !self.tournament.is_claimed
    }
}

/// Settlement pays exactly once: a tournament record that is already
/// marked claimed — as every record left behind by a successful
/// finalization is — admits no successful withdrawal, whatever caller and
/// vault accompany it. Together with the handler's contract below, no
/// sequence of finalization and withdrawal can move funds out of the same
/// vault twice.
pub proof fn lemma_no_double_payout(winner: Wallet, tournament: Tournament, vault: TournamentVault)
    requires
        tournament.is_claimed,
    ensures
        !(ClaimPrize { winner, tournament, vault }).allowed(),
{
}

/// Pays the prize — 97% of the pool, rounded down — out of the escrow
/// vault to the designated winner and marks the tournament claimed, so a
/// second withdrawal can never move funds again.
///
/// Phase and identity are each a distinct failure, checked before any
/// mutation: the tournament must be finalized, only the designated winner
/// may claim, and only once. When settlement already paid the winner as it
/// finalized, the record is already marked claimed and every later
/// withdrawal stops here without touching the vault.
pub fn handler(ctx: &mut ClaimPrize) -> (r: Result<(), ClaimPrizeError>)
    requires
        old(ctx).tournament.inv(),
        old(ctx).allowed() ==> old(ctx).vault.balance >= prize_of(old(ctx).tournament.prize_pool)
            && old(ctx).winner.lamports + prize_of(old(ctx).tournament.prize_pool) <= u64::MAX,
    ensures
        (r == Err::<(), ClaimPrizeError>(ClaimPrizeError::TournamentNotFinalized) <==> !old(
            ctx,
        ).tournament.is_finalized),
        (r == Err::<(), ClaimPrizeError>(ClaimPrizeError::NotWinner) <==> old(
            ctx,
        ).tournament.is_finalized && old(ctx).tournament.winner != Some(old(ctx).winner.key)),
        (r == Err::<(), ClaimPrizeError>(ClaimPrizeError::AlreadyClaimed) <==> old(
            ctx,
        ).tournament.is_finalized && old(ctx).tournament.winner == Some(old(ctx).winner.key)
            && old(ctx).tournament.is_claimed),
        (r is Ok <==> old(ctx).allowed()),
        r is Err ==> *final(ctx) == *old(ctx),
        r is Ok ==> final(ctx).vault.balance == old(ctx).vault.balance - prize_of(
            old(ctx).tournament.prize_pool,
        ),
        r is Ok ==> final(ctx).winner == (Wallet {
            key: old(ctx).winner.key,
            lamports: (old(ctx).winner.lamports + prize_of(
                old(ctx).tournament.prize_pool,
            )) as u64,
        }),
        r is Ok ==> final(ctx).tournament == (Tournament {
            is_claimed: true,
            ..old(ctx).tournament
        }),
        final(ctx).winner.lamports + final(ctx).vault.balance == old(ctx).winner.lamports + old(
            ctx,
        ).vault.balance,
        final(ctx).tournament.inv(),
{
    if !ctx.tournament.is_finalized {
        return Err(ClaimPrizeError::TournamentNotFinalized);
    }
    let is_winner = match ctx.tournament.winner {
        Some(w) => w == ctx.winner.key,
        None => false,
    };
    if !is_winner {
        return Err(ClaimPrizeError::NotWinner);
    }
    if ctx.tournament.is_claimed {
        return Err(ClaimPrizeError::AlreadyClaimed);
    }
    let (prize, _platform_fee) = split_prize(ctx.tournament.prize_pool);
    ctx.vault.balance = ctx.vault.balance - prize;
    ctx.winner.lamports = ctx.winner.lamports + prize;
    ctx.tournament.is_claimed = true;
    Ok(())
}

} // verus!
