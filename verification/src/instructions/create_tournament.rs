use vstd::prelude::*;
use crate::errors::create_tournament_errors::CreateTournamentError;
use crate::state::tournament::Tournament;
use crate::state::tournament_vault::TournamentVault;
use crate::state::user_portfolio::{TokenAllocation, UserPortfolio, total_weight, valid_weights, weight_sum};
use crate::state::wallet::Wallet;

verus! {

/// Accounts of tournament creation: the paying creator and the three slots
/// the operation fills — the tournament record, its escrow vault and the
/// creator's own portfolio. All three addresses are derived by the ledger,
/// and the slots are still unoccupied when the operation runs; a repeated
/// `(creator, id)` pair fails at that level and never reaches the handler.
pub struct CreateTournament {
    /// The creator; pays the first entry fee and owns the tournament.
    pub creator: Wallet,
    /// Derived address of the tournament record, from `(creator, id)`.
    pub tournament_address: u64,
    /// The tournament slot at that derived address; still unoccupied.
    pub tournament: Option<Tournament>,
    /// The escrow vault slot, derived from the tournament's address.
    pub vault: Option<TournamentVault>,
    /// The creator's portfolio slot, derived from tournament and creator.
    pub creator_portfolio: Option<UserPortfolio>,
}

/// Creates a tournament as one atomic unit: the record, its escrow vault
/// and the creator's portfolio, with the creator registered as the first
/// participant and the pool seeded by the creator's entry fee.
///
/// Each precondition is a distinct failure, checked before any mutation:
/// the time window must be ordered, the participant cap must admit at least
/// two users, the creator's portfolio must respect the asset bound and sum
/// to exactly 100, and the creator must be able to pay the entry fee.
pub fn handler(
    ctx: &mut CreateTournament,
    id: u64,
    entry_fee: u64,
    start_time: u64,
    end_time: u64,
    max_tokens_per_user: u8,
    max_users: u8,
    creator_weights: Vec<TokenAllocation>,
) -> (r: Result<(), CreateTournamentError>)
    requires
        old(ctx).tournament is None,
        old(ctx).vault is None,
        old(ctx).creator_portfolio is None,
    ensures
        (r == Err::<(), CreateTournamentError>(CreateTournamentError::StartTimeMustBeLessThanEndTime) <==> start_time
            >= end_time),
        (r == Err::<(), CreateTournamentError>(CreateTournamentError::TournamentNeedsAtLeastTwoUsers) <==> start_time
            < end_time && max_users < 2),
        (r == Err::<(), CreateTournamentError>(CreateTournamentError::MaxTokensExceeded) <==> start_time < end_time
            && max_users >= 2 && creator_weights@.len() > max_tokens_per_user),
        (r == Err::<(), CreateTournamentError>(CreateTournamentError::InvalidPortfolio) <==> start_time < end_time
            && max_users >= 2 && creator_weights@.len() <= max_tokens_per_user
            && weight_sum(creator_weights@) != 100),
        (r == Err::<(), CreateTournamentError>(CreateTournamentError::VaultTransferFailed) <==> start_time < end_time
            && max_users >= 2 && valid_weights(creator_weights@, max_tokens_per_user)
            && old(ctx).creator.lamports < entry_fee),
        (r is Ok <==> start_time < end_time && max_users >= 2 && valid_weights(
            creator_weights@,
            max_tokens_per_user,
        ) && old(ctx).creator.lamports >= entry_fee),
        r is Err ==> *final(ctx) == *old(ctx),
        r is Ok ==> final(ctx).creator == (Wallet {
            key: old(ctx).creator.key,
            lamports: (old(ctx).creator.lamports - entry_fee) as u64,
        }),
        r is Ok ==> final(ctx).tournament == Some(Tournament {
            id,
            creator: old(ctx).creator.key,
            entry_fee,
            start_time,
            end_time,
            prize_pool: entry_fee,
            is_finalized: false,
            is_claimed: false,
            winner: None,
            max_tokens_per_user,
            max_users,
            current_users: 1,
        }),
        r is Ok ==> final(ctx).vault == Some(TournamentVault { balance: entry_fee }),
        r is Ok ==> final(ctx).creator_portfolio == Some(UserPortfolio {
            user: old(ctx).creator.key,
            tournament: old(ctx).tournament_address,
            weights: creator_weights,
        }),
        r is Ok ==> final(ctx).creator.lamports + final(ctx).vault->Some_0.balance == old(
            ctx,
        ).creator.lamports,
        r is Ok ==> final(ctx).tournament->Some_0.inv(),
        r is Ok ==> final(ctx).creator_portfolio->Some_0.wf(max_tokens_per_user),
        final(ctx).tournament_address == old(ctx).tournament_address,
{
    if start_time >= end_time {
        return Err(CreateTournamentError::StartTimeMustBeLessThanEndTime);
    }
    if max_users < 2 {
        return Err(CreateTournamentError::TournamentNeedsAtLeastTwoUsers);
    }
    if creator_weights.len() > max_tokens_per_user as usize {
        return Err(CreateTournamentError::MaxTokensExceeded);
    }
    let sum = total_weight(&creator_weights);
    if sum != 100 {
        return Err(CreateTournamentError::InvalidPortfolio);
    }
    if ctx.creator.lamports < entry_fee {
        return Err(CreateTournamentError::VaultTransferFailed);
    }
    ctx.creator.lamports = ctx.creator.lamports - entry_fee;
    ctx.tournament = Some(Tournament {
        id,
        creator: ctx.creator.key,
        entry_fee,
        start_time,
        end_time,
        prize_pool: entry_fee,
        is_finalized: false,
        is_claimed: false,
        winner: None,
        max_tokens_per_user,
        max_users,
        current_users: 1,
    });
    ctx.vault = Some(TournamentVault { balance: entry_fee });
    ctx.creator_portfolio = Some(UserPortfolio {
        user: ctx.creator.key,
        tournament: ctx.tournament_address,
        weights: creator_weights,
    });
    Ok(())
}

} // verus!
