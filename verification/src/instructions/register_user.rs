use vstd::prelude::*;
use crate::errors::register_user_errors::RegisterUserError;
use crate::state::tournament::Tournament;
use crate::state::tournament_vault::TournamentVault;
use crate::state::user_portfolio::{TokenAllocation, UserPortfolio, total_weight, valid_weights, weight_sum};
use crate::state::wallet::Wallet;

verus! {

/// Accounts of participant registration: the paying participant, the
/// tournament being joined with its escrow vault, and the participant's
/// portfolio slot. The slot's address is derived from the tournament and
/// the participant, and it is still unoccupied when the operation runs: a
/// second registration by the same participant fails at that level and
/// never reaches the handler.
pub struct RegisterUser {
    /// The registering participant; pays the entry fee.
    pub user: Wallet,
    /// Derived address of the tournament record.
    pub tournament_address: u64,
    /// The tournament being joined.
    pub tournament: Tournament,
    /// The tournament's escrow vault; collects the entry fee.
    pub vault: TournamentVault,
    /// The participant's portfolio slot; still unoccupied.
    pub user_portfolio: Option<UserPortfolio>,
}

impl RegisterUser {
    /// Validity of the accounts handed to registration: the tournament is
    /// well formed and, until settlement begins, the vault holds exactly
    /// the prize pool.
    pub open spec fn wf(self) -> bool {
        &&& self.tournament.inv()
        &&& !self.tournament.is_finalized ==> self.vault.balance == self.tournament.prize_pool
    }
}

/// Registers the caller for a tournament as one atomic unit: creates the
/// caller's portfolio record, moves the entry fee into the escrow vault,
/// and grows the pool and the participant count together.
///
/// Each precondition is a distinct failure, checked before any mutation:
/// the tournament must not be finalized, the registration window must
/// still be open (`now < start_time`), the participant cap must not be
/// reached, and the portfolio must respect the asset bound and sum to
/// exactly 100; a balance too small for the entry fee aborts the whole
/// operation.
pub fn handler(
    ctx: &mut RegisterUser,
    now: u64,
    weights: Vec<TokenAllocation>,
) -> (r: Result<(), RegisterUserError>)
    requires
        old(ctx).wf(),
        old(ctx).user_portfolio is None,
        !old(ctx).tournament.is_finalized ==> old(ctx).tournament.prize_pool
            + old(ctx).tournament.entry_fee <= u64::MAX,
    ensures
        (r == Err::<(), RegisterUserError>(RegisterUserError::AlreadyFinalized) <==> old(
            ctx,
        ).tournament.is_finalized),
        (r == Err::<(), RegisterUserError>(RegisterUserError::RegistrationClosed) <==> !old(
            ctx,
        ).tournament.is_finalized && now >= old(ctx).tournament.start_time),
        (r == Err::<(), RegisterUserError>(RegisterUserError::MaxUsersReached) <==> !old(
            ctx,
        ).tournament.is_finalized && now < old(ctx).tournament.start_time && old(
            ctx,
        ).tournament.current_users >= old(ctx).tournament.max_users),
        (r == Err::<(), RegisterUserError>(RegisterUserError::MaxTokensExceeded) <==> !old(
            ctx,
        ).tournament.is_finalized && now < old(ctx).tournament.start_time && old(
            ctx,
        ).tournament.current_users < old(ctx).tournament.max_users && weights@.len() > old(
            ctx,
        ).tournament.max_tokens_per_user),
        (r == Err::<(), RegisterUserError>(RegisterUserError::InvalidPortfolio) <==> !old(
            ctx,
        ).tournament.is_finalized && now < old(ctx).tournament.start_time && old(
            ctx,
        ).tournament.current_users < old(ctx).tournament.max_users && weights@.len() <= old(
            ctx,
        ).tournament.max_tokens_per_user && weight_sum(weights@) != 100),
        (r == Err::<(), RegisterUserError>(RegisterUserError::VaultTransferFailed) <==> !old(
            ctx,
        ).tournament.is_finalized && now < old(ctx).tournament.start_time && old(
            ctx,
        ).tournament.current_users < old(ctx).tournament.max_users && valid_weights(
            weights@,
            old(ctx).tournament.max_tokens_per_user,
        ) && old(ctx).user.lamports < old(ctx).tournament.entry_fee),
        (r is Ok <==> !old(ctx).tournament.is_finalized && now < old(ctx).tournament.start_time
            && old(ctx).tournament.current_users < old(ctx).tournament.max_users
            && valid_weights(weights@, old(ctx).tournament.max_tokens_per_user)
            && old(ctx).user.lamports >= old(ctx).tournament.entry_fee),
        r is Err ==> *final(ctx) == *old(ctx),
        r is Ok ==> final(ctx).user == (Wallet {
            key: old(ctx).user.key,
            lamports: (old(ctx).user.lamports - old(ctx).tournament.entry_fee) as u64,
        }),
        r is Ok ==> final(ctx).tournament == (Tournament {
            prize_pool: (old(ctx).tournament.prize_pool + old(ctx).tournament.entry_fee) as u64,
            current_users: (old(ctx).tournament.current_users + 1) as u8,
            ..old(ctx).tournament
        }),
        r is Ok ==> final(ctx).vault == (TournamentVault {
            balance: (old(ctx).vault.balance + old(ctx).tournament.entry_fee) as u64,
        }),
        r is Ok ==> final(ctx).user_portfolio == Some(UserPortfolio {
            user: old(ctx).user.key,
            tournament: old(ctx).tournament_address,
            weights,
        }),
        r is Ok ==> final(ctx).user_portfolio->Some_0.wf(old(ctx).tournament.max_tokens_per_user),
        final(ctx).user.lamports + final(ctx).vault.balance == old(ctx).user.lamports + old(
            ctx,
        ).vault.balance,
        final(ctx).wf(),
        final(ctx).tournament_address == old(ctx).tournament_address,
{
    if ctx.tournament.is_finalized {
        return Err(RegisterUserError::AlreadyFinalized);
    }
    if now >= ctx.tournament.start_time {
        return Err(RegisterUserError::RegistrationClosed);
    }
    if ctx.tournament.current_users >= ctx.tournament.max_users {
        return Err(RegisterUserError::MaxUsersReached);
    }
    if weights.len() > ctx.tournament.max_tokens_per_user as usize {
        return Err(RegisterUserError::MaxTokensExceeded);
    }
    let sum = total_weight(&weights);
    if sum != 100 {
        return Err(RegisterUserError::InvalidPortfolio);
    }
    let register_fee = ctx.tournament.entry_fee;
    if ctx.user.lamports < register_fee {
        return Err(RegisterUserError::VaultTransferFailed);
    }
    ctx.user.lamports = ctx.user.lamports - register_fee;
    ctx.vault.balance = ctx.vault.balance + register_fee;
    ctx.user_portfolio = Some(UserPortfolio {
        user: ctx.user.key,
        tournament: ctx.tournament_address,
        weights,
    });
    proof {
        assert(ctx.tournament.entry_fee * (ctx.tournament.current_users + 1)
            == ctx.tournament.entry_fee * ctx.tournament.current_users
            + ctx.tournament.entry_fee) by (nonlinear_arith);
    }
    ctx.tournament.prize_pool = ctx.tournament.prize_pool + register_fee;
    ctx.tournament.current_users = ctx.tournament.current_users + 1;
    Ok(())
}

} // verus!
