use portfolio_tournaments::errors::{ClaimPrizeError, FinalizeTournamentError};
use portfolio_tournaments::instructions::claim_prize::ClaimPrize;
use portfolio_tournaments::instructions::finalize_tournament::FinalizeTournament;
use portfolio_tournaments::settlement::split_prize;
use portfolio_tournaments::state::{PlatformAuthority, Tournament, TournamentVault, Wallet};
use portfolio_tournaments::{claim_prize, finalize_tournament};

fn ended_tournament(pool: u64) -> Tournament {
    Tournament {
        id: 1,
        creator: 7,
        entry_fee: 1000,
        start_time: 100,
        end_time: 200,
        prize_pool: pool,
        is_finalized: false,
        is_claimed: false,
        winner: None,
        max_tokens_per_user: 3,
        max_users: 3,
        current_users: 3,
    }
}

fn finalize_ctx(pool: u64, authority_key: u64) -> FinalizeTournament {
    FinalizeTournament {
        tournament: ended_tournament(pool),
        platform: PlatformAuthority { authority_wallet: 99 },
        authority: Wallet { key: authority_key, lamports: 0 },
        vault: TournamentVault { balance: pool },
        winner: Wallet { key: 8, lamports: 100 },
        platform_wallet: Wallet { key: 55, lamports: 10 },
    }
}

#[test]
fn split_prize_splits_exactly() {
    assert_eq!(split_prize(3000), (2910, 90));
    assert_eq!(split_prize(100), (97, 3));
    assert_eq!(split_prize(0), (0, 0));
    assert_eq!(split_prize(1), (0, 1));
    assert_eq!(split_prize(99), (96, 3));
    let (prize, fee) = split_prize(u64::MAX);
    assert_eq!(prize as u128 + fee as u128, u64::MAX as u128);
}

#[test]
fn finalize_rejects_non_authority() {
    let mut ctx = finalize_ctx(3000, 98);
    let r = finalize_tournament(&mut ctx, 8, 250);
    assert_eq!(r, Err(FinalizeTournamentError::NotTournamentAuthority));
    assert!(!ctx.tournament.is_finalized);
    assert_eq!(ctx.vault.balance, 3000);
}

#[test]
fn finalize_rejects_before_end_time() {
    let mut ctx = finalize_ctx(3000, 99);
    let r = finalize_tournament(&mut ctx, 8, 150);
    assert_eq!(r, Err(FinalizeTournamentError::TournamentNotEnded));
    let mut ctx = finalize_ctx(3000, 99);
    let r = finalize_tournament(&mut ctx, 8, 200);
    assert_eq!(r, Err(FinalizeTournamentError::TournamentNotEnded));
    assert!(!ctx.tournament.is_finalized);
}

#[test]
fn finalize_rejects_mismatched_winner_account() {
    let mut ctx = finalize_ctx(3000, 99);
    let r = finalize_tournament(&mut ctx, 9, 250);
    assert_eq!(r, Err(FinalizeTournamentError::InvalidWinnerAccount));
    assert!(!ctx.tournament.is_finalized);
    assert_eq!(ctx.winner.lamports, 100);
}

#[test]
fn finalize_distributes_pool_and_drains_vault() {
    let mut ctx = finalize_ctx(3000, 99);
    let r = finalize_tournament(&mut ctx, 8, 250);
    assert_eq!(r, Ok(()));
    assert_eq!(ctx.winner.lamports, 100 + 2910);
    assert_eq!(ctx.platform_wallet.lamports, 10 + 90);
    assert_eq!(ctx.vault.balance, 0);
    assert!(ctx.tournament.is_finalized);
    assert!(ctx.tournament.is_claimed);
    assert_eq!(ctx.tournament.winner, Some(8));
    assert_eq!(ctx.tournament.prize_pool, 3000);
}

#[test]
fn second_finalize_fails_and_changes_nothing() {
    let mut ctx = finalize_ctx(3000, 99);
    assert_eq!(finalize_tournament(&mut ctx, 8, 250), Ok(()));
    let winner_after = ctx.winner;
    let platform_after = ctx.platform_wallet;
    let vault_after = ctx.vault;
    let r = finalize_tournament(&mut ctx, 8, 260);
    assert_eq!(r, Err(FinalizeTournamentError::AlreadyFinalized));
    assert_eq!(ctx.winner, winner_after);
    assert_eq!(ctx.platform_wallet, platform_after);
    assert_eq!(ctx.vault, vault_after);
    assert_eq!(ctx.tournament.winner, Some(8));
    assert!(ctx.tournament.is_finalized);
}

#[test]
fn claim_rejects_before_finalization() {
    let mut ctx = ClaimPrize {
        winner: Wallet { key: 8, lamports: 100 },
        tournament: ended_tournament(3000),
        vault: TournamentVault { balance: 3000 },
    };
    let r = claim_prize(&mut ctx);
    assert_eq!(r, Err(ClaimPrizeError::TournamentNotFinalized));
    assert_eq!(ctx.vault.balance, 3000);
    assert_eq!(ctx.winner.lamports, 100);
}

#[test]
fn claim_rejects_non_winner() {
    let mut tournament = ended_tournament(3000);
    tournament.is_finalized = true;
    tournament.winner = Some(8);
    let mut ctx = ClaimPrize {
        winner: Wallet { key: 9, lamports: 100 },
        tournament,
        vault: TournamentVault { balance: 3000 },
    };
    let r = claim_prize(&mut ctx);
    assert_eq!(r, Err(ClaimPrizeError::NotWinner));
    assert_eq!(ctx.vault.balance, 3000);
    assert_eq!(ctx.winner.lamports, 100);
}

#[test]
fn claim_pays_once_then_fails_already_claimed() {
    let mut tournament = ended_tournament(3000);
    tournament.is_finalized = true;
    tournament.winner = Some(8);
    let mut ctx = ClaimPrize {
        winner: Wallet { key: 8, lamports: 100 },
        tournament,
        vault: TournamentVault { balance: 3000 },
    };
    assert_eq!(claim_prize(&mut ctx), Ok(()));
    assert_eq!(ctx.winner.lamports, 100 + 2910);
    assert_eq!(ctx.vault.balance, 90);
    assert!(ctx.tournament.is_claimed);
    let r = claim_prize(&mut ctx);
    assert_eq!(r, Err(ClaimPrizeError::AlreadyClaimed));
    assert_eq!(ctx.vault.balance, 90);
    assert_eq!(ctx.winner.lamports, 100 + 2910);
}

#[test]
fn claim_after_settlement_payout_moves_nothing() {
    let mut ctx = finalize_ctx(3000, 99);
    assert_eq!(finalize_tournament(&mut ctx, 8, 250), Ok(()));
    let mut claim_ctx = ClaimPrize {
        winner: ctx.winner,
        tournament: ctx.tournament,
        vault: ctx.vault,
    };
    let r = claim_prize(&mut claim_ctx);
    assert_eq!(r, Err(ClaimPrizeError::AlreadyClaimed));
    assert_eq!(claim_ctx.vault.balance, 0);
    assert_eq!(claim_ctx.winner.lamports, 100 + 2910);
}
