use portfolio_tournaments::errors::{ClaimPrizeError, RegisterUserError};
use portfolio_tournaments::instructions::claim_prize::ClaimPrize;
use portfolio_tournaments::instructions::create_tournament::CreateTournament;
use portfolio_tournaments::instructions::finalize_tournament::FinalizeTournament;
use portfolio_tournaments::instructions::init_platform::Initialize;
use portfolio_tournaments::instructions::register_user::RegisterUser;
use portfolio_tournaments::state::{TokenAllocation, Wallet};
use portfolio_tournaments::{
    claim_prize, create_tournament, finalize_tournament, init_platform, register_user,
};

#[test]
fn full_lifecycle_collects_fees_and_settles_once() {
    // The platform authority registers itself once.
    let mut init_ctx = Initialize {
        platform_authority: None,
        authority: Wallet { key: 99, lamports: 0 },
    };
    init_platform(&mut init_ctx);
    let platform = init_ctx.platform_authority.expect("registry created");

    // The creator opens a three-seat tournament and pays the first fee.
    let mut create_ctx = CreateTournament {
        creator: Wallet { key: 7, lamports: 5000 },
        tournament_address: 500,
        tournament: None,
        vault: None,
        creator_portfolio: None,
    };
    let r = create_tournament(
        &mut create_ctx,
        1,
        1000,
        100,
        200,
        3,
        3,
        vec![TokenAllocation { mint: 1, weight: 60 }, TokenAllocation { mint: 2, weight: 40 }],
    );
    assert_eq!(r, Ok(()));
    let mut tournament = create_ctx.tournament.unwrap();
    let mut vault = create_ctx.vault.unwrap();

    // Two more participants register before the start time; after each
    // step the pool equals the entry fee times the participant count.
    for user_key in [8u64, 9u64] {
        let mut ctx = RegisterUser {
            user: Wallet { key: user_key, lamports: 1500 },
            tournament_address: 500,
            tournament,
            vault,
            user_portfolio: None,
        };
        let r = register_user(&mut ctx, 50, vec![TokenAllocation { mint: 3, weight: 100 }]);
        assert_eq!(r, Ok(()));
        tournament = ctx.tournament;
        vault = ctx.vault;
        assert_eq!(
            tournament.prize_pool,
            tournament.entry_fee * tournament.current_users as u64
        );
        assert!(tournament.current_users <= tournament.max_users);
        assert_eq!(vault.balance, tournament.prize_pool);
    }
    assert_eq!(tournament.current_users, 3);
    assert_eq!(tournament.prize_pool, 3000);

    // The tournament is full: a fourth participant is turned away.
    let mut ctx = RegisterUser {
        user: Wallet { key: 10, lamports: 1500 },
        tournament_address: 500,
        tournament,
        vault,
        user_portfolio: None,
    };
    let r = register_user(&mut ctx, 50, vec![TokenAllocation { mint: 3, weight: 100 }]);
    assert_eq!(r, Err(RegisterUserError::MaxUsersReached));
    tournament = ctx.tournament;
    vault = ctx.vault;
    assert_eq!(tournament.current_users, 3);
    assert_eq!(vault.balance, 3000);

    // After the end time the authority settles: the winner receives 97%,
    // the platform fee recipient the rest, and the vault is drained.
    let mut fin_ctx = FinalizeTournament {
        tournament,
        platform,
        authority: Wallet { key: 99, lamports: 0 },
        vault,
        winner: Wallet { key: 9, lamports: 500 },
        platform_wallet: Wallet { key: 55, lamports: 0 },
    };
    assert_eq!(finalize_tournament(&mut fin_ctx, 9, 250), Ok(()));
    assert_eq!(fin_ctx.winner.lamports, 500 + 2910);
    assert_eq!(fin_ctx.platform_wallet.lamports, 90);
    assert_eq!(fin_ctx.vault.balance, 0);

    // Settlement already paid as it finalized: a withdrawal by the winner
    // moves nothing.
    let mut claim_ctx = ClaimPrize {
        winner: fin_ctx.winner,
        tournament: fin_ctx.tournament,
        vault: fin_ctx.vault,
    };
    assert_eq!(claim_prize(&mut claim_ctx), Err(ClaimPrizeError::AlreadyClaimed));
    assert_eq!(claim_ctx.vault.balance, 0);
    assert_eq!(claim_ctx.winner.lamports, 500 + 2910);
}
