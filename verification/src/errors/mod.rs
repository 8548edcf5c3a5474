//! Error taxonomy, one enum per operation.
//!
//! Validation, authorization, phase and resource failures are all rejected
//! before any mutation: every handler returning one of these errors leaves
//! its accounts exactly as they were.

pub mod claim_prize_errors;
pub mod create_tournament_errors;
pub mod finalize_tournament_error;
pub mod register_user_errors;

pub use claim_prize_errors::ClaimPrizeError;
pub use create_tournament_errors::CreateTournamentError;
pub use finalize_tournament_error::FinalizeTournamentError;
pub use register_user_errors::RegisterUserError;
