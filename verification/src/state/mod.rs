//! Persisted records of the tournament system, modeled over plain values.
//!
//! Addresses are the stable lookup keys the external ledger derives for each
//! account; this core only stores and compares them, so they appear here as
//! plain integers.

pub mod platform_authority;
pub mod tournament;
pub mod tournament_vault;
pub mod user_portfolio;
pub mod wallet;

pub use platform_authority::PlatformAuthority;
pub use tournament::Tournament;
pub use tournament_vault::TournamentVault;
pub use user_portfolio::TokenAllocation;
pub use user_portfolio::UserPortfolio;
pub use wallet::Wallet;
