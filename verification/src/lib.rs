//! Fund-custody and settlement core for a portfolio-trading tournament.
//!
//! Participants pay a fixed entry fee into a pooled escrow vault, submit a
//! percentage-weighted allocation across a bounded set of assets, and an
//! authorized settlement step designates a winner who receives a fixed share
//! of the pool, with the remainder routed to a platform fee recipient.
//!
//! This crate holds the verified lifecycle logic: creation, registration,
//! settlement and prize withdrawal, together with the fund-conservation and
//! phase-ordering invariants. The surrounding runtime — persistent account
//! storage, address derivation, signing, the clock — is an external
//! collaborator; every handler here works on plain values and states its
//! exact effect in its contract.

pub mod errors;
pub mod instructions;
pub mod settlement;
pub mod state;

pub use instructions::init_platform::handler as init_platform;
pub use instructions::create_tournament::handler as create_tournament;
pub use instructions::register_user::handler as register_user;
pub use instructions::finalize_tournament::handler as finalize_tournament;
pub use instructions::claim_prize::handler as claim_prize;
