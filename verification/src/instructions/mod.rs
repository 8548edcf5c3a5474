//! Operation handlers, one module per operation.
//!
//! Each handler works on a context struct listing exactly the accounts the
//! operation touches, mirroring the all-or-nothing transaction the external
//! ledger executes. The runtime around this core looks the accounts up,
//! supplies the current time, calls the handler, and writes the accounts
//! back only when the handler succeeds — the contracts guarantee that a
//! failing handler has already left every account unchanged.

pub mod claim_prize;
pub mod create_tournament;
pub mod finalize_tournament;
pub mod init_platform;
pub mod register_user;
