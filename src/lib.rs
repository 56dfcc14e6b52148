//! A custodial vault manager: each authority owns one program-derived vault
//! address, and a single trusted service may move balance out of it.

pub mod derivation;
pub mod error;
pub mod identity;
pub mod laws;
pub mod vault;

pub use derivation::{derive_vault_address, is_vault_address, vault_seed_tag};
pub use error::ErrorCode;
pub use identity::Identity;
pub use vault::{
    initialize, transfer_sol, AccountState, Config, Initialize, SolManager, TransferSol,
    PROGRAM_ID, TRUSTED_SERVICE_PUBKEY,
};
