use crate::derivation::{derive_vault_address, is_vault_address, on_curve, vault_address, vault_derivation};
use crate::error::ErrorCode;
use crate::identity::{pubkey_from_text, Identity};
use vstd::prelude::*;

verus! {

/// The record kept at a vault address: whose vault it is, and the bump seed
/// that, with that authority, re-derives the address.
#[derive(Clone, Copy, Debug, PartialEq, Eq)]
pub struct SolManager {
    pub authority: Identity,
    pub bump: u8,
}

/// An account as the ledger presents it to an operation: its address, its
/// balance, and the vault record stored there, if any.
#[derive(Clone, Copy, Debug, PartialEq, Eq)]
pub struct AccountState {
    pub key: Identity,
    pub lamports: u64,
    pub data: Option<SolManager>,
}

/// The accounts of a vault creation: the account at the vault address and
/// the authority, whose signature the ledger has already checked.
#[derive(Clone, Copy, Debug, PartialEq, Eq)]
pub struct Initialize {
    pub manager: AccountState,
    pub authority: Identity,
}

/// The accounts of a transfer: the vault, the signing caller, and the
/// recipient.
#[derive(Clone, Copy, Debug, PartialEq, Eq)]
pub struct TransferSol {
    pub manager: AccountState,
    pub trusted_service: Identity,
    pub recipient: AccountState,
}

/// Configuration fixed at deployment: the program's own id, under which vault
/// addresses are derived, and the trusted service, or `None` where its text
/// did not parse.
#[derive(Clone, Copy, Debug, PartialEq, Eq)]
pub struct Config {
    pub program_id: Identity,
    pub trusted_service: Option<Identity>,
}

/// The deployed program's id, in base58.
pub const PROGRAM_ID: &'static str = "6aaBth4uQFtvn71kXFBrzwb7FN8hXoSJ2oJSoVosF52K";

/// The one identity allowed to move balance out of vaults, in base58.
pub const TRUSTED_SERVICE_PUBKEY: &'static str = "63vZVZ5UFKn7Jk8CCD3QWfoyGaNTLrVzKac4KVrCBpDV";

impl Config {
    /// Parses the trusted service once, so that each transfer only compares.
    pub fn new(program_id: Identity, trusted_service: &str) -> (r: Config)
        ensures
            r.program_id == program_id,
            match r.trusted_service {
                Some(t) => pubkey_from_text(trusted_service@) == Some(t@),
                None => pubkey_from_text(trusted_service@) is None,
            },
    {
        Config { program_id, trusted_service: Identity::parse(trusted_service) }
    }
}

/// What `initialize` returns and leaves behind, on the accounts `ctx`.
pub open spec fn initialize_spec(ctx: Initialize, program_id: Seq<u8>) -> (Result<(), ErrorCode>, Initialize) {
    match vault_derivation(ctx.authority@, program_id) {
        None => (Err(ErrorCode::NoValidDerivation), ctx),
        Some((a, b)) => if ctx.manager.key@ != a {
            (Err(ErrorCode::InvalidVaultRecord), ctx)
        } else if ctx.manager.data is Some {
            (Err(ErrorCode::AlreadyExists), ctx)
        } else {
            (Ok(()), Initialize {
                manager: AccountState {
                    key: ctx.manager.key,
                    lamports: ctx.manager.lamports,
                    data: Some(SolManager { authority: ctx.authority, bump: b }),
                },
                authority: ctx.authority,
            })
        },
    }
}

/// Whether `ctx`'s vault holds a record that re-derives its own address.
pub open spec fn record_is_authentic(ctx: TransferSol, program_id: Seq<u8>) -> bool {
    match ctx.manager.data {
        Some(rec) => vault_address(rec.authority@, rec.bump, program_id) == Some(ctx.manager.key@),
        None => false,
    }
}

/// `ctx` with the balances of vault and recipient replaced.
pub open spec fn with_balances(ctx: TransferSol, vault: u64, recipient: u64) -> TransferSol {
    TransferSol {
        manager: AccountState { key: ctx.manager.key, lamports: vault, data: ctx.manager.data },
        trusted_service: ctx.trusted_service,
        recipient: AccountState { key: ctx.recipient.key, lamports: recipient, data: ctx.recipient.data },
    }
}

/// What `transfer_sol` returns and leaves behind: the caller is checked
/// first, then the record, then the balance; a transfer from a vault to
/// itself moves nothing.
pub open spec fn transfer_spec(ctx: TransferSol, config: Config, amount: u64) -> (Result<(), ErrorCode>, TransferSol) {
    match config.trusted_service {
        None => (Err(ErrorCode::InvalidTrustedService), ctx),
        Some(t) => if ctx.trusted_service@ != t@ {
            (Err(ErrorCode::UnauthorizedCaller), ctx)
        } else if !record_is_authentic(ctx, config.program_id@) {
            (Err(ErrorCode::InvalidVaultRecord), ctx)
        } else if ctx.manager.lamports < amount {
            (Err(ErrorCode::InsufficientFunds), ctx)
        } else if ctx.manager.key@ == ctx.recipient.key@ {
            (Ok(()), ctx)
        } else {
            (Ok(()), with_balances(
                ctx,
                (ctx.manager.lamports - amount) as u64,
                (ctx.recipient.lamports + amount) as u64,
            ))
        },
    }
}

/// Creates the vault record of `ctx.authority` at its canonical address,
/// which `ctx.manager` must be and must not yet hold a record.
pub fn initialize(ctx: &mut Initialize, config: &Config) -> (r: Result<(), ErrorCode>)
    ensures
        (r, *final(ctx)) == initialize_spec(*old(ctx), config.program_id@),
        r is Ok ==> !on_curve(final(ctx).manager.key@),
{
    let (address, bump) = match derive_vault_address(&ctx.authority, &config.program_id) {
        Ok(p) => p,
        Err(e) => {
            return Err(e);
        },
    };
    if !(ctx.manager.key == address) {
        return Err(ErrorCode::InvalidVaultRecord);
    }
    if ctx.manager.data.is_some() {
        return Err(ErrorCode::AlreadyExists);
    }
    ctx.manager.data = Some(SolManager { authority: ctx.authority, bump });
    Ok(())
}

/// Moves `amount` from the vault to the recipient on the trusted service's
/// request, after checking the caller and the vault record's authenticity.
pub fn transfer_sol(ctx: &mut TransferSol, config: &Config, amount: u64) -> (r: Result<(), ErrorCode>)
    requires
        old(ctx).manager.lamports + old(ctx).recipient.lamports <= u64::MAX,
    ensures
        (r, *final(ctx)) == transfer_spec(*old(ctx), *config, amount),
{
    let trusted = match config.trusted_service {
        Some(t) => t,
        None => {
            return Err(ErrorCode::InvalidTrustedService);
        },
    };
    if !(ctx.trusted_service == trusted) {
        return Err(ErrorCode::UnauthorizedCaller);
    }
    let record = match ctx.manager.data {
        Some(rec) => rec,
        None => {
            return Err(ErrorCode::InvalidVaultRecord);
        },
    };
    if !is_vault_address(&record.authority, record.bump, &config.program_id, &ctx.manager.key) {
        return Err(ErrorCode::InvalidVaultRecord);
    }
    if ctx.manager.lamports < amount {
        return Err(ErrorCode::InsufficientFunds);
    }
    if ctx.manager.key == ctx.recipient.key {
        return Ok(());
    }
    ctx.manager.lamports = ctx.manager.lamports - amount;
    ctx.recipient.lamports = ctx.recipient.lamports + amount;
    Ok(())
}

} // verus!
