use crate::derivation::{bump_search, vault_address, vault_derivation};
use crate::error::ErrorCode;
use crate::identity::Identity;
use crate::vault::{
    initialize_spec, record_is_authentic, transfer_spec, AccountState, Config, Initialize, TransferSol,
};
use vstd::prelude::*;

verus! {

proof fn lemma_bump_search_rederives(authority: Seq<u8>, program_id: Seq<u8>, bump: u8)
    ensures
        match bump_search(authority, program_id, bump) {
            Some((a, b)) => vault_address(authority, b, program_id) == Some(a),
            None => true,
        },
    decreases bump,
{
    if bump > 0 {
        lemma_bump_search_rederives(authority, program_id, (bump - 1) as u8);
    }
}

/// A vault is created at most once: once `initialize` has succeeded on some
/// accounts, calling it again on what it left fails with `AlreadyExists` and
/// changes nothing.
pub proof fn lemma_initialize_at_most_once(ctx: Initialize, program_id: Seq<u8>)
    requires
        initialize_spec(ctx, program_id).0 is Ok,
    ensures
        ({
            let once = initialize_spec(ctx, program_id).1;
            initialize_spec(once, program_id) == (Err::<(), ErrorCode>(ErrorCode::AlreadyExists), once)
        }),
{
}

/// One operation on a vault account: a creation for an authority, or a
/// transfer out of it by a caller to a recipient.
pub enum VaultCall {
    Create(Identity),
    Withdraw(Identity, AccountState, u64),
}

/// What one call returns, and the vault account it leaves.
pub open spec fn apply_call(vault: AccountState, call: VaultCall, config: Config) -> (Result<(), ErrorCode>, AccountState) {
    match call {
        VaultCall::Create(authority) => {
            let (r, post) = initialize_spec(Initialize { manager: vault, authority }, config.program_id@);
            (r, post.manager)
        },
        VaultCall::Withdraw(caller, recipient, amount) => {
            let (r, post) = transfer_spec(
                TransferSol { manager: vault, trusted_service: caller, recipient },
                config,
                amount,
            );
            (r, post.manager)
        },
    }
}

/// The vault account after `calls`, made one after another.
pub open spec fn run_calls(vault: AccountState, calls: Seq<VaultCall>, config: Config) -> AccountState
    decreases calls.len(),
{
    if calls.len() == 0 {
        vault
    } else {
        run_calls(apply_call(vault, calls[0], config).1, calls.drop_first(), config)
    }
}

/// How many of `calls` are creations that succeed.
pub open spec fn successful_creations(vault: AccountState, calls: Seq<VaultCall>, config: Config) -> nat
    decreases calls.len(),
{
    if calls.len() == 0 {
        0
    } else {
        let (r, next) = apply_call(vault, calls[0], config);
        (if calls[0] is Create && r is Ok { 1nat } else { 0nat })
            + successful_creations(next, calls.drop_first(), config)
    }
}

/// A vault account that holds a record keeps that record through any
/// sequence of creations and transfers, and no creation among them succeeds.
pub proof fn lemma_record_survives_any_calls(vault: AccountState, calls: Seq<VaultCall>, config: Config)
    requires
        vault.data is Some,
    ensures
        run_calls(vault, calls, config).data == vault.data,
        run_calls(vault, calls, config).key == vault.key,
        successful_creations(vault, calls, config) == 0,
    decreases calls.len(),
{
    if calls.len() > 0 {
        lemma_record_survives_any_calls(apply_call(vault, calls[0], config).1, calls.drop_first(), config);
    }
}

/// Over any sequence of creations and transfers on one vault account, at
/// most one creation succeeds; every creation after it fails, with
/// `AlreadyExists` where it names the same authority.
pub proof fn lemma_created_at_most_once(vault: AccountState, calls: Seq<VaultCall>, config: Config)
    ensures
        successful_creations(vault, calls, config) <= 1,
    decreases calls.len(),
{
    if calls.len() > 0 {
        let next = apply_call(vault, calls[0], config).1;
        if vault.data is Some || next.data is Some {
            if vault.data is Some {
                lemma_record_survives_any_calls(vault, calls, config);
            } else {
                lemma_record_survives_any_calls(next, calls.drop_first(), config);
            }
        } else {
            lemma_created_at_most_once(next, calls.drop_first(), config);
        }
    }
}

/// Once `initialize` has created a vault for an authority, a later creation
/// for that same authority, after any creations and transfers, fails with
/// `AlreadyExists` and changes nothing.
pub proof fn lemma_recreation_fails(ctx: Initialize, config: Config, calls: Seq<VaultCall>)
    requires
        initialize_spec(ctx, config.program_id@).0 is Ok,
    ensures
        ({
            let later = run_calls(initialize_spec(ctx, config.program_id@).1.manager, calls, config);
            apply_call(later, VaultCall::Create(ctx.authority), config)
                == (Err::<(), ErrorCode>(ErrorCode::AlreadyExists), later)
        }),
{
    lemma_record_survives_any_calls(initialize_spec(ctx, config.program_id@).1.manager, calls, config);
}

/// The vault address is a function of the authority alone: `initialize`
/// puts the record at the canonical derivation of its authority, and the
/// stored authority and bump re-derive that very address, so the new vault
/// passes the authenticity check of every later transfer.
pub proof fn lemma_vault_address_rederives(ctx: Initialize, program_id: Seq<u8>, transfer: TransferSol)
    requires
        initialize_spec(ctx, program_id).0 is Ok,
        transfer.manager == initialize_spec(ctx, program_id).1.manager,
    ensures
        ({
            let created = initialize_spec(ctx, program_id).1.manager;
            let rec = created.data.unwrap();
            &&& created.data is Some
            &&& rec.authority == ctx.authority
            &&& vault_derivation(ctx.authority@, program_id) == Some((created.key@, rec.bump))
            &&& vault_address(rec.authority@, rec.bump, program_id) == Some(created.key@)
            &&& record_is_authentic(transfer, program_id)
        }),
{
    lemma_bump_search_rederives(ctx.authority@, program_id, 255);
}

/// A caller other than the configured trusted service is always refused
/// with `UnauthorizedCaller`, whatever the amount, and no balance changes.
pub proof fn lemma_untrusted_caller_rejected(ctx: TransferSol, config: Config, amount: u64)
    requires
        config.trusted_service is Some,
        ctx.trusted_service@ != config.trusted_service.unwrap()@,
    ensures
        transfer_spec(ctx, config, amount) == (Err::<(), ErrorCode>(ErrorCode::UnauthorizedCaller), ctx),
{
}

/// The trusted service moves exactly `amount` out of an authentic vault that
/// holds at least that much into another account: the vault loses it, the
/// recipient gains it, and their total is kept.
pub proof fn lemma_transfer_moves_exact_amount(ctx: TransferSol, config: Config, amount: u64)
    requires
        config.trusted_service == Some(ctx.trusted_service),
        record_is_authentic(ctx, config.program_id@),
        amount <= ctx.manager.lamports,
        ctx.manager.key@ != ctx.recipient.key@,
        ctx.manager.lamports + ctx.recipient.lamports <= u64::MAX,
    ensures
        ({
            let (r, post) = transfer_spec(ctx, config, amount);
            &&& r is Ok
            &&& post.manager.lamports == ctx.manager.lamports - amount
            &&& post.recipient.lamports == ctx.recipient.lamports + amount
            &&& post.manager.lamports + post.recipient.lamports == ctx.manager.lamports + ctx.recipient.lamports
            &&& post.manager.key == ctx.manager.key && post.manager.data == ctx.manager.data
            &&& post.recipient.key == ctx.recipient.key && post.recipient.data == ctx.recipient.data
        }),
{
}

/// Every transfer, whether it succeeds or fails, keeps the total balance of
/// vault and recipient.
pub proof fn lemma_transfer_conserves_total(ctx: TransferSol, config: Config, amount: u64)
    requires
        ctx.manager.lamports + ctx.recipient.lamports <= u64::MAX,
    ensures
        ({
            let post = transfer_spec(ctx, config, amount).1;
            post.manager.lamports + post.recipient.lamports == ctx.manager.lamports + ctx.recipient.lamports
        }),
{
}

/// The trusted service asking an authentic vault for more than it holds is
/// refused with `InsufficientFunds`, and nothing changes.
pub proof fn lemma_overdraft_rejected(ctx: TransferSol, config: Config, amount: u64)
    requires
        config.trusted_service == Some(ctx.trusted_service),
        record_is_authentic(ctx, config.program_id@),
        amount > ctx.manager.lamports,
    ensures
        transfer_spec(ctx, config, amount) == (Err::<(), ErrorCode>(ErrorCode::InsufficientFunds), ctx),
{
}

/// A vault whose record does not re-derive its address is refused with
/// `InvalidVaultRecord` for any amount, and nothing changes (the caller check
/// comes first, so this is stated of the trusted service's requests).
pub proof fn lemma_forged_record_rejected(ctx: TransferSol, config: Config, amount: u64)
    requires
        config.trusted_service == Some(ctx.trusted_service),
        !record_is_authentic(ctx, config.program_id@),
    ensures
        transfer_spec(ctx, config, amount) == (Err::<(), ErrorCode>(ErrorCode::InvalidVaultRecord), ctx),
{
}

} // verus!
