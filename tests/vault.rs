use anchor_lang::prelude::Pubkey;
use sol_manager::{
    derive_vault_address, initialize, is_vault_address, transfer_sol, vault_seed_tag,
    AccountState, Config, ErrorCode, Identity, Initialize, SolManager, TransferSol, PROGRAM_ID,
    TRUSTED_SERVICE_PUBKEY,
};
use std::str::FromStr;

fn program_id() -> Identity {
    Identity::parse(PROGRAM_ID).unwrap()
}

fn config() -> Config {
    Config::new(program_id(), TRUSTED_SERVICE_PUBKEY)
}

fn trusted() -> Identity {
    config().trusted_service.unwrap()
}

fn id(b: u8) -> Identity {
    Identity { bytes: [b; 32] }
}

fn account(key: Identity, lamports: u64) -> AccountState {
    AccountState { key, lamports, data: None }
}

/// A vault of `authority`, created through `initialize` and then funded.
fn funded_vault(authority: Identity, lamports: u64) -> AccountState {
    let (address, _) = derive_vault_address(&authority, &program_id()).unwrap();
    let mut ctx = Initialize { manager: account(address, 0), authority };
    assert_eq!(initialize(&mut ctx, &config()), Ok(()));
    let mut manager = ctx.manager;
    manager.lamports = lamports;
    manager
}

#[test]
fn parse_matches_pubkey_from_str() {
    let parsed = Identity::parse(TRUSTED_SERVICE_PUBKEY).unwrap();
    assert_eq!(parsed.bytes, Pubkey::from_str(TRUSTED_SERVICE_PUBKEY).unwrap().to_bytes());
    assert_eq!(program_id().bytes, Pubkey::from_str(PROGRAM_ID).unwrap().to_bytes());
}

#[test]
fn parse_rejects_bad_text() {
    assert!(Identity::parse("").is_none());
    assert!(Identity::parse("0OIl").is_none());
    assert!(Identity::parse("abc").is_none());
    let long = format!("{}{}", TRUSTED_SERVICE_PUBKEY, "1");
    assert!(Identity::parse(&long).is_none());
}

#[test]
fn seed_tag_is_manager() {
    assert_eq!(vault_seed_tag(), b"manager".to_vec());
}

#[test]
fn derivation_matches_find_program_address() {
    for b in [0u8, 1, 7, 200, 255] {
        let authority = id(b);
        let (address, bump) = derive_vault_address(&authority, &program_id()).unwrap();
        let pid = Pubkey::new_from_array(program_id().bytes);
        let (expected, expected_bump) =
            Pubkey::find_program_address(&[b"manager", &authority.bytes], &pid);
        assert_eq!(address.bytes, expected.to_bytes());
        assert_eq!(bump, expected_bump);
    }
}

#[test]
fn derivation_is_deterministic_and_off_curve() {
    let authority = id(42);
    let first = derive_vault_address(&authority, &program_id()).unwrap();
    let second = derive_vault_address(&authority, &program_id()).unwrap();
    assert_eq!(first, second);
    assert!(!Pubkey::new_from_array(first.0.bytes).is_on_curve());
    assert!(is_vault_address(&authority, first.1, &program_id(), &first.0));
    let other = derive_vault_address(&id(43), &program_id()).unwrap();
    assert_ne!(first.0, other.0);
}

#[test]
fn derived_vaults_are_off_curve() {
    for b in [1u8, 2, 3, 250] {
        let (address, _) = derive_vault_address(&id(b), &program_id()).unwrap();
        assert!(!Pubkey::new_from_array(address.bytes).is_on_curve());
    }
}

#[test]
fn is_vault_address_rejects_other_bump_and_address() {
    let authority = id(9);
    let (address, bump) = derive_vault_address(&authority, &program_id()).unwrap();
    assert!(!is_vault_address(&authority, bump, &program_id(), &id(9)));
    assert!(!is_vault_address(&id(10), bump, &program_id(), &address));
    if let Some(lower) = bump.checked_sub(1) {
        assert!(!is_vault_address(&authority, lower, &program_id(), &address));
    }
}

#[test]
fn initialize_stores_authority_and_bump() {
    let authority = id(5);
    let (address, bump) = derive_vault_address(&authority, &program_id()).unwrap();
    let mut ctx = Initialize { manager: account(address, 12), authority };
    assert_eq!(initialize(&mut ctx, &config()), Ok(()));
    assert_eq!(ctx.manager.data, Some(SolManager { authority, bump }));
    assert_eq!(ctx.manager.key, address);
    assert_eq!(ctx.manager.lamports, 12);
}

#[test]
fn initialize_twice_fails_already_exists() {
    let authority = id(6);
    let (address, _) = derive_vault_address(&authority, &program_id()).unwrap();
    let mut ctx = Initialize { manager: account(address, 0), authority };
    assert_eq!(initialize(&mut ctx, &config()), Ok(()));
    let before = ctx;
    assert_eq!(initialize(&mut ctx, &config()), Err(ErrorCode::AlreadyExists));
    assert_eq!(ctx, before);
}

#[test]
fn initialize_at_wrong_address_fails() {
    let authority = id(6);
    let mut ctx = Initialize { manager: account(id(1), 0), authority };
    let before = ctx;
    assert_eq!(initialize(&mut ctx, &config()), Err(ErrorCode::InvalidVaultRecord));
    assert_eq!(ctx, before);
}

#[test]
fn scenario_transfer_then_overdraft_then_untrusted() {
    let authority = id(11);
    let recipient = id(12);
    let mut ctx = TransferSol {
        manager: funded_vault(authority, 1000),
        trusted_service: trusted(),
        recipient: account(recipient, 0),
    };
    assert_eq!(transfer_sol(&mut ctx, &config(), 300), Ok(()));
    assert_eq!(ctx.manager.lamports, 700);
    assert_eq!(ctx.recipient.lamports, 300);

    assert_eq!(transfer_sol(&mut ctx, &config(), 800), Err(ErrorCode::InsufficientFunds));
    assert_eq!(ctx.manager.lamports, 700);
    assert_eq!(ctx.recipient.lamports, 300);

    ctx.trusted_service = id(13);
    assert_eq!(transfer_sol(&mut ctx, &config(), 1), Err(ErrorCode::UnauthorizedCaller));
    assert_eq!(ctx.manager.lamports, 700);
    assert_eq!(ctx.recipient.lamports, 300);
}

#[test]
fn untrusted_caller_rejected_for_any_amount() {
    let mut ctx = TransferSol {
        manager: funded_vault(id(20), 50),
        trusted_service: id(21),
        recipient: account(id(22), 5),
    };
    let before = ctx;
    for amount in [0u64, 1, 50, 51, u64::MAX - 5] {
        assert_eq!(transfer_sol(&mut ctx, &config(), amount), Err(ErrorCode::UnauthorizedCaller));
        assert_eq!(ctx, before);
    }
}

#[test]
fn transfer_moves_exact_amount_and_conserves_total() {
    let mut ctx = TransferSol {
        manager: funded_vault(id(30), 500),
        trusted_service: trusted(),
        recipient: account(id(31), 40),
    };
    assert_eq!(transfer_sol(&mut ctx, &config(), 500), Ok(()));
    assert_eq!(ctx.manager.lamports, 0);
    assert_eq!(ctx.recipient.lamports, 540);
    assert_eq!(transfer_sol(&mut ctx, &config(), 0), Ok(()));
    assert_eq!(ctx.manager.lamports + ctx.recipient.lamports, 540);
}

#[test]
fn transfer_to_the_vault_itself_moves_nothing() {
    let manager = funded_vault(id(32), 100);
    let mut ctx = TransferSol { manager, trusted_service: trusted(), recipient: manager };
    assert_eq!(transfer_sol(&mut ctx, &config(), 60), Ok(()));
    assert_eq!(ctx.manager.lamports, 100);
    assert_eq!(ctx.recipient.lamports, 100);
}

#[test]
fn forged_record_rejected() {
    let mut manager = funded_vault(id(40), 100);
    manager.data = Some(SolManager { authority: id(41), bump: manager.data.unwrap().bump });
    let mut ctx = TransferSol { manager, trusted_service: trusted(), recipient: account(id(42), 0) };
    let before = ctx;
    assert_eq!(transfer_sol(&mut ctx, &config(), 10), Err(ErrorCode::InvalidVaultRecord));
    assert_eq!(ctx, before);

    let mut wrong_bump = funded_vault(id(40), 100);
    let rec = wrong_bump.data.unwrap();
    wrong_bump.data = Some(SolManager { authority: rec.authority, bump: rec.bump.wrapping_sub(1) });
    ctx.manager = wrong_bump;
    assert_eq!(transfer_sol(&mut ctx, &config(), 10), Err(ErrorCode::InvalidVaultRecord));
}

#[test]
fn uninitialized_vault_rejected() {
    let (address, _) = derive_vault_address(&id(50), &program_id()).unwrap();
    let mut ctx = TransferSol {
        manager: account(address, 100),
        trusted_service: trusted(),
        recipient: account(id(51), 0),
    };
    assert_eq!(transfer_sol(&mut ctx, &config(), 10), Err(ErrorCode::InvalidVaultRecord));
    assert_eq!(ctx.manager.lamports, 100);
}

#[test]
fn invalid_trusted_service_config_rejected() {
    let bad = Config::new(program_id(), "not a key");
    assert!(bad.trusted_service.is_none());
    let mut ctx = TransferSol {
        manager: funded_vault(id(60), 100),
        trusted_service: trusted(),
        recipient: account(id(61), 0),
    };
    let before = ctx;
    assert_eq!(transfer_sol(&mut ctx, &bad, 10), Err(ErrorCode::InvalidTrustedService));
    assert_eq!(ctx, before);
}

#[test]
fn creation_after_transfers_fails_already_exists() {
    let authority = id(70);
    let mut ctx = TransferSol {
        manager: funded_vault(authority, 900),
        trusted_service: trusted(),
        recipient: account(id(71), 0),
    };
    assert_eq!(transfer_sol(&mut ctx, &config(), 100), Ok(()));
    assert_eq!(transfer_sol(&mut ctx, &config(), 5000), Err(ErrorCode::InsufficientFunds));
    let mut again = Initialize { manager: ctx.manager, authority };
    assert_eq!(initialize(&mut again, &config()), Err(ErrorCode::AlreadyExists));
    assert_eq!(again.manager, ctx.manager);
    assert_eq!(again.manager.lamports, 800);
    let mut other = Initialize { manager: ctx.manager, authority: id(72) };
    assert_eq!(initialize(&mut other, &config()), Err(ErrorCode::InvalidVaultRecord));
}
