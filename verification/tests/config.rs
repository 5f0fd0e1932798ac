use account_validation::reinitialization::{
    init_anchor_native, init_secure, init_vulnerable, Config, InitAnchorNative, InitSecure,
    InitVulnerable,
};
use account_validation::{guard_first_use, load, store, Account, Address, Context, ErrorCode};

fn program_id() -> Address {
    Address::new([7u8; 32])
}

fn key(tag: u8) -> Address {
    Address::new([tag; 32])
}

fn signer(address: Address, is_signer: bool) -> Account {
    Account::new(address, Address::new([0u8; 32]), Vec::new(), is_signer, false, 0)
}

fn allocated() -> Account {
    let mut account = Account::new(key(100), program_id(), vec![0u8; 49], false, true, 1_000);
    store(
        &mut account,
        &Config { authority: Address::new([0u8; 32]), is_initialized: false, vault_balance: 0 },
    )
    .unwrap();
    account
}

fn config(account: &Account) -> Config {
    *load::<Config>(account, &program_id()).unwrap().fields()
}

#[test]
fn guard_reads_the_flag_of_a_configuration() {
    let fresh = Config { authority: key(1), is_initialized: false, vault_balance: 9 };
    let used = Config { authority: key(1), is_initialized: true, vault_balance: 0 };
    assert_eq!(guard_first_use(&fresh), Ok(()));
    assert_eq!(guard_first_use(&fresh), Ok(()));
    assert_eq!(guard_first_use(&used), Err(ErrorCode::AlreadyInitialized));
}

#[test]
fn vulnerable_setup_lets_a_second_caller_take_over() {
    let mut ctx = Context::new(
        program_id(),
        InitVulnerable { config: allocated(), authority: signer(key(4), true) },
    );
    assert_eq!(init_vulnerable(&mut ctx), Ok(()));
    assert_eq!(
        config(&ctx.accounts.config),
        Config { authority: key(4), is_initialized: true, vault_balance: 0 }
    );
    ctx.accounts.authority = signer(key(66), true);
    assert_eq!(init_vulnerable(&mut ctx), Ok(()));
    assert_eq!(config(&ctx.accounts.config).authority, key(66));
}

#[test]
fn secure_setup_succeeds_exactly_once() {
    let mut ctx =
        Context::new(program_id(), InitSecure { config: allocated(), authority: signer(key(4), true) });
    assert_eq!(init_secure(&mut ctx), Ok(()));
    let settled = ctx.accounts.config.clone();
    assert_eq!(
        config(&settled),
        Config { authority: key(4), is_initialized: true, vault_balance: 0 }
    );
    assert_eq!(init_secure(&mut ctx), Err(ErrorCode::AlreadyInitialized));
    ctx.accounts.authority = signer(key(66), true);
    assert_eq!(init_secure(&mut ctx), Err(ErrorCode::AlreadyInitialized));
    assert_eq!(init_secure(&mut ctx), Err(ErrorCode::AlreadyInitialized));
    ctx.accounts.authority = signer(key(66), false);
    assert_eq!(init_secure(&mut ctx), Err(ErrorCode::Unauthorized));
    assert_eq!(ctx.accounts.config, settled);
}

#[test]
fn secure_setup_goes_through_signer_and_loader_first() {
    let mut ctx = Context::new(
        program_id(),
        InitSecure { config: allocated(), authority: signer(key(4), false) },
    );
    assert_eq!(init_secure(&mut ctx), Err(ErrorCode::Unauthorized));
    ctx.accounts.authority.is_signer = true;
    ctx.accounts.config.owner = key(66);
    assert_eq!(init_secure(&mut ctx), Err(ErrorCode::OwnershipMismatch));
    ctx.accounts.config.owner = program_id();
    ctx.accounts.config.data[0] ^= 0xFF;
    assert_eq!(init_secure(&mut ctx), Err(ErrorCode::TypeMismatch));
    ctx.accounts.config.data[0] ^= 0xFF;
    ctx.accounts.config.data[40] = 9;
    assert_eq!(init_secure(&mut ctx), Err(ErrorCode::DeserializationFailed));
    ctx.accounts.config.data[40] = 0;
    assert_eq!(init_secure(&mut ctx), Ok(()));
}

#[test]
fn native_setup_needs_a_blank_account() {
    let blank = Account::new(key(100), program_id(), vec![0u8; 49], false, true, 1_000);
    let mut ctx = Context::new(
        program_id(),
        InitAnchorNative { config: blank, authority: signer(key(4), true) },
    );
    assert_eq!(init_anchor_native(&mut ctx), Ok(()));
    assert_eq!(
        config(&ctx.accounts.config),
        Config { authority: key(4), is_initialized: true, vault_balance: 0 }
    );
    let settled = ctx.accounts.config.clone();
    ctx.accounts.authority = signer(key(66), true);
    assert_eq!(init_anchor_native(&mut ctx), Err(ErrorCode::AlreadyInitialized));
    assert_eq!(ctx.accounts.config, settled);
    let mut allocated_before = Context::new(
        program_id(),
        InitAnchorNative { config: allocated(), authority: signer(key(66), true) },
    );
    assert_eq!(init_anchor_native(&mut allocated_before), Err(ErrorCode::AlreadyInitialized));
}
