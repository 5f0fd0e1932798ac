use account_validation::missing_signer::{
    deposit, initialize, withdraw_secure, withdraw_vulnerable, Deposit, Initialize, Vault,
    WithdrawSecure, WithdrawVulnerable,
};
use account_validation::{
    derive_canonical, derive_with_bump, load, store, Account, Address, Context, ErrorCode,
};

fn program_id() -> Address {
    Address::new([7u8; 32])
}

fn key(tag: u8) -> Address {
    Address::new([tag; 32])
}

fn wallet(address: Address, is_signer: bool, balance: u64) -> Account {
    Account::new(address, Address::new([0u8; 32]), Vec::new(), is_signer, true, balance)
}

fn vault_seeds(authority: &Address) -> Vec<Vec<u8>> {
    vec![b"vault".to_vec(), authority.bytes.to_vec()]
}

fn vault_address(authority: &Address) -> Address {
    derive_canonical(&vault_seeds(authority), &program_id()).unwrap().0
}

fn blank_vault(authority: &Address) -> Account {
    Account::new(vault_address(authority), program_id(), vec![0u8; 48], false, true, 1_000)
}

fn vault_of(authority: &Address, recorded: u64, balance: u64) -> Account {
    let mut account = blank_vault(authority);
    account.balance = balance;
    store(&mut account, &Vault { authority: *authority, balance: recorded }).unwrap();
    account
}

fn recorded(vault: &Account) -> u64 {
    load::<Vault>(vault, &program_id()).unwrap().fields().balance
}

fn secure(vault: Account, authority: Account, recipient: Account) -> Context<WithdrawSecure> {
    Context::new(program_id(), WithdrawSecure { vault, authority, recipient })
}

#[test]
fn withdrawal_needs_signature_and_cannot_underflow() {
    let k = key(42);
    let mut init = Context::new(
        program_id(),
        Initialize { vault: blank_vault(&k), authority: wallet(k, true, 10) },
    );
    assert_eq!(initialize(&mut init), Ok(()));
    assert_eq!(
        *load::<Vault>(&init.accounts.vault, &program_id()).unwrap().fields(),
        Vault { authority: k, balance: 0 }
    );

    let mut dep = Context::new(
        program_id(),
        Deposit { vault: init.accounts.vault, depositor: wallet(key(5), true, 500) },
    );
    assert_eq!(deposit(&mut dep, 100), Ok(()));
    let vault = dep.accounts.vault;
    assert_eq!(recorded(&vault), 100);
    assert_eq!(vault.balance, 1_100);
    assert_eq!(dep.accounts.depositor.balance, 400);

    let mut unsigned = secure(vault.clone(), wallet(k, false, 10), wallet(key(6), false, 0));
    assert_eq!(withdraw_secure(&mut unsigned, 50), Err(ErrorCode::Unauthorized));
    assert_eq!(unsigned.accounts.vault, vault);
    assert_eq!(unsigned.accounts.recipient.balance, 0);

    let mut signed = secure(vault, wallet(k, true, 10), wallet(key(6), false, 0));
    assert_eq!(withdraw_secure(&mut signed, 50), Ok(()));
    assert_eq!(recorded(&signed.accounts.vault), 50);
    assert_eq!(signed.accounts.vault.balance, 1_050);
    assert_eq!(signed.accounts.recipient.balance, 50);

    let before = signed.accounts.vault.clone();
    assert_eq!(withdraw_secure(&mut signed, 60), Err(ErrorCode::ArithmeticUnderflow));
    assert_eq!(signed.accounts.vault, before);
    assert_eq!(recorded(&signed.accounts.vault), 50);
    assert_eq!(signed.accounts.recipient.balance, 50);
}

#[test]
fn vulnerable_withdrawal_goes_through_without_a_signature() {
    let k = key(42);
    let mut ctx = Context::new(
        program_id(),
        WithdrawVulnerable {
            vault: vault_of(&k, 100, 1_100),
            authority: wallet(k, false, 0),
            recipient: wallet(key(66), true, 0),
        },
    );
    assert_eq!(withdraw_vulnerable(&mut ctx, 100), Ok(()));
    assert_eq!(recorded(&ctx.accounts.vault), 0);
    assert_eq!(ctx.accounts.vault.balance, 1_000);
    assert_eq!(ctx.accounts.recipient.balance, 100);
    assert_eq!(ctx.accounts.authority, wallet(k, false, 0));
}

#[test]
fn withdrawal_needs_the_stored_authority() {
    let k = key(42);
    let intruder = key(43);
    let mut vault = vault_of(&k, 100, 1_100);
    // At the intruder's own canonical address, but recording another authority.
    vault.address = vault_address(&intruder);
    let mut ctx = secure(vault.clone(), wallet(intruder, true, 0), wallet(key(6), false, 0));
    assert_eq!(withdraw_secure(&mut ctx, 1), Err(ErrorCode::Unauthorized));
    assert_eq!(ctx.accounts.vault, vault);
}

#[test]
fn withdrawal_needs_the_canonical_vault_address() {
    let k = key(42);
    let (_, bump) = derive_canonical(&vault_seeds(&k), &program_id()).unwrap();
    let mut lower = bump;
    let second = loop {
        lower -= 1;
        if let Ok(address) = derive_with_bump(&vault_seeds(&k), lower, &program_id()) {
            break address;
        }
    };
    let mut vault = vault_of(&k, 100, 1_100);
    vault.address = second;
    let mut ctx = secure(vault, wallet(k, true, 0), wallet(key(6), false, 0));
    assert_eq!(withdraw_secure(&mut ctx, 1), Err(ErrorCode::InvalidDerivedAddress));
    let mut elsewhere = vault_of(&k, 100, 1_100);
    elsewhere.address = key(1);
    let mut ctx = secure(elsewhere, wallet(k, true, 0), wallet(key(6), false, 0));
    assert_eq!(withdraw_secure(&mut ctx, 1), Err(ErrorCode::InvalidDerivedAddress));
}

#[test]
fn withdrawal_goes_through_the_loader() {
    let k = key(42);
    let mut foreign = vault_of(&k, 100, 1_100);
    foreign.owner = key(66);
    let mut ctx = secure(foreign, wallet(k, true, 0), wallet(key(6), false, 0));
    assert_eq!(withdraw_secure(&mut ctx, 1), Err(ErrorCode::OwnershipMismatch));
    let mut ctx = secure(blank_vault(&k), wallet(k, true, 0), wallet(key(6), false, 0));
    assert_eq!(withdraw_secure(&mut ctx, 1), Err(ErrorCode::TypeMismatch));
    let mut short = vault_of(&k, 100, 1_100);
    short.data.truncate(47);
    let mut ctx = secure(short, wallet(k, true, 0), wallet(key(6), false, 0));
    assert_eq!(withdraw_secure(&mut ctx, 1), Err(ErrorCode::DeserializationFailed));
}

#[test]
fn withdrawal_needs_funds_behind_the_recorded_balance() {
    let k = key(42);
    let mut ctx = secure(vault_of(&k, 100, 30), wallet(k, true, 0), wallet(key(6), false, 0));
    let before = ctx.accounts.vault.clone();
    assert_eq!(withdraw_secure(&mut ctx, 50), Err(ErrorCode::InsufficientFunds));
    assert_eq!(ctx.accounts.vault, before);
    assert_eq!(withdraw_secure(&mut ctx, 30), Ok(()));
    assert_eq!(recorded(&ctx.accounts.vault), 70);
    assert_eq!(ctx.accounts.vault.balance, 0);
}

#[test]
fn withdrawal_cannot_overflow_the_recipient() {
    let k = key(42);
    let mut ctx =
        secure(vault_of(&k, 100, 100), wallet(k, true, 0), wallet(key(6), false, u64::MAX - 9));
    assert_eq!(withdraw_secure(&mut ctx, 10), Err(ErrorCode::ArithmeticOverflow));
    assert_eq!(recorded(&ctx.accounts.vault), 100);
    assert_eq!(withdraw_secure(&mut ctx, 9), Ok(()));
    assert_eq!(ctx.accounts.recipient.balance, u64::MAX);
}

#[test]
fn withdrawal_of_everything_and_of_nothing() {
    let k = key(42);
    let mut ctx = secure(vault_of(&k, 100, 100), wallet(k, true, 0), wallet(key(6), false, 0));
    assert_eq!(withdraw_secure(&mut ctx, 0), Ok(()));
    assert_eq!(recorded(&ctx.accounts.vault), 100);
    assert_eq!(withdraw_secure(&mut ctx, 100), Ok(()));
    assert_eq!(recorded(&ctx.accounts.vault), 0);
    assert_eq!(withdraw_secure(&mut ctx, 1), Err(ErrorCode::ArithmeticUnderflow));
}

#[test]
fn deposit_needs_signature_funds_and_room() {
    let k = key(42);
    let mut ctx = Context::new(
        program_id(),
        Deposit { vault: vault_of(&k, 100, 1_000), depositor: wallet(key(5), false, 500) },
    );
    assert_eq!(deposit(&mut ctx, 10), Err(ErrorCode::Unauthorized));
    ctx.accounts.depositor.is_signer = true;
    assert_eq!(deposit(&mut ctx, 501), Err(ErrorCode::InsufficientFunds));
    assert_eq!(ctx.accounts.depositor.balance, 500);
    assert_eq!(recorded(&ctx.accounts.vault), 100);

    let mut full = Context::new(
        program_id(),
        Deposit { vault: vault_of(&k, u64::MAX - 5, 0), depositor: wallet(key(5), true, 500) },
    );
    assert_eq!(deposit(&mut full, 6), Err(ErrorCode::ArithmeticOverflow));
    assert_eq!(full.accounts.depositor.balance, 500);
    assert_eq!(full.accounts.vault.balance, 0);
    assert_eq!(deposit(&mut full, 5), Ok(()));
    assert_eq!(recorded(&full.accounts.vault), u64::MAX);

    let mut rich = Context::new(
        program_id(),
        Deposit { vault: vault_of(&k, 0, u64::MAX), depositor: wallet(key(5), true, 500) },
    );
    assert_eq!(deposit(&mut rich, 1), Err(ErrorCode::ArithmeticOverflow));
}

#[test]
fn vault_is_initialized_once_at_its_canonical_address() {
    let k = key(42);
    let mut ctx = Context::new(
        program_id(),
        Initialize { vault: blank_vault(&k), authority: wallet(k, false, 10) },
    );
    assert_eq!(initialize(&mut ctx), Err(ErrorCode::Unauthorized));
    ctx.accounts.authority.is_signer = true;
    ctx.accounts.vault.owner = key(66);
    assert_eq!(initialize(&mut ctx), Err(ErrorCode::OwnershipMismatch));
    ctx.accounts.vault.owner = program_id();
    ctx.accounts.vault.address = key(1);
    assert_eq!(initialize(&mut ctx), Err(ErrorCode::InvalidDerivedAddress));
    ctx.accounts.vault.address = vault_address(&k);
    ctx.accounts.vault.data.truncate(47);
    assert_eq!(initialize(&mut ctx), Err(ErrorCode::DeserializationFailed));
    ctx.accounts.vault.data = vec![0u8; 48];
    assert_eq!(initialize(&mut ctx), Ok(()));
    assert_eq!(ctx.accounts.vault.balance, 1_000);
    let before = ctx.accounts.vault.clone();
    assert_eq!(initialize(&mut ctx), Err(ErrorCode::AlreadyInitialized));
    assert_eq!(ctx.accounts.vault, before);
}
