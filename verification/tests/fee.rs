use account_validation::type_cosplay::{
    update_fee_secure, update_fee_vulnerable, AdminConfig, UpdateFeeSecure, UpdateFeeVulnerable,
    UserData,
};
use account_validation::{load, store, Account, AccountData, Address, Context, ErrorCode};

fn program_id() -> Address {
    Address::new([7u8; 32])
}

fn key(tag: u8) -> Address {
    Address::new([tag; 32])
}

fn signer(address: Address, is_signer: bool) -> Account {
    Account::new(address, Address::new([0u8; 32]), Vec::new(), is_signer, false, 0)
}

fn typed<T: AccountData>(owner: Address, fields: &T) -> Account {
    let mut account = Account::new(key(100), owner, vec![0u8; 48], false, true, 1_000);
    store(&mut account, fields).unwrap();
    account
}

#[test]
fn vulnerable_update_takes_user_data_for_the_configuration() {
    let attacker = key(66);
    let cosplay = typed(program_id(), &UserData { authority: attacker, balance: 5 });
    let mut ctx = Context::new(
        program_id(),
        UpdateFeeVulnerable { config: cosplay, authority: signer(attacker, true) },
    );
    assert_eq!(update_fee_vulnerable(&mut ctx, 9_999), Ok(()));
    assert_eq!(
        *load::<UserData>(&ctx.accounts.config, &program_id()).unwrap().fields(),
        UserData { authority: attacker, balance: 9_999 }
    );
}

#[test]
fn secure_update_rejects_user_data() {
    let attacker = key(66);
    let cosplay = typed(program_id(), &UserData { authority: attacker, balance: 5 });
    let mut ctx = Context::new(
        program_id(),
        UpdateFeeSecure { config: cosplay.clone(), authority: signer(attacker, true) },
    );
    assert_eq!(update_fee_secure(&mut ctx, 9_999), Err(ErrorCode::TypeMismatch));
    assert_eq!(ctx.accounts.config, cosplay);
}

#[test]
fn secure_update_sets_the_fee_for_the_admin() {
    let admin = key(4);
    let config = typed(program_id(), &AdminConfig { admin, fee_basis_points: 30 });
    let mut ctx =
        Context::new(program_id(), UpdateFeeSecure { config, authority: signer(admin, true) });
    assert_eq!(update_fee_secure(&mut ctx, 25), Ok(()));
    assert_eq!(
        *load::<AdminConfig>(&ctx.accounts.config, &program_id()).unwrap().fields(),
        AdminConfig { admin, fee_basis_points: 25 }
    );
    ctx.accounts.authority = signer(key(5), true);
    assert_eq!(update_fee_secure(&mut ctx, 1), Err(ErrorCode::Unauthorized));
    ctx.accounts.authority = signer(admin, false);
    assert_eq!(update_fee_secure(&mut ctx, 1), Err(ErrorCode::Unauthorized));
    ctx.accounts.authority = signer(admin, true);
    ctx.accounts.config.owner = key(66);
    assert_eq!(update_fee_secure(&mut ctx, 1), Err(ErrorCode::OwnershipMismatch));
    ctx.accounts.config.owner = program_id();
    assert_eq!(
        load::<AdminConfig>(&ctx.accounts.config, &program_id()).unwrap().fields().fee_basis_points,
        25
    );
}

#[test]
fn vulnerable_update_writes_eight_bytes_at_offset_forty() {
    let admin = key(4);
    let mut config = typed(key(66), &AdminConfig { admin, fee_basis_points: 30 });
    config.data.extend_from_slice(&[0xAA, 0xBB]);
    let mut ctx = Context::new(
        program_id(),
        UpdateFeeVulnerable { config: config.clone(), authority: signer(admin, true) },
    );
    assert_eq!(update_fee_vulnerable(&mut ctx, 0x0102_0304_0506_0708), Ok(()));
    assert_eq!(ctx.accounts.config.data[..40], config.data[..40]);
    assert_eq!(ctx.accounts.config.data[40..48], [8, 7, 6, 5, 4, 3, 2, 1]);
    assert_eq!(ctx.accounts.config.data[48..], [0xAA, 0xBB]);
    assert_eq!(ctx.accounts.config.owner, key(66));
}

#[test]
fn vulnerable_update_still_checks_signer_key_and_length() {
    let admin = key(4);
    let config = typed(program_id(), &AdminConfig { admin, fee_basis_points: 30 });
    let mut ctx = Context::new(
        program_id(),
        UpdateFeeVulnerable { config: config.clone(), authority: signer(admin, false) },
    );
    assert_eq!(update_fee_vulnerable(&mut ctx, 1), Err(ErrorCode::Unauthorized));
    ctx.accounts.authority = signer(key(5), true);
    assert_eq!(update_fee_vulnerable(&mut ctx, 1), Err(ErrorCode::Unauthorized));
    ctx.accounts.authority = signer(admin, true);
    ctx.accounts.config.data.truncate(47);
    assert_eq!(update_fee_vulnerable(&mut ctx, 1), Err(ErrorCode::DeserializationFailed));
    ctx.accounts.config.data.truncate(39);
    assert_eq!(update_fee_vulnerable(&mut ctx, 1), Err(ErrorCode::DeserializationFailed));
    ctx.accounts.config = config.clone();
    assert_eq!(update_fee_vulnerable(&mut ctx, 30), Ok(()));
    assert_eq!(ctx.accounts.config, config);
}
