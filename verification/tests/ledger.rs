use account_validation::integer_overflow::{
    burn_secure, burn_vulnerable, initialize, mint_secure, mint_vulnerable, Initialize, Ledger,
    Operate,
};
use account_validation::{load, store, Account, Address, Context, ErrorCode};

fn program_id() -> Address {
    Address::new([7u8; 32])
}

fn key(tag: u8) -> Address {
    Address::new([tag; 32])
}

fn signer(address: Address, is_signer: bool) -> Account {
    Account::new(address, Address::new([0u8; 32]), Vec::new(), is_signer, false, 0)
}

fn operate(total_supply: u64, user_balance: u64) -> Context<Operate> {
    let mut ledger = Account::new(key(100), program_id(), vec![0u8; 56], false, true, 1_000);
    store(&mut ledger, &Ledger { authority: key(4), total_supply, user_balance }).unwrap();
    Context::new(program_id(), Operate { ledger, authority: signer(key(4), true) })
}

fn fields(ctx: &Context<Operate>) -> (u64, u64) {
    let view = load::<Ledger>(&ctx.accounts.ledger, &program_id()).unwrap();
    (view.fields().total_supply, view.fields().user_balance)
}

#[test]
fn vulnerable_mint_wraps_the_supply_to_zero() {
    let mut ctx = operate(u64::MAX, 10);
    assert_eq!(mint_vulnerable(&mut ctx, 1), Ok(()));
    assert_eq!(fields(&ctx), (0, 11));
    let mut ctx = operate(u64::MAX, u64::MAX - 1);
    assert_eq!(mint_vulnerable(&mut ctx, 5), Ok(()));
    assert_eq!(fields(&ctx), (4, 3));
}

#[test]
fn vulnerable_burn_wraps_the_balance_to_the_maximum() {
    let mut ctx = operate(100, 10);
    assert_eq!(burn_vulnerable(&mut ctx, 11), Ok(()));
    assert_eq!(fields(&ctx), (89, u64::MAX));
    let mut ctx = operate(0, 0);
    assert_eq!(burn_vulnerable(&mut ctx, 1), Ok(()));
    assert_eq!(fields(&ctx), (u64::MAX, u64::MAX));
}

#[test]
fn vulnerable_operations_are_exact_inside_the_range() {
    let mut ctx = operate(100, 10);
    assert_eq!(mint_vulnerable(&mut ctx, 5), Ok(()));
    assert_eq!(fields(&ctx), (105, 15));
    assert_eq!(burn_vulnerable(&mut ctx, 15), Ok(()));
    assert_eq!(fields(&ctx), (90, 0));
}

#[test]
fn secure_mint_fails_instead_of_wrapping() {
    let mut ctx = operate(u64::MAX, 10);
    let before = ctx.accounts.ledger.clone();
    assert_eq!(mint_secure(&mut ctx, 1), Err(ErrorCode::ArithmeticOverflow));
    assert_eq!(ctx.accounts.ledger, before);
    let mut ctx = operate(10, u64::MAX);
    assert_eq!(mint_secure(&mut ctx, 1), Err(ErrorCode::ArithmeticOverflow));
    assert_eq!(fields(&ctx), (10, u64::MAX));
    let mut ctx = operate(u64::MAX - 1, 10);
    assert_eq!(mint_secure(&mut ctx, 1), Ok(()));
    assert_eq!(fields(&ctx), (u64::MAX, 11));
}

#[test]
fn secure_burn_fails_instead_of_wrapping() {
    let mut ctx = operate(100, 10);
    let before = ctx.accounts.ledger.clone();
    assert_eq!(burn_secure(&mut ctx, 11), Err(ErrorCode::ArithmeticUnderflow));
    assert_eq!(ctx.accounts.ledger, before);
    let mut ctx = operate(5, 10);
    assert_eq!(burn_secure(&mut ctx, 6), Err(ErrorCode::ArithmeticUnderflow));
    assert_eq!(fields(&ctx), (5, 10));
    let mut ctx = operate(100, 10);
    assert_eq!(burn_secure(&mut ctx, 10), Ok(()));
    assert_eq!(fields(&ctx), (90, 0));
}

#[test]
fn operations_need_the_signature_of_the_stored_authority() {
    let mut ctx = operate(100, 10);
    ctx.accounts.authority = signer(key(4), false);
    assert_eq!(mint_secure(&mut ctx, 1), Err(ErrorCode::Unauthorized));
    assert_eq!(burn_secure(&mut ctx, 1), Err(ErrorCode::Unauthorized));
    assert_eq!(mint_vulnerable(&mut ctx, 1), Err(ErrorCode::Unauthorized));
    assert_eq!(burn_vulnerable(&mut ctx, 1), Err(ErrorCode::Unauthorized));
    ctx.accounts.authority = signer(key(5), true);
    assert_eq!(mint_secure(&mut ctx, 1), Err(ErrorCode::Unauthorized));
    assert_eq!(fields(&ctx), (100, 10));
    ctx.accounts.authority = signer(key(4), true);
    ctx.accounts.ledger.owner = key(66);
    assert_eq!(mint_secure(&mut ctx, 1), Err(ErrorCode::OwnershipMismatch));
}

#[test]
fn ledger_is_initialized_with_the_supply_and_no_balance() {
    let blank = Account::new(key(100), program_id(), vec![0u8; 56], false, true, 5);
    let mut ctx =
        Context::new(program_id(), Initialize { ledger: blank, authority: signer(key(4), true) });
    assert_eq!(initialize(&mut ctx, 1_000_000), Ok(()));
    assert_eq!(
        *load::<Ledger>(&ctx.accounts.ledger, &program_id()).unwrap().fields(),
        Ledger { authority: key(4), total_supply: 1_000_000, user_balance: 0 }
    );
    assert_eq!(initialize(&mut ctx, 0), Err(ErrorCode::AlreadyInitialized));
    let small = Account::new(key(100), program_id(), vec![0u8; 55], false, true, 5);
    let mut ctx =
        Context::new(program_id(), Initialize { ledger: small, authority: signer(key(4), true) });
    assert_eq!(initialize(&mut ctx, 1), Err(ErrorCode::DeserializationFailed));
}
