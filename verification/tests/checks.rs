use account_validation::{
    discriminator_of, guard_first_use, verify_authority, verify_discriminator, verify_owner,
    verify_signer, Account, Address, ErrorCode,
};

fn key(tag: u8) -> Address {
    Address::new([tag; 32])
}

fn account(owner: Address, data: Vec<u8>, is_signer: bool) -> Account {
    Account::new(key(1), owner, data, is_signer, true, 0)
}

#[test]
fn signer_check_reads_only_the_flag() {
    assert_eq!(verify_signer(&account(key(2), Vec::new(), true)), Ok(()));
    assert_eq!(verify_signer(&account(key(2), Vec::new(), false)), Err(ErrorCode::Unauthorized));
    // The address being the stored authority does not stand in for a signature.
    let named = account(key(2), vec![9u8; 64], false);
    assert_eq!(verify_authority(&named, &named.address), Ok(()));
    assert_eq!(verify_signer(&named), Err(ErrorCode::Unauthorized));
}

#[test]
fn authority_check_compares_addresses() {
    let signer = account(key(2), Vec::new(), true);
    assert_eq!(verify_authority(&signer, &key(1)), Ok(()));
    assert_eq!(verify_authority(&signer, &key(3)), Err(ErrorCode::Unauthorized));
}

#[test]
fn owner_check_compares_trust_domains() {
    let a = account(key(2), Vec::new(), false);
    assert_eq!(verify_owner(&a, &key(2)), Ok(()));
    assert_eq!(verify_owner(&a, &key(3)), Err(ErrorCode::OwnershipMismatch));
    let mut almost = [2u8; 32];
    almost[31] = 3;
    assert_eq!(verify_owner(&a, &Address::new(almost)), Err(ErrorCode::OwnershipMismatch));
}

#[test]
fn discriminator_check_reads_the_first_eight_bytes() {
    let tag = discriminator_of("Vault");
    let mut data = tag.to_vec();
    data.extend_from_slice(&[0u8; 40]);
    assert_eq!(verify_discriminator(&account(key(2), data.clone(), false), &tag), Ok(()));
    assert_eq!(
        verify_discriminator(&account(key(2), data.clone(), false), &discriminator_of("Ledger")),
        Err(ErrorCode::TypeMismatch)
    );
    data[7] ^= 1;
    assert_eq!(
        verify_discriminator(&account(key(2), data, false), &tag),
        Err(ErrorCode::TypeMismatch)
    );
    assert_eq!(
        verify_discriminator(&account(key(2), tag[..7].to_vec(), false), &tag),
        Err(ErrorCode::TypeMismatch)
    );
    assert_eq!(
        verify_discriminator(&account(key(2), Vec::new(), false), &tag),
        Err(ErrorCode::TypeMismatch)
    );
}

#[test]
fn raw_account_is_first_used_while_its_tag_area_is_zero() {
    assert_eq!(guard_first_use(&account(key(2), vec![0u8; 48], false)), Ok(()));
    assert_eq!(guard_first_use(&account(key(2), Vec::new(), false)), Ok(()));
    assert_eq!(guard_first_use(&account(key(2), vec![0u8; 3], false)), Ok(()));
    let mut data = vec![0u8; 48];
    data[7] = 1;
    assert_eq!(
        guard_first_use(&account(key(2), data, false)),
        Err(ErrorCode::AlreadyInitialized)
    );
    // Bytes behind the tag area do not count.
    let mut data = vec![0u8; 48];
    data[8] = 1;
    assert_eq!(guard_first_use(&account(key(2), data, false)), Ok(()));
}
