use account_validation::type_cosplay::{AdminConfig, UserData};
use account_validation::{discriminator_of, store, Account, Address, ErrorCode, Registry};

#[test]
fn discriminator_is_truncated_sha256_of_namespaced_name() {
    assert_eq!(discriminator_of("Vault"), [211, 8, 232, 43, 2, 152, 117, 119]);
    assert_eq!(discriminator_of("Treasury"), [238, 239, 123, 238, 89, 1, 168, 253]);
    assert_eq!(discriminator_of("Ledger"), [43, 41, 21, 213, 180, 176, 95, 32]);
    assert_eq!(discriminator_of("Config"), [155, 12, 170, 224, 30, 250, 204, 130]);
    assert_eq!(discriminator_of("DataAccount"), [85, 240, 182, 158, 76, 7, 18, 233]);
    assert_eq!(discriminator_of("AdminConfig"), [156, 10, 79, 161, 71, 9, 62, 77]);
    assert_eq!(discriminator_of("UserData"), [139, 248, 167, 203, 253, 220, 210, 221]);
}

#[test]
fn discriminator_agrees_with_the_hash_of_the_runtime() {
    let digest = anchor_lang::solana_program::hash::hash(b"account:Escrow").to_bytes();
    assert_eq!(discriminator_of("Escrow")[..], digest[..8]);
}

#[test]
fn discriminator_is_deterministic_and_separates_names() {
    assert_eq!(discriminator_of("AdminConfig"), discriminator_of("AdminConfig"));
    assert_ne!(discriminator_of("AdminConfig"), discriminator_of("UserData"));
    assert_ne!(discriminator_of(""), discriminator_of("a"));
}

#[test]
fn registry_hands_out_the_tag_of_each_registered_name() {
    let registry = Registry::new(&["AdminConfig", "UserData"]).unwrap();
    assert_eq!(registry.discriminator("AdminConfig"), Some(discriminator_of("AdminConfig")));
    assert_eq!(registry.discriminator("UserData"), Some(discriminator_of("UserData")));
    assert_eq!(registry.discriminator("Vault"), None);
    assert_eq!(registry.discriminator(""), None);
}

#[test]
fn registry_may_be_empty_and_takes_a_name_twice() {
    let empty = Registry::new(&[]).unwrap();
    assert_eq!(empty.discriminator("Vault"), None);
    let twice = Registry::new(&["Vault", "Ledger", "Vault"]).unwrap();
    assert_eq!(twice.discriminator("Vault"), Some(discriminator_of("Vault")));
    assert_eq!(twice.discriminator("Ledger"), Some(discriminator_of("Ledger")));
}

#[test]
fn registry_loads_registered_types_only() {
    let program = Address::new([7u8; 32]);
    let user = UserData { authority: Address::new([9u8; 32]), balance: 12 };
    let mut account = Account::new(Address::new([1u8; 32]), program, vec![0u8; 48], false, true, 0);
    store(&mut account, &user).unwrap();

    let both = Registry::new(&["AdminConfig", "UserData"]).unwrap();
    assert_eq!(*both.load::<UserData>(&account, &program).unwrap().fields(), user);
    assert_eq!(both.load::<AdminConfig>(&account, &program).err(), Some(ErrorCode::TypeMismatch));
    assert_eq!(
        both.load::<UserData>(&account, &Address::new([8u8; 32])).err(),
        Some(ErrorCode::OwnershipMismatch)
    );

    let admin_only = Registry::new(&["AdminConfig"]).unwrap();
    assert_eq!(
        admin_only.load::<UserData>(&account, &program).err(),
        Some(ErrorCode::TypeMismatch)
    );
    assert_eq!(
        admin_only.load::<UserData>(&account, &Address::new([8u8; 32])).err(),
        Some(ErrorCode::OwnershipMismatch)
    );
}
