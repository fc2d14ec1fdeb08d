use faucet::{initialize, is_token_ledger, FaucetConfig, FaucetError, Identity, InitializeFaucet};

fn token_ledger() -> Identity {
    Identity::new_from_array(anchor_spl::token::ID.to_bytes())
}

fn fresh(token_program: Identity) -> InitializeFaucet {
    InitializeFaucet {
        faucet_config: None,
        token_program,
        token_mint: Identity::new_from_array([11u8; 32]),
        token_authority: Identity::new_from_array([12u8; 32]),
    }
}

#[test]
fn initialize_records_the_five_values() {
    let mut accounts = fresh(token_ledger());
    assert_eq!(initialize(&mut accounts, 254, 1000), Ok(()));
    let record = accounts.faucet_config.expect("the slot holds the record");
    assert_eq!(record.token_program.to_bytes(), anchor_spl::token::ID.to_bytes());
    assert_eq!(record.token_mint.to_bytes(), [11u8; 32]);
    assert_eq!(record.token_authority.to_bytes(), [12u8; 32]);
    assert_eq!(record.nonce, 254);
    assert_eq!(record.drip_volume, 1000);
}

#[test]
fn initialize_leaves_the_other_accounts_alone() {
    let mut accounts = fresh(token_ledger());
    let before = accounts;
    assert_eq!(initialize(&mut accounts, 1, 2), Ok(()));
    assert_eq!(accounts.token_program, before.token_program);
    assert_eq!(accounts.token_mint, before.token_mint);
    assert_eq!(accounts.token_authority, before.token_authority);
}

#[test]
fn initialize_takes_the_extreme_values() {
    let mut accounts = fresh(token_ledger());
    assert_eq!(initialize(&mut accounts, u8::MAX, u64::MAX), Ok(()));
    let record = accounts.faucet_config.unwrap();
    assert_eq!(record.nonce, 255);
    assert_eq!(record.drip_volume, 18_446_744_073_709_551_615);

    let mut accounts = fresh(token_ledger());
    assert_eq!(initialize(&mut accounts, 0, 0), Ok(()));
    let record = accounts.faucet_config.unwrap();
    assert_eq!(record.nonce, 0);
    assert_eq!(record.drip_volume, 0);
}

#[test]
fn initialize_twice_fails_the_second_time() {
    let mut accounts = fresh(token_ledger());
    assert_eq!(initialize(&mut accounts, 3, 1000), Ok(()));
    let first = accounts.faucet_config;
    assert_eq!(initialize(&mut accounts, 4, 5), Err(FaucetError::ConfigurationError));
    assert_eq!(accounts.faucet_config, first);
    assert_eq!(accounts.faucet_config.unwrap().drip_volume, 1000);
    assert_eq!(accounts.faucet_config.unwrap().nonce, 3);
}

#[test]
fn initialize_twice_with_other_accounts_fails_too() {
    let mut accounts = fresh(token_ledger());
    assert_eq!(initialize(&mut accounts, 3, 1000), Ok(()));
    let mut again = InitializeFaucet {
        faucet_config: accounts.faucet_config,
        token_program: token_ledger(),
        token_mint: Identity::new_from_array([21u8; 32]),
        token_authority: Identity::new_from_array([22u8; 32]),
    };
    assert_eq!(initialize(&mut again, 9, 9), Err(FaucetError::ConfigurationError));
    assert_eq!(again.faucet_config, accounts.faucet_config);
}

#[test]
fn initialize_refuses_a_populated_slot() {
    let record = FaucetConfig {
        token_program: token_ledger(),
        token_mint: Identity::new_from_array([1u8; 32]),
        token_authority: Identity::new_from_array([2u8; 32]),
        nonce: 1,
        drip_volume: 1,
    };
    let mut accounts = fresh(token_ledger());
    accounts.faucet_config = Some(record);
    assert_eq!(initialize(&mut accounts, 2, 2), Err(FaucetError::ConfigurationError));
    assert_eq!(accounts.faucet_config, Some(record));
}

#[test]
fn initialize_refuses_another_ledger() {
    let mut accounts = fresh(Identity::new_from_array([9u8; 32]));
    assert_eq!(initialize(&mut accounts, 3, 1000), Err(FaucetError::ConfigurationError));
    assert_eq!(accounts.faucet_config, None);
}

#[test]
fn initialize_after_a_refused_ledger_may_succeed() {
    let mut accounts = fresh(Identity::new_from_array([0u8; 32]));
    assert_eq!(initialize(&mut accounts, 3, 1000), Err(FaucetError::ConfigurationError));
    accounts.token_program = token_ledger();
    assert_eq!(initialize(&mut accounts, 3, 1000), Ok(()));
    assert_eq!(accounts.faucet_config.unwrap().drip_volume, 1000);
}

#[test]
fn token_ledger_is_the_token_program() {
    let bytes: [u8; 32] = [
        6, 221, 246, 225, 215, 101, 161, 147, 217, 203, 225, 70, 206, 235, 121, 172, 28, 180, 133,
        237, 95, 91, 55, 145, 58, 140, 245, 133, 126, 255, 0, 169,
    ];
    assert_eq!(anchor_spl::token::ID.to_bytes(), bytes);
    assert!(is_token_ledger(&Identity::new_from_array(bytes)));
    assert!(is_token_ledger(&token_ledger()));
}

#[test]
fn token_ledger_is_no_other_program() {
    assert!(!is_token_ledger(&Identity::new_from_array([0u8; 32])));
    let mut bytes = anchor_spl::token::ID.to_bytes();
    bytes[31] ^= 1;
    assert!(!is_token_ledger(&Identity::new_from_array(bytes)));
    let system = anchor_lang::solana_program::system_program::ID.to_bytes();
    assert!(!is_token_ledger(&Identity::new_from_array(system)));
}
