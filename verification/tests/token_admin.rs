use space_token::{
    ErrorCode, InitializeMint, LedgerInstruction, MintTokens, Pubkey, TokenStore,
    TransferAuthority, UpdateMetadata, initialize_mint, mint_tokens, transfer_authority,
    update_metadata,
};

fn key(b: u8) -> Pubkey {
    Pubkey { bytes: [b; 32] }
}

fn init_accounts(location: u8, authority: u8) -> InitializeMint {
    InitializeMint {
        space_token: key(location),
        mint: key(10),
        authority: key(authority),
        payer: key(authority),
    }
}

fn mint_accounts(location: u8, authority: u8) -> MintTokens {
    MintTokens {
        space_token: key(location),
        mint: key(10),
        token_account: key(11),
        authority: key(authority),
    }
}

fn fresh_store(location: u8, authority: u8) -> TokenStore {
    let mut store = TokenStore::new();
    let r = initialize_mint(
        &mut store,
        init_accounts(location, authority),
        b"Space Token".to_vec(),
        b"SPACE".to_vec(),
        b"https://example.org/space.json".to_vec(),
        9,
    );
    assert!(r.is_ok());
    store
}

#[test]
fn new_store_holds_no_records() {
    let store = TokenStore::new();
    assert!(!store.contains(&key(1)));
    assert!(store.get(&key(1)).is_none());
}

#[test]
fn create_sets_fields() {
    let mut store = TokenStore::new();
    let r = initialize_mint(
        &mut store,
        init_accounts(1, 2),
        b"Space Token".to_vec(),
        b"SPACE".to_vec(),
        b"https://example.org/space.json".to_vec(),
        9,
    );
    assert_eq!(
        r,
        Ok(LedgerInstruction::InitializeMint {
            mint: key(10),
            decimals: 9,
            mint_authority: key(2),
            freeze_authority: Some(key(2)),
        })
    );
    let record = store.get(&key(1)).unwrap();
    assert_eq!(record.name, b"Space Token".to_vec());
    assert_eq!(record.symbol, b"SPACE".to_vec());
    assert_eq!(record.uri, b"https://example.org/space.json".to_vec());
    assert_eq!(record.decimals, 9);
    assert_eq!(record.authority, key(2));
    assert_eq!(record.supply, 0);
}

#[test]
fn create_twice_at_same_location_fails() {
    let mut store = fresh_store(1, 2);
    let r = initialize_mint(
        &mut store,
        init_accounts(1, 3),
        b"Other".to_vec(),
        b"OTHER".to_vec(),
        b"https://example.org/other.json".to_vec(),
        0,
    );
    assert_eq!(r, Err(ErrorCode::AlreadyInitialized));
    let record = store.get(&key(1)).unwrap();
    assert_eq!(record.symbol, b"SPACE".to_vec());
    assert_eq!(record.authority, key(2));
}

#[test]
fn create_at_two_locations_succeeds() {
    let mut store = fresh_store(1, 2);
    let r = initialize_mint(
        &mut store,
        init_accounts(7, 3),
        b"Other".to_vec(),
        b"OTHER".to_vec(),
        b"https://example.org/other.json".to_vec(),
        0,
    );
    assert!(r.is_ok());
    assert_eq!(store.get(&key(1)).unwrap().symbol, b"SPACE".to_vec());
    assert_eq!(store.get(&key(7)).unwrap().symbol, b"OTHER".to_vec());
}

#[test]
fn create_over_capacity_fails() {
    let mut store = TokenStore::new();
    // 61 bytes of fixed overhead leave 183 bytes for the three strings.
    let r = initialize_mint(
        &mut store,
        init_accounts(1, 2),
        vec![b'a'; 184],
        Vec::new(),
        Vec::new(),
        9,
    );
    assert_eq!(r, Err(ErrorCode::CapacityExceeded));
    assert!(store.get(&key(1)).is_none());
}

#[test]
fn create_at_exact_capacity_succeeds() {
    let mut store = TokenStore::new();
    let r = initialize_mint(
        &mut store,
        init_accounts(1, 2),
        vec![b'a'; 100],
        vec![b'b'; 50],
        vec![b'c'; 33],
        9,
    );
    assert!(r.is_ok());
    assert_eq!(store.get(&key(1)).unwrap().name.len(), 100);
}

#[test]
fn mint_by_authority_increases_supply() {
    let mut store = fresh_store(1, 2);
    let r = mint_tokens(&mut store, mint_accounts(1, 2), 500);
    assert_eq!(
        r,
        Ok(LedgerInstruction::MintTo {
            mint: key(10),
            destination: key(11),
            authority: key(2),
            amount: 500,
        })
    );
    assert_eq!(store.get(&key(1)).unwrap().supply, 500);
    let r = mint_tokens(&mut store, mint_accounts(1, 2), 250);
    assert!(r.is_ok());
    assert_eq!(store.get(&key(1)).unwrap().supply, 750);
}

#[test]
fn mint_by_other_principal_fails() {
    let mut store = fresh_store(1, 2);
    let r = mint_tokens(&mut store, mint_accounts(1, 3), 500);
    assert_eq!(r, Err(ErrorCode::Unauthorized));
    assert_eq!(store.get(&key(1)).unwrap().supply, 0);
}

#[test]
fn mint_at_missing_location_fails() {
    let mut store = fresh_store(1, 2);
    let r = mint_tokens(&mut store, mint_accounts(9, 2), 500);
    assert_eq!(r, Err(ErrorCode::RecordNotFound));
}

#[test]
fn mint_overflow_fails_and_preserves_supply() {
    let mut store = fresh_store(1, 2);
    let r = mint_tokens(&mut store, mint_accounts(1, 2), u64::MAX);
    assert!(r.is_ok());
    assert_eq!(store.get(&key(1)).unwrap().supply, u64::MAX);
    let r = mint_tokens(&mut store, mint_accounts(1, 2), 1);
    assert_eq!(r, Err(ErrorCode::SupplyOverflow));
    assert_eq!(store.get(&key(1)).unwrap().supply, u64::MAX);
}

#[test]
fn mint_to_exact_capacity_succeeds() {
    let mut store = fresh_store(1, 2);
    let r = mint_tokens(&mut store, mint_accounts(1, 2), u64::MAX - 1);
    assert!(r.is_ok());
    let r = mint_tokens(&mut store, mint_accounts(1, 2), 1);
    assert!(r.is_ok());
    assert_eq!(store.get(&key(1)).unwrap().supply, u64::MAX);
}

fn update_accounts(location: u8, authority: u8) -> UpdateMetadata {
    UpdateMetadata { space_token: key(location), authority: key(authority) }
}

#[test]
fn update_with_all_fields_absent_changes_nothing() {
    let mut store = fresh_store(1, 2);
    let r = update_metadata(&mut store, update_accounts(1, 2), None, None, None);
    assert_eq!(r, Ok(()));
    let record = store.get(&key(1)).unwrap();
    assert_eq!(record.name, b"Space Token".to_vec());
    assert_eq!(record.symbol, b"SPACE".to_vec());
    assert_eq!(record.uri, b"https://example.org/space.json".to_vec());
    assert_eq!(record.decimals, 9);
    assert_eq!(record.authority, key(2));
    assert_eq!(record.supply, 0);
}

#[test]
fn update_with_only_symbol_changes_only_symbol() {
    let mut store = fresh_store(1, 2);
    let r = update_metadata(&mut store, update_accounts(1, 2), None, Some(b"STAR".to_vec()), None);
    assert_eq!(r, Ok(()));
    let record = store.get(&key(1)).unwrap();
    assert_eq!(record.name, b"Space Token".to_vec());
    assert_eq!(record.symbol, b"STAR".to_vec());
    assert_eq!(record.uri, b"https://example.org/space.json".to_vec());
}

#[test]
fn update_with_all_fields_present_changes_all() {
    let mut store = fresh_store(1, 2);
    let r = update_metadata(
        &mut store,
        update_accounts(1, 2),
        Some(b"Star Token".to_vec()),
        Some(b"STAR".to_vec()),
        Some(b"https://example.org/star.json".to_vec()),
    );
    assert_eq!(r, Ok(()));
    let record = store.get(&key(1)).unwrap();
    assert_eq!(record.name, b"Star Token".to_vec());
    assert_eq!(record.symbol, b"STAR".to_vec());
    assert_eq!(record.uri, b"https://example.org/star.json".to_vec());
    assert_eq!(record.supply, 0);
}

#[test]
fn update_by_other_principal_fails() {
    let mut store = fresh_store(1, 2);
    let r = update_metadata(&mut store, update_accounts(1, 3), None, Some(b"STAR".to_vec()), None);
    assert_eq!(r, Err(ErrorCode::Unauthorized));
    assert_eq!(store.get(&key(1)).unwrap().symbol, b"SPACE".to_vec());
}

#[test]
fn update_at_missing_location_fails() {
    let mut store = fresh_store(1, 2);
    let r = update_metadata(&mut store, update_accounts(9, 2), None, None, None);
    assert_eq!(r, Err(ErrorCode::RecordNotFound));
}

#[test]
fn update_over_capacity_fails_and_changes_nothing() {
    let mut store = fresh_store(1, 2);
    let r = update_metadata(&mut store, update_accounts(1, 2), Some(vec![b'a'; 200]), None, None);
    assert_eq!(r, Err(ErrorCode::CapacityExceeded));
    assert_eq!(store.get(&key(1)).unwrap().name, b"Space Token".to_vec());
}

fn transfer_accounts(location: u8, authority: u8) -> TransferAuthority {
    TransferAuthority { space_token: key(location), authority: key(authority) }
}

#[test]
fn transfer_by_other_principal_fails() {
    let mut store = fresh_store(1, 2);
    let r = transfer_authority(&mut store, transfer_accounts(1, 3), key(4));
    assert_eq!(r, Err(ErrorCode::Unauthorized));
    assert_eq!(store.get(&key(1)).unwrap().authority, key(2));
}

#[test]
fn transfer_at_missing_location_fails() {
    let mut store = fresh_store(1, 2);
    let r = transfer_authority(&mut store, transfer_accounts(9, 2), key(4));
    assert_eq!(r, Err(ErrorCode::RecordNotFound));
}

#[test]
fn transfer_replaces_authority_and_locks_out_old_one() {
    let mut store = fresh_store(1, 2);
    let r = transfer_authority(&mut store, transfer_accounts(1, 2), key(4));
    assert_eq!(r, Ok(()));
    assert_eq!(store.get(&key(1)).unwrap().authority, key(4));

    // Every mutation the old authority attempts now fails.
    let r = update_metadata(&mut store, update_accounts(1, 2), None, Some(b"STAR".to_vec()), None);
    assert_eq!(r, Err(ErrorCode::Unauthorized));
    let r = mint_tokens(&mut store, mint_accounts(1, 2), 1);
    assert_eq!(r, Err(ErrorCode::Unauthorized));
    let r = transfer_authority(&mut store, transfer_accounts(1, 2), key(2));
    assert_eq!(r, Err(ErrorCode::Unauthorized));

    // The new authority administers the record.
    let r = mint_tokens(&mut store, mint_accounts(1, 4), 7);
    assert!(r.is_ok());
    assert_eq!(store.get(&key(1)).unwrap().supply, 7);
}

#[test]
fn transfer_accepts_any_new_value() {
    let mut store = fresh_store(1, 2);
    let r = transfer_authority(&mut store, transfer_accounts(1, 2), key(0));
    assert_eq!(r, Ok(()));
    assert_eq!(store.get(&key(1)).unwrap().authority, key(0));
}
