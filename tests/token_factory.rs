use factory_engine::deploy::ConstructorArg;
use factory_engine::ids::{Address, BytesN32};
use factory_engine::token_factory::{
    validate_config, validate_string_chars, TokenConfig, TokenFactory, TokenFactoryError,
    TokenType, MAX_SUPPLY,
};

fn addr(n: u8) -> Address {
    Address::account([n; 32])
}

fn hash(n: u8) -> BytesN32 {
    BytesN32::from_array([n; 32])
}

fn setup_factory() -> (TokenFactory, Address) {
    let admin = addr(1);
    (TokenFactory::new(admin), admin)
}

fn setup_with_wasm() -> (TokenFactory, Address, BytesN32) {
    let (mut f, admin) = setup_factory();
    let wasm_hash = hash(1);
    f.set_allowlist_wasm(&admin, wasm_hash).unwrap();
    f.set_blocklist_wasm(&admin, wasm_hash).unwrap();
    f.set_capped_wasm(&admin, wasm_hash).unwrap();
    f.set_pausable_wasm(&admin, wasm_hash).unwrap();
    f.set_vault_wasm(&admin, wasm_hash).unwrap();
    (f, admin, wasm_hash)
}

fn config(admin: Address, token_type: TokenType) -> TokenConfig {
    TokenConfig {
        token_type,
        admin,
        manager: admin,
        initial_supply: 1000000,
        cap: None,
        name: b"Test Token".to_vec(),
        symbol: b"TEST".to_vec(),
        decimals: 7,
        salt: hash(2),
        asset: None,
        decimals_offset: None,
    }
}

fn deploy_error(f: &TokenFactory, c: &TokenConfig) -> TokenFactoryError {
    f.prepare_token(c).unwrap_err()
}

#[test]
fn test_constructor() {
    let admin = addr(1);
    let f = TokenFactory::new(admin);
    assert_eq!(f.get_admin(), admin);
    assert_eq!(f.get_token_count(), 0);
    assert_eq!(f.get_deployed_tokens().len(), 0);
}

#[test]
fn test_set_wasm_hashes() {
    let (mut f, admin) = setup_factory();
    let wasm_hash = hash(1);
    assert!(f.set_allowlist_wasm(&admin, wasm_hash).is_ok());
    assert!(f.set_blocklist_wasm(&admin, wasm_hash).is_ok());
    assert!(f.set_capped_wasm(&admin, wasm_hash).is_ok());
    assert!(f.set_pausable_wasm(&admin, wasm_hash).is_ok());
    assert!(f.set_vault_wasm(&admin, wasm_hash).is_ok());
}

#[test]
fn test_set_wasm_not_admin() {
    let (mut f, _admin) = setup_factory();
    let r = f.set_allowlist_wasm(&addr(9), hash(1));
    assert_eq!(r, Err(TokenFactoryError::NotAdmin));
    assert_eq!(f.allowlist_wasm, None);
}

#[test]
fn test_validation_empty_name() {
    let (f, admin, _) = setup_with_wasm();
    let mut c = config(admin, TokenType::Allowlist);
    c.name = b"".to_vec();
    assert_eq!(deploy_error(&f, &c), TokenFactoryError::InvalidName);
}

#[test]
fn test_validation_name_too_long() {
    let (f, admin, _) = setup_with_wasm();
    let mut c = config(admin, TokenType::Allowlist);
    c.name = b"ThisNameIsWayTooLongAndExceedsThirtyCharactersLimit".to_vec();
    assert_eq!(deploy_error(&f, &c), TokenFactoryError::InvalidName);
}

#[test]
fn test_validation_empty_symbol() {
    let (f, admin, _) = setup_with_wasm();
    let mut c = config(admin, TokenType::Allowlist);
    c.symbol = b"".to_vec();
    assert_eq!(deploy_error(&f, &c), TokenFactoryError::InvalidSymbol);
}

#[test]
fn test_validation_symbol_too_long() {
    let (f, admin, _) = setup_with_wasm();
    let mut c = config(admin, TokenType::Allowlist);
    c.symbol = b"WAYTOOLONGSYMBOL".to_vec();
    assert_eq!(deploy_error(&f, &c), TokenFactoryError::InvalidSymbol);
}

#[test]
fn test_validation_name_with_null_bytes() {
    let (f, admin, _) = setup_with_wasm();
    let mut c = config(admin, TokenType::Allowlist);
    c.name = vec![84u8, 101u8, 115u8, 116u8, 0u8, 78u8, 97u8, 109u8, 101u8];
    assert_eq!(deploy_error(&f, &c), TokenFactoryError::InvalidName);
}

#[test]
fn test_validation_symbol_with_null_bytes() {
    let (f, admin, _) = setup_with_wasm();
    let mut c = config(admin, TokenType::Allowlist);
    c.symbol = vec![84u8, 83u8, 84u8, 0u8, 88u8];
    assert_eq!(deploy_error(&f, &c), TokenFactoryError::InvalidSymbol);
}

#[test]
fn test_validation_decimals_too_high() {
    let (f, admin, _) = setup_with_wasm();
    let mut c = config(admin, TokenType::Allowlist);
    c.decimals = 19;
    assert_eq!(deploy_error(&f, &c), TokenFactoryError::InvalidDecimals);
}

#[test]
fn test_validation_negative_supply() {
    let (f, admin, _) = setup_with_wasm();
    let mut c = config(admin, TokenType::Allowlist);
    c.initial_supply = -1000;
    assert_eq!(deploy_error(&f, &c), TokenFactoryError::NegativeSupply);
}

#[test]
fn test_validation_capped_without_cap() {
    let (f, admin, _) = setup_with_wasm();
    let c = config(admin, TokenType::Capped);
    assert_eq!(deploy_error(&f, &c), TokenFactoryError::MissingCap);
}

#[test]
fn test_validation_cap_too_low() {
    let (f, admin, _) = setup_with_wasm();
    let mut c = config(admin, TokenType::Capped);
    c.initial_supply = 2_000_000;
    c.cap = Some(1_000_000);
    assert_eq!(deploy_error(&f, &c), TokenFactoryError::CapTooLow);
}

#[test]
fn test_validation_non_capped_with_cap() {
    let (f, admin, _) = setup_with_wasm();
    let mut c = config(admin, TokenType::Allowlist);
    c.cap = Some(5_000_000);
    assert_eq!(deploy_error(&f, &c), TokenFactoryError::UnexpectedCap);
}

#[test]
fn test_validation_vault_missing_asset() {
    let (f, admin, _) = setup_with_wasm();
    let mut c = config(admin, TokenType::Vault);
    c.decimals_offset = Some(0);
    assert_eq!(deploy_error(&f, &c), TokenFactoryError::InvalidConfig);
}

#[test]
fn test_validation_vault_missing_decimals_offset() {
    let (f, admin, _) = setup_with_wasm();
    let mut c = config(admin, TokenType::Vault);
    c.asset = Some(addr(7));
    assert_eq!(deploy_error(&f, &c), TokenFactoryError::InvalidConfig);
}

#[test]
fn test_validation_vault_with_cap() {
    let (f, admin, _) = setup_with_wasm();
    let mut c = config(admin, TokenType::Vault);
    c.asset = Some(addr(7));
    c.decimals_offset = Some(0);
    c.cap = Some(5_000_000);
    assert_eq!(deploy_error(&f, &c), TokenFactoryError::UnexpectedCap);
}

#[test]
fn test_validation_allowlist_with_vault_fields() {
    let (f, admin, _) = setup_with_wasm();
    let mut c = config(admin, TokenType::Allowlist);
    c.asset = Some(addr(7));
    c.decimals_offset = Some(0);
    assert_eq!(deploy_error(&f, &c), TokenFactoryError::InvalidConfig);
}

#[test]
fn test_get_deployed_tokens_empty() {
    let (f, _admin) = setup_factory();
    assert_eq!(f.get_deployed_tokens().len(), 0);
}

#[test]
fn test_get_tokens_by_type_empty() {
    let (f, _admin) = setup_factory();
    assert_eq!(f.get_tokens_by_type(TokenType::Allowlist).len(), 0);
}

#[test]
fn test_get_tokens_by_admin_empty() {
    let (f, admin) = setup_factory();
    assert_eq!(f.get_tokens_by_admin(&admin).len(), 0);
}

#[test]
fn test_get_token_count_initial() {
    let (f, _admin) = setup_factory();
    assert_eq!(f.get_token_count(), 0);
}

#[test]
fn test_security_pause_prevents_deployment() {
    let (mut f, admin, _) = setup_with_wasm();
    f.pause(&admin).unwrap();
    let c = config(admin, TokenType::Allowlist);
    assert_eq!(deploy_error(&f, &c), TokenFactoryError::ContractPaused);
    let r = f.complete_token(&admin, &c, addr(50), 10);
    assert_eq!(r, Err(TokenFactoryError::ContractPaused));
    assert_eq!(f.get_token_count(), 0);
}

#[test]
fn test_twostep_admin_transfer_full_flow() {
    let (mut f, current_admin) = setup_factory();
    let new_admin = addr(2);
    f.initiate_admin_transfer(&current_admin, new_admin).unwrap();
    assert_eq!(f.get_pending_admin(), Some(new_admin));
    assert_eq!(f.get_admin(), current_admin);
    f.accept_admin_transfer(&new_admin).unwrap();
    assert_eq!(f.get_admin(), new_admin);
    assert_eq!(f.get_pending_admin(), None);
}

#[test]
fn test_twostep_admin_transfer_wrong_acceptor() {
    let (mut f, current_admin) = setup_factory();
    f.initiate_admin_transfer(&current_admin, addr(2)).unwrap();
    let r = f.accept_admin_transfer(&addr(3));
    assert_eq!(r, Err(TokenFactoryError::NotPendingAdmin));
}

#[test]
fn test_twostep_admin_transfer_accept_without_initiate() {
    let (mut f, _admin) = setup_factory();
    let r = f.accept_admin_transfer(&addr(2));
    assert_eq!(r, Err(TokenFactoryError::NoPendingAdmin));
}

#[test]
fn test_twostep_admin_transfer_cancel() {
    let (mut f, current_admin) = setup_factory();
    let new_admin = addr(2);
    f.initiate_admin_transfer(&current_admin, new_admin).unwrap();
    assert_eq!(f.get_pending_admin(), Some(new_admin));
    f.cancel_admin_transfer(&current_admin).unwrap();
    assert_eq!(f.get_pending_admin(), None);
    assert_eq!(f.get_admin(), current_admin);
}

#[test]
fn test_twostep_pause_requires_admin() {
    let (mut f, _admin) = setup_factory();
    assert_eq!(f.pause(&addr(9)), Err(TokenFactoryError::NotAdmin));
    assert!(!f.access.paused);
}

#[test]
fn test_twostep_unpause_requires_admin() {
    let (mut f, admin) = setup_factory();
    f.pause(&admin).unwrap();
    assert_eq!(f.unpause(&addr(9)), Err(TokenFactoryError::NotAdmin));
    assert!(f.access.paused);
}

#[test]
fn test_events_pause_emits_event() {
    let (mut f, admin) = setup_factory();
    let ev = f.pause(&admin).unwrap();
    assert_eq!(ev.admin, admin);
}

#[test]
fn test_events_admin_transfer_initiated_emits_event() {
    let (mut f, current_admin) = setup_factory();
    let new_admin = addr(2);
    let ev = f.initiate_admin_transfer(&current_admin, new_admin).unwrap();
    assert_eq!(ev.new_admin, new_admin);
}

#[test]
fn test_events_admin_transferred_emits_event() {
    let (mut f, current_admin) = setup_factory();
    let new_admin = addr(2);
    f.initiate_admin_transfer(&current_admin, new_admin).unwrap();
    let ev = f.accept_admin_transfer(&new_admin).unwrap();
    assert_eq!(ev.new_admin, new_admin);
    assert_eq!(f.get_admin(), new_admin);
}

#[test]
fn test_overflow_token_counter_protection() {
    let (mut f, _admin, _) = setup_with_wasm();
    let deployer = addr(5);
    let admin_addr = addr(6);
    for i in 0..5u8 {
        let mut c = config(admin_addr, TokenType::Allowlist);
        c.initial_supply = 1000;
        c.name = b"Token".to_vec();
        c.symbol = b"TK".to_vec();
        c.salt = hash(i);
        f.prepare_token(&c).unwrap();
        f.complete_token(&deployer, &c, addr(100 + i), 10).unwrap();
    }
    assert_eq!(f.get_token_count(), 5);
}

#[test]
fn capped_request_carries_the_cap() {
    let (f, admin, wasm_hash) = setup_with_wasm();
    let mut c = config(admin, TokenType::Capped);
    c.cap = Some(5_000_000);
    let req = f.prepare_token(&c).unwrap();
    assert_eq!(req.wasm_hash, wasm_hash);
    assert_eq!(req.salt, hash(2));
    assert_eq!(
        req.args,
        vec![
            ConstructorArg::Address(admin),
            ConstructorArg::Address(admin),
            ConstructorArg::I128(1000000),
            ConstructorArg::I128(5_000_000),
            ConstructorArg::Text(b"Test Token".to_vec()),
            ConstructorArg::Text(b"TEST".to_vec()),
            ConstructorArg::U32(7),
        ]
    );
}

#[test]
fn vault_request_carries_asset_and_offset() {
    let (f, admin, _) = setup_with_wasm();
    let mut c = config(admin, TokenType::Vault);
    c.asset = Some(addr(7));
    c.decimals_offset = Some(3);
    let req = f.prepare_token(&c).unwrap();
    assert_eq!(req.args, vec![ConstructorArg::Address(addr(7)), ConstructorArg::U32(3)]);
}

#[test]
fn plain_request_has_six_arguments() {
    let (f, admin, _) = setup_with_wasm();
    let c = config(admin, TokenType::Pausable);
    let req = f.prepare_token(&c).unwrap();
    assert_eq!(req.args.len(), 6);
    assert_eq!(req.args[3], ConstructorArg::Text(b"Test Token".to_vec()));
}

#[test]
fn missing_template_is_reported() {
    let (f, admin) = setup_factory();
    let c = config(admin, TokenType::Allowlist);
    assert_eq!(deploy_error(&f, &c), TokenFactoryError::WasmNotSet);
}

#[test]
fn supply_and_cap_bounds() {
    let (f, admin, _) = setup_with_wasm();
    let mut c = config(admin, TokenType::Allowlist);
    c.initial_supply = MAX_SUPPLY + 1;
    assert_eq!(deploy_error(&f, &c), TokenFactoryError::SupplyTooLarge);
    c.initial_supply = MAX_SUPPLY;
    assert!(f.prepare_token(&c).is_ok());
    let mut capped = config(admin, TokenType::Capped);
    capped.cap = Some(MAX_SUPPLY + 1);
    assert_eq!(deploy_error(&f, &capped), TokenFactoryError::SupplyTooLarge);
    capped.cap = Some(1_000_000);
    assert!(f.prepare_token(&capped).is_ok());
    assert_eq!(MAX_SUPPLY, i128::MAX / 2);
}

#[test]
fn name_and_symbol_length_edges() {
    let (f, admin, _) = setup_with_wasm();
    let mut c = config(admin, TokenType::Allowlist);
    c.name = vec![b'a'; 30];
    c.symbol = vec![b'S'; 12];
    assert!(f.prepare_token(&c).is_ok());
    c.name = vec![b'a'; 31];
    assert_eq!(deploy_error(&f, &c), TokenFactoryError::InvalidName);
    c.name = vec![b'a'; 30];
    c.symbol = vec![b'S'; 13];
    assert_eq!(deploy_error(&f, &c), TokenFactoryError::InvalidSymbol);
}

#[test]
fn control_bytes_other_than_whitespace_are_refused() {
    assert!(validate_string_chars(&b"a\tb\nc\rd".to_vec()));
    assert!(!validate_string_chars(&vec![65u8, 31u8]));
    assert!(!validate_string_chars(&vec![7u8]));
    assert!(validate_string_chars(&vec![127u8, 32u8]));
    assert!(validate_string_chars(&Vec::new()));
}

#[test]
fn validation_order_name_before_symbol() {
    let mut c = config(addr(1), TokenType::Capped);
    c.name = Vec::new();
    c.symbol = Vec::new();
    assert_eq!(validate_config(&c), Err(TokenFactoryError::InvalidName));
}

#[test]
fn deployments_are_recorded_and_filtered() {
    let (mut f, admin, _) = setup_with_wasm();
    let other = addr(8);
    let mut a = config(admin, TokenType::Allowlist);
    a.salt = hash(10);
    let mut b = config(other, TokenType::Blocklist);
    b.salt = hash(11);
    let mut c = config(admin, TokenType::Blocklist);
    c.salt = hash(12);
    let ev = f.complete_token(&admin, &a, addr(100), 5).unwrap();
    assert_eq!(ev.token_address, addr(100));
    assert_eq!(ev.name, b"Test Token".to_vec());
    assert_eq!(ev.symbol, b"TEST".to_vec());
    assert_eq!(ev.deployer, admin);
    f.complete_token(&admin, &b, addr(101), 6).unwrap();
    f.complete_token(&admin, &c, addr(102), 7).unwrap();
    let all = f.get_deployed_tokens();
    assert_eq!(all.len(), 3);
    assert_eq!(f.get_token_count(), 3);
    assert_eq!(all[0].address, addr(100));
    assert_eq!(all[0].timestamp, 5);
    assert_eq!(all[0].name, Some(b"Test Token".to_vec()));
    let blocklist = f.get_tokens_by_type(TokenType::Blocklist);
    assert_eq!(blocklist.len(), 2);
    assert_eq!(blocklist[0].address, addr(101));
    assert_eq!(blocklist[1].address, addr(102));
    let by_admin = f.get_tokens_by_admin(&admin);
    assert_eq!(by_admin.len(), 2);
    assert_eq!(by_admin[0].address, addr(100));
    assert_eq!(by_admin[1].address, addr(102));
    assert_eq!(f.get_tokens_by_admin(&other).len(), 1);
}

#[test]
fn upgrade_pauses_and_admin_must_unpause() {
    let (mut f, admin, _) = setup_with_wasm();
    let ev = f.upgrade(hash(99));
    assert_eq!(ev.new_wasm_hash, hash(99));
    assert!(f.access.paused);
    let c = config(admin, TokenType::Allowlist);
    assert_eq!(deploy_error(&f, &c), TokenFactoryError::ContractPaused);
    f.unpause(&admin).unwrap();
    assert!(f.prepare_token(&c).is_ok());
}

#[test]
fn set_wasm_emits_kind_and_hash() {
    let (mut f, admin) = setup_factory();
    let ev = f.set_vault_wasm(&admin, hash(4)).unwrap();
    assert_eq!(ev.token_type, TokenType::Vault);
    assert_eq!(ev.wasm_hash, hash(4));
    assert_eq!(f.vault_wasm, Some(hash(4)));
    assert_eq!(f.capped_wasm, None);
}
