use factory_engine::deploy::ConstructorArg;
use factory_engine::ids::{Address, BytesN32};
use factory_engine::master_factory::{
    FactoryType, MasterFactory, MasterFactoryError, RateWindow, MAX_DEPLOYMENTS_PER_WINDOW,
};

fn addr(n: u8) -> Address {
    Address::account([n; 32])
}

fn hash(n: u8) -> BytesN32 {
    BytesN32::from_array([n; 32])
}

fn setup_master_factory() -> (MasterFactory, Address) {
    let admin = addr(1);
    (MasterFactory::new(admin), admin)
}

/// Runs a whole deployment: checks, instantiation at `at`, completion.
fn deploy(
    f: &mut MasterFactory,
    deployer: &Address,
    k: FactoryType,
    salt: BytesN32,
    window: u32,
    at: Address,
) -> Result<Address, MasterFactoryError> {
    f.begin_deploy(deployer, k, hash(0), salt, window)?;
    f.finish_deploy(at, 1000).map(|ev| ev.factory_address)
}

#[test]
fn lib_test_constructor() {
    let admin = addr(1);
    let f = MasterFactory::new(admin);
    assert_eq!(f.get_admin(), admin);
    assert_eq!(f.get_deployed_factories().len(), 0);
}

#[test]
fn test_get_factories_empty() {
    let (f, _admin) = setup_master_factory();
    assert_eq!(f.get_token_factory(), None);
    assert_eq!(f.get_nft_factory(), None);
    assert_eq!(f.get_governance_factory(), None);
}

#[test]
fn test_get_deployed_factories_empty() {
    let (f, _admin) = setup_master_factory();
    assert_eq!(f.get_deployed_factories().len(), 0);
}

#[test]
fn test_deploy_token_factory_not_admin() {
    let (mut f, _admin) = setup_master_factory();
    let r = f.deploy_token_factory(&addr(9), hash(0), hash(1), 1);
    assert_eq!(r, Err(MasterFactoryError::NotAdmin));
    assert!(!f.is_deploying());
}

#[test]
fn test_deploy_nft_factory_not_admin() {
    let (mut f, _admin) = setup_master_factory();
    let r = f.deploy_nft_factory(&addr(9), hash(0), hash(1), 1);
    assert_eq!(r, Err(MasterFactoryError::NotAdmin));
}

#[test]
fn test_deploy_governance_factory_not_admin() {
    let (mut f, _admin) = setup_master_factory();
    let r = f.deploy_governance_factory(&addr(9), hash(0), hash(1), 1);
    assert_eq!(r, Err(MasterFactoryError::NotAdmin));
}

#[test]
fn lib_test_transfer_admin() {
    let (mut f, current_admin) = setup_master_factory();
    let new_admin = addr(2);
    f.initiate_admin_transfer(&current_admin, new_admin).unwrap();
    f.accept_admin_transfer(&new_admin).unwrap();
    assert_eq!(f.get_admin(), new_admin);
}

#[test]
fn lib_test_transfer_admin_not_admin() {
    let (mut f, _admin) = setup_master_factory();
    let r = f.initiate_admin_transfer(&addr(9), addr(2));
    assert_eq!(r, Err(MasterFactoryError::NotAdmin));
    assert_eq!(f.get_pending_admin(), None);
}

#[test]
fn lib_test_get_admin_returns_correct_value() {
    let (f, admin) = setup_master_factory();
    assert_eq!(f.get_admin(), admin);
}

#[test]
fn test_security_pause_prevents_deployments() {
    let (mut f, admin) = setup_master_factory();
    f.pause(&admin).unwrap();
    let r = f.deploy_token_factory(&admin, hash(1), hash(2), 1);
    assert_eq!(r, Err(MasterFactoryError::ContractPaused));
    assert!(!f.is_deploying());
    assert_eq!(f.get_deployed_factories().len(), 0);
    assert!(!f.is_salt_used(&hash(2)));
}

#[test]
fn lib_test_security_unpause_restores_functionality() {
    let (mut f, admin) = setup_master_factory();
    f.pause(&admin).unwrap();
    f.unpause(&admin).unwrap();
    assert_eq!(f.get_admin(), admin);
    assert!(f.deploy_token_factory(&admin, hash(1), hash(2), 1).is_ok());
}

#[test]
fn lib_test_twostep_admin_transfer_full_flow() {
    let (mut f, current_admin) = setup_master_factory();
    let new_admin = addr(2);
    f.initiate_admin_transfer(&current_admin, new_admin).unwrap();
    assert_eq!(f.get_pending_admin(), Some(new_admin));
    assert_eq!(f.get_admin(), current_admin);
    f.accept_admin_transfer(&new_admin).unwrap();
    assert_eq!(f.get_admin(), new_admin);
    assert_eq!(f.get_pending_admin(), None);
}

#[test]
fn test_twostep_wrong_acceptor() {
    let (mut f, current_admin) = setup_master_factory();
    f.initiate_admin_transfer(&current_admin, addr(2)).unwrap();
    assert_eq!(f.accept_admin_transfer(&addr(3)), Err(MasterFactoryError::NotPendingAdmin));
    assert_eq!(f.get_admin(), current_admin);
}

#[test]
fn test_twostep_cancel() {
    let (mut f, current_admin) = setup_master_factory();
    let new_admin = addr(2);
    f.initiate_admin_transfer(&current_admin, new_admin).unwrap();
    assert_eq!(f.get_pending_admin(), Some(new_admin));
    f.cancel_admin_transfer(&current_admin).unwrap();
    assert_eq!(f.get_pending_admin(), None);
    assert_eq!(f.get_admin(), current_admin);
}

#[test]
fn test_pause_requires_admin() {
    let (mut f, _admin) = setup_master_factory();
    assert_eq!(f.pause(&addr(9)), Err(MasterFactoryError::NotAdmin));
}

#[test]
fn test_unpause_requires_admin() {
    let (mut f, admin) = setup_master_factory();
    f.pause(&admin).unwrap();
    assert_eq!(f.unpause(&addr(9)), Err(MasterFactoryError::NotAdmin));
    assert!(f.access.paused);
}

#[test]
fn deploys_each_factory_once() {
    let (mut f, admin) = setup_master_factory();
    let req = f.deploy_token_factory(&admin, hash(7), hash(10), 1).unwrap();
    assert_eq!(req.wasm_hash, hash(7));
    assert_eq!(req.salt, hash(10));
    assert_eq!(req.args, vec![ConstructorArg::Address(admin)]);
    assert!(f.is_deploying());
    let ev = f.finish_deploy(addr(100), 55).unwrap();
    assert_eq!(ev.factory_address, addr(100));
    assert_eq!(ev.factory_type, FactoryType::Token);
    assert_eq!(ev.deployer, admin);
    assert_eq!(ev.timestamp, 55);
    assert!(!f.is_deploying());
    assert_eq!(f.get_token_factory(), Some(addr(100)));
    assert_eq!(deploy(&mut f, &admin, FactoryType::NFT, hash(11), 1, addr(101)), Ok(addr(101)));
    assert_eq!(
        deploy(&mut f, &admin, FactoryType::Governance, hash(12), 1, addr(102)),
        Ok(addr(102))
    );
    assert_eq!(f.get_nft_factory(), Some(addr(101)));
    assert_eq!(f.get_governance_factory(), Some(addr(102)));
    let all = f.get_deployed_factories();
    assert_eq!(all.len(), 3);
    assert_eq!(all[1].factory_type, FactoryType::NFT);
    assert_eq!(all[2].address, addr(102));
    assert_eq!(f.deployments_in(1), 3);
    assert_eq!(
        deploy(&mut f, &admin, FactoryType::Token, hash(13), 1, addr(103)),
        Err(MasterFactoryError::FactoryAlreadyDeployed)
    );
}

#[test]
fn reentrant_deploy_is_refused_and_guard_released() {
    let (mut f, admin) = setup_master_factory();
    f.deploy_token_factory(&admin, hash(7), hash(10), 1).unwrap();
    assert_eq!(
        f.deploy_nft_factory(&admin, hash(7), hash(11), 1),
        Err(MasterFactoryError::Reentrancy)
    );
    f.abort_deploy();
    assert!(!f.is_deploying());
    assert!(!f.is_salt_used(&hash(10)));
    assert_eq!(f.get_deployed_factories().len(), 0);
    assert_eq!(f.deployments_in(1), 0);
    assert!(f.deploy_nft_factory(&admin, hash(7), hash(10), 1).is_ok());
}

#[test]
fn salt_is_single_use() {
    let (mut f, admin) = setup_master_factory();
    assert_eq!(deploy(&mut f, &admin, FactoryType::Token, hash(10), 1, addr(100)), Ok(addr(100)));
    assert!(f.is_salt_used(&hash(10)));
    assert_eq!(
        deploy(&mut f, &admin, FactoryType::NFT, hash(10), 2, addr(101)),
        Err(MasterFactoryError::DuplicateSalt)
    );
    assert_eq!(f.get_nft_factory(), None);
}

#[test]
fn rate_limit_per_window() {
    let (mut f, admin) = setup_master_factory();
    f.rate = RateWindow { window: 5, count: MAX_DEPLOYMENTS_PER_WINDOW - 1 };
    assert_eq!(deploy(&mut f, &admin, FactoryType::Token, hash(10), 5, addr(100)), Ok(addr(100)));
    assert_eq!(f.deployments_in(5), MAX_DEPLOYMENTS_PER_WINDOW);
    assert_eq!(
        f.deploy_nft_factory(&admin, hash(0), hash(11), 5),
        Err(MasterFactoryError::RateLimitExceeded)
    );
    assert_eq!(f.deployments_in(6), 0);
    assert_eq!(deploy(&mut f, &admin, FactoryType::NFT, hash(11), 6, addr(101)), Ok(addr(101)));
    assert_eq!(f.deployments_in(6), 1);
    assert_eq!(f.deployments_in(5), 0);
}

#[test]
fn upgrade_pauses_master() {
    let (mut f, admin) = setup_master_factory();
    let ev = f.upgrade(hash(99));
    assert_eq!(ev.new_wasm_hash, hash(99));
    assert_eq!(
        f.deploy_token_factory(&admin, hash(0), hash(1), 1),
        Err(MasterFactoryError::ContractPaused)
    );
}

#[test]
fn ten_per_window_then_refused() {
    let (mut f, admin) = setup_master_factory();
    for count in 0..MAX_DEPLOYMENTS_PER_WINDOW {
        f.rate = RateWindow { window: 8, count };
        assert!(f.deploy_token_factory(&admin, hash(0), hash(1), 8).is_ok());
        f.abort_deploy();
    }
    f.rate = RateWindow { window: 8, count: MAX_DEPLOYMENTS_PER_WINDOW };
    assert_eq!(
        f.deploy_token_factory(&admin, hash(0), hash(1), 8),
        Err(MasterFactoryError::RateLimitExceeded)
    );
    assert!(f.deploy_token_factory(&admin, hash(0), hash(1), 9).is_ok());
}

#[test]
fn accept_without_offer_is_refused() {
    let (mut f, admin) = setup_master_factory();
    assert_eq!(f.accept_admin_transfer(&addr(2)), Err(MasterFactoryError::NoPendingAdmin));
    assert_eq!(f.cancel_admin_transfer(&addr(2)), Err(MasterFactoryError::NotAdmin));
    assert_eq!(f.get_admin(), admin);
}
