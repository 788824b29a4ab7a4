//! The master factory: deploys at most one token factory, one NFT factory and
//! one governance factory, under a reentrancy guard, a per-window rate limit
//! and single-use salts.
use vstd::prelude::*;
use crate::admin::{AccessError, AdminState};
pub use crate::admin::{
    AdminTransferCancelledEvent, AdminTransferInitiatedEvent, AdminTransferredEvent,
    ContractPausedEvent, ContractUnpausedEvent, ContractUpgradedEvent,
};
use crate::deploy::{ArgView, ConstructorArg, DeployRequest};
use crate::ids::{Address, BytesN32, lemma_bytes_eq};
use crate::registry::{Record, Registry, views};

verus! {

/// Most deployments accepted within one window (one ledger sequence number).
pub const MAX_DEPLOYMENTS_PER_WINDOW: u32 = 10;

#[derive(Clone, Copy, Debug, PartialEq, Eq, Structural)]
pub enum FactoryType {
    Token,
    NFT,
    Governance,
}

/// Why a master factory operation was refused.
#[derive(Clone, Copy, Debug, PartialEq, Eq, Structural)]
pub enum MasterFactoryError {
    NotAdmin,
    FactoryAlreadyDeployed,
    /// No deployment is in flight when one is to be finished.
    FactoryNotFound,
    /// No admin is recorded. A factory made by `new` always has one; hosts
    /// report this when their storage holds none.
    AdminNotSet,
    Reentrancy,
    DuplicateSalt,
    RateLimitExceeded,
    NoPendingAdmin,
    NotPendingAdmin,
    ContractPaused,
    /// The registry counter is at its largest value.
    CounterOverflow,
}

/// The registry entry of one deployed sub-factory.
#[derive(Clone, Copy, Debug, PartialEq, Eq)]
pub struct FactoryInfo {
    pub address: Address,
    pub factory_type: FactoryType,
    pub timestamp: u64,
}

impl View for FactoryInfo {
    type V = FactoryInfo;

    open spec fn view(&self) -> FactoryInfo {
        *self
    }
}

impl Record for FactoryInfo {
    type Kind = FactoryType;

    open spec fn kind_of(v: FactoryInfo) -> FactoryType {
        v.factory_type
    }

    fn duplicate(&self) -> (r: FactoryInfo) {
        *self
    }

    fn has_kind(&self, k: &FactoryType) -> (r: bool) {
        self.factory_type == *k
    }
}

#[derive(Clone, Copy, Debug, PartialEq, Eq)]
pub struct FactoryDeployedEvent {
    pub factory_address: Address,
    pub factory_type: FactoryType,
    pub deployer: Address,
    pub timestamp: u64,
}

/// Deployments counted in the current window. A count kept for an earlier
/// window has expired: it is replaced when the next window is counted.
#[derive(Clone, Copy, Debug, PartialEq, Eq)]
pub struct RateWindow {
    pub window: u32,
    pub count: u32,
}

impl RateWindow {
    /// Deployments counted so far in `window`.
    pub open spec fn count_in(self, window: u32) -> u32 {
        if self.window == window {
            self.count
        } else {
            0
        }
    }

    /// The counter after one more deployment in `window`.
    pub open spec fn bumped(self, window: u32) -> RateWindow {
        RateWindow { window, count: (self.count_in(window) + 1) as u32 }
    }
}

/// A deployment between its checks and its completion: while one exists the
/// reentrancy guard is held.
#[derive(Clone, Copy, Debug, PartialEq, Eq)]
pub struct PendingDeployment {
    pub deployer: Address,
    pub factory_type: FactoryType,
    pub salt: BytesN32,
    pub window: u32,
}

pub struct MasterFactory {
    pub access: AdminState,
    pub token_factory: Option<Address>,
    pub nft_factory: Option<Address>,
    pub governance_factory: Option<Address>,
    pub factories: Registry<FactoryInfo>,
    pub used_salts: Vec<BytesN32>,
    pub rate: RateWindow,
    pub in_flight: Option<PendingDeployment>,
}

pub open spec fn access_error(e: AccessError) -> MasterFactoryError {
    match e {
        AccessError::NotAdmin => MasterFactoryError::NotAdmin,
        AccessError::NoPendingAdmin => MasterFactoryError::NoPendingAdmin,
        AccessError::NotPendingAdmin => MasterFactoryError::NotPendingAdmin,
    }
}

fn map_access_error(e: AccessError) -> (r: MasterFactoryError)
    ensures
        r == access_error(e),
{
    match e {
        AccessError::NotAdmin => MasterFactoryError::NotAdmin,
        AccessError::NoPendingAdmin => MasterFactoryError::NoPendingAdmin,
        AccessError::NotPendingAdmin => MasterFactoryError::NotPendingAdmin,
    }
}

impl MasterFactory {
    /// The registry is well formed, and a deployment in flight has passed the
    /// rate check of its window.
    pub open spec fn wf(&self) -> bool {
        &&& self.factories.wf()
        &&& self.in_flight matches Some(p) ==> self.rate.count_in(p.window)
            < MAX_DEPLOYMENTS_PER_WINDOW
    }

    /// The address recorded for the sub-factory of kind `k`.
    pub open spec fn slot(&self, k: FactoryType) -> Option<Address> {
        match k {
            FactoryType::Token => self.token_factory,
            FactoryType::NFT => self.nft_factory,
            FactoryType::Governance => self.governance_factory,
        }
    }

    pub open spec fn salt_used(&self, salt: BytesN32) -> bool {
        self.used_salts@.contains(salt)
    }

    pub open spec fn with_access(self, a: AdminState) -> MasterFactory {
        MasterFactory { access: a, ..self }
    }

    pub open spec fn with_in_flight(self, p: Option<PendingDeployment>) -> MasterFactory {
        MasterFactory { in_flight: p, ..self }
    }

    /// Why a deployment of kind `k` by `deployer` with `salt` in `window` is
    /// refused now, checked in order: admin, pause, reentrancy, rate limit,
    /// salt reuse, and an already deployed kind.
    pub open spec fn deploy_error(
        &self,
        deployer: Address,
        k: FactoryType,
        salt: BytesN32,
        window: u32,
    ) -> Option<MasterFactoryError> {
        if self.access.admin != deployer {
            Some(MasterFactoryError::NotAdmin)
        } else if self.access.paused {
            Some(MasterFactoryError::ContractPaused)
        } else if self.in_flight is Some {
            Some(MasterFactoryError::Reentrancy)
        } else if self.rate.count_in(window) >= MAX_DEPLOYMENTS_PER_WINDOW {
            Some(MasterFactoryError::RateLimitExceeded)
        } else if self.salt_used(salt) {
            Some(MasterFactoryError::DuplicateSalt)
        } else if self.slot(k) is Some {
            Some(MasterFactoryError::FactoryAlreadyDeployed)
        } else {
            None
        }
    }

    pub fn new(admin: Address) -> (r: MasterFactory)
        ensures
            r.wf(),
            r.access.admin == admin,
            r.access.pending_admin is None,
            !r.access.paused,
            r.factories.records().len() == 0,
            r.used_salts@.len() == 0,
            r.in_flight is None,
            forall|k: FactoryType| r.slot(k) is None,
            forall|w: u32| r.rate.count_in(w) == 0,
    {
        MasterFactory {
            access: AdminState::new(admin),
            token_factory: None,
            nft_factory: None,
            governance_factory: None,
            factories: Registry::new(),
            used_salts: Vec::new(),
            rate: RateWindow { window: 0, count: 0 },
            in_flight: None,
        }
    }

    fn get_slot(&self, k: FactoryType) -> (r: Option<Address>)
        ensures
            r == self.slot(k),
    {
        match k {
            FactoryType::Token => self.token_factory,
            FactoryType::NFT => self.nft_factory,
            FactoryType::Governance => self.governance_factory,
        }
    }

    /// Whether `salt` has been consumed by an earlier deployment.
    pub fn is_salt_used(&self, salt: &BytesN32) -> (r: bool)
        ensures
            r == self.salt_used(*salt),
    {
        let mut i: usize = 0;
        while i < self.used_salts.len()
            invariant
                0 <= i <= self.used_salts@.len(),
                forall|j: int| 0 <= j < i ==> self.used_salts@[j] != *salt,
            decreases self.used_salts@.len() - i,
        {
            proof {
                lemma_bytes_eq(self.used_salts@[i as int], *salt);
            }
            if self.used_salts[i] == *salt {
                assert(self.used_salts@[i as int] == *salt);
                return true;
            }
            i = i + 1;
        }
        proof {
            if self.used_salts@.contains(*salt) {
                let j = choose|j: int| 0 <= j < self.used_salts@.len() && self.used_salts@[j] == *salt;
                assert(self.used_salts@[j] != *salt);
            }
        }
        false
    }

    /// Deployments counted so far in `window`.
    pub fn deployments_in(&self, window: u32) -> (r: u32)
        ensures
            r == self.rate.count_in(window),
    {
        if self.rate.window == window {
            self.rate.count
        } else {
            0
        }
    }

    /// Whether the reentrancy guard is held.
    pub fn is_deploying(&self) -> (r: bool)
        ensures
            r == self.in_flight is Some,
    {
        self.in_flight.is_some()
    }

    /// The checks that come before instantiating a sub-factory of kind `k`.
    /// On success the reentrancy guard is taken and the request to hand to the
    /// host's instantiation primitive is returned: the sub-factory's
    /// constructor receives `deployer` as its admin. On failure nothing changes.
    /// Either way the caller then ends the deployment with `finish_deploy`
    /// or `abort_deploy`.
    pub fn begin_deploy(
        &mut self,
        deployer: &Address,
        k: FactoryType,
        wasm_hash: BytesN32,
        salt: BytesN32,
        window: u32,
    ) -> (r: Result<DeployRequest, MasterFactoryError>)
        requires
            old(self).wf(),
        ensures
            final(self).wf(),
            r is Ok <==> old(self).deploy_error(*deployer, k, salt, window) is None,
            r matches Err(e) ==> old(self).deploy_error(*deployer, k, salt, window) == Some(e)
                && *final(self) == *old(self),
            r matches Ok(req) ==> *final(self) == old(self).with_in_flight(
                Some(PendingDeployment { deployer: *deployer, factory_type: k, salt, window }),
            ) && req.wasm_hash == wasm_hash && req.salt == salt && req.arg_views() == seq![
                ArgView::Address(*deployer),
            ],
    {
        if let Err(e) = self.access.require_admin(deployer) {
            return Err(map_access_error(e));
        }
        if self.access.paused {
            return Err(MasterFactoryError::ContractPaused);
        }
        if self.in_flight.is_some() {
            return Err(MasterFactoryError::Reentrancy);
        }
        if self.deployments_in(window) >= MAX_DEPLOYMENTS_PER_WINDOW {
            return Err(MasterFactoryError::RateLimitExceeded);
        }
        if self.is_salt_used(&salt) {
            return Err(MasterFactoryError::DuplicateSalt);
        }
        if self.get_slot(k).is_some() {
            return Err(MasterFactoryError::FactoryAlreadyDeployed);
        }
        self.in_flight = Some(PendingDeployment { deployer: *deployer, factory_type: k, salt, window });
        let mut args: Vec<ConstructorArg> = Vec::new();
        args.push(ConstructorArg::Address(*deployer));
        let req = DeployRequest { wasm_hash, salt, args };
        assert(req.arg_views() =~= seq![ArgView::Address(*deployer)]);
        Ok(req)
    }

    /// Completes the deployment in flight, whose instance the host created at
    /// `address`: the salt is marked used, the window's count goes up by one,
    /// the kind's address is stored and a record appended. The guard is
    /// released whatever the outcome; if the registry is full nothing else
    /// changes.
    pub fn finish_deploy(&mut self, address: Address, timestamp: u64) -> (r: Result<
        FactoryDeployedEvent,
        MasterFactoryError,
    >)
        requires
            old(self).wf(),
            old(self).in_flight is Some,
        ensures
            final(self).wf(),
            final(self).in_flight is None,
            r is Ok <==> old(self).factories.counter() < u32::MAX,
            r matches Err(e) ==> e == MasterFactoryError::CounterOverflow && *final(self) == old(
                self,
            ).with_in_flight(None),
            r is Ok ==> ({
                let p = old(self).in_flight->Some_0;
                &&& final(self).access == old(self).access
                &&& final(self).slot(p.factory_type) == Some(address)
                &&& forall|j: FactoryType|
                    j != p.factory_type ==> final(self).slot(j) == old(self).slot(j)
                &&& final(self).used_salts@ == old(self).used_salts@.push(p.salt)
                &&& final(self).salt_used(p.salt)
                &&& forall|t: BytesN32| old(self).salt_used(t) ==> final(self).salt_used(t)
                &&& final(self).rate == old(self).rate.bumped(p.window)
                &&& final(self).factories.records() == old(self).factories.records().push(
                    FactoryInfo { address, factory_type: p.factory_type, timestamp },
                )
            }),
            r matches Ok(ev) ==> ev == (FactoryDeployedEvent {
                factory_address: address,
                factory_type: old(self).in_flight->Some_0.factory_type,
                deployer: old(self).in_flight->Some_0.deployer,
                timestamp,
            }),
    {
        let p = match self.in_flight {
            Some(p) => p,
            None => {
                return Err(MasterFactoryError::FactoryNotFound);
            },
        };
        self.in_flight = None;
        let info = FactoryInfo { address, factory_type: p.factory_type, timestamp };
        if let Err(_) = self.factories.record(info) {
            return Err(MasterFactoryError::CounterOverflow);
        }
        self.used_salts.push(p.salt);
        assert(self.used_salts@[self.used_salts@.len() - 1] == p.salt);
        assert(forall|t: BytesN32| old(self).salt_used(t) ==> self.salt_used(t)) by {
            assert forall|t: BytesN32| old(self).salt_used(t) implies self.salt_used(t) by {
                let j = choose|j: int| 0 <= j < old(self).used_salts@.len() && old(self).used_salts@[j] == t;
                assert(self.used_salts@[j] == t);
            }
        }
        let count = self.deployments_in(p.window);
        self.rate = RateWindow { window: p.window, count: count + 1 };
        match p.factory_type {
            FactoryType::Token => self.token_factory = Some(address),
            FactoryType::NFT => self.nft_factory = Some(address),
            FactoryType::Governance => self.governance_factory = Some(address),
        }
        Ok(
            FactoryDeployedEvent {
                factory_address: address,
                factory_type: p.factory_type,
                deployer: p.deployer,
                timestamp,
            },
        )
    }

    /// Ends the deployment in flight without a new instance (the host's
    /// instantiation failed): only the guard is released.
    pub fn abort_deploy(&mut self)
        requires
            old(self).wf(),
        ensures
            final(self).wf(),
            *final(self) == old(self).with_in_flight(None),
    {
        self.in_flight = None;
    }

    /// Checks for a token factory deployment; see `begin_deploy`.
    pub fn deploy_token_factory(
        &mut self,
        deployer: &Address,
        wasm_hash: BytesN32,
        salt: BytesN32,
        window: u32,
    ) -> (r: Result<DeployRequest, MasterFactoryError>)
        requires
            old(self).wf(),
        ensures
            final(self).wf(),
            r is Ok <==> old(self).deploy_error(*deployer, FactoryType::Token, salt, window) is None,
            r matches Err(e) ==> old(self).deploy_error(*deployer, FactoryType::Token, salt, window)
                == Some(e) && *final(self) == *old(self),
            r is Ok ==> *final(self) == old(self).with_in_flight(
                Some(
                    PendingDeployment {
                        deployer: *deployer,
                        factory_type: FactoryType::Token,
                        salt,
                        window,
                    },
                ),
            ),
    {
        self.begin_deploy(deployer, FactoryType::Token, wasm_hash, salt, window)
    }

    /// Checks for an NFT factory deployment; see `begin_deploy`.
    pub fn deploy_nft_factory(
        &mut self,
        deployer: &Address,
        wasm_hash: BytesN32,
        salt: BytesN32,
        window: u32,
    ) -> (r: Result<DeployRequest, MasterFactoryError>)
        requires
            old(self).wf(),
        ensures
            final(self).wf(),
            r is Ok <==> old(self).deploy_error(*deployer, FactoryType::NFT, salt, window) is None,
            r matches Err(e) ==> old(self).deploy_error(*deployer, FactoryType::NFT, salt, window)
                == Some(e) && *final(self) == *old(self),
            r is Ok ==> *final(self) == old(self).with_in_flight(
                Some(
                    PendingDeployment {
                        deployer: *deployer,
                        factory_type: FactoryType::NFT,
                        salt,
                        window,
                    },
                ),
            ),
    {
        self.begin_deploy(deployer, FactoryType::NFT, wasm_hash, salt, window)
    }

    /// Checks for a governance factory deployment; see `begin_deploy`.
    pub fn deploy_governance_factory(
        &mut self,
        deployer: &Address,
        wasm_hash: BytesN32,
        salt: BytesN32,
        window: u32,
    ) -> (r: Result<DeployRequest, MasterFactoryError>)
        requires
            old(self).wf(),
        ensures
            final(self).wf(),
            r is Ok <==> old(self).deploy_error(*deployer, FactoryType::Governance, salt, window)
                is None,
            r matches Err(e) ==> old(self).deploy_error(
                *deployer,
                FactoryType::Governance,
                salt,
                window,
            ) == Some(e) && *final(self) == *old(self),
            r is Ok ==> *final(self) == old(self).with_in_flight(
                Some(
                    PendingDeployment {
                        deployer: *deployer,
                        factory_type: FactoryType::Governance,
                        salt,
                        window,
                    },
                ),
            ),
    {
        self.begin_deploy(deployer, FactoryType::Governance, wasm_hash, salt, window)
    }

    pub fn get_token_factory(&self) -> (r: Option<Address>)
        ensures
            r == self.token_factory,
    {
        self.token_factory
    }

    pub fn get_nft_factory(&self) -> (r: Option<Address>)
        ensures
            r == self.nft_factory,
    {
        self.nft_factory
    }

    pub fn get_governance_factory(&self) -> (r: Option<Address>)
        ensures
            r == self.governance_factory,
    {
        self.governance_factory
    }

    /// Every deployed sub-factory, in deployment order.
    pub fn get_deployed_factories(&self) -> (r: Vec<FactoryInfo>)
        ensures
            views(r@) == self.factories.records(),
    {
        self.factories.all()
    }

    pub fn get_admin(&self) -> (r: Address)
        ensures
            r == self.access.admin,
    {
        self.access.admin
    }

    pub fn get_pending_admin(&self) -> (r: Option<Address>)
        ensures
            r == self.access.pending_admin,
    {
        self.access.pending_admin
    }

    pub fn pause(&mut self, admin: &Address) -> (r: Result<ContractPausedEvent, MasterFactoryError>)
        ensures
            *final(self) == old(self).with_access(old(self).access.after_pause(*admin)),
            r is Ok <==> old(self).access.admin == *admin,
            r matches Ok(ev) ==> ev.admin == *admin,
            r matches Err(e) ==> e == MasterFactoryError::NotAdmin,
    {
        match self.access.pause(admin) {
            Ok(ev) => Ok(ev),
            Err(e) => Err(map_access_error(e)),
        }
    }

    pub fn unpause(&mut self, admin: &Address) -> (r: Result<ContractUnpausedEvent, MasterFactoryError>)
        ensures
            *final(self) == old(self).with_access(old(self).access.after_unpause(*admin)),
            r is Ok <==> old(self).access.admin == *admin,
            r matches Ok(ev) ==> ev.admin == *admin,
            r matches Err(e) ==> e == MasterFactoryError::NotAdmin,
    {
        match self.access.unpause(admin) {
            Ok(ev) => Ok(ev),
            Err(e) => Err(map_access_error(e)),
        }
    }

    /// Records a switch of the factory's own code to `new_wasm_hash`, which
    /// the stored admin must have authorized, and pauses the factory.
    pub fn upgrade(&mut self, new_wasm_hash: BytesN32) -> (r: ContractUpgradedEvent)
        ensures
            *final(self) == old(self).with_access(old(self).access.with_paused(true)),
            r.new_wasm_hash == new_wasm_hash,
    {
        self.access.upgrade(new_wasm_hash)
    }

    pub fn initiate_admin_transfer(&mut self, current_admin: &Address, new_admin: Address) -> (r:
        Result<AdminTransferInitiatedEvent, MasterFactoryError>)
        ensures
            *final(self) == old(self).with_access(
                old(self).access.after_initiate(*current_admin, new_admin),
            ),
            r is Ok <==> old(self).access.admin == *current_admin,
            r matches Ok(ev) ==> ev.new_admin == new_admin,
            r matches Err(e) ==> e == MasterFactoryError::NotAdmin,
    {
        match self.access.initiate_transfer(current_admin, new_admin) {
            Ok(ev) => Ok(ev),
            Err(e) => Err(map_access_error(e)),
        }
    }

    pub fn accept_admin_transfer(&mut self, new_admin: &Address) -> (r: Result<
        AdminTransferredEvent,
        MasterFactoryError,
    >)
        ensures
            *final(self) == old(self).with_access(old(self).access.after_accept(*new_admin)),
            r is Ok <==> old(self).access.accept_error(*new_admin) is None,
            r matches Ok(ev) ==> ev.new_admin == *new_admin,
            r matches Err(e) ==> old(self).access.accept_error(*new_admin) matches Some(a) && e
                == access_error(a),
    {
        match self.access.accept_transfer(new_admin) {
            Ok(ev) => Ok(ev),
            Err(e) => Err(map_access_error(e)),
        }
    }

    pub fn cancel_admin_transfer(&mut self, current_admin: &Address) -> (r: Result<
        AdminTransferCancelledEvent,
        MasterFactoryError,
    >)
        ensures
            *final(self) == old(self).with_access(old(self).access.after_cancel(*current_admin)),
            r is Ok <==> old(self).access.admin == *current_admin,
            r matches Ok(ev) ==> ev.admin == *current_admin,
            r matches Err(e) ==> e == MasterFactoryError::NotAdmin,
    {
        match self.access.cancel_transfer(current_admin) {
            Ok(ev) => Ok(ev),
            Err(e) => Err(map_access_error(e)),
        }
    }
}


/// Single-use salts: once a deployment has consumed `salt` (`finish_deploy`
/// marks it used, and nothing unmarks it), every later deployment with it is
/// refused, whatever the kind. For the admin on a running factory with no
/// deployment in flight and room in the window, the refusal is `DuplicateSalt`.
pub proof fn lemma_salt_single_use(
    f: &MasterFactory,
    deployer: Address,
    k: FactoryType,
    salt: BytesN32,
    window: u32,
)
    requires
        f.salt_used(salt),
    ensures
        f.deploy_error(deployer, k, salt, window) is Some,
        f.access.admin == deployer && !f.access.paused && f.in_flight is None
            && f.rate.count_in(window) < MAX_DEPLOYMENTS_PER_WINDOW ==> f.deploy_error(
            deployer,
            k,
            salt,
            window,
        ) == Some(MasterFactoryError::DuplicateSalt),
{
}

/// Rate window: while fewer than the maximum have been counted in a window
/// the rate check passes, and each completed deployment adds one to its
/// window's count. Once the maximum is counted, every further deployment in
/// that window is refused, with `RateLimitExceeded` when the admin asks on a
/// running factory with nothing in flight. A later window starts from zero.
pub proof fn lemma_rate_window(
    f: &MasterFactory,
    deployer: Address,
    k: FactoryType,
    salt: BytesN32,
    window: u32,
    later: u32,
)
    ensures
        f.rate.count_in(window) < MAX_DEPLOYMENTS_PER_WINDOW ==> f.deploy_error(
            deployer,
            k,
            salt,
            window,
        ) != Some(MasterFactoryError::RateLimitExceeded),
        f.rate.count_in(window) < MAX_DEPLOYMENTS_PER_WINDOW ==> f.rate.bumped(window).count_in(
            window,
        ) == f.rate.count_in(window) + 1,
        f.rate.count_in(window) >= MAX_DEPLOYMENTS_PER_WINDOW ==> f.deploy_error(
            deployer,
            k,
            salt,
            window,
        ) is Some,
        f.rate.count_in(window) >= MAX_DEPLOYMENTS_PER_WINDOW && f.access.admin == deployer
            && !f.access.paused && f.in_flight is None ==> f.deploy_error(deployer, k, salt, window)
            == Some(MasterFactoryError::RateLimitExceeded),
        later != f.rate.window ==> f.rate.count_in(later) == 0,
        later != window ==> f.rate.bumped(window).count_in(later) == 0,
{
}

/// While the factory is paused every deployment is refused (and, by
/// `begin_deploy`, changes nothing); for the admin the refusal is
/// `ContractPaused`.
pub proof fn lemma_master_paused_refuses(
    f: &MasterFactory,
    deployer: Address,
    k: FactoryType,
    salt: BytesN32,
    window: u32,
)
    requires
        f.access.paused,
    ensures
        f.deploy_error(deployer, k, salt, window) is Some,
        f.access.admin == deployer ==> f.deploy_error(deployer, k, salt, window) == Some(
            MasterFactoryError::ContractPaused,
        ),
{
}

/// While a deployment is in flight, a second one is refused; for the admin
/// on a running factory the refusal is `Reentrancy`.
pub proof fn lemma_no_reentry(
    f: &MasterFactory,
    deployer: Address,
    k: FactoryType,
    salt: BytesN32,
    window: u32,
)
    requires
        f.in_flight is Some,
    ensures
        f.deploy_error(deployer, k, salt, window) is Some,
        f.access.admin == deployer && !f.access.paused ==> f.deploy_error(deployer, k, salt, window)
            == Some(MasterFactoryError::Reentrancy),
{
}

} // verus!
