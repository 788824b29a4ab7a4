//! The governance factory: deploys Merkle-voting and multisig instances.
use vstd::prelude::*;
use crate::admin::{AccessError, AdminState};
pub use crate::admin::{
    AdminTransferCancelledEvent, AdminTransferInitiatedEvent, AdminTransferredEvent,
    ContractPausedEvent, ContractUnpausedEvent, ContractUpgradedEvent,
};
use crate::deploy::{ArgView, ConstructorArg, DeployRequest, copy_opt_bytes, opt_bytes};
use crate::ids::{Address, BytesN32, lemma_address_eq};
use crate::registry::{HeldRecord, Record, Registry, held_by_addr, of_kind, views};

verus! {

#[derive(Clone, Copy, Debug, PartialEq, Eq, Structural)]
pub enum GovernanceType {
    MerkleVoting,
    Multisig,
}

/// Why a governance factory operation was refused.
#[derive(Clone, Copy, Debug, PartialEq, Eq, Structural)]
pub enum GovernanceFactoryError {
    NotAdmin,
    WasmNotSet,
    /// Reserved: every `GovernanceType` has a template slot, so the engine never reports it.
    InvalidGovernanceType,
    InvalidConfig,
    /// No admin is recorded. A factory made by `new` always has one; hosts
    /// report this when their storage holds none.
    AdminNotSet,
    NoPendingAdmin,
    NotPendingAdmin,
    ContractPaused,
    CounterOverflow,
}

/// A request to deploy one governance instance. `root_hash` is for Merkle
/// voting; `owners` and `threshold` for multisig.
#[derive(Clone, Debug, PartialEq, Eq)]
pub struct GovernanceConfig {
    pub governance_type: GovernanceType,
    pub admin: Address,
    pub root_hash: Option<BytesN32>,
    pub owners: Option<Vec<Address>>,
    pub threshold: Option<u32>,
    pub salt: BytesN32,
}

/// The registry entry of one deployed governance instance.
#[derive(Clone, Debug, PartialEq, Eq)]
pub struct GovernanceInfo {
    pub address: Address,
    pub governance_type: GovernanceType,
    pub admin: Address,
    pub timestamp: u64,
    pub name: Option<Vec<u8>>,
}

pub struct GovernanceInfoView {
    pub address: Address,
    pub governance_type: GovernanceType,
    pub admin: Address,
    pub timestamp: u64,
    pub name: Option<Seq<u8>>,
}

impl View for GovernanceInfo {
    type V = GovernanceInfoView;

    open spec fn view(&self) -> GovernanceInfoView {
        GovernanceInfoView {
            address: self.address,
            governance_type: self.governance_type,
            admin: self.admin,
            timestamp: self.timestamp,
            name: opt_bytes(self.name),
        }
    }
}

impl Record for GovernanceInfo {
    type Kind = GovernanceType;

    open spec fn kind_of(v: GovernanceInfoView) -> GovernanceType {
        v.governance_type
    }

    fn duplicate(&self) -> (r: GovernanceInfo) {
        GovernanceInfo {
            address: self.address,
            governance_type: self.governance_type,
            admin: self.admin,
            timestamp: self.timestamp,
            name: copy_opt_bytes(&self.name),
        }
    }

    fn has_kind(&self, k: &GovernanceType) -> (r: bool) {
        self.governance_type == *k
    }
}

impl HeldRecord for GovernanceInfo {
    open spec fn holder_of(v: GovernanceInfoView) -> Address {
        v.admin
    }

    fn held_by(&self, a: &Address) -> (r: bool) {
        proof {
            lemma_address_eq(self.admin, *a);
        }
        self.admin == *a
    }
}

#[derive(Clone, Copy, Debug, PartialEq, Eq)]
pub struct GovernanceDeployedEvent {
    pub governance_address: Address,
    pub governance_type: GovernanceType,
    pub deployer: Address,
    pub timestamp: u64,
}

#[derive(Clone, Copy, Debug, PartialEq, Eq)]
pub struct WasmUpdatedEvent {
    pub governance_type: GovernanceType,
    pub wasm_hash: BytesN32,
}

/// Merkle voting needs a root hash; multisig needs owners and a threshold
/// between one and the number of owners.
pub open spec fn config_error(c: GovernanceConfig) -> Option<GovernanceFactoryError> {
    match c.governance_type {
        GovernanceType::MerkleVoting => if c.root_hash is None {
            Some(GovernanceFactoryError::InvalidConfig)
        } else {
            None
        },
        GovernanceType::Multisig => match (c.owners, c.threshold) {
            (Some(owners), Some(t)) => if t == 0 || t as int > owners@.len() {
                Some(GovernanceFactoryError::InvalidConfig)
            } else {
                None
            },
            _ => Some(GovernanceFactoryError::InvalidConfig),
        },
    }
}

/// The constructor arguments of a valid configuration.
pub open spec fn governance_args(c: GovernanceConfig) -> Seq<ArgView> {
    match c.governance_type {
        GovernanceType::MerkleVoting => seq![ArgView::Hash(c.root_hash->Some_0)],
        GovernanceType::Multisig => seq![
            ArgView::Address(c.admin),
            ArgView::Addresses(c.owners->Some_0@),
            ArgView::U32(c.threshold->Some_0),
        ],
    }
}

/// The registry entry recorded for an instance deployed from `c` at `address`.
pub open spec fn governance_info(
    c: GovernanceConfig,
    address: Address,
    timestamp: u64,
) -> GovernanceInfoView {
    GovernanceInfoView {
        address,
        governance_type: c.governance_type,
        admin: c.admin,
        timestamp,
        name: None,
    }
}

pub open spec fn access_error(e: AccessError) -> GovernanceFactoryError {
    match e {
        AccessError::NotAdmin => GovernanceFactoryError::NotAdmin,
        AccessError::NoPendingAdmin => GovernanceFactoryError::NoPendingAdmin,
        AccessError::NotPendingAdmin => GovernanceFactoryError::NotPendingAdmin,
    }
}

fn map_access_error(e: AccessError) -> (r: GovernanceFactoryError)
    ensures
        r == access_error(e),
{
    match e {
        AccessError::NotAdmin => GovernanceFactoryError::NotAdmin,
        AccessError::NoPendingAdmin => GovernanceFactoryError::NoPendingAdmin,
        AccessError::NotPendingAdmin => GovernanceFactoryError::NotPendingAdmin,
    }
}

fn copy_addresses(v: &Vec<Address>) -> (r: Vec<Address>)
    ensures
        r@ == v@,
{
    let mut out: Vec<Address> = Vec::new();
    let mut i: usize = 0;
    while i < v.len()
        invariant
            0 <= i <= v@.len(),
            out@ == v@.take(i as int),
        decreases v@.len() - i,
    {
        out.push(v[i]);
        i = i + 1;
        assert(out@ =~= v@.take(i as int));
    }
    assert(v@.take(i as int) =~= v@);
    out
}

/// Checks `config` against the rules of its kind.
pub fn validate_config(config: &GovernanceConfig) -> (r: Result<(), GovernanceFactoryError>)
    ensures
        r is Ok <==> config_error(*config) is None,
        r matches Err(e) ==> config_error(*config) == Some(e),
{
    match config.governance_type {
        GovernanceType::MerkleVoting => {
            if config.root_hash.is_none() {
                return Err(GovernanceFactoryError::InvalidConfig);
            }
        },
        GovernanceType::Multisig => {
            match (&config.owners, config.threshold) {
                (Some(owners), Some(t)) => {
                    if t == 0 || t as usize > owners.len() {
                        return Err(GovernanceFactoryError::InvalidConfig);
                    }
                },
                _ => {
                    return Err(GovernanceFactoryError::InvalidConfig);
                },
            }
        },
    }
    Ok(())
}


/// The governance factory's state: admin lifecycle, one code template per
/// kind, and the registry of deployed instances.
pub struct GovernanceFactory {
    pub access: AdminState,
    pub merkle_voting_wasm: Option<BytesN32>,
    pub multisig_wasm: Option<BytesN32>,
    pub governance: Registry<GovernanceInfo>,
}

impl GovernanceFactory {
    pub open spec fn wf(&self) -> bool {
        self.governance.wf()
    }

    /// The code template registered for kind `k`.
    pub open spec fn template(&self, k: GovernanceType) -> Option<BytesN32> {
        match k {
            GovernanceType::MerkleVoting => self.merkle_voting_wasm,
            GovernanceType::Multisig => self.multisig_wasm,
        }
    }

    pub open spec fn with_access(self, a: AdminState) -> GovernanceFactory {
        GovernanceFactory { access: a, ..self }
    }

    /// Why deploying `c` is refused now, checked in order: the pause flag,
    /// the template for the kind, then the configuration rules.
    pub open spec fn deploy_error(&self, c: GovernanceConfig) -> Option<GovernanceFactoryError> {
        if self.access.paused {
            Some(GovernanceFactoryError::ContractPaused)
        } else if self.template(c.governance_type) is None {
            Some(GovernanceFactoryError::WasmNotSet)
        } else {
            config_error(c)
        }
    }

    pub fn new(admin: Address) -> (r: GovernanceFactory)
        ensures
            r.wf(),
            r.access.admin == admin,
            r.access.pending_admin is None,
            !r.access.paused,
            r.governance.records().len() == 0,
            r.governance.counter() == 0,
            forall|k: GovernanceType| r.template(k) is None,
    {
        GovernanceFactory {
            access: AdminState::new(admin),
            merkle_voting_wasm: None,
            multisig_wasm: None,
            governance: Registry::new(),
        }
    }

    fn get_wasm_for_type(&self, k: GovernanceType) -> (r: Option<BytesN32>)
        ensures
            r == self.template(k),
    {
        match k {
            GovernanceType::MerkleVoting => self.merkle_voting_wasm,
            GovernanceType::Multisig => self.multisig_wasm,
        }
    }

    /// Registers (or replaces) the code template of kind `k`. Admin only.
    pub fn set_wasm(&mut self, admin: &Address, k: GovernanceType, wasm_hash: BytesN32) -> (r:
        Result<WasmUpdatedEvent, GovernanceFactoryError>)
        ensures
            r is Ok <==> old(self).access.admin == *admin,
            r matches Err(e) ==> e == GovernanceFactoryError::NotAdmin && *final(self) == *old(self),
            r matches Ok(ev) ==> ev == (WasmUpdatedEvent { governance_type: k, wasm_hash })
                && final(self).template(k) == Some(wasm_hash)
                && (forall|j: GovernanceType|
                j != k ==> final(self).template(j) == old(self).template(j))
                && final(self).access == old(self).access
                && final(self).governance == old(self).governance,
    {
        if let Err(e) = self.access.require_admin(admin) {
            return Err(map_access_error(e));
        }
        match k {
            GovernanceType::MerkleVoting => self.merkle_voting_wasm = Some(wasm_hash),
            GovernanceType::Multisig => self.multisig_wasm = Some(wasm_hash),
        }
        Ok(WasmUpdatedEvent { governance_type: k, wasm_hash })
    }

    pub fn set_merkle_voting_wasm(&mut self, admin: &Address, wasm_hash: BytesN32) -> (r: Result<
        WasmUpdatedEvent,
        GovernanceFactoryError,
    >)
        ensures
            r is Ok <==> old(self).access.admin == *admin,
            r is Err ==> *final(self) == *old(self),
            r is Ok ==> final(self).template(GovernanceType::MerkleVoting) == Some(wasm_hash),
    {
        self.set_wasm(admin, GovernanceType::MerkleVoting, wasm_hash)
    }

    pub fn set_multisig_wasm(&mut self, admin: &Address, wasm_hash: BytesN32) -> (r: Result<
        WasmUpdatedEvent,
        GovernanceFactoryError,
    >)
        ensures
            r is Ok <==> old(self).access.admin == *admin,
            r is Err ==> *final(self) == *old(self),
            r is Ok ==> final(self).template(GovernanceType::Multisig) == Some(wasm_hash),
    {
        self.set_wasm(admin, GovernanceType::Multisig, wasm_hash)
    }

    /// The checks that come before instantiation, with no effect on the
    /// factory: on success, what to hand to the host's instantiation
    /// primitive for `config`.
    pub fn prepare_governance(&self, config: &GovernanceConfig) -> (r: Result<
        DeployRequest,
        GovernanceFactoryError,
    >)
        ensures
            r is Ok <==> self.deploy_error(*config) is None,
            r matches Err(e) ==> self.deploy_error(*config) == Some(e),
            r matches Ok(req) ==> Some(req.wasm_hash) == self.template(config.governance_type)
                && req.salt == config.salt && req.arg_views() == governance_args(*config),
    {
        if self.access.paused {
            return Err(GovernanceFactoryError::ContractPaused);
        }
        let wasm_hash = match self.get_wasm_for_type(config.governance_type) {
            Some(h) => h,
            None => {
                return Err(GovernanceFactoryError::WasmNotSet);
            },
        };
        if let Err(e) = validate_config(config) {
            return Err(e);
        }
        let mut args: Vec<ConstructorArg> = Vec::new();
        match config.governance_type {
            GovernanceType::MerkleVoting => {
                let root = match config.root_hash {
                    Some(h) => h,
                    None => {
                        return Err(GovernanceFactoryError::InvalidConfig);
                    },
                };
                args.push(ConstructorArg::Hash(root));
            },
            GovernanceType::Multisig => {
                let (owners, threshold) = match (&config.owners, config.threshold) {
                    (Some(o), Some(t)) => (copy_addresses(o), t),
                    _ => {
                        return Err(GovernanceFactoryError::InvalidConfig);
                    },
                };
                args.push(ConstructorArg::Address(config.admin));
                args.push(ConstructorArg::Addresses(owners));
                args.push(ConstructorArg::U32(threshold));
            },
        }
        let req = DeployRequest { wasm_hash, salt: config.salt, args };
        assert(req.arg_views() =~= governance_args(*config));
        Ok(req)
    }

    /// Records an instance that the host created at `address` from `config`.
    /// The checks of `prepare_governance` are made again; when one fails, or
    /// the counter is at its largest value, nothing changes.
    pub fn complete_governance(
        &mut self,
        deployer: &Address,
        config: &GovernanceConfig,
        address: Address,
        timestamp: u64,
    ) -> (r: Result<GovernanceDeployedEvent, GovernanceFactoryError>)
        requires
            old(self).wf(),
        ensures
            final(self).wf(),
            old(self).deploy_error(*config) matches Some(e) ==> r == Err::<
                GovernanceDeployedEvent,
                GovernanceFactoryError,
            >(e),
            old(self).deploy_error(*config) is None && old(self).governance.counter() == u32::MAX
                ==> r == Err::<GovernanceDeployedEvent, GovernanceFactoryError>(
                GovernanceFactoryError::CounterOverflow,
            ),
            r is Err ==> *final(self) == *old(self),
            r is Ok <==> old(self).deploy_error(*config) is None && old(self).governance.counter()
                < u32::MAX,
            r is Ok ==> final(self).governance.records() == old(self).governance.records().push(
                governance_info(*config, address, timestamp),
            ) && final(self).governance.counter() == old(self).governance.counter() + 1
                && final(self).access == old(self).access
                && (forall|k: GovernanceType| final(self).template(k) == old(self).template(k)),
            r matches Ok(ev) ==> ev == (GovernanceDeployedEvent {
                governance_address: address,
                governance_type: config.governance_type,
                deployer: *deployer,
                timestamp,
            }),
    {
        if let Err(e) = self.prepare_governance(config) {
            return Err(e);
        }
        if !self.governance.has_room() {
            return Err(GovernanceFactoryError::CounterOverflow);
        }
        let info = GovernanceInfo {
            address,
            governance_type: config.governance_type,
            admin: config.admin,
            timestamp,
            name: None,
        };
        match self.governance.record(info) {
            Ok(()) => {},
            Err(_) => {
                return Err(GovernanceFactoryError::CounterOverflow);
            },
        }
        Ok(
            GovernanceDeployedEvent {
                governance_address: address,
                governance_type: config.governance_type,
                deployer: *deployer,
                timestamp,
            },
        )
    }

    /// Every deployed instance, in deployment order.
    pub fn get_deployed_governance(&self) -> (r: Vec<GovernanceInfo>)
        ensures
            views(r@) == self.governance.records(),
    {
        self.governance.all()
    }

    /// The deployed instances of kind `governance_type`, in deployment order.
    pub fn get_governance_by_type(&self, governance_type: GovernanceType) -> (r: Vec<
        GovernanceInfo,
    >)
        ensures
            views(r@) == of_kind::<GovernanceInfo>(self.governance.records(), governance_type),
    {
        self.governance.by_kind(&governance_type)
    }

    /// The deployed instances administered by `admin`, in deployment order.
    pub fn get_governance_by_admin(&self, admin: &Address) -> (r: Vec<GovernanceInfo>)
        ensures
            views(r@) == held_by_addr::<GovernanceInfo>(self.governance.records(), *admin),
    {
        self.governance.by_holder(admin)
    }

    /// The deployment counter.
    pub fn get_governance_count(&self) -> (r: u32)
        requires
            self.wf(),
        ensures
            r == self.governance.counter(),
            r as int == self.governance.records().len(),
    {
        self.governance.count()
    }

    pub fn get_admin(&self) -> (r: Address)
        ensures
            r == self.access.admin,
    {
        self.access.admin
    }

    pub fn get_pending_admin(&self) -> (r: Option<Address>)
        ensures
            r == self.access.pending_admin,
    {
        self.access.pending_admin
    }

    pub fn pause(&mut self, admin: &Address) -> (r: Result<ContractPausedEvent, GovernanceFactoryError>)
        ensures
            *final(self) == old(self).with_access(old(self).access.after_pause(*admin)),
            r is Ok <==> old(self).access.admin == *admin,
            r matches Ok(ev) ==> ev.admin == *admin,
            r matches Err(e) ==> e == GovernanceFactoryError::NotAdmin,
    {
        match self.access.pause(admin) {
            Ok(ev) => Ok(ev),
            Err(e) => Err(map_access_error(e)),
        }
    }

    pub fn unpause(&mut self, admin: &Address) -> (r: Result<ContractUnpausedEvent, GovernanceFactoryError>)
        ensures
            *final(self) == old(self).with_access(old(self).access.after_unpause(*admin)),
            r is Ok <==> old(self).access.admin == *admin,
            r matches Ok(ev) ==> ev.admin == *admin,
            r matches Err(e) ==> e == GovernanceFactoryError::NotAdmin,
    {
        match self.access.unpause(admin) {
            Ok(ev) => Ok(ev),
            Err(e) => Err(map_access_error(e)),
        }
    }

    /// Records a switch of the factory's own code to `new_wasm_hash`, which
    /// the stored admin must have authorized, and pauses the factory.
    pub fn upgrade(&mut self, new_wasm_hash: BytesN32) -> (r: ContractUpgradedEvent)
        ensures
            *final(self) == old(self).with_access(old(self).access.with_paused(true)),
            r.new_wasm_hash == new_wasm_hash,
    {
        self.access.upgrade(new_wasm_hash)
    }

    pub fn initiate_admin_transfer(&mut self, current_admin: &Address, new_admin: Address) -> (r:
        Result<AdminTransferInitiatedEvent, GovernanceFactoryError>)
        ensures
            *final(self) == old(self).with_access(
                old(self).access.after_initiate(*current_admin, new_admin),
            ),
            r is Ok <==> old(self).access.admin == *current_admin,
            r matches Ok(ev) ==> ev.new_admin == new_admin,
            r matches Err(e) ==> e == GovernanceFactoryError::NotAdmin,
    {
        match self.access.initiate_transfer(current_admin, new_admin) {
            Ok(ev) => Ok(ev),
            Err(e) => Err(map_access_error(e)),
        }
    }

    pub fn accept_admin_transfer(&mut self, new_admin: &Address) -> (r: Result<
        AdminTransferredEvent,
        GovernanceFactoryError,
    >)
        ensures
            *final(self) == old(self).with_access(old(self).access.after_accept(*new_admin)),
            r is Ok <==> old(self).access.accept_error(*new_admin) is None,
            r matches Ok(ev) ==> ev.new_admin == *new_admin,
            r matches Err(e) ==> old(self).access.accept_error(*new_admin) matches Some(a) && e
                == access_error(a),
    {
        match self.access.accept_transfer(new_admin) {
            Ok(ev) => Ok(ev),
            Err(e) => Err(map_access_error(e)),
        }
    }

    pub fn cancel_admin_transfer(&mut self, current_admin: &Address) -> (r: Result<
        AdminTransferCancelledEvent,
        GovernanceFactoryError,
    >)
        ensures
            *final(self) == old(self).with_access(old(self).access.after_cancel(*current_admin)),
            r is Ok <==> old(self).access.admin == *current_admin,
            r matches Ok(ev) ==> ev.admin == *current_admin,
            r matches Err(e) ==> e == GovernanceFactoryError::NotAdmin,
    {
        match self.access.cancel_transfer(current_admin) {
            Ok(ev) => Ok(ev),
            Err(e) => Err(map_access_error(e)),
        }
    }
}

/// The deployment counter equals the number of recorded deployments.
pub proof fn lemma_governance_count_matches(f: &GovernanceFactory)
    requires
        f.wf(),
    ensures
        f.governance.counter() as int == f.governance.records().len(),
{
    f.governance.lemma_counter_is_len();
}

/// A multisig configuration is refused unless it names owners and a
/// threshold between one and the number of owners.
pub proof fn lemma_multisig_threshold(c: GovernanceConfig)
    requires
        c.governance_type == GovernanceType::Multisig,
    ensures
        config_error(c) is None <==> (c.owners matches Some(o) && c.threshold matches Some(t)
            && 1 <= t && t as int <= o@.len()),
        config_error(c) is None ==> c.owners->Some_0@.len() > 0,
{
}

/// While the factory is paused, every deployment is refused with
/// `ContractPaused` (and, by `complete_governance`, changes nothing).
pub proof fn lemma_governance_paused_refuses(f: &GovernanceFactory, c: GovernanceConfig)
    requires
        f.access.paused,
    ensures
        f.deploy_error(c) == Some(GovernanceFactoryError::ContractPaused),
{
}

} // verus!
