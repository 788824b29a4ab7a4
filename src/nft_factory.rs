//! The NFT factory: deploys non-fungible-token instances of three kinds,
//! filling in default metadata where the request leaves it out.
use vstd::prelude::*;
use crate::admin::{AccessError, AdminState};
pub use crate::admin::{
    AdminTransferCancelledEvent, AdminTransferInitiatedEvent, AdminTransferredEvent,
    ContractPausedEvent, ContractUnpausedEvent, ContractUpgradedEvent,
};
use crate::deploy::{ArgView, ConstructorArg, DeployRequest, copy_bytes, copy_opt_bytes, opt_bytes};
use crate::ids::{Address, BytesN32, lemma_address_eq};
use crate::registry::{HeldRecord, Record, Registry, held_by_addr, of_kind, views};

verus! {

#[derive(Clone, Copy, Debug, PartialEq, Eq, Structural)]
pub enum NFTType {
    Enumerable,
    Royalties,
    AccessControl,
}

/// Why an NFT factory operation was refused.
#[derive(Clone, Copy, Debug, PartialEq, Eq, Structural)]
pub enum NFTFactoryError {
    NotAdmin,
    WasmNotSet,
    /// Reserved: every `NFTType` has a template slot, so the engine never reports it.
    InvalidNFTType,
    InvalidConfig,
    /// No admin is recorded. A factory made by `new` always has one; hosts
    /// report this when their storage holds none.
    AdminNotSet,
    NoPendingAdmin,
    NotPendingAdmin,
    ContractPaused,
    CounterOverflow,
}

/// A request to deploy one NFT collection. `owner` is for the enumerable
/// kind; `admin` for the royalties and access-control kinds; `manager` for
/// the royalties kind. Missing metadata is replaced by defaults.
#[derive(Clone, Debug, PartialEq, Eq)]
pub struct NFTConfig {
    pub nft_type: NFTType,
    pub owner: Address,
    pub admin: Option<Address>,
    pub manager: Option<Address>,
    pub salt: BytesN32,
    pub name: Option<Vec<u8>>,
    pub symbol: Option<Vec<u8>>,
    pub base_uri: Option<Vec<u8>>,
}

/// The registry entry of one deployed collection.
#[derive(Clone, Debug, PartialEq, Eq)]
pub struct NFTInfo {
    pub address: Address,
    pub nft_type: NFTType,
    pub owner: Address,
    pub timestamp: u64,
    pub name: Option<Vec<u8>>,
    pub symbol: Option<Vec<u8>>,
    pub base_uri: Option<Vec<u8>>,
}

pub struct NFTInfoView {
    pub address: Address,
    pub nft_type: NFTType,
    pub owner: Address,
    pub timestamp: u64,
    pub name: Option<Seq<u8>>,
    pub symbol: Option<Seq<u8>>,
    pub base_uri: Option<Seq<u8>>,
}

impl View for NFTInfo {
    type V = NFTInfoView;

    open spec fn view(&self) -> NFTInfoView {
        NFTInfoView {
            address: self.address,
            nft_type: self.nft_type,
            owner: self.owner,
            timestamp: self.timestamp,
            name: opt_bytes(self.name),
            symbol: opt_bytes(self.symbol),
            base_uri: opt_bytes(self.base_uri),
        }
    }
}

impl Record for NFTInfo {
    type Kind = NFTType;

    open spec fn kind_of(v: NFTInfoView) -> NFTType {
        v.nft_type
    }

    fn duplicate(&self) -> (r: NFTInfo) {
        NFTInfo {
            address: self.address,
            nft_type: self.nft_type,
            owner: self.owner,
            timestamp: self.timestamp,
            name: copy_opt_bytes(&self.name),
            symbol: copy_opt_bytes(&self.symbol),
            base_uri: copy_opt_bytes(&self.base_uri),
        }
    }

    fn has_kind(&self, k: &NFTType) -> (r: bool) {
        self.nft_type == *k
    }
}

impl HeldRecord for NFTInfo {
    open spec fn holder_of(v: NFTInfoView) -> Address {
        v.owner
    }

    fn held_by(&self, a: &Address) -> (r: bool) {
        proof {
            lemma_address_eq(self.owner, *a);
        }
        self.owner == *a
    }
}

#[derive(Clone, Copy, Debug, PartialEq, Eq)]
pub struct NFTDeployedEvent {
    pub nft_address: Address,
    pub nft_type: NFTType,
    pub deployer: Address,
    pub timestamp: u64,
}

#[derive(Clone, Copy, Debug, PartialEq, Eq)]
pub struct WasmUpdatedEvent {
    pub nft_type: NFTType,
    pub wasm_hash: BytesN32,
}

/// "My Token"
pub open spec fn default_name() -> Seq<u8> {
    seq![77u8, 121u8, 32u8, 84u8, 111u8, 107u8, 101u8, 110u8]
}

/// "TKN"
pub open spec fn default_symbol() -> Seq<u8> {
    seq![84u8, 75u8, 78u8]
}

/// "www.mytoken.com", the default base URI of enumerable and access-control collections.
pub open spec fn default_site_uri() -> Seq<u8> {
    seq![
        119u8, 119u8, 119u8, 46u8, 109u8, 121u8, 116u8, 111u8, 107u8, 101u8, 110u8, 46u8, 99u8,
        111u8, 109u8,
    ]
}

/// "https://example.com/nft/", the default base URI of royalties collections.
pub open spec fn default_royalties_uri() -> Seq<u8> {
    seq![
        104u8, 116u8, 116u8, 112u8, 115u8, 58u8, 47u8, 47u8, 101u8, 120u8, 97u8, 109u8, 112u8,
        108u8, 101u8, 46u8, 99u8, 111u8, 109u8, 47u8, 110u8, 102u8, 116u8, 47u8,
    ]
}

fn default_name_bytes() -> (r: Vec<u8>)
    ensures
        r@ == default_name(),
{
    let r = vec![77u8, 121u8, 32u8, 84u8, 111u8, 107u8, 101u8, 110u8];
    assert(r@ =~= default_name());
    r
}

fn default_symbol_bytes() -> (r: Vec<u8>)
    ensures
        r@ == default_symbol(),
{
    let r = vec![84u8, 75u8, 78u8];
    assert(r@ =~= default_symbol());
    r
}

fn default_site_uri_bytes() -> (r: Vec<u8>)
    ensures
        r@ == default_site_uri(),
{
    let r = vec![
        119u8, 119u8, 119u8, 46u8, 109u8, 121u8, 116u8, 111u8, 107u8, 101u8, 110u8, 46u8, 99u8,
        111u8, 109u8,
    ];
    assert(r@ =~= default_site_uri());
    r
}

fn default_royalties_uri_bytes() -> (r: Vec<u8>)
    ensures
        r@ == default_royalties_uri(),
{
    let r = vec![
        104u8, 116u8, 116u8, 112u8, 115u8, 58u8, 47u8, 47u8, 101u8, 120u8, 97u8, 109u8, 112u8,
        108u8, 101u8, 46u8, 99u8, 111u8, 109u8, 47u8, 110u8, 102u8, 116u8, 47u8,
    ];
    assert(r@ =~= default_royalties_uri());
    r
}

pub open spec fn or_default(o: Option<Vec<u8>>, d: Seq<u8>) -> Seq<u8> {
    match o {
        Some(v) => v@,
        None => d,
    }
}

/// The base URI handed to the constructor: the requested one, or the kind's default.
pub open spec fn base_uri_for(c: NFTConfig) -> Seq<u8> {
    match c.nft_type {
        NFTType::Royalties => or_default(c.base_uri, default_royalties_uri()),
        _ => or_default(c.base_uri, default_site_uri()),
    }
}

/// Which identities each kind needs: royalties needs an admin and a manager,
/// access control an admin, and enumerable takes neither.
pub open spec fn config_error(c: NFTConfig) -> Option<NFTFactoryError> {
    match c.nft_type {
        NFTType::Royalties => if c.admin is None || c.manager is None {
            Some(NFTFactoryError::InvalidConfig)
        } else {
            None
        },
        NFTType::AccessControl => if c.admin is None {
            Some(NFTFactoryError::InvalidConfig)
        } else {
            None
        },
        NFTType::Enumerable => if c.admin is Some || c.manager is Some {
            Some(NFTFactoryError::InvalidConfig)
        } else {
            None
        },
    }
}

/// The constructor arguments of a valid configuration.
pub open spec fn nft_args(c: NFTConfig) -> Seq<ArgView> {
    let name = ArgView::Text(or_default(c.name, default_name()));
    let symbol = ArgView::Text(or_default(c.symbol, default_symbol()));
    let uri = ArgView::Text(base_uri_for(c));
    match c.nft_type {
        NFTType::Enumerable => seq![ArgView::Address(c.owner), uri, name, symbol],
        NFTType::Royalties => seq![
            ArgView::Address(c.admin->Some_0),
            ArgView::Address(c.manager->Some_0),
            uri,
            name,
            symbol,
        ],
        NFTType::AccessControl => seq![ArgView::Address(c.admin->Some_0), uri, name, symbol],
    }
}

/// The registry entry recorded for a collection deployed from `c` at `address`.
pub open spec fn nft_info(c: NFTConfig, address: Address, timestamp: u64) -> NFTInfoView {
    NFTInfoView {
        address,
        nft_type: c.nft_type,
        owner: c.owner,
        timestamp,
        name: Some(or_default(c.name, default_name())),
        symbol: Some(or_default(c.symbol, default_symbol())),
        base_uri: opt_bytes(c.base_uri),
    }
}

pub open spec fn access_error(e: AccessError) -> NFTFactoryError {
    match e {
        AccessError::NotAdmin => NFTFactoryError::NotAdmin,
        AccessError::NoPendingAdmin => NFTFactoryError::NoPendingAdmin,
        AccessError::NotPendingAdmin => NFTFactoryError::NotPendingAdmin,
    }
}

fn map_access_error(e: AccessError) -> (r: NFTFactoryError)
    ensures
        r == access_error(e),
{
    match e {
        AccessError::NotAdmin => NFTFactoryError::NotAdmin,
        AccessError::NoPendingAdmin => NFTFactoryError::NoPendingAdmin,
        AccessError::NotPendingAdmin => NFTFactoryError::NotPendingAdmin,
    }
}

fn bytes_or_default(o: &Option<Vec<u8>>, d: Vec<u8>) -> (r: Vec<u8>)
    ensures
        r@ == or_default(*o, d@),
{
    match o {
        Some(v) => copy_bytes(v),
        None => d,
    }
}

/// Checks that `config` carries the identities its kind needs.
pub fn validate_config(config: &NFTConfig) -> (r: Result<(), NFTFactoryError>)
    ensures
        r is Ok <==> config_error(*config) is None,
        r matches Err(e) ==> config_error(*config) == Some(e),
{
    match config.nft_type {
        NFTType::Royalties => {
            if config.admin.is_none() || config.manager.is_none() {
                return Err(NFTFactoryError::InvalidConfig);
            }
        },
        NFTType::AccessControl => {
            if config.admin.is_none() {
                return Err(NFTFactoryError::InvalidConfig);
            }
        },
        NFTType::Enumerable => {
            if config.admin.is_some() || config.manager.is_some() {
                return Err(NFTFactoryError::InvalidConfig);
            }
        },
    }
    Ok(())
}


/// The NFT factory's state: admin lifecycle, one code template per kind, and
/// the registry of deployed collections.
pub struct NFTFactory {
    pub access: AdminState,
    pub enumerable_wasm: Option<BytesN32>,
    pub royalties_wasm: Option<BytesN32>,
    pub access_control_wasm: Option<BytesN32>,
    pub nfts: Registry<NFTInfo>,
}

impl NFTFactory {
    pub open spec fn wf(&self) -> bool {
        self.nfts.wf()
    }

    /// The code template registered for kind `k`.
    pub open spec fn template(&self, k: NFTType) -> Option<BytesN32> {
        match k {
            NFTType::Enumerable => self.enumerable_wasm,
            NFTType::Royalties => self.royalties_wasm,
            NFTType::AccessControl => self.access_control_wasm,
        }
    }

    pub open spec fn with_access(self, a: AdminState) -> NFTFactory {
        NFTFactory { access: a, ..self }
    }

    /// Why deploying `c` is refused now, checked in order: the pause flag,
    /// the template for the kind, then the configuration rules.
    pub open spec fn deploy_error(&self, c: NFTConfig) -> Option<NFTFactoryError> {
        if self.access.paused {
            Some(NFTFactoryError::ContractPaused)
        } else if self.template(c.nft_type) is None {
            Some(NFTFactoryError::WasmNotSet)
        } else {
            config_error(c)
        }
    }

    pub fn new(admin: Address) -> (r: NFTFactory)
        ensures
            r.wf(),
            r.access.admin == admin,
            r.access.pending_admin is None,
            !r.access.paused,
            r.nfts.records().len() == 0,
            r.nfts.counter() == 0,
            forall|k: NFTType| r.template(k) is None,
    {
        NFTFactory {
            access: AdminState::new(admin),
            enumerable_wasm: None,
            royalties_wasm: None,
            access_control_wasm: None,
            nfts: Registry::new(),
        }
    }

    fn get_wasm_for_type(&self, k: NFTType) -> (r: Option<BytesN32>)
        ensures
            r == self.template(k),
    {
        match k {
            NFTType::Enumerable => self.enumerable_wasm,
            NFTType::Royalties => self.royalties_wasm,
            NFTType::AccessControl => self.access_control_wasm,
        }
    }

    /// Registers (or replaces) the code template of kind `k`. Admin only.
    pub fn set_wasm(&mut self, admin: &Address, k: NFTType, wasm_hash: BytesN32) -> (r: Result<
        WasmUpdatedEvent,
        NFTFactoryError,
    >)
        ensures
            r is Ok <==> old(self).access.admin == *admin,
            r matches Err(e) ==> e == NFTFactoryError::NotAdmin && *final(self) == *old(self),
            r matches Ok(ev) ==> ev == (WasmUpdatedEvent { nft_type: k, wasm_hash })
                && final(self).template(k) == Some(wasm_hash)
                && (forall|j: NFTType| j != k ==> final(self).template(j) == old(self).template(j))
                && final(self).access == old(self).access
                && final(self).nfts == old(self).nfts,
    {
        if let Err(e) = self.access.require_admin(admin) {
            return Err(map_access_error(e));
        }
        match k {
            NFTType::Enumerable => self.enumerable_wasm = Some(wasm_hash),
            NFTType::Royalties => self.royalties_wasm = Some(wasm_hash),
            NFTType::AccessControl => self.access_control_wasm = Some(wasm_hash),
        }
        Ok(WasmUpdatedEvent { nft_type: k, wasm_hash })
    }

    pub fn set_enumerable_wasm(&mut self, admin: &Address, wasm_hash: BytesN32) -> (r: Result<
        WasmUpdatedEvent,
        NFTFactoryError,
    >)
        ensures
            r is Ok <==> old(self).access.admin == *admin,
            r is Err ==> *final(self) == *old(self),
            r is Ok ==> final(self).template(NFTType::Enumerable) == Some(wasm_hash),
    {
        self.set_wasm(admin, NFTType::Enumerable, wasm_hash)
    }

    pub fn set_royalties_wasm(&mut self, admin: &Address, wasm_hash: BytesN32) -> (r: Result<
        WasmUpdatedEvent,
        NFTFactoryError,
    >)
        ensures
            r is Ok <==> old(self).access.admin == *admin,
            r is Err ==> *final(self) == *old(self),
            r is Ok ==> final(self).template(NFTType::Royalties) == Some(wasm_hash),
    {
        self.set_wasm(admin, NFTType::Royalties, wasm_hash)
    }

    pub fn set_access_control_wasm(&mut self, admin: &Address, wasm_hash: BytesN32) -> (r: Result<
        WasmUpdatedEvent,
        NFTFactoryError,
    >)
        ensures
            r is Ok <==> old(self).access.admin == *admin,
            r is Err ==> *final(self) == *old(self),
            r is Ok ==> final(self).template(NFTType::AccessControl) == Some(wasm_hash),
    {
        self.set_wasm(admin, NFTType::AccessControl, wasm_hash)
    }

    /// The checks that come before instantiation, with no effect on the
    /// factory: on success, what to hand to the host's instantiation
    /// primitive for `config`, with defaults for missing metadata.
    pub fn prepare_nft(&self, config: &NFTConfig) -> (r: Result<DeployRequest, NFTFactoryError>)
        ensures
            r is Ok <==> self.deploy_error(*config) is None,
            r matches Err(e) ==> self.deploy_error(*config) == Some(e),
            r matches Ok(req) ==> Some(req.wasm_hash) == self.template(config.nft_type)
                && req.salt == config.salt && req.arg_views() == nft_args(*config),
    {
        if self.access.paused {
            return Err(NFTFactoryError::ContractPaused);
        }
        let wasm_hash = match self.get_wasm_for_type(config.nft_type) {
            Some(h) => h,
            None => {
                return Err(NFTFactoryError::WasmNotSet);
            },
        };
        if let Err(e) = validate_config(config) {
            return Err(e);
        }
        let name = bytes_or_default(&config.name, default_name_bytes());
        let symbol = bytes_or_default(&config.symbol, default_symbol_bytes());
        let mut args: Vec<ConstructorArg> = Vec::new();
        match config.nft_type {
            NFTType::Enumerable => {
                let uri = bytes_or_default(&config.base_uri, default_site_uri_bytes());
                args.push(ConstructorArg::Address(config.owner));
                args.push(ConstructorArg::Text(uri));
            },
            NFTType::Royalties => {
                let (admin, manager) = match (config.admin, config.manager) {
                    (Some(a), Some(m)) => (a, m),
                    _ => {
                        return Err(NFTFactoryError::InvalidConfig);
                    },
                };
                let uri = bytes_or_default(&config.base_uri, default_royalties_uri_bytes());
                args.push(ConstructorArg::Address(admin));
                args.push(ConstructorArg::Address(manager));
                args.push(ConstructorArg::Text(uri));
            },
            NFTType::AccessControl => {
                let admin = match config.admin {
                    Some(a) => a,
                    None => {
                        return Err(NFTFactoryError::InvalidConfig);
                    },
                };
                let uri = bytes_or_default(&config.base_uri, default_site_uri_bytes());
                args.push(ConstructorArg::Address(admin));
                args.push(ConstructorArg::Text(uri));
            },
        }
        args.push(ConstructorArg::Text(name));
        args.push(ConstructorArg::Text(symbol));
        let req = DeployRequest { wasm_hash, salt: config.salt, args };
        assert(req.arg_views() =~= nft_args(*config));
        Ok(req)
    }

    /// Records a collection that the host instantiated at `address` from
    /// `config`. The checks of `prepare_nft` are made again; when one fails,
    /// or the counter is at its largest value, nothing changes.
    pub fn complete_nft(
        &mut self,
        deployer: &Address,
        config: &NFTConfig,
        address: Address,
        timestamp: u64,
    ) -> (r: Result<NFTDeployedEvent, NFTFactoryError>)
        requires
            old(self).wf(),
        ensures
            final(self).wf(),
            old(self).deploy_error(*config) matches Some(e) ==> r == Err::<
                NFTDeployedEvent,
                NFTFactoryError,
            >(e),
            old(self).deploy_error(*config) is None && old(self).nfts.counter() == u32::MAX ==> r
                == Err::<NFTDeployedEvent, NFTFactoryError>(NFTFactoryError::CounterOverflow),
            r is Err ==> *final(self) == *old(self),
            r is Ok <==> old(self).deploy_error(*config) is None && old(self).nfts.counter()
                < u32::MAX,
            r is Ok ==> final(self).nfts.records() == old(self).nfts.records().push(
                nft_info(*config, address, timestamp),
            ) && final(self).nfts.counter() == old(self).nfts.counter() + 1
                && final(self).access == old(self).access
                && (forall|k: NFTType| final(self).template(k) == old(self).template(k)),
            r matches Ok(ev) ==> ev == (NFTDeployedEvent {
                nft_address: address,
                nft_type: config.nft_type,
                deployer: *deployer,
                timestamp,
            }),
    {
        if let Err(e) = self.prepare_nft(config) {
            return Err(e);
        }
        if !self.nfts.has_room() {
            return Err(NFTFactoryError::CounterOverflow);
        }
        let info = NFTInfo {
            address,
            nft_type: config.nft_type,
            owner: config.owner,
            timestamp,
            name: Some(bytes_or_default(&config.name, default_name_bytes())),
            symbol: Some(bytes_or_default(&config.symbol, default_symbol_bytes())),
            base_uri: copy_opt_bytes(&config.base_uri),
        };
        match self.nfts.record(info) {
            Ok(()) => {},
            Err(_) => {
                return Err(NFTFactoryError::CounterOverflow);
            },
        }
        Ok(NFTDeployedEvent { nft_address: address, nft_type: config.nft_type, deployer: *deployer, timestamp })
    }

    /// Every deployed collection, in deployment order.
    pub fn get_deployed_nfts(&self) -> (r: Vec<NFTInfo>)
        ensures
            views(r@) == self.nfts.records(),
    {
        self.nfts.all()
    }

    /// The deployed collections of kind `nft_type`, in deployment order.
    pub fn get_nfts_by_type(&self, nft_type: NFTType) -> (r: Vec<NFTInfo>)
        ensures
            views(r@) == of_kind::<NFTInfo>(self.nfts.records(), nft_type),
    {
        self.nfts.by_kind(&nft_type)
    }

    /// The deployed collections owned by `owner`, in deployment order.
    pub fn get_nfts_by_owner(&self, owner: &Address) -> (r: Vec<NFTInfo>)
        ensures
            views(r@) == held_by_addr::<NFTInfo>(self.nfts.records(), *owner),
    {
        self.nfts.by_holder(owner)
    }

    /// The deployment counter.
    pub fn get_nft_count(&self) -> (r: u32)
        requires
            self.wf(),
        ensures
            r == self.nfts.counter(),
            r as int == self.nfts.records().len(),
    {
        self.nfts.count()
    }

    pub fn get_admin(&self) -> (r: Address)
        ensures
            r == self.access.admin,
    {
        self.access.admin
    }

    pub fn get_pending_admin(&self) -> (r: Option<Address>)
        ensures
            r == self.access.pending_admin,
    {
        self.access.pending_admin
    }

    pub fn pause(&mut self, admin: &Address) -> (r: Result<ContractPausedEvent, NFTFactoryError>)
        ensures
            *final(self) == old(self).with_access(old(self).access.after_pause(*admin)),
            r is Ok <==> old(self).access.admin == *admin,
            r matches Ok(ev) ==> ev.admin == *admin,
            r matches Err(e) ==> e == NFTFactoryError::NotAdmin,
    {
        match self.access.pause(admin) {
            Ok(ev) => Ok(ev),
            Err(e) => Err(map_access_error(e)),
        }
    }

    pub fn unpause(&mut self, admin: &Address) -> (r: Result<ContractUnpausedEvent, NFTFactoryError>)
        ensures
            *final(self) == old(self).with_access(old(self).access.after_unpause(*admin)),
            r is Ok <==> old(self).access.admin == *admin,
            r matches Ok(ev) ==> ev.admin == *admin,
            r matches Err(e) ==> e == NFTFactoryError::NotAdmin,
    {
        match self.access.unpause(admin) {
            Ok(ev) => Ok(ev),
            Err(e) => Err(map_access_error(e)),
        }
    }

    /// Records a switch of the factory's own code to `new_wasm_hash`, which
    /// the stored admin must have authorized, and pauses the factory.
    pub fn upgrade(&mut self, new_wasm_hash: BytesN32) -> (r: ContractUpgradedEvent)
        ensures
            *final(self) == old(self).with_access(old(self).access.with_paused(true)),
            r.new_wasm_hash == new_wasm_hash,
    {
        self.access.upgrade(new_wasm_hash)
    }

    pub fn initiate_admin_transfer(&mut self, current_admin: &Address, new_admin: Address) -> (r:
        Result<AdminTransferInitiatedEvent, NFTFactoryError>)
        ensures
            *final(self) == old(self).with_access(
                old(self).access.after_initiate(*current_admin, new_admin),
            ),
            r is Ok <==> old(self).access.admin == *current_admin,
            r matches Ok(ev) ==> ev.new_admin == new_admin,
            r matches Err(e) ==> e == NFTFactoryError::NotAdmin,
    {
        match self.access.initiate_transfer(current_admin, new_admin) {
            Ok(ev) => Ok(ev),
            Err(e) => Err(map_access_error(e)),
        }
    }

    pub fn accept_admin_transfer(&mut self, new_admin: &Address) -> (r: Result<
        AdminTransferredEvent,
        NFTFactoryError,
    >)
        ensures
            *final(self) == old(self).with_access(old(self).access.after_accept(*new_admin)),
            r is Ok <==> old(self).access.accept_error(*new_admin) is None,
            r matches Ok(ev) ==> ev.new_admin == *new_admin,
            r matches Err(e) ==> old(self).access.accept_error(*new_admin) matches Some(a) && e
                == access_error(a),
    {
        match self.access.accept_transfer(new_admin) {
            Ok(ev) => Ok(ev),
            Err(e) => Err(map_access_error(e)),
        }
    }

    pub fn cancel_admin_transfer(&mut self, current_admin: &Address) -> (r: Result<
        AdminTransferCancelledEvent,
        NFTFactoryError,
    >)
        ensures
            *final(self) == old(self).with_access(old(self).access.after_cancel(*current_admin)),
            r is Ok <==> old(self).access.admin == *current_admin,
            r matches Ok(ev) ==> ev.admin == *current_admin,
            r matches Err(e) ==> e == NFTFactoryError::NotAdmin,
    {
        match self.access.cancel_transfer(current_admin) {
            Ok(ev) => Ok(ev),
            Err(e) => Err(map_access_error(e)),
        }
    }
}

/// The deployment counter equals the number of recorded deployments.
pub proof fn lemma_nft_count_matches(f: &NFTFactory)
    requires
        f.wf(),
    ensures
        f.nfts.counter() as int == f.nfts.records().len(),
{
    f.nfts.lemma_counter_is_len();
}

/// While the factory is paused, every deployment is refused with
/// `ContractPaused` (and, by `complete_nft`, changes nothing).
pub proof fn lemma_nft_paused_refuses(f: &NFTFactory, c: NFTConfig)
    requires
        f.access.paused,
    ensures
        f.deploy_error(c) == Some(NFTFactoryError::ContractPaused),
{
}

} // verus!
