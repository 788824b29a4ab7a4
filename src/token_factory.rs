//! The token factory: deploys fungible-token instances of five kinds, each
//! keyed by a caller-chosen salt and validated against its kind's rules.
use vstd::prelude::*;
use crate::admin::{AccessError, AdminState};
pub use crate::admin::{
    AdminTransferCancelledEvent, AdminTransferInitiatedEvent, AdminTransferredEvent,
    ContractPausedEvent, ContractUnpausedEvent, ContractUpgradedEvent,
};
use crate::deploy::{ArgView, ConstructorArg, DeployRequest, copy_bytes, copy_opt_bytes, opt_bytes};
use crate::ids::{Address, BytesN32, lemma_address_eq};
use crate::registry::{HeldRecord, Record, Registry, held_by_addr, of_kind, views};

verus! {

/// Longest accepted token name, in bytes.
pub const MAX_NAME_LEN: usize = 30;

/// Longest accepted token symbol, in bytes.
pub const MAX_SYMBOL_LEN: usize = 12;

/// Largest accepted number of decimals.
pub const MAX_DECIMALS: u32 = 18;

/// Largest accepted supply or cap: half the largest `i128`, leaving headroom
/// against later overflow.
pub const MAX_SUPPLY: i128 = 85070591730234615865843651857942052863;

#[derive(Clone, Copy, Debug, PartialEq, Eq, Structural)]
pub enum TokenType {
    Allowlist,
    Blocklist,
    Capped,
    Pausable,
    Vault,
}

/// Why a token factory operation was refused.
#[derive(Clone, Copy, Debug, PartialEq, Eq, Structural)]
pub enum TokenFactoryError {
    NotAdmin,
    WasmNotSet,
    /// Reserved: every `TokenType` has a template slot, so the engine never reports it.
    InvalidTokenType,
    InvalidConfig,
    InvalidName,
    InvalidSymbol,
    InvalidDecimals,
    NegativeSupply,
    MissingCap,
    CapTooLow,
    UnexpectedCap,
    /// No admin is recorded. A factory made by `new` always has one; hosts
    /// report this when their storage holds none.
    AdminNotSet,
    CounterOverflow,
    /// Reserved: a name or symbol with a forbidden byte is reported as
    /// `InvalidName` or `InvalidSymbol`.
    InvalidCharacters,
    SupplyTooLarge,
    NoPendingAdmin,
    NotPendingAdmin,
    ContractPaused,
}

/// A request to deploy one token. `name` and `symbol` are byte strings.
/// `cap` is for capped tokens only; `asset` and `decimals_offset` for vault
/// tokens only.
#[derive(Clone, Debug, PartialEq, Eq)]
pub struct TokenConfig {
    pub token_type: TokenType,
    pub admin: Address,
    pub manager: Address,
    pub initial_supply: i128,
    pub cap: Option<i128>,
    pub name: Vec<u8>,
    pub symbol: Vec<u8>,
    pub decimals: u32,
    pub salt: BytesN32,
    pub asset: Option<Address>,
    pub decimals_offset: Option<u32>,
}

/// The registry entry of one deployed token.
#[derive(Clone, Debug, PartialEq, Eq)]
pub struct TokenInfo {
    pub address: Address,
    pub token_type: TokenType,
    pub admin: Address,
    pub timestamp: u64,
    pub name: Option<Vec<u8>>,
}

pub struct TokenInfoView {
    pub address: Address,
    pub token_type: TokenType,
    pub admin: Address,
    pub timestamp: u64,
    pub name: Option<Seq<u8>>,
}

impl View for TokenInfo {
    type V = TokenInfoView;

    open spec fn view(&self) -> TokenInfoView {
        TokenInfoView {
            address: self.address,
            token_type: self.token_type,
            admin: self.admin,
            timestamp: self.timestamp,
            name: opt_bytes(self.name),
        }
    }
}

impl Record for TokenInfo {
    type Kind = TokenType;

    open spec fn kind_of(v: TokenInfoView) -> TokenType {
        v.token_type
    }

    fn duplicate(&self) -> (r: TokenInfo) {
        TokenInfo {
            address: self.address,
            token_type: self.token_type,
            admin: self.admin,
            timestamp: self.timestamp,
            name: copy_opt_bytes(&self.name),
        }
    }

    fn has_kind(&self, k: &TokenType) -> (r: bool) {
        self.token_type == *k
    }
}

impl HeldRecord for TokenInfo {
    open spec fn holder_of(v: TokenInfoView) -> Address {
        v.admin
    }

    fn held_by(&self, a: &Address) -> (r: bool) {
        proof {
            lemma_address_eq(self.admin, *a);
        }
        self.admin == *a
    }
}

#[derive(Clone, Debug, PartialEq, Eq)]
pub struct TokenDeployedEvent {
    pub token_address: Address,
    pub token_type: TokenType,
    pub deployer: Address,
    pub name: Vec<u8>,
    pub symbol: Vec<u8>,
    pub timestamp: u64,
}

#[derive(Clone, Copy, Debug, PartialEq, Eq)]
pub struct WasmUpdatedEvent {
    pub token_type: TokenType,
    pub wasm_hash: BytesN32,
}

/// A byte that may stand in a name or symbol: anything but a control byte,
/// except tab, newline and carriage return.
pub open spec fn byte_allowed(b: u8) -> bool {
    b >= 32 || b == 9 || b == 10 || b == 13
}

pub open spec fn text_allowed(s: Seq<u8>) -> bool {
    forall|i: int| 0 <= i < s.len() ==> byte_allowed(#[trigger] s[i])
}

/// The rules that depend on the token's kind: which optional fields must and
/// must not be present, and the cap's bounds.
pub open spec fn kind_error(c: TokenConfig) -> Option<TokenFactoryError> {
    match c.token_type {
        TokenType::Capped => match c.cap {
            None => Some(TokenFactoryError::MissingCap),
            Some(cap) => if c.initial_supply > cap {
                Some(TokenFactoryError::CapTooLow)
            } else if cap > MAX_SUPPLY {
                Some(TokenFactoryError::SupplyTooLarge)
            } else if c.asset is Some || c.decimals_offset is Some {
                Some(TokenFactoryError::InvalidConfig)
            } else {
                None
            },
        },
        TokenType::Vault => if c.asset is None || c.decimals_offset is None {
            Some(TokenFactoryError::InvalidConfig)
        } else if c.cap is Some {
            Some(TokenFactoryError::UnexpectedCap)
        } else {
            None
        },
        _ => if c.cap is Some {
            Some(TokenFactoryError::UnexpectedCap)
        } else if c.asset is Some || c.decimals_offset is Some {
            Some(TokenFactoryError::InvalidConfig)
        } else {
            None
        },
    }
}

/// The rules common to every kind: name, symbol, decimals and supply.
pub open spec fn common_error(c: TokenConfig) -> Option<TokenFactoryError> {
    if c.name@.len() == 0 || c.name@.len() > MAX_NAME_LEN {
        Some(TokenFactoryError::InvalidName)
    } else if c.symbol@.len() == 0 || c.symbol@.len() > MAX_SYMBOL_LEN {
        Some(TokenFactoryError::InvalidSymbol)
    } else if !text_allowed(c.name@) {
        Some(TokenFactoryError::InvalidName)
    } else if !text_allowed(c.symbol@) {
        Some(TokenFactoryError::InvalidSymbol)
    } else if c.decimals > MAX_DECIMALS {
        Some(TokenFactoryError::InvalidDecimals)
    } else if c.initial_supply < 0 {
        Some(TokenFactoryError::NegativeSupply)
    } else if c.initial_supply > MAX_SUPPLY {
        Some(TokenFactoryError::SupplyTooLarge)
    } else {
        None
    }
}

/// The first rule that `c` breaks, in the order the rules are checked, or
/// `None` when `c` is valid.
pub open spec fn config_error(c: TokenConfig) -> Option<TokenFactoryError> {
    if common_error(c) is Some {
        common_error(c)
    } else {
        kind_error(c)
    }
}

/// The constructor arguments of a valid configuration.
pub open spec fn token_args(c: TokenConfig) -> Seq<ArgView> {
    match c.token_type {
        TokenType::Capped => seq![
            ArgView::Address(c.admin),
            ArgView::Address(c.manager),
            ArgView::I128(c.initial_supply),
            ArgView::I128(c.cap->Some_0),
            ArgView::Text(c.name@),
            ArgView::Text(c.symbol@),
            ArgView::U32(c.decimals),
        ],
        TokenType::Vault => seq![
            ArgView::Address(c.asset->Some_0),
            ArgView::U32(c.decimals_offset->Some_0),
        ],
        _ => seq![
            ArgView::Address(c.admin),
            ArgView::Address(c.manager),
            ArgView::I128(c.initial_supply),
            ArgView::Text(c.name@),
            ArgView::Text(c.symbol@),
            ArgView::U32(c.decimals),
        ],
    }
}

pub open spec fn access_error(e: AccessError) -> TokenFactoryError {
    match e {
        AccessError::NotAdmin => TokenFactoryError::NotAdmin,
        AccessError::NoPendingAdmin => TokenFactoryError::NoPendingAdmin,
        AccessError::NotPendingAdmin => TokenFactoryError::NotPendingAdmin,
    }
}

fn map_access_error(e: AccessError) -> (r: TokenFactoryError)
    ensures
        r == access_error(e),
{
    match e {
        AccessError::NotAdmin => TokenFactoryError::NotAdmin,
        AccessError::NoPendingAdmin => TokenFactoryError::NoPendingAdmin,
        AccessError::NotPendingAdmin => TokenFactoryError::NotPendingAdmin,
    }
}

/// Whether every byte of `s` is allowed in a name or symbol.
pub fn validate_string_chars(s: &Vec<u8>) -> (r: bool)
    ensures
        r == text_allowed(s@),
{
    let mut i: usize = 0;
    while i < s.len()
        invariant
            0 <= i <= s@.len(),
            forall|j: int| 0 <= j < i ==> byte_allowed(#[trigger] s@[j]),
        decreases s@.len() - i,
    {
        let b = s[i];
        if b == 0 || (b < 32 && b != 9 && b != 10 && b != 13) {
            assert(!byte_allowed(s@[i as int]));
            return false;
        }
        i = i + 1;
    }
    true
}

/// Checks `config` against the rules of its kind; reports the first rule broken.
pub fn validate_config(config: &TokenConfig) -> (r: Result<(), TokenFactoryError>)
    ensures
        r is Ok <==> config_error(*config) is None,
        r matches Err(e) ==> config_error(*config) == Some(e),
{
    if config.name.len() == 0 || config.name.len() > MAX_NAME_LEN {
        return Err(TokenFactoryError::InvalidName);
    }
    if config.symbol.len() == 0 || config.symbol.len() > MAX_SYMBOL_LEN {
        return Err(TokenFactoryError::InvalidSymbol);
    }
    if !validate_string_chars(&config.name) {
        return Err(TokenFactoryError::InvalidName);
    }
    if !validate_string_chars(&config.symbol) {
        return Err(TokenFactoryError::InvalidSymbol);
    }
    if config.decimals > MAX_DECIMALS {
        return Err(TokenFactoryError::InvalidDecimals);
    }
    if config.initial_supply < 0 {
        return Err(TokenFactoryError::NegativeSupply);
    }
    if config.initial_supply > MAX_SUPPLY {
        return Err(TokenFactoryError::SupplyTooLarge);
    }
    match config.token_type {
        TokenType::Capped => match config.cap {
            None => Err(TokenFactoryError::MissingCap),
            Some(cap) => {
                if config.initial_supply > cap {
                    Err(TokenFactoryError::CapTooLow)
                } else if cap > MAX_SUPPLY {
                    Err(TokenFactoryError::SupplyTooLarge)
                } else if config.asset.is_some() || config.decimals_offset.is_some() {
                    Err(TokenFactoryError::InvalidConfig)
                } else {
                    Ok(())
                }
            },
        },
        TokenType::Vault => {
            if config.asset.is_none() || config.decimals_offset.is_none() {
                Err(TokenFactoryError::InvalidConfig)
            } else if config.cap.is_some() {
                Err(TokenFactoryError::UnexpectedCap)
            } else {
                Ok(())
            }
        },
        _ => {
            if config.cap.is_some() {
                Err(TokenFactoryError::UnexpectedCap)
            } else if config.asset.is_some() || config.decimals_offset.is_some() {
                Err(TokenFactoryError::InvalidConfig)
            } else {
                Ok(())
            }
        },
    }
}


/// The token factory's state: admin lifecycle, one code template per kind,
/// and the registry of deployed tokens.
pub struct TokenFactory {
    pub access: AdminState,
    pub allowlist_wasm: Option<BytesN32>,
    pub blocklist_wasm: Option<BytesN32>,
    pub capped_wasm: Option<BytesN32>,
    pub pausable_wasm: Option<BytesN32>,
    pub vault_wasm: Option<BytesN32>,
    pub tokens: Registry<TokenInfo>,
}

/// The registry entry recorded for a token deployed from `c` at `address`.
pub open spec fn token_info(c: TokenConfig, address: Address, timestamp: u64) -> TokenInfoView {
    TokenInfoView {
        address,
        token_type: c.token_type,
        admin: c.admin,
        timestamp,
        name: Some(c.name@),
    }
}

impl TokenFactory {
    pub open spec fn wf(&self) -> bool {
        self.tokens.wf()
    }

    /// The code template registered for kind `k`.
    pub open spec fn template(&self, k: TokenType) -> Option<BytesN32> {
        match k {
            TokenType::Allowlist => self.allowlist_wasm,
            TokenType::Blocklist => self.blocklist_wasm,
            TokenType::Capped => self.capped_wasm,
            TokenType::Pausable => self.pausable_wasm,
            TokenType::Vault => self.vault_wasm,
        }
    }

    pub open spec fn with_access(self, a: AdminState) -> TokenFactory {
        TokenFactory { access: a, ..self }
    }

    /// Why deploying `c` is refused now, checked in order: the pause flag,
    /// the template for the kind, then the configuration rules.
    pub open spec fn deploy_error(&self, c: TokenConfig) -> Option<TokenFactoryError> {
        if self.access.paused {
            Some(TokenFactoryError::ContractPaused)
        } else if self.template(c.token_type) is None {
            Some(TokenFactoryError::WasmNotSet)
        } else {
            config_error(c)
        }
    }

    pub fn new(admin: Address) -> (r: TokenFactory)
        ensures
            r.wf(),
            r.access.admin == admin,
            r.access.pending_admin is None,
            !r.access.paused,
            r.tokens.records().len() == 0,
            r.tokens.counter() == 0,
            forall|k: TokenType| r.template(k) is None,
    {
        TokenFactory {
            access: AdminState::new(admin),
            allowlist_wasm: None,
            blocklist_wasm: None,
            capped_wasm: None,
            pausable_wasm: None,
            vault_wasm: None,
            tokens: Registry::new(),
        }
    }

    fn get_wasm_for_type(&self, k: TokenType) -> (r: Option<BytesN32>)
        ensures
            r == self.template(k),
    {
        match k {
            TokenType::Allowlist => self.allowlist_wasm,
            TokenType::Blocklist => self.blocklist_wasm,
            TokenType::Capped => self.capped_wasm,
            TokenType::Pausable => self.pausable_wasm,
            TokenType::Vault => self.vault_wasm,
        }
    }

    /// Registers (or replaces) the code template of kind `k`. Admin only.
    pub fn set_wasm(&mut self, admin: &Address, k: TokenType, wasm_hash: BytesN32) -> (r: Result<
        WasmUpdatedEvent,
        TokenFactoryError,
    >)
        ensures
            r is Ok <==> old(self).access.admin == *admin,
            r matches Err(e) ==> e == TokenFactoryError::NotAdmin && *final(self) == *old(self),
            r matches Ok(ev) ==> ev == (WasmUpdatedEvent { token_type: k, wasm_hash })
                && final(self).template(k) == Some(wasm_hash)
                && (forall|j: TokenType| j != k ==> final(self).template(j) == old(self).template(j))
                && final(self).access == old(self).access
                && final(self).tokens == old(self).tokens,
    {
        if let Err(e) = self.access.require_admin(admin) {
            return Err(map_access_error(e));
        }
        match k {
            TokenType::Allowlist => self.allowlist_wasm = Some(wasm_hash),
            TokenType::Blocklist => self.blocklist_wasm = Some(wasm_hash),
            TokenType::Capped => self.capped_wasm = Some(wasm_hash),
            TokenType::Pausable => self.pausable_wasm = Some(wasm_hash),
            TokenType::Vault => self.vault_wasm = Some(wasm_hash),
        }
        Ok(WasmUpdatedEvent { token_type: k, wasm_hash })
    }

    pub fn set_allowlist_wasm(&mut self, admin: &Address, wasm_hash: BytesN32) -> (r: Result<
        WasmUpdatedEvent,
        TokenFactoryError,
    >)
        ensures
            r is Ok <==> old(self).access.admin == *admin,
            r is Err ==> *final(self) == *old(self),
            r is Ok ==> final(self).template(TokenType::Allowlist) == Some(wasm_hash),
    {
        self.set_wasm(admin, TokenType::Allowlist, wasm_hash)
    }

    pub fn set_blocklist_wasm(&mut self, admin: &Address, wasm_hash: BytesN32) -> (r: Result<
        WasmUpdatedEvent,
        TokenFactoryError,
    >)
        ensures
            r is Ok <==> old(self).access.admin == *admin,
            r is Err ==> *final(self) == *old(self),
            r is Ok ==> final(self).template(TokenType::Blocklist) == Some(wasm_hash),
    {
        self.set_wasm(admin, TokenType::Blocklist, wasm_hash)
    }

    pub fn set_capped_wasm(&mut self, admin: &Address, wasm_hash: BytesN32) -> (r: Result<
        WasmUpdatedEvent,
        TokenFactoryError,
    >)
        ensures
            r is Ok <==> old(self).access.admin == *admin,
            r is Err ==> *final(self) == *old(self),
            r is Ok ==> final(self).template(TokenType::Capped) == Some(wasm_hash),
    {
        self.set_wasm(admin, TokenType::Capped, wasm_hash)
    }

    pub fn set_pausable_wasm(&mut self, admin: &Address, wasm_hash: BytesN32) -> (r: Result<
        WasmUpdatedEvent,
        TokenFactoryError,
    >)
        ensures
            r is Ok <==> old(self).access.admin == *admin,
            r is Err ==> *final(self) == *old(self),
            r is Ok ==> final(self).template(TokenType::Pausable) == Some(wasm_hash),
    {
        self.set_wasm(admin, TokenType::Pausable, wasm_hash)
    }

    pub fn set_vault_wasm(&mut self, admin: &Address, wasm_hash: BytesN32) -> (r: Result<
        WasmUpdatedEvent,
        TokenFactoryError,
    >)
        ensures
            r is Ok <==> old(self).access.admin == *admin,
            r is Err ==> *final(self) == *old(self),
            r is Ok ==> final(self).template(TokenType::Vault) == Some(wasm_hash),
    {
        self.set_wasm(admin, TokenType::Vault, wasm_hash)
    }

    /// The checks that come before instantiation, with no effect on the
    /// factory: on success, what to hand to the host's instantiation
    /// primitive for `config`.
    pub fn prepare_token(&self, config: &TokenConfig) -> (r: Result<DeployRequest, TokenFactoryError>)
        ensures
            r is Ok <==> self.deploy_error(*config) is None,
            r matches Err(e) ==> self.deploy_error(*config) == Some(e),
            r matches Ok(req) ==> Some(req.wasm_hash) == self.template(config.token_type)
                && req.salt == config.salt && req.arg_views() == token_args(*config),
    {
        if self.access.paused {
            return Err(TokenFactoryError::ContractPaused);
        }
        let wasm_hash = match self.get_wasm_for_type(config.token_type) {
            Some(h) => h,
            None => {
                return Err(TokenFactoryError::WasmNotSet);
            },
        };
        if let Err(e) = validate_config(config) {
            return Err(e);
        }
        let mut args: Vec<ConstructorArg> = Vec::new();
        match config.token_type {
            TokenType::Capped => {
                let cap = match config.cap {
                    Some(c) => c,
                    None => {
                        return Err(TokenFactoryError::MissingCap);
                    },
                };
                args.push(ConstructorArg::Address(config.admin));
                args.push(ConstructorArg::Address(config.manager));
                args.push(ConstructorArg::I128(config.initial_supply));
                args.push(ConstructorArg::I128(cap));
                args.push(ConstructorArg::Text(copy_bytes(&config.name)));
                args.push(ConstructorArg::Text(copy_bytes(&config.symbol)));
                args.push(ConstructorArg::U32(config.decimals));
            },
            TokenType::Vault => {
                let (asset, offset) = match (config.asset, config.decimals_offset) {
                    (Some(a), Some(o)) => (a, o),
                    _ => {
                        return Err(TokenFactoryError::InvalidConfig);
                    },
                };
                args.push(ConstructorArg::Address(asset));
                args.push(ConstructorArg::U32(offset));
            },
            _ => {
                args.push(ConstructorArg::Address(config.admin));
                args.push(ConstructorArg::Address(config.manager));
                args.push(ConstructorArg::I128(config.initial_supply));
                args.push(ConstructorArg::Text(copy_bytes(&config.name)));
                args.push(ConstructorArg::Text(copy_bytes(&config.symbol)));
                args.push(ConstructorArg::U32(config.decimals));
            },
        }
        let req = DeployRequest { wasm_hash, salt: config.salt, args };
        assert(req.arg_views() =~= token_args(*config));
        Ok(req)
    }

    /// Records a token that the host instantiated at `address` from
    /// `config`. The checks of `prepare_token` are made again; when one
    /// fails, or the counter is at its largest value, nothing changes.
    pub fn complete_token(
        &mut self,
        deployer: &Address,
        config: &TokenConfig,
        address: Address,
        timestamp: u64,
    ) -> (r: Result<TokenDeployedEvent, TokenFactoryError>)
        requires
            old(self).wf(),
        ensures
            final(self).wf(),
            old(self).deploy_error(*config) matches Some(e) ==> r == Err::<
                TokenDeployedEvent,
                TokenFactoryError,
            >(e),
            old(self).deploy_error(*config) is None && old(self).tokens.counter() == u32::MAX ==> r
                == Err::<TokenDeployedEvent, TokenFactoryError>(
                TokenFactoryError::CounterOverflow,
            ),
            r is Err ==> *final(self) == *old(self),
            r is Ok <==> old(self).deploy_error(*config) is None && old(self).tokens.counter()
                < u32::MAX,
            r is Ok ==> final(self).tokens.records() == old(self).tokens.records().push(
                token_info(*config, address, timestamp),
            ) && final(self).tokens.counter() == old(self).tokens.counter() + 1
                && final(self).access == old(self).access
                && (forall|k: TokenType| final(self).template(k) == old(self).template(k)),
            r matches Ok(ev) ==> ev.token_address == address && ev.token_type == config.token_type
                && ev.deployer == *deployer && ev.name@ == config.name@ && ev.symbol@
                == config.symbol@ && ev.timestamp == timestamp,
    {
        if let Err(e) = self.prepare_token(config) {
            return Err(e);
        }
        if !self.tokens.has_room() {
            return Err(TokenFactoryError::CounterOverflow);
        }
        let info = TokenInfo {
            address,
            token_type: config.token_type,
            admin: config.admin,
            timestamp,
            name: Some(copy_bytes(&config.name)),
        };
        match self.tokens.record(info) {
            Ok(()) => {},
            Err(_) => {
                return Err(TokenFactoryError::CounterOverflow);
            },
        }
        Ok(
            TokenDeployedEvent {
                token_address: address,
                token_type: config.token_type,
                deployer: *deployer,
                name: copy_bytes(&config.name),
                symbol: copy_bytes(&config.symbol),
                timestamp,
            },
        )
    }

    /// Every deployed token, in deployment order.
    pub fn get_deployed_tokens(&self) -> (r: Vec<TokenInfo>)
        ensures
            views(r@) == self.tokens.records(),
    {
        self.tokens.all()
    }

    /// The deployed tokens of kind `token_type`, in deployment order.
    pub fn get_tokens_by_type(&self, token_type: TokenType) -> (r: Vec<TokenInfo>)
        ensures
            views(r@) == of_kind::<TokenInfo>(self.tokens.records(), token_type),
    {
        self.tokens.by_kind(&token_type)
    }

    /// The deployed tokens administered by `admin`, in deployment order.
    pub fn get_tokens_by_admin(&self, admin: &Address) -> (r: Vec<TokenInfo>)
        ensures
            views(r@) == held_by_addr::<TokenInfo>(self.tokens.records(), *admin),
    {
        self.tokens.by_holder(admin)
    }

    /// The deployment counter.
    pub fn get_token_count(&self) -> (r: u32)
        requires
            self.wf(),
        ensures
            r == self.tokens.counter(),
            r as int == self.tokens.records().len(),
    {
        self.tokens.count()
    }

    pub fn get_admin(&self) -> (r: Address)
        ensures
            r == self.access.admin,
    {
        self.access.admin
    }

    pub fn get_pending_admin(&self) -> (r: Option<Address>)
        ensures
            r == self.access.pending_admin,
    {
        self.access.pending_admin
    }

    pub fn pause(&mut self, admin: &Address) -> (r: Result<ContractPausedEvent, TokenFactoryError>)
        ensures
            *final(self) == old(self).with_access(old(self).access.after_pause(*admin)),
            r is Ok <==> old(self).access.admin == *admin,
            r matches Ok(ev) ==> ev.admin == *admin,
            r matches Err(e) ==> e == TokenFactoryError::NotAdmin,
    {
        match self.access.pause(admin) {
            Ok(ev) => Ok(ev),
            Err(e) => Err(map_access_error(e)),
        }
    }

    pub fn unpause(&mut self, admin: &Address) -> (r: Result<ContractUnpausedEvent, TokenFactoryError>)
        ensures
            *final(self) == old(self).with_access(old(self).access.after_unpause(*admin)),
            r is Ok <==> old(self).access.admin == *admin,
            r matches Ok(ev) ==> ev.admin == *admin,
            r matches Err(e) ==> e == TokenFactoryError::NotAdmin,
    {
        match self.access.unpause(admin) {
            Ok(ev) => Ok(ev),
            Err(e) => Err(map_access_error(e)),
        }
    }

    /// Records a switch of the factory's own code to `new_wasm_hash`, which
    /// the stored admin must have authorized, and pauses the factory.
    pub fn upgrade(&mut self, new_wasm_hash: BytesN32) -> (r: ContractUpgradedEvent)
        ensures
            *final(self) == old(self).with_access(old(self).access.with_paused(true)),
            r.new_wasm_hash == new_wasm_hash,
    {
        self.access.upgrade(new_wasm_hash)
    }

    pub fn initiate_admin_transfer(&mut self, current_admin: &Address, new_admin: Address) -> (r:
        Result<AdminTransferInitiatedEvent, TokenFactoryError>)
        ensures
            *final(self) == old(self).with_access(
                old(self).access.after_initiate(*current_admin, new_admin),
            ),
            r is Ok <==> old(self).access.admin == *current_admin,
            r matches Ok(ev) ==> ev.new_admin == new_admin,
            r matches Err(e) ==> e == TokenFactoryError::NotAdmin,
    {
        match self.access.initiate_transfer(current_admin, new_admin) {
            Ok(ev) => Ok(ev),
            Err(e) => Err(map_access_error(e)),
        }
    }

    pub fn accept_admin_transfer(&mut self, new_admin: &Address) -> (r: Result<
        AdminTransferredEvent,
        TokenFactoryError,
    >)
        ensures
            *final(self) == old(self).with_access(old(self).access.after_accept(*new_admin)),
            r is Ok <==> old(self).access.accept_error(*new_admin) is None,
            r matches Ok(ev) ==> ev.new_admin == *new_admin,
            r matches Err(e) ==> old(self).access.accept_error(*new_admin) matches Some(a) && e
                == access_error(a),
    {
        match self.access.accept_transfer(new_admin) {
            Ok(ev) => Ok(ev),
            Err(e) => Err(map_access_error(e)),
        }
    }

    pub fn cancel_admin_transfer(&mut self, current_admin: &Address) -> (r: Result<
        AdminTransferCancelledEvent,
        TokenFactoryError,
    >)
        ensures
            *final(self) == old(self).with_access(old(self).access.after_cancel(*current_admin)),
            r is Ok <==> old(self).access.admin == *current_admin,
            r matches Ok(ev) ==> ev.admin == *current_admin,
            r matches Err(e) ==> e == TokenFactoryError::NotAdmin,
    {
        match self.access.cancel_transfer(current_admin) {
            Ok(ev) => Ok(ev),
            Err(e) => Err(map_access_error(e)),
        }
    }
}


/// The deployment counter equals the number of recorded deployments. Every
/// operation keeps the factory well formed, so this holds after any sequence
/// of deployments.
pub proof fn lemma_token_count_matches(f: &TokenFactory)
    requires
        f.wf(),
    ensures
        f.tokens.counter() as int == f.tokens.records().len(),
{
    f.tokens.lemma_counter_is_len();
}

/// A capped-kind configuration without a cap is always refused before
/// instantiation; when it breaks no common rule, the refusal is `MissingCap`.
/// A cap below the initial supply is refused too, with `CapTooLow` when no
/// common rule is broken.
pub proof fn lemma_capped_validation(f: &TokenFactory, c: TokenConfig)
    requires
        c.token_type == TokenType::Capped,
    ensures
        c.cap is None ==> f.deploy_error(c) is Some,
        c.cap is None && common_error(c) is None ==> config_error(c) == Some(
            TokenFactoryError::MissingCap,
        ),
        c.cap matches Some(cap) && c.initial_supply > cap ==> f.deploy_error(c) is Some,
        c.cap matches Some(cap) && c.initial_supply > cap && common_error(c) is None
            ==> config_error(c) == Some(TokenFactoryError::CapTooLow),
{
}

/// While the factory is paused, every deployment is refused with
/// `ContractPaused` (and, by `complete_token`, changes nothing).
pub proof fn lemma_token_paused_refuses(f: &TokenFactory, c: TokenConfig)
    requires
        f.access.paused,
    ensures
        f.deploy_error(c) == Some(TokenFactoryError::ContractPaused),
{
}

} // verus!
