//! Factory engine: deploys and tracks instances of code templates on behalf of
//! callers, with admin gating, pausing, two-step admin transfer, configuration
//! validation, salt uniqueness, rate limiting and a reentrancy guard.
//!
//! The host environment supplies what the engine does not implement: proof
//! that a caller controls an address, durable storage, and the primitive that
//! instantiates a template at an address derived from a salt. A factory's
//! `prepare_*` (or, for the master factory, `begin_deploy`) method makes every
//! check and returns the `DeployRequest` to hand to that primitive; the
//! matching `complete_*` (or `finish_deploy` / `abort_deploy`) method commits
//! the bookkeeping only once the instance exists.
pub mod admin;
pub mod deploy;
pub mod governance_factory;
pub mod ids;
pub mod master_factory;
pub mod nft_factory;
pub mod registry;
pub mod token_factory;
