//! A cross-ledger atomic-swap coordination engine: an order book, the
//! hashed time-lock state machine, the timelock ladder, deterministic
//! escrow identities and settlement arithmetic, with the registries and
//! resolver bookkeeping that surround them.
pub mod primitives;
pub mod keyed_store;
pub mod settlement;
pub mod fusion_escrow;
pub mod escrow_resolver;
pub mod intent_escrow;
pub mod resolver_jobs;
pub mod relayer_coordinator;
