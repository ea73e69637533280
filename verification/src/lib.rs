//! Settlement core of a two-way token bridge.
//!
//! The destination chain mints wrapped tokens when a deposit is attested on
//! the source chain, and records burn events that a relayer later settles on
//! the source chain. This crate holds the replay-safe, quorum-gated
//! state-transition engine that decides whether a mint or burn may proceed
//! and durably records the decision so it can never be taken twice. The
//! token ledger itself (the host that actually mints and burns balances) is
//! an external collaborator: the host checks a transition, performs the
//! ledger call, and commits the transition only when the ledger call
//! succeeded.

pub mod bytes;
pub mod engine;
pub mod errors;
pub mod laws;
pub mod logs;
pub mod quorum;
