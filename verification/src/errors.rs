//! Typed rejections of the bridge engine.
//!
//! Every failed transition aborts with the first failing precondition and no
//! partial write; callers see exactly one of these kinds.

use vstd::prelude::*;

verus! {

/// Why a bridge transition was rejected.
#[derive(Clone, Copy, Debug, PartialEq, Eq, Structural)]
pub enum BridgeError {
    /// `initialize` was called while the bridge state already exists.
    AlreadyInitialized,
    /// Mint and burn transitions are rejected while the bridge is paused.
    BridgePaused,
    /// A mint referencing this source transaction hash already succeeded.
    AlreadyProcessed,
    /// Fewer distinct valid attestations than the bridge requires.
    InsufficientValidators,
    /// A burn of zero tokens.
    InvalidAmount,
    /// A malformed source-chain address.
    InvalidSourceAddress,
    /// An admin transition was invoked by someone other than the authority.
    Unauthorized,
    /// The external token ledger refused the mint or burn call.
    LedgerError,
}

} // verus!
