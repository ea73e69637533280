//! Durable records of decided transitions.
//!
//! A `ProcessedTransaction` is the dedup marker of a successful mint: its
//! existence for a source transaction hash is the authorization decision, so
//! at most one entry may ever be created per hash and an entry is never
//! updated or deleted. A `BurnTransaction` is an exit intent that an
//! off-chain relayer later settles on the source chain; it is stamped with
//! the bridge-wide nonce current at burn time, which orders all burn records
//! strictly.

use vstd::prelude::*;

verus! {

/// Dedup record of one successful mint, keyed by the 32-byte source-chain
/// transaction hash. Created exactly once, then immutable.
#[derive(Clone, Copy, Debug)]
pub struct ProcessedTransaction {
    /// Always true once the record exists: existence is the marker.
    pub is_processed: bool,
    /// The source transaction identity (duplicate of the key, for audit).
    pub ethereum_tx_hash: [u8; 32],
    /// Amount of wrapped tokens the mint created.
    pub amount: u64,
    /// Destination-chain account that received the tokens.
    pub recipient: [u8; 32],
    /// Host clock reading at commit time.
    pub timestamp: i64,
}

/// Record of one burn (exit intent), keyed by (user, nonce-at-burn-time).
/// Immutable but for `processed_on_ethereum`, which the external settlement
/// process flips once the source-chain release completes; this core only
/// exposes the field.
#[derive(Clone, Copy, Debug)]
pub struct BurnTransaction {
    /// Destination-chain account whose tokens were burned.
    pub user: [u8; 32],
    /// Amount of wrapped tokens burned.
    pub amount: u64,
    /// 20-byte source-chain address that the relayer must pay out to.
    pub ethereum_recipient: [u8; 20],
    /// Host clock reading at commit time.
    pub timestamp: i64,
    /// Bridge-wide nonce current when the burn committed; unique across all
    /// burn records.
    pub nonce: u64,
    /// False at creation; flipped later by the external settlement process.
    pub processed_on_ethereum: bool,
}

/// Whether the processed log holds an entry for the source transaction hash
/// `h`.
pub open spec fn log_contains_hash(log: Seq<ProcessedTransaction>, h: Seq<u8>) -> bool {
    exists|i: int| 0 <= i < log.len() && #[trigger] log[i].ethereum_tx_hash@ == h
}

/// Sum of the amounts of all recorded mints.
pub open spec fn sum_minted(log: Seq<ProcessedTransaction>) -> int
    decreases log.len(),
{
    if log.len() == 0 {
        0
    } else {
        sum_minted(log.drop_last()) + log.last().amount
    }
}

/// Sum of the amounts of all recorded burns.
pub open spec fn sum_burned(log: Seq<BurnTransaction>) -> int
    decreases log.len(),
{
    if log.len() == 0 {
        0
    } else {
        sum_burned(log.drop_last()) + log.last().amount
    }
}

/// The nonces stamped on the burn records are strictly increasing in log
/// order: no two burn records ever share a nonce.
pub open spec fn burn_nonces_increasing(log: Seq<BurnTransaction>) -> bool {
    forall|i: int, j: int|
        0 <= i < j < log.len() ==> #[trigger] log[i].nonce < #[trigger] log[j].nonce
}

/// Every nonce stamped on a burn record lies below `bound`.
pub open spec fn burn_nonces_below(log: Seq<BurnTransaction>, bound: u64) -> bool {
    forall|i: int| 0 <= i < log.len() ==> #[trigger] log[i].nonce < bound
}

} // verus!
