//! The guarantees the engine gives across transitions, stated and proved
//! over the same spec functions its contracts use.

use vstd::prelude::*;
use crate::engine::BridgeEngine;
use crate::errors::BridgeError;
use crate::logs::burn_nonces_increasing;
use crate::logs::log_contains_hash;
use crate::logs::sum_burned;
use crate::logs::sum_minted;
use crate::quorum::Attestation;
use crate::quorum::distinct_valid_count;

verus! {

/// At most one mint per source transaction hash. Once the processed log
/// holds `h`, no mint referencing `h` is ever accepted again, regardless of
/// the amount, attestations or recipient supplied; and whenever the bridge
/// is not paused, the rejection is exactly `AlreadyProcessed`. (While the
/// bridge is paused the earlier gate answers `BridgePaused` instead.)
pub proof fn lemma_mint_replay_rejected(
    e: BridgeEngine,
    h: Seq<u8>,
    atts: Seq<Attestation>,
    validators: Seq<[u8; 20]>,
)
    requires
        e.is_initialized(),
        log_contains_hash(e.processed@, h),
    ensures
        e.spec_mint_check(h, atts, validators) != Ok::<(), BridgeError>(()),
        !e.bridge().paused ==> e.spec_mint_check(h, atts, validators) == Err::<(), BridgeError>(
            BridgeError::AlreadyProcessed,
        ),
{
}

/// The accumulators are exactly the sums over the logs: after any sequence
/// of transitions, `total_minted` equals the sum of the amounts of all
/// successful mints, and `total_burned` the sum over all burn records.
pub proof fn lemma_totals_are_log_sums(e: BridgeEngine)
    requires
        e.wf(),
        e.is_initialized(),
    ensures
        e.bridge().total_minted as int == sum_minted(e.processed@),
        e.bridge().total_burned as int == sum_burned(e.burns@),
{
}

/// The nonce counts the successful transitions, one per mint or burn, so
/// each successful transition observes a fresh value; and the nonces
/// stamped on the burn records strictly increase in log order, so no two
/// burn records ever share one.
pub proof fn lemma_nonce_orders_transitions(e: BridgeEngine)
    requires
        e.wf(),
        e.is_initialized(),
    ensures
        e.bridge().nonce as int == e.processed@.len() + e.burns@.len(),
        burn_nonces_increasing(e.burns@),
        forall|i: int, j: int|
            0 <= i < e.burns@.len() && 0 <= j < e.burns@.len() && i != j ==> #[trigger] e.burns@[i].nonce
                != #[trigger] e.burns@[j].nonce,
{
    assert forall|i: int, j: int|
        0 <= i < e.burns@.len() && 0 <= j < e.burns@.len() && i != j implies #[trigger] e.burns@[i].nonce
        != #[trigger] e.burns@[j].nonce by {
        if i < j {
            assert(e.burns@[i].nonce < e.burns@[j].nonce);
        } else {
            assert(e.burns@[j].nonce < e.burns@[i].nonce);
        }
    }
}

/// While the bridge is paused, every mint and every burn decision is
/// `BridgePaused`, whatever the request holds.
pub proof fn lemma_paused_rejects_all(
    e: BridgeEngine,
    h: Seq<u8>,
    atts: Seq<Attestation>,
    validators: Seq<[u8; 20]>,
    amount: u64,
)
    requires
        e.is_initialized(),
        e.bridge().paused,
    ensures
        e.spec_mint_check(h, atts, validators) == Err::<(), BridgeError>(BridgeError::BridgePaused),
        e.spec_burn_check(amount) == Err::<(), BridgeError>(BridgeError::BridgePaused),
{
}

/// With the pause lifted, a mint is accepted exactly on its own merits: an
/// unprocessed hash with quorum met passes. A mint that was rejected while
/// paused left no record behind, so the same request succeeds once
/// resubmitted after `unpause_bridge`.
pub proof fn lemma_unpaused_mint_allowed(
    e: BridgeEngine,
    h: Seq<u8>,
    atts: Seq<Attestation>,
    validators: Seq<[u8; 20]>,
)
    requires
        e.is_initialized(),
        !e.bridge().paused,
        !log_contains_hash(e.processed@, h),
        distinct_valid_count(atts, validators) >= e.bridge().required_validators as nat,
    ensures
        e.spec_mint_check(h, atts, validators) == Ok::<(), BridgeError>(()),
{
}

/// A mint backed by fewer distinct valid attestations than the bridge
/// requires is rejected with `InsufficientValidators` whenever the earlier
/// gates pass; together with the quorum lemma on duplicates, padding a
/// request with repeats from one signer cannot lift it over the bar.
pub proof fn lemma_insufficient_attestations_rejected(
    e: BridgeEngine,
    h: Seq<u8>,
    atts: Seq<Attestation>,
    validators: Seq<[u8; 20]>,
)
    requires
        e.is_initialized(),
        !e.bridge().paused,
        !log_contains_hash(e.processed@, h),
        distinct_valid_count(atts, validators) < e.bridge().required_validators as nat,
    ensures
        e.spec_mint_check(h, atts, validators) == Err::<(), BridgeError>(
            BridgeError::InsufficientValidators,
        ),
{
}

} // verus!
