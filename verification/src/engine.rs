//! The bridge's state-transition engine.
//!
//! `BridgeEngine` owns the global counters (`BridgeState`) and the two
//! durable logs, and decides the four transitions: initialize, mint, burn
//! and admin control. Each transition is atomic: it either commits all of
//! its writes or rejects with the first failing precondition and leaves the
//! engine untouched.
//!
//! The token ledger is an external collaborator. The host first asks the
//! engine whether a transition may proceed (`check_mint`, `check_burn`),
//! then performs the ledger call, and commits the transition
//! (`mint_wrapped`, `burn_wrapped`) only when the ledger call succeeded; a
//! failed ledger call leaves the engine unchanged, so a legitimate deposit
//! never becomes unmintable.

use vstd::prelude::*;
use crate::bytes::bytes_eq;
use crate::errors::BridgeError;
use crate::logs::BurnTransaction;
use crate::logs::ProcessedTransaction;
use crate::logs::burn_nonces_below;
use crate::logs::burn_nonces_increasing;
use crate::logs::log_contains_hash;
use crate::logs::sum_burned;
use crate::logs::sum_minted;
use crate::quorum::Attestation;
use crate::quorum::distinct_valid_count;
use crate::quorum::evaluate_quorum;

verus! {

/// Global counters and configuration of one deployed bridge instance.
#[derive(Clone, Copy, Debug)]
pub struct BridgeState {
    /// 20-byte identifier of the counterpart contract on the source chain.
    pub ethereum_bridge: [u8; 20],
    /// Minimum number of distinct valid attestations a mint needs.
    pub required_validators: u8,
    /// Total wrapped tokens ever minted; only increases.
    pub total_minted: u64,
    /// Total wrapped tokens ever burned; only increases.
    pub total_burned: u64,
    /// Transition counter, incremented once per successful mint or burn.
    pub nonce: u64,
    /// Identity permitted to perform admin actions.
    pub authority: [u8; 32],
    /// While true, mint and burn transitions are rejected.
    pub paused: bool,
}

/// The settlement core: the bridge state singleton plus the two logs. The
/// engine is the sole creator of log entries and the sole mutator of the
/// counters.
pub struct BridgeEngine {
    /// `None` until `initialize` has run.
    pub state: Option<BridgeState>,
    /// Dedup log of successful mints, append-only.
    pub processed: Vec<ProcessedTransaction>,
    /// Log of burn intents, append-only.
    pub burns: Vec<BurnTransaction>,
}

impl BridgeEngine {
    /// Whether the bridge state singleton exists.
    pub open spec fn is_initialized(self) -> bool {
        self.state is Some
    }

    /// The bridge state singleton.
    pub open spec fn bridge(self) -> BridgeState
        recommends
            self.is_initialized(),
    {
        self.state->Some_0
    }

    /// The engine's invariant: the accumulators equal the sums over their
    /// logs, the nonce counts the successful transitions, and the burn
    /// records carry strictly increasing nonces below the counter.
    pub open spec fn wf(self) -> bool {
        match self.state {
            Option::None => self.processed@.len() == 0 && self.burns@.len() == 0,
            Option::Some(s) => {
                &&& s.total_minted as int == sum_minted(self.processed@)
                &&& s.total_burned as int == sum_burned(self.burns@)
                &&& s.nonce as int == self.processed@.len() + self.burns@.len()
                &&& burn_nonces_increasing(self.burns@)
                &&& burn_nonces_below(self.burns@, s.nonce)
            },
        }
    }

    /// The mint decision: the first failing gate, or acceptance. Pausing is
    /// checked first, then replay protection, then quorum.
    pub open spec fn spec_mint_check(
        self,
        h: Seq<u8>,
        atts: Seq<Attestation>,
        validators: Seq<[u8; 20]>,
    ) -> Result<(), BridgeError>
        recommends
            self.is_initialized(),
    {
        let s = self.state->Some_0;
        if s.paused {
            Err(BridgeError::BridgePaused)
        } else if log_contains_hash(self.processed@, h) {
            Err(BridgeError::AlreadyProcessed)
        } else if distinct_valid_count(atts, validators) < s.required_validators as nat {
            Err(BridgeError::InsufficientValidators)
        } else {
            Ok(())
        }
    }

    /// The burn decision: pausing is checked first, then the amount.
    pub open spec fn spec_burn_check(self, amount: u64) -> Result<(), BridgeError>
        recommends
            self.is_initialized(),
    {
        let s = self.state->Some_0;
        if s.paused {
            Err(BridgeError::BridgePaused)
        } else if amount == 0 {
            Err(BridgeError::InvalidAmount)
        } else {
            Ok(())
        }
    }

    /// An engine with no bridge state and empty logs, ready for
    /// `initialize`.
    pub fn new() -> (e: BridgeEngine)
        ensures
            e.wf(),
            !e.is_initialized(),
            e.processed@.len() == 0,
            e.burns@.len() == 0,
    {
        BridgeEngine { state: None, processed: Vec::new(), burns: Vec::new() }
    }

    /// Creates the bridge state singleton with all counters at zero and the
    /// caller as authority. Rejects with `AlreadyInitialized` if the
    /// singleton already exists; no other state is touched either way.
    pub fn initialize(
        &mut self,
        ethereum_bridge: [u8; 20],
        required_validators: u8,
        authority: [u8; 32],
    ) -> (r: Result<(), BridgeError>)
        requires
            old(self).wf(),
        ensures
            final(self).wf(),
            old(self).is_initialized() ==> r == Err::<(), BridgeError>(
                BridgeError::AlreadyInitialized,
            ) && *final(self) == *old(self),
            !old(self).is_initialized() ==> {
                &&& r == Ok::<(), BridgeError>(())
                &&& final(self).is_initialized()
                &&& final(self).bridge() == (BridgeState {
                    ethereum_bridge,
                    required_validators,
                    total_minted: 0,
                    total_burned: 0,
                    nonce: 0,
                    authority,
                    paused: false,
                })
                &&& final(self).processed@ == old(self).processed@
                &&& final(self).burns@ == old(self).burns@
            },
    {
        if self.state.is_some() {
            return Err(BridgeError::AlreadyInitialized);
        }
        self.state = Some(
            BridgeState {
                ethereum_bridge,
                required_validators,
                total_minted: 0,
                total_burned: 0,
                nonce: 0,
                authority,
                paused: false,
            },
        );
        Ok(())
    }

    /// Whether a mint referencing this source transaction hash already
    /// succeeded.
    pub fn is_processed(&self, ethereum_tx_hash: &[u8; 32]) -> (r: bool)
        ensures
            r == log_contains_hash(self.processed@, ethereum_tx_hash@),
    {
        let mut i: usize = 0;
        while i < self.processed.len()
            invariant
                0 <= i <= self.processed@.len(),
                forall|k: int|
                    0 <= k < i ==> #[trigger] self.processed@[k].ethereum_tx_hash@
                        != ethereum_tx_hash@,
            decreases self.processed@.len() - i,
        {
            if bytes_eq(&self.processed[i].ethereum_tx_hash, ethereum_tx_hash) {
                assert(self.processed@[i as int].ethereum_tx_hash@ == ethereum_tx_hash@);
                return true;
            }
            i = i + 1;
        }
        false
    }

    /// The mint decision for a request, without committing anything. The
    /// host performs the ledger mint only after this accepts, and then
    /// commits with `mint_wrapped`.
    pub fn check_mint(
        &self,
        ethereum_tx_hash: &[u8; 32],
        validators_signatures: &Vec<Attestation>,
        known_validators: &Vec<[u8; 20]>,
    ) -> (r: Result<(), BridgeError>)
        requires
            self.is_initialized(),
        ensures
            r == self.spec_mint_check(
                ethereum_tx_hash@,
                validators_signatures@,
                known_validators@,
            ),
    {
        let s = self.state.unwrap();
        if s.paused {
            return Err(BridgeError::BridgePaused);
        }
        if self.is_processed(ethereum_tx_hash) {
            return Err(BridgeError::AlreadyProcessed);
        }
        if !evaluate_quorum(validators_signatures, s.required_validators, known_validators) {
            return Err(BridgeError::InsufficientValidators);
        }
        Ok(())
    }

    /// Commits a mint: runs the same gates as `check_mint` and, on
    /// acceptance, records the dedup entry and updates the counters, all
    /// together. On rejection nothing changes. Replay protection is
    /// durable: every hash already recorded stays recorded.
    pub fn mint_wrapped(
        &mut self,
        amount: u64,
        ethereum_tx_hash: [u8; 32],
        validators_signatures: &Vec<Attestation>,
        known_validators: &Vec<[u8; 20]>,
        recipient: [u8; 32],
        timestamp: i64,
    ) -> (r: Result<(), BridgeError>)
        requires
            old(self).wf(),
            old(self).is_initialized(),
            old(self).bridge().total_minted + amount <= u64::MAX,
            old(self).bridge().nonce < u64::MAX,
        ensures
            final(self).wf(),
            r == old(self).spec_mint_check(
                ethereum_tx_hash@,
                validators_signatures@,
                known_validators@,
            ),
            r is Err ==> *final(self) == *old(self),
            r is Ok ==> {
                &&& final(self).is_initialized()
                &&& final(self).processed@ == old(self).processed@.push(
                    (ProcessedTransaction {
                        is_processed: true,
                        ethereum_tx_hash,
                        amount,
                        recipient,
                        timestamp,
                    }),
                )
                &&& final(self).burns@ == old(self).burns@
                &&& final(self).bridge() == (BridgeState {
                    ethereum_bridge: old(self).bridge().ethereum_bridge,
                    required_validators: old(self).bridge().required_validators,
                    total_minted: (old(self).bridge().total_minted + amount) as u64,
                    total_burned: old(self).bridge().total_burned,
                    nonce: (old(self).bridge().nonce + 1) as u64,
                    authority: old(self).bridge().authority,
                    paused: old(self).bridge().paused,
                })
            },
            forall|h: Seq<u8>|
                #[trigger] log_contains_hash(old(self).processed@, h) ==> log_contains_hash(
                    final(self).processed@,
                    h,
                ),
            r is Ok ==> log_contains_hash(final(self).processed@, ethereum_tx_hash@),
    {
        let s = self.state.unwrap();
        if s.paused {
            return Err(BridgeError::BridgePaused);
        }
        if self.is_processed(&ethereum_tx_hash) {
            return Err(BridgeError::AlreadyProcessed);
        }
        if !evaluate_quorum(validators_signatures, s.required_validators, known_validators) {
            return Err(BridgeError::InsufficientValidators);
        }
        let entry = ProcessedTransaction {
            is_processed: true,
            ethereum_tx_hash,
            amount,
            recipient,
            timestamp,
        };
        self.processed.push(entry);
        self.state = Some(
            BridgeState {
                ethereum_bridge: s.ethereum_bridge,
                required_validators: s.required_validators,
                total_minted: s.total_minted + amount,
                total_burned: s.total_burned,
                nonce: s.nonce + 1,
                authority: s.authority,
                paused: s.paused,
            },
        );
        proof {
            assert(self.processed@.drop_last() =~= old(self).processed@);
            assert(self.processed@[old(self).processed@.len() as int].ethereum_tx_hash@
                == ethereum_tx_hash@);
            assert forall|h: Seq<u8>| #[trigger]
                log_contains_hash(old(self).processed@, h) implies log_contains_hash(
                self.processed@,
                h,
            ) by {
                let w = choose|k: int|
                    0 <= k < old(self).processed@.len() && #[trigger] old(
                        self,
                    ).processed@[k].ethereum_tx_hash@ == h;
                assert(self.processed@[w].ethereum_tx_hash@ == h);
            }
        }
        Ok(())
    }

    /// The burn decision for a request, without committing anything. The
    /// host performs the ledger burn only after this accepts, and then
    /// commits with `burn_wrapped`.
    pub fn check_burn(&self, amount: u64) -> (r: Result<(), BridgeError>)
        requires
            self.is_initialized(),
        ensures
            r == self.spec_burn_check(amount),
    {
        let s = self.state.unwrap();
        if s.paused {
            return Err(BridgeError::BridgePaused);
        }
        if amount == 0 {
            return Err(BridgeError::InvalidAmount);
        }
        Ok(())
    }

    /// Commits a burn: runs the same gates as `check_burn` and, on
    /// acceptance, appends the burn record stamped with the current nonce
    /// and updates the counters, all together. On rejection nothing
    /// changes.
    pub fn burn_wrapped(
        &mut self,
        amount: u64,
        ethereum_recipient: [u8; 20],
        user: [u8; 32],
        timestamp: i64,
    ) -> (r: Result<(), BridgeError>)
        requires
            old(self).wf(),
            old(self).is_initialized(),
            old(self).bridge().total_burned + amount <= u64::MAX,
            old(self).bridge().nonce < u64::MAX,
        ensures
            final(self).wf(),
            r == old(self).spec_burn_check(amount),
            r is Err ==> *final(self) == *old(self),
            r is Ok ==> {
                &&& final(self).is_initialized()
                &&& final(self).burns@ == old(self).burns@.push(
                    (BurnTransaction {
                        user,
                        amount,
                        ethereum_recipient,
                        timestamp,
                        nonce: old(self).bridge().nonce,
                        processed_on_ethereum: false,
                    }),
                )
                &&& final(self).processed@ == old(self).processed@
                &&& final(self).bridge() == (BridgeState {
                    ethereum_bridge: old(self).bridge().ethereum_bridge,
                    required_validators: old(self).bridge().required_validators,
                    total_minted: old(self).bridge().total_minted,
                    total_burned: (old(self).bridge().total_burned + amount) as u64,
                    nonce: (old(self).bridge().nonce + 1) as u64,
                    authority: old(self).bridge().authority,
                    paused: old(self).bridge().paused,
                })
            },
    {
        let s = self.state.unwrap();
        if s.paused {
            return Err(BridgeError::BridgePaused);
        }
        if amount == 0 {
            return Err(BridgeError::InvalidAmount);
        }
        let entry = BurnTransaction {
            user,
            amount,
            ethereum_recipient,
            timestamp,
            nonce: s.nonce,
            processed_on_ethereum: false,
        };
        self.burns.push(entry);
        self.state = Some(
            BridgeState {
                ethereum_bridge: s.ethereum_bridge,
                required_validators: s.required_validators,
                total_minted: s.total_minted,
                total_burned: s.total_burned + amount,
                nonce: s.nonce + 1,
                authority: s.authority,
                paused: s.paused,
            },
        );
        proof {
            assert(self.burns@.drop_last() =~= old(self).burns@);
            assert forall|i: int, j: int|
                0 <= i < j < self.burns@.len() implies #[trigger] self.burns@[i].nonce
                < #[trigger] self.burns@[j].nonce by {
                if j < self.burns@.len() - 1 {
                    assert(old(self).burns@[i].nonce < old(self).burns@[j].nonce);
                } else {
                    assert(old(self).burns@[i].nonce < old(self).bridge().nonce);
                }
            }
        }
        Ok(())
    }

    /// Admin: pauses the bridge. Only the authority may; anyone else is
    /// rejected with `Unauthorized` and nothing changes.
    pub fn pause_bridge(&mut self, caller: &[u8; 32]) -> (r: Result<(), BridgeError>)
        requires
            old(self).wf(),
            old(self).is_initialized(),
        ensures
            final(self).wf(),
            caller@ != old(self).bridge().authority@ ==> r == Err::<(), BridgeError>(
                BridgeError::Unauthorized,
            ) && *final(self) == *old(self),
            caller@ == old(self).bridge().authority@ ==> {
                &&& r == Ok::<(), BridgeError>(())
                &&& final(self).is_initialized()
                &&& final(self).bridge() == (BridgeState {
                    paused: true,
                    ..old(self).bridge()
                })
                &&& final(self).processed@ == old(self).processed@
                &&& final(self).burns@ == old(self).burns@
            },
    {
        let s = self.state.unwrap();
        if !bytes_eq(caller, &s.authority) {
            return Err(BridgeError::Unauthorized);
        }
        self.state = Some(BridgeState { paused: true, ..s });
        Ok(())
    }

    /// Admin: unpauses the bridge, restoring normal operation. Only the
    /// authority may; anyone else is rejected with `Unauthorized` and
    /// nothing changes.
    pub fn unpause_bridge(&mut self, caller: &[u8; 32]) -> (r: Result<(), BridgeError>)
        requires
            old(self).wf(),
            old(self).is_initialized(),
        ensures
            final(self).wf(),
            caller@ != old(self).bridge().authority@ ==> r == Err::<(), BridgeError>(
                BridgeError::Unauthorized,
            ) && *final(self) == *old(self),
            caller@ == old(self).bridge().authority@ ==> {
                &&& r == Ok::<(), BridgeError>(())
                &&& final(self).is_initialized()
                &&& final(self).bridge() == (BridgeState {
                    paused: false,
                    ..old(self).bridge()
                })
                &&& final(self).processed@ == old(self).processed@
                &&& final(self).burns@ == old(self).burns@
            },
    {
        let s = self.state.unwrap();
        if !bytes_eq(caller, &s.authority) {
            return Err(BridgeError::Unauthorized);
        }
        self.state = Some(BridgeState { paused: false, ..s });
        Ok(())
    }

    /// Admin: sets the number of required validators. Any value is
    /// accepted, including zero, which makes every mint pass quorum — an
    /// emergency override the authority must use with care. Only the
    /// authority may; anyone else is rejected with `Unauthorized` and
    /// nothing changes.
    pub fn update_validators(&mut self, caller: &[u8; 32], required_validators: u8) -> (r: Result<
        (),
        BridgeError,
    >)
        requires
            old(self).wf(),
            old(self).is_initialized(),
        ensures
            final(self).wf(),
            caller@ != old(self).bridge().authority@ ==> r == Err::<(), BridgeError>(
                BridgeError::Unauthorized,
            ) && *final(self) == *old(self),
            caller@ == old(self).bridge().authority@ ==> {
                &&& r == Ok::<(), BridgeError>(())
                &&& final(self).is_initialized()
                &&& final(self).bridge() == (BridgeState {
                    required_validators,
                    ..old(self).bridge()
                })
                &&& final(self).processed@ == old(self).processed@
                &&& final(self).burns@ == old(self).burns@
            },
    {
        let s = self.state.unwrap();
        if !bytes_eq(caller, &s.authority) {
            return Err(BridgeError::Unauthorized);
        }
        self.state = Some(BridgeState { required_validators, ..s });
        Ok(())
    }

    /// Total wrapped tokens ever minted.
    pub fn total_minted(&self) -> (r: u64)
        requires
            self.is_initialized(),
        ensures
            r == self.bridge().total_minted,
    {
        self.state.unwrap().total_minted
    }

    /// Total wrapped tokens ever burned.
    pub fn total_burned(&self) -> (r: u64)
        requires
            self.is_initialized(),
        ensures
            r == self.bridge().total_burned,
    {
        self.state.unwrap().total_burned
    }

    /// The transition counter.
    pub fn nonce(&self) -> (r: u64)
        requires
            self.is_initialized(),
        ensures
            r == self.bridge().nonce,
    {
        self.state.unwrap().nonce
    }

    /// Whether mint and burn transitions are currently rejected.
    pub fn paused(&self) -> (r: bool)
        requires
            self.is_initialized(),
        ensures
            r == self.bridge().paused,
    {
        self.state.unwrap().paused
    }

    /// The quorum the bridge currently requires.
    pub fn required_validators(&self) -> (r: u8)
        requires
            self.is_initialized(),
        ensures
            r == self.bridge().required_validators,
    {
        self.state.unwrap().required_validators
    }

    /// How many mints have been recorded.
    pub fn processed_count(&self) -> (r: usize)
        ensures
            r == self.processed@.len(),
    {
        self.processed.len()
    }

    /// How many burn intents have been recorded.
    pub fn burn_count(&self) -> (r: usize)
        ensures
            r == self.burns@.len(),
    {
        self.burns.len()
    }

    /// The dedup record of the `i`-th successful mint.
    pub fn processed_at(&self, i: usize) -> (r: ProcessedTransaction)
        requires
            i < self.processed@.len(),
        ensures
            r == self.processed@[i as int],
    {
        self.processed[i]
    }

    /// The record of the `i`-th burn intent.
    pub fn burn_at(&self, i: usize) -> (r: BurnTransaction)
        requires
            i < self.burns@.len(),
        ensures
            r == self.burns@[i as int],
    {
        self.burns[i]
    }
}

} // verus!
