use omk_bridge::engine::BridgeEngine;
use omk_bridge::errors::BridgeError;
use omk_bridge::quorum::Attestation;

const AUTHORITY: [u8; 32] = [9u8; 32];
const ETH_BRIDGE: [u8; 20] = [7u8; 20];

fn att(signer: [u8; 20]) -> Attestation {
    Attestation { signer, signature: [0u8; 65] }
}

fn validators() -> Vec<[u8; 20]> {
    vec![[10u8; 20], [11u8; 20], [12u8; 20]]
}

fn setup(required_validators: u8) -> BridgeEngine {
    let mut e = BridgeEngine::new();
    let r = e.initialize(ETH_BRIDGE, required_validators, AUTHORITY);
    assert_eq!(r, Ok(()));
    e
}

#[test]
fn initialize_sets_fresh_state() {
    let e = setup(2);
    assert_eq!(e.total_minted(), 0);
    assert_eq!(e.total_burned(), 0);
    assert_eq!(e.nonce(), 0);
    assert_eq!(e.required_validators(), 2);
    assert!(!e.paused());
    assert_eq!(e.processed_count(), 0);
    assert_eq!(e.burn_count(), 0);
}

#[test]
fn initialize_twice_is_rejected() {
    let mut e = setup(2);
    let r = e.initialize(ETH_BRIDGE, 3, AUTHORITY);
    assert_eq!(r, Err(BridgeError::AlreadyInitialized));
    assert_eq!(e.required_validators(), 2);
}

#[test]
fn mint_replay_and_burn_scenario() {
    let mut e = setup(2);
    let vals = validators();
    let atts = vec![att([10u8; 20]), att([11u8; 20])];
    let hash = [0xAAu8; 32];
    let recipient = [3u8; 32];

    assert_eq!(e.check_mint(&hash, &atts, &vals), Ok(()));
    let r = e.mint_wrapped(100, hash, &atts, &vals, recipient, 1000);
    assert_eq!(r, Ok(()));
    assert_eq!(e.total_minted(), 100);
    assert_eq!(e.nonce(), 1);
    assert!(e.is_processed(&hash));
    assert_eq!(e.processed_count(), 1);
    let rec = e.processed_at(0);
    assert!(rec.is_processed);
    assert_eq!(rec.ethereum_tx_hash, hash);
    assert_eq!(rec.amount, 100);
    assert_eq!(rec.recipient, recipient);
    assert_eq!(rec.timestamp, 1000);

    // An identical resubmission is rejected, whatever it carries.
    let r = e.mint_wrapped(100, hash, &atts, &vals, recipient, 2000);
    assert_eq!(r, Err(BridgeError::AlreadyProcessed));
    let r = e.mint_wrapped(5, hash, &atts, &vals, [4u8; 32], 2000);
    assert_eq!(r, Err(BridgeError::AlreadyProcessed));
    assert_eq!(e.total_minted(), 100);
    assert_eq!(e.nonce(), 1);
    assert_eq!(e.processed_count(), 1);

    // Burn: the record is stamped with the nonce current at burn time,
    // then the counter moves on.
    let user = [5u8; 32];
    let eth_recipient = [6u8; 20];
    assert_eq!(e.check_burn(40), Ok(()));
    let r = e.burn_wrapped(40, eth_recipient, user, 3000);
    assert_eq!(r, Ok(()));
    assert_eq!(e.total_burned(), 40);
    assert_eq!(e.nonce(), 2);
    assert_eq!(e.burn_count(), 1);
    let burn = e.burn_at(0);
    assert_eq!(burn.user, user);
    assert_eq!(burn.amount, 40);
    assert_eq!(burn.ethereum_recipient, eth_recipient);
    assert_eq!(burn.timestamp, 3000);
    assert_eq!(burn.nonce, 1);
    assert!(!burn.processed_on_ethereum);
}

#[test]
fn pause_by_non_authority_is_unauthorized() {
    let mut e = setup(2);
    let intruder = [1u8; 32];
    let r = e.pause_bridge(&intruder);
    assert_eq!(r, Err(BridgeError::Unauthorized));
    assert!(!e.paused());
    assert_eq!(e.total_minted(), 0);
    assert_eq!(e.total_burned(), 0);
    assert_eq!(e.nonce(), 0);
}

#[test]
fn unpause_by_non_authority_is_unauthorized() {
    let mut e = setup(2);
    assert_eq!(e.pause_bridge(&AUTHORITY), Ok(()));
    let r = e.unpause_bridge(&[1u8; 32]);
    assert_eq!(r, Err(BridgeError::Unauthorized));
    assert!(e.paused());
}

#[test]
fn paused_rejects_mint_and_burn_until_unpause() {
    let mut e = setup(1);
    let vals = validators();
    let atts = vec![att([10u8; 20])];
    let hash = [0xBBu8; 32];

    assert_eq!(e.pause_bridge(&AUTHORITY), Ok(()));
    assert!(e.paused());
    assert_eq!(e.check_mint(&hash, &atts, &vals), Err(BridgeError::BridgePaused));
    assert_eq!(
        e.mint_wrapped(50, hash, &atts, &vals, [3u8; 32], 0),
        Err(BridgeError::BridgePaused)
    );
    assert_eq!(e.check_burn(10), Err(BridgeError::BridgePaused));
    assert_eq!(
        e.burn_wrapped(10, [6u8; 20], [5u8; 32], 0),
        Err(BridgeError::BridgePaused)
    );
    assert_eq!(e.total_minted(), 0);
    assert_eq!(e.total_burned(), 0);
    assert_eq!(e.nonce(), 0);
    assert!(!e.is_processed(&hash));

    // Unpausing immediately restores normal operation, and the mint that
    // failed under pause left no record, so the same hash still mints.
    assert_eq!(e.unpause_bridge(&AUTHORITY), Ok(()));
    assert!(!e.paused());
    let r = e.mint_wrapped(50, hash, &atts, &vals, [3u8; 32], 0);
    assert_eq!(r, Ok(()));
    assert_eq!(e.total_minted(), 50);
}

#[test]
fn duplicate_attestations_do_not_reach_quorum() {
    let mut e = setup(2);
    let vals = validators();
    let one_signer_thrice = vec![att([10u8; 20]), att([10u8; 20]), att([10u8; 20])];
    let r = e.mint_wrapped(10, [0xCCu8; 32], &one_signer_thrice, &vals, [3u8; 32], 0);
    assert_eq!(r, Err(BridgeError::InsufficientValidators));
    assert_eq!(e.total_minted(), 0);
    assert!(!e.is_processed(&[0xCCu8; 32]));
}

#[test]
fn unknown_signers_do_not_count() {
    let mut e = setup(2);
    let vals = validators();
    let atts = vec![att([10u8; 20]), att([99u8; 20])];
    let r = e.mint_wrapped(10, [0xCDu8; 32], &atts, &vals, [3u8; 32], 0);
    assert_eq!(r, Err(BridgeError::InsufficientValidators));
}

#[test]
fn empty_attestations_fail_unless_quorum_is_zero() {
    let mut e = setup(1);
    let vals = validators();
    let none: Vec<Attestation> = Vec::new();
    let r = e.mint_wrapped(10, [0xCEu8; 32], &none, &vals, [3u8; 32], 0);
    assert_eq!(r, Err(BridgeError::InsufficientValidators));

    // The authority may lower the bar to zero; every mint then passes
    // quorum. An emergency override, preserved as the bridge defines it.
    assert_eq!(e.update_validators(&AUTHORITY, 0), Ok(()));
    let r = e.mint_wrapped(10, [0xCEu8; 32], &none, &vals, [3u8; 32], 0);
    assert_eq!(r, Ok(()));
}

#[test]
fn update_validators_requires_authority() {
    let mut e = setup(2);
    let r = e.update_validators(&[1u8; 32], 5);
    assert_eq!(r, Err(BridgeError::Unauthorized));
    assert_eq!(e.required_validators(), 2);
    assert_eq!(e.update_validators(&AUTHORITY, 5), Ok(()));
    assert_eq!(e.required_validators(), 5);
}

#[test]
fn burn_of_zero_is_invalid() {
    let mut e = setup(2);
    assert_eq!(e.check_burn(0), Err(BridgeError::InvalidAmount));
    let r = e.burn_wrapped(0, [6u8; 20], [5u8; 32], 0);
    assert_eq!(r, Err(BridgeError::InvalidAmount));
    assert_eq!(e.total_burned(), 0);
    assert_eq!(e.nonce(), 0);
    assert_eq!(e.burn_count(), 0);
}

#[test]
fn totals_accumulate_and_nonce_counts_transitions() {
    let mut e = setup(1);
    let vals = validators();
    let atts = vec![att([10u8; 20])];
    for (i, amount) in [(1u8, 1u64), (2u8, 2u64), (3u8, 3u64)] {
        let hash = [i; 32];
        let r = e.mint_wrapped(amount, hash, &atts, &vals, [3u8; 32], 0);
        assert_eq!(r, Ok(()));
    }
    assert_eq!(e.total_minted(), 6);
    assert_eq!(e.nonce(), 3);

    assert_eq!(e.burn_wrapped(4, [6u8; 20], [5u8; 32], 0), Ok(()));
    assert_eq!(e.burn_wrapped(5, [6u8; 20], [5u8; 32], 0), Ok(()));
    assert_eq!(e.total_burned(), 9);
    assert_eq!(e.nonce(), 5);

    // Burn records carry the nonce current at their burn, so they are
    // strictly increasing and never repeat.
    assert_eq!(e.burn_at(0).nonce, 3);
    assert_eq!(e.burn_at(1).nonce, 4);
}
