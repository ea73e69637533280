use omk_bridge::quorum::Attestation;
use omk_bridge::quorum::evaluate_quorum;

fn att(signer: [u8; 20]) -> Attestation {
    Attestation { signer, signature: [0u8; 65] }
}

#[test]
fn quorum_counts_distinct_known_signers() {
    let vals = vec![[1u8; 20], [2u8; 20], [3u8; 20]];
    let atts = vec![att([1u8; 20]), att([2u8; 20])];
    assert!(evaluate_quorum(&atts, 2, &vals));
    assert!(!evaluate_quorum(&atts, 3, &vals));
}

#[test]
fn quorum_ignores_duplicates() {
    let vals = vec![[1u8; 20], [2u8; 20]];
    let padded = vec![att([1u8; 20]), att([1u8; 20]), att([1u8; 20])];
    assert!(!evaluate_quorum(&padded, 2, &vals));
    assert!(evaluate_quorum(&padded, 1, &vals));
}

#[test]
fn quorum_ignores_unknown_signers() {
    let vals = vec![[1u8; 20]];
    let atts = vec![att([8u8; 20]), att([9u8; 20])];
    assert!(!evaluate_quorum(&atts, 1, &vals));
}

#[test]
fn quorum_of_zero_always_passes() {
    let vals: Vec<[u8; 20]> = Vec::new();
    let none: Vec<Attestation> = Vec::new();
    assert!(evaluate_quorum(&none, 0, &vals));
}
