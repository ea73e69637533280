//! Quorum policy over validator attestations.
//!
//! A mint is authorized by a set of attestations from the validator
//! network. Attestations are counted as a set: duplicates from one signer
//! count once, and only signers that belong to the known validator set
//! count at all. Authenticity of the 65-byte signature against the signer's
//! key is established by the host's cryptography before an attestation is
//! handed to the engine; the engine enforces membership and distinctness.

use vstd::prelude::*;
use crate::bytes::bytes_eq;

verus! {

/// One validator's attestation of a source-chain deposit: the claimed
/// signer and the 65-byte signature record it produced.
#[derive(Clone, Copy, Debug)]
pub struct Attestation {
    /// 20-byte source-chain identity of the claimed signer.
    pub signer: [u8; 20],
    /// The signature bytes; carried for the host and the relayers, not
    /// inspected by the engine.
    pub signature: [u8; 65],
}

/// Whether `signer` belongs to the known validator set.
pub open spec fn is_known_validator(signer: [u8; 20], validators: Seq<[u8; 20]>) -> bool {
    exists|i: int| 0 <= i < validators.len() && #[trigger] validators[i]@ == signer@
}

/// Whether some attestation in `atts` claims `signer`.
pub open spec fn has_signer(atts: Seq<Attestation>, signer: [u8; 20]) -> bool {
    exists|i: int| 0 <= i < atts.len() && #[trigger] atts[i].signer@ == signer@
}

/// How many distinct known validators attested: each signer counts at most
/// once, and only if it belongs to the validator set.
pub open spec fn distinct_valid_count(atts: Seq<Attestation>, validators: Seq<[u8; 20]>) -> nat
    decreases atts.len(),
{
    if atts.len() == 0 {
        0
    } else {
        distinct_valid_count(atts.drop_last(), validators) + (
        if is_known_validator(atts.last().signer, validators) && !has_signer(
            atts.drop_last(),
            atts.last().signer,
        ) {
            1nat
        } else {
            0nat
        })
    }
}

/// Whether `signer` occurs in the validator list.
fn contains_validator(validators: &Vec<[u8; 20]>, signer: &[u8; 20]) -> (r: bool)
    ensures
        r == is_known_validator(*signer, validators@),
{
    let mut i: usize = 0;
    while i < validators.len()
        invariant
            0 <= i <= validators@.len(),
            forall|k: int| 0 <= k < i ==> #[trigger] validators@[k]@ != signer@,
        decreases validators@.len() - i,
    {
        if bytes_eq(&validators[i], signer) {
            assert(validators@[i as int]@ == signer@);
            return true;
        }
        i = i + 1;
    }
    false
}

/// Whether one of the first `upto` attestations already claims `signer`.
fn signer_seen(atts: &Vec<Attestation>, upto: usize, signer: &[u8; 20]) -> (r: bool)
    requires
        upto <= atts@.len(),
    ensures
        r == has_signer(atts@.take(upto as int), *signer),
{
    let mut i: usize = 0;
    while i < upto
        invariant
            0 <= i <= upto <= atts@.len(),
            forall|k: int| 0 <= k < i ==> #[trigger] atts@[k].signer@ != signer@,
        decreases upto - i,
    {
        if bytes_eq(&atts[i].signer, signer) {
            assert(atts@.take(upto as int)[i as int].signer@ == signer@);
            return true;
        }
        i = i + 1;
    }
    assert(forall|k: int|
        0 <= k < upto ==> #[trigger] atts@.take(upto as int)[k].signer@ != signer@);
    false
}

/// Whether the attestations meet the quorum policy: at least
/// `required_count` distinct signers from the known validator set.
/// Pure evaluation; never mutates state.
pub fn evaluate_quorum(
    attestations: &Vec<Attestation>,
    required_count: u8,
    known_validators: &Vec<[u8; 20]>,
) -> (r: bool)
    ensures
        r == (distinct_valid_count(attestations@, known_validators@)
            >= required_count as nat),
{
    let mut count: usize = 0;
    let mut i: usize = 0;
    while i < attestations.len()
        invariant
            0 <= i <= attestations@.len(),
            count == distinct_valid_count(attestations@.take(i as int), known_validators@),
            count <= i,
        decreases attestations@.len() - i,
    {
        let signer = attestations[i].signer;
        let counts = contains_validator(known_validators, &signer) && !signer_seen(
            attestations,
            i,
            &signer,
        );
        proof {
            assert(attestations@.take(i as int + 1).drop_last() =~= attestations@.take(i as int));
            assert(attestations@.take(i as int + 1).last() == attestations@[i as int]);
        }
        if counts {
            count = count + 1;
        }
        i = i + 1;
    }
    proof {
        assert(attestations@.take(attestations@.len() as int) =~= attestations@);
    }
    count >= required_count as usize
}

/// A duplicate attestation adds nothing: appending an attestation whose
/// signer already occurs in the collection leaves the distinct valid count
/// unchanged, so padding a mint request with repeats from one signer can
/// never reach quorum.
pub proof fn lemma_duplicate_attestation_adds_nothing(
    atts: Seq<Attestation>,
    a: Attestation,
    validators: Seq<[u8; 20]>,
)
    requires
        has_signer(atts, a.signer),
    ensures
        distinct_valid_count(atts.push(a), validators) == distinct_valid_count(atts, validators),
{
    assert(atts.push(a).drop_last() =~= atts);
    assert(atts.push(a).last() == a);
}

} // verus!
