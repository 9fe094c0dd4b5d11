//! The orchestrator: the protocol sequence from the policy gate through
//! the out-of-domain consistency check, the proof-of-work gate, and the
//! query phase.

use stark_verifier::air::{FieldExtension, ProofOptions, TraceInfo};
use stark_verifier::coin::PublicCoin;
use stark_verifier::digest::Digest;
use stark_verifier::errors::{DeserializationError, VerifierError};
use stark_verifier::felt::Felt;
use stark_verifier::lagrange::LagrangeKernelComplexAir;
use stark_verifier::ood_frame::{OodFrame, OodFrameTraceStates};
use stark_verifier::orchestrator::{verify, DefaultAuxTraceVerifier};
use stark_verifier::stark_proof::{AcceptableOptions, Context, Queries, StarkProof};
use winter_crypto::{Digest as WinterDigest, Hasher, MerkleTree};
use winter_utils::Deserializable;

fn felts(values: &[u64]) -> Vec<Felt> {
    values.iter().map(|v| Felt::new(*v)).collect()
}

fn test_options() -> ProofOptions {
    ProofOptions::new(1, 2, 0, FieldExtension::Base, 2, 1)
}

fn test_trace_info() -> TraceInfo {
    TraceInfo::new_multi_segment(1, 2, 8, Vec::new())
}

fn digest(byte: u8) -> Digest {
    Digest::new(vec![byte; 32])
}

fn empty_queries() -> Queries {
    Queries { rows: Vec::new(), proof_nodes: Vec::new(), proof_depth: 0 }
}

/// Replays the transcript exactly as the verifier will, up to the point
/// where the auxiliary random elements have been drawn, and returns them.
fn mirror_aux_rand_elements(context: &Context) -> Vec<Felt> {
    let mut coin = PublicCoin::new(&context.to_elements());
    coin.reseed(&digest(1));
    let mut rand = Vec::new();
    for _ in 0..3 {
        rand.push(coin.draw().unwrap());
    }
    rand
}

/// An out-of-domain frame on which every constraint evaluates to zero, so
/// that the consistency check accepts it against all-zero claimed
/// composition evaluations.
fn consistent_ood_frame(aux_rand: &[Felt]) -> OodFrame {
    let one = Felt::new(1);
    // main transition: the column increments by one; boundary: the main
    // column and the last auxiliary column start at zero
    let current = vec![Felt::new(0), Felt::new(77), Felt::new(0)];
    let next = vec![Felt::new(1), Felt::new(78), Felt::new(79)];
    // a Lagrange frame on which every kernel constraint vanishes
    let mut first = one;
    for r in aux_rand {
        first = first.mul(one.sub(*r));
    }
    let mut lagrange = vec![first];
    for r in aux_rand {
        lagrange.push(first.mul(*r).div(one.sub(*r)));
    }
    let ts = OodFrameTraceStates::new(current, next, 1, Some(lagrange));
    let mut frame = OodFrame::new();
    frame.set_trace_states(&ts).unwrap();
    frame.set_constraint_evaluations(&felts(&[0])).unwrap();
    frame
}

fn consistent_proof() -> StarkProof {
    let context = Context { trace_info: test_trace_info(), options: test_options() };
    let aux_rand = mirror_aux_rand_elements(&context);
    let ood_frame = consistent_ood_frame(&aux_rand);
    StarkProof {
        context,
        trace_commitments: vec![digest(1), digest(2)],
        constraint_commitment: digest(3),
        ood_frame,
        trace_queries: vec![empty_queries(), empty_queries()],
        constraint_queries: empty_queries(),
        fri_commitments: Vec::new(),
        fri_proof_bytes: Vec::new(),
        pow_nonce: 0,
    }
}

#[test]
fn verify_passes_the_consistency_check_and_stops_at_the_openings() {
    let proof = consistent_proof();
    let atv = DefaultAuxTraceVerifier::new(3);
    let handoff = verify::<LagrangeKernelComplexAir, DefaultAuxTraceVerifier>(
        proof,
        Some(&atv),
        Vec::new(),
        &AcceptableOptions::MinConjecturedSecurity(0),
    )
    .unwrap();
    // the openings in this hand-built proof cannot match the commitments,
    // so the query phase must reject them — deterministically
    let result = handoff.finish();
    assert_eq!(result.unwrap_err(), VerifierError::TraceQueryDoesNotMatchCommitment);
}

#[test]
fn verification_is_deterministic() {
    let run = || {
        let proof = consistent_proof();
        let atv = DefaultAuxTraceVerifier::new(3);
        verify::<LagrangeKernelComplexAir, DefaultAuxTraceVerifier>(
            proof,
            Some(&atv),
            Vec::new(),
            &AcceptableOptions::MinConjecturedSecurity(0),
        )
        .unwrap()
        .finish()
        .unwrap_err()
    };
    assert_eq!(run(), run());
}

#[test]
fn tampered_ood_frame_is_rejected() {
    let mut proof = consistent_proof();
    // break the auxiliary boundary assertion: the asserted column no
    // longer holds zero at the out-of-domain point
    let context = Context { trace_info: test_trace_info(), options: test_options() };
    let aux_rand = mirror_aux_rand_elements(&context);
    let one = Felt::new(1);
    let current = vec![Felt::new(0), Felt::new(77), Felt::new(5)];
    let next = vec![Felt::new(1), Felt::new(78), Felt::new(79)];
    let mut first = one;
    for r in &aux_rand {
        first = first.mul(one.sub(*r));
    }
    let mut lagrange = vec![first];
    for r in &aux_rand {
        lagrange.push(first.mul(*r).div(one.sub(*r)));
    }
    let ts = OodFrameTraceStates::new(current, next, 1, Some(lagrange));
    let mut frame = OodFrame::new();
    frame.set_trace_states(&ts).unwrap();
    frame.set_constraint_evaluations(&felts(&[0])).unwrap();
    proof.ood_frame = frame;

    let atv = DefaultAuxTraceVerifier::new(3);
    let result = verify::<LagrangeKernelComplexAir, DefaultAuxTraceVerifier>(
        proof,
        Some(&atv),
        Vec::new(),
        &AcceptableOptions::MinConjecturedSecurity(0),
    );
    match result {
        Err(e) => assert_eq!(e, VerifierError::InconsistentOodConstraintEvaluations),
        Ok(_) => panic!("a tampered frame must be rejected"),
    }
}

#[test]
fn policy_violations_surface_verbatim() {
    let proof = consistent_proof();
    let atv = DefaultAuxTraceVerifier::new(3);
    let result = verify::<LagrangeKernelComplexAir, DefaultAuxTraceVerifier>(
        proof,
        Some(&atv),
        Vec::new(),
        &AcceptableOptions::MinConjecturedSecurity(200),
    );
    match result {
        Err(VerifierError::InsufficientConjecturedSecurity(required, actual)) => {
            assert_eq!(required, 200);
            assert!(actual < 200);
        }
        Err(other) => panic!("unexpected error {:?}", other),
        Ok(_) => panic!("a policy violation must be rejected"),
    }
}

#[test]
fn missing_regions_fail_to_decode() {
    let mut proof = consistent_proof();
    proof.ood_frame = OodFrame::new();
    let atv = DefaultAuxTraceVerifier::new(3);
    let result = verify::<LagrangeKernelComplexAir, DefaultAuxTraceVerifier>(
        proof,
        Some(&atv),
        Vec::new(),
        &AcceptableOptions::MinConjecturedSecurity(0),
    );
    match result {
        Err(e) => assert_eq!(
            e,
            VerifierError::ProofDeserializationError(DeserializationError::UnexpectedEof)
        ),
        Ok(_) => panic!("an empty frame must be rejected"),
    }
}

#[test]
fn auxiliary_segment_needs_its_companion_verifier() {
    let proof = consistent_proof();
    let result = verify::<LagrangeKernelComplexAir, DefaultAuxTraceVerifier>(
        proof,
        None,
        Vec::new(),
        &AcceptableOptions::MinConjecturedSecurity(0),
    );
    match result {
        Err(VerifierError::AuxTraceVerificationFailed(description)) => {
            assert!(!description.is_empty());
        }
        Err(other) => panic!("unexpected error {:?}", other),
        Ok(_) => panic!("a missing companion verifier must be rejected"),
    }
}

/// Builds a Merkle commitment over the row table and the opening data for
/// the given positions, using the same row hashing the channel applies.
type Blake3 = winter_crypto::hashers::Blake3_256<winter_math::fields::f62::BaseElement>;

fn commit_rows(
    rows: &[Vec<Felt>],
    positions: &[usize],
) -> (Digest, Queries) {
    let leaves: Vec<<Blake3 as Hasher>::Digest> = rows
        .iter()
        .map(|row| {
            let d = stark_verifier::digest::hash_felts(row);
            Deserializable::read_from_bytes(d.as_bytes()).unwrap()
        })
        .collect();
    let tree = MerkleTree::<Blake3>::new(leaves).unwrap();
    let root = Digest::new(tree.root().as_bytes().to_vec());
    let batch = tree.prove_batch(positions).unwrap();
    let queries = Queries {
        rows: positions.iter().map(|p| rows[*p].clone()).collect(),
        proof_nodes: batch
            .nodes
            .iter()
            .map(|layer| {
                layer.iter().map(|d| Digest::new(d.as_bytes().to_vec())).collect()
            })
            .collect(),
        proof_depth: batch.depth,
    };
    (root, queries)
}

/// A proof whose openings really match their commitments passes the whole
/// query phase: the engine accepts the out-of-domain check, the
/// proof-of-work gate, and the Merkle-checked openings, and returns the
/// DEEP evaluations for the low-degree test.
#[test]
fn valid_openings_pass_the_query_phase() {
    let context = Context { trace_info: test_trace_info(), options: test_options() };

    // the opened row tables over the 16-point evaluation domain
    let main_rows: Vec<Vec<Felt>> = (0..16u64).map(|r| felts(&[r + 100])).collect();
    let aux_rows: Vec<Vec<Felt>> = (0..16u64).map(|r| felts(&[r + 200, r + 300])).collect();
    let constraint_rows: Vec<Vec<Felt>> = (0..16u64).map(|r| felts(&[r + 400])).collect();

    // roots first: the transcript depends on them
    let all_positions: Vec<usize> = (0..16).collect();
    let (main_root, _) = commit_rows(&main_rows, &all_positions);
    let (aux_root, _) = commit_rows(&aux_rows, &all_positions);
    let (constraint_root, _) = commit_rows(&constraint_rows, &all_positions);

    // the auxiliary random elements follow the real main commitment
    let mut pre = PublicCoin::new(&context.to_elements());
    pre.reseed(&main_root);
    let mut aux_rand: Vec<Felt> = Vec::new();
    for _ in 0..3 {
        aux_rand.push(pre.draw().unwrap());
    }

    // rebuild the out-of-domain frame and remember its flattened form
    let one = Felt::new(1);
    let current = vec![Felt::new(0), Felt::new(77), Felt::new(0)];
    let next = vec![Felt::new(1), Felt::new(78), Felt::new(79)];
    let mut first = one;
    for r in &aux_rand {
        first = first.mul(one.sub(*r));
    }
    let mut lagrange = vec![first];
    for r in &aux_rand {
        lagrange.push(first.mul(*r).div(one.sub(*r)));
    }
    let ts = OodFrameTraceStates::new(current, next, 1, Some(lagrange));
    let mut ood_frame = OodFrame::new();
    let flattened = ood_frame.set_trace_states(&ts).unwrap();
    ood_frame.set_constraint_evaluations(&felts(&[0])).unwrap();

    // replay the transcript to learn the query positions: commitments and
    // frame hashes reseed it, and every randomness draw advances it
    let mut coin = PublicCoin::new(&context.to_elements());
    coin.reseed(&main_root);
    for _ in 0..3 {
        coin.draw().unwrap(); // the auxiliary random elements
    }
    coin.reseed(&aux_root);
    for _ in 0..8 {
        coin.draw().unwrap(); // the constraint-composition coefficients
    }
    coin.reseed(&constraint_root);
    coin.draw().unwrap(); // the out-of-domain point
    coin.reseed(&stark_verifier::digest::hash_felts(&flattened));
    coin.reseed(&stark_verifier::digest::hash_felts(&felts(&[0])));
    for _ in 0..4 {
        coin.draw().unwrap(); // the DEEP coefficients
    }
    let positions = coin.draw_integers(1, 16, 0).unwrap();

    // open exactly those positions against each commitment
    let (main_root2, trace_main_queries) = commit_rows(&main_rows, &positions);
    let (aux_root2, trace_aux_queries) = commit_rows(&aux_rows, &positions);
    let (constraint_root2, constraint_queries) = commit_rows(&constraint_rows, &positions);
    assert_eq!(main_root, main_root2);
    assert_eq!(aux_root, aux_root2);
    assert_eq!(constraint_root, constraint_root2);

    let proof = StarkProof {
        context,
        trace_commitments: vec![main_root, aux_root],
        constraint_commitment: constraint_root,
        ood_frame,
        trace_queries: vec![trace_main_queries, trace_aux_queries],
        constraint_queries,
        fri_commitments: Vec::new(),
        fri_proof_bytes: Vec::new(),
        pow_nonce: 0,
    };

    let atv = DefaultAuxTraceVerifier::new(3);
    let handoff = verify::<LagrangeKernelComplexAir, DefaultAuxTraceVerifier>(
        proof,
        Some(&atv),
        Vec::new(),
        &AcceptableOptions::MinConjecturedSecurity(0),
    )
    .unwrap();
    let (evaluations, returned_positions) = handoff.finish().unwrap();
    assert_eq!(returned_positions, positions);
    assert_eq!(evaluations.len(), returned_positions.len());
}

/// An absurd declared proof depth is rejected as a mismatched opening; in
/// particular it must not be handed to the Merkle machinery, whose leaf
/// count computation only supports depths inside the machine word.
#[test]
fn oversized_proof_depth_is_rejected() {
    let mut proof = consistent_proof();
    proof.trace_queries[0] = Queries {
        rows: vec![felts(&[1])],
        proof_nodes: Vec::new(),
        proof_depth: 255,
    };
    proof.trace_queries[1] = Queries {
        rows: vec![felts(&[2, 3])],
        proof_nodes: Vec::new(),
        proof_depth: 255,
    };
    let atv = DefaultAuxTraceVerifier::new(3);
    let handoff = verify::<LagrangeKernelComplexAir, DefaultAuxTraceVerifier>(
        proof,
        Some(&atv),
        Vec::new(),
        &AcceptableOptions::MinConjecturedSecurity(0),
    )
    .unwrap();
    let result = handoff.finish();
    assert_eq!(result.unwrap_err(), VerifierError::TraceQueryDoesNotMatchCommitment);
}

#[test]
fn extension_field_proofs_are_rejected() {
    let mut proof = consistent_proof();
    proof.context.options = ProofOptions::new(1, 2, 0, FieldExtension::Quadratic, 2, 1);
    let atv = DefaultAuxTraceVerifier::new(3);
    let result = verify::<LagrangeKernelComplexAir, DefaultAuxTraceVerifier>(
        proof,
        Some(&atv),
        Vec::new(),
        &AcceptableOptions::MinConjecturedSecurity(0),
    );
    match result {
        Err(e) => assert_eq!(e, VerifierError::UnsupportedFieldExtension),
        Ok(_) => panic!("an extension-field proof must be rejected"),
    }
}
