//! The policy gate: security levels and the acceptable-options check.

use stark_verifier::air::{FieldExtension, ProofOptions, TraceInfo};
use stark_verifier::digest::Digest;
use stark_verifier::errors::VerifierError;
use stark_verifier::ood_frame::OodFrame;
use stark_verifier::stark_proof::{AcceptableOptions, Context, Queries, StarkProof};

fn empty_queries() -> Queries {
    Queries { rows: Vec::new(), proof_nodes: Vec::new(), proof_depth: 0 }
}

fn proof_with(trace_length: usize, options: ProofOptions) -> StarkProof {
    StarkProof {
        context: Context { trace_info: TraceInfo::new(1, trace_length), options },
        trace_commitments: vec![Digest::new(vec![0u8; 32])],
        constraint_commitment: Digest::new(vec![0u8; 32]),
        ood_frame: OodFrame::new(),
        trace_queries: vec![empty_queries()],
        constraint_queries: empty_queries(),
        fri_commitments: Vec::new(),
        fri_proof_bytes: Vec::new(),
        pow_nonce: 0,
    }
}

#[test]
fn security_levels_match_the_formulas() {
    // trace 1024, blowup 8 -> domain 8192: field part 62 - 13 = 49;
    // query part conjectured 28 * 3 + 16 = 100, proven 28 * 2 + 16 = 72;
    // both bounded by the field part
    let options = ProofOptions::new(28, 8, 16, FieldExtension::Base, 4, 7);
    let proof = proof_with(1024, options);
    assert_eq!(proof.security_level(true), 49);
    assert_eq!(proof.security_level(false), 49);

    // 2 queries, blowup 4, no grinding: query part binds: conjectured
    // 2 * 2 = 4, proven 2 * 1 = 2
    let options = ProofOptions::new(2, 4, 0, FieldExtension::Base, 2, 1);
    let proof = proof_with(64, options);
    assert_eq!(proof.security_level(true), 4);
    assert_eq!(proof.security_level(false), 2);
}

#[test]
fn minimum_security_floors() {
    let options = ProofOptions::new(2, 4, 0, FieldExtension::Base, 2, 1);
    let proof = proof_with(64, options);

    assert!(AcceptableOptions::MinConjecturedSecurity(0).validate(&proof).is_ok());
    assert!(AcceptableOptions::MinConjecturedSecurity(4).validate(&proof).is_ok());
    assert_eq!(
        AcceptableOptions::MinConjecturedSecurity(5).validate(&proof).unwrap_err(),
        VerifierError::InsufficientConjecturedSecurity(5, 4)
    );

    assert!(AcceptableOptions::MinProvenSecurity(2).validate(&proof).is_ok());
    assert_eq!(
        AcceptableOptions::MinProvenSecurity(3).validate(&proof).unwrap_err(),
        VerifierError::InsufficientProvenSecurity(3, 2)
    );
}

#[test]
fn option_set_accepts_exactly_the_listed_sets() {
    let used = ProofOptions::new(2, 4, 0, FieldExtension::Base, 2, 1);
    let other = ProofOptions::new(3, 4, 0, FieldExtension::Base, 2, 1);
    let proof = proof_with(64, used);

    assert!(AcceptableOptions::OptionSet(vec![used]).validate(&proof).is_ok());
    assert!(AcceptableOptions::OptionSet(vec![other, used]).validate(&proof).is_ok());
    assert_eq!(
        AcceptableOptions::OptionSet(vec![other]).validate(&proof).unwrap_err(),
        VerifierError::UnacceptableProofOptions
    );
    assert_eq!(
        AcceptableOptions::OptionSet(Vec::new()).validate(&proof).unwrap_err(),
        VerifierError::UnacceptableProofOptions
    );
}
