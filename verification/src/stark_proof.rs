//! The proof object consumed by the verification engine, and the policy
//! gate checked against it before any cryptographic work begins.

use vstd::prelude::*;
use crate::air::{FieldExtension, ProofOptions, TraceInfo};
use crate::digest::Digest;
use crate::errors::VerifierError;
use crate::felt::{felt_of, lemma_felt_of_roundtrip, spec_log2, Felt, MODULUS};
use crate::ood_frame::OodFrame;

verus! {

use vstd::arithmetic::power2::pow2;

/// The proof context: the computation shape and the protocol parameters,
/// embedded in the proof and re-derived by the verifier.
pub struct Context {
    /// The trace shape.
    pub trace_info: TraceInfo,
    /// The protocol parameters.
    pub options: ProofOptions,
}

/// The context serialized as field elements, in the order the transcript is
/// seeded with: trace widths and length, then query count, blowup,
/// grinding factor, extension degree, folding factor, and remainder degree.
pub open spec fn spec_context_elements(trace_info: TraceInfo, options: ProofOptions) -> Seq<
    Felt,
> {
    seq![
        felt_of(trace_info.spec_main_width()),
        felt_of(trace_info.spec_aux_width()),
        felt_of(trace_info.spec_length()),
        felt_of(options.spec_num_queries()),
        felt_of(options.spec_blowup_factor()),
        felt_of(options.spec_grinding_factor()),
        felt_of(options.spec_field_extension().spec_degree()),
        felt_of(options.spec_fri_folding_factor()),
        felt_of(options.spec_fri_remainder_max_degree()),
    ]
}

impl Context {
    /// Serializes the context as field elements for seeding the transcript.
    pub fn to_elements(&self) -> (r: Vec<Felt>)
        ensures
            r@ == spec_context_elements(self.trace_info, self.options),
    {
        let mut elements: Vec<Felt> = Vec::new();
        push_small(&mut elements, self.trace_info.main_trace_width() as u64);
        push_small(&mut elements, self.trace_info.aux_trace_width() as u64);
        push_small(&mut elements, self.trace_info.length() as u64);
        push_small(&mut elements, self.options.num_queries() as u64);
        push_small(&mut elements, self.options.blowup_factor() as u64);
        push_small(&mut elements, self.options.grinding_factor() as u64);
        push_small(&mut elements, self.options.field_extension().degree() as u64);
        push_small(&mut elements, self.options.fri_folding_factor() as u64);
        push_small(&mut elements, self.options.fri_remainder_max_degree() as u64);
        proof {
            assert(elements@ =~= spec_context_elements(self.trace_info, self.options));
        }
        elements
    }
}

/// Appends a small integer as a field element.
fn push_small(elements: &mut Vec<Felt>, value: u64)
    requires
        value < MODULUS,
    ensures
        final(elements)@ == old(elements)@.push(felt_of(value as int)),
{
    let f = Felt::from_reduced(value);
    proof {
        lemma_felt_of_roundtrip(f);
    }
    elements.push(f);
}

/// One segment's queried openings: the opened rows (one per unique query
/// position, in ascending position order) and the aggregated Merkle
/// authentication data binding them to the segment's commitment.
pub struct Queries {
    /// The opened rows.
    pub rows: Vec<Vec<Felt>>,
    /// The aggregated authentication-path layers.
    pub proof_nodes: Vec<Vec<Digest>>,
    /// The depth of the opened leaves.
    pub proof_depth: u8,
}

/// A proof transcript: everything the prover sends, consumed whole by the
/// verifier.
pub struct StarkProof {
    /// The proof context.
    pub context: Context,
    /// The trace segment commitments: the main segment's, then the
    /// auxiliary segment's when there is one.
    pub trace_commitments: Vec<Digest>,
    /// The constraint-composition commitment.
    pub constraint_commitment: Digest,
    /// The out-of-domain frame.
    pub ood_frame: OodFrame,
    /// The queried trace openings, one `Queries` per trace segment.
    pub trace_queries: Vec<Queries>,
    /// The queried constraint-composition openings.
    pub constraint_queries: Queries,
    /// The low-degree-test layer commitments.
    pub fri_commitments: Vec<Digest>,
    /// The low-degree-test opening proofs, opaque to this engine.
    pub fri_proof_bytes: Vec<u8>,
    /// The proof-of-work nonce.
    pub pow_nonce: u64,
}

/// The security level a parameter set provides over a trace of the given
/// length. The field contributes its bit size times the extension degree,
/// less the logarithm of the evaluation domain; the queries contribute
/// log2(blowup) bits each under the conjectured bound and one bit less
/// each under the proven bound; grinding bits add on top; the hash caps
/// everything at its 128-bit collision resistance.
pub open spec fn spec_security_level(
    trace_length: int,
    options: ProofOptions,
    conjectured: bool,
) -> int {
    let lde = trace_length * options.spec_blowup_factor();
    let field_security = 62 * options.spec_field_extension().spec_degree() - spec_log2(
        lde as nat,
    );
    let per_query = if conjectured {
        spec_log2(options.spec_blowup_factor() as nat) as int
    } else {
        spec_log2(options.spec_blowup_factor() as nat) as int - 1
    };
    let query_security = options.spec_num_queries() * per_query
        + options.spec_grinding_factor();
    let unclamped = if field_security <= query_security {
        field_security
    } else {
        query_security
    };
    if unclamped >= 128 {
        128int
    } else if unclamped <= 0 {
        0int
    } else {
        unclamped
    }
}

impl StarkProof {
    /// The security level this proof's parameters provide: the conjectured
    /// bound, or the (lower) proven bound.
    pub fn security_level(&self, conjectured: bool) -> (r: u32)
        ensures
            r as int == spec_security_level(
                self.context.trace_info.spec_length(),
                self.context.options,
                conjectured,
            ),
    {
        let n = self.context.trace_info.length();
        let blowup = self.context.options.blowup_factor();
        proof {
            vstd::arithmetic::power2::lemma2_to64();
            if blowup == 2 {
                assert(blowup == pow2(1));
            } else if blowup == 4 {
                assert(blowup == pow2(2));
            } else if blowup == 8 {
                assert(blowup == pow2(3));
            } else if blowup == 16 {
                assert(blowup == pow2(4));
            } else if blowup == 32 {
                assert(blowup == pow2(5));
            } else if blowup == 64 {
                assert(blowup == pow2(6));
            } else {
                assert(blowup == pow2(7));
            }
        }
        let log_blowup = crate::felt::log2_exact(blowup);
        proof {
            vstd::arithmetic::power2::lemma2_to64();
            crate::felt::lemma_log2_pow2(log_blowup as nat);
            if log_blowup == 0 {
                assert(blowup == 1);
            }
            assert(n * blowup <= 0x100_0000int * 128) by (nonlinear_arith)
                requires
                    0 <= n <= 0x100_0000,
                    0 <= blowup <= 128,
            ;
            assert(n * blowup >= 16) by (nonlinear_arith)
                requires
                    n >= 8,
                    blowup >= 2,
            ;
        }
        let lde = n * blowup;
        proof {
            let k0 = choose|k: nat| n == pow2(k);
            vstd::arithmetic::power2::lemma_pow2_adds(k0, log_blowup as nat);
            crate::felt::lemma_log2_pow2(k0 + log_blowup as nat);
            assert(lde == pow2(k0 + log_blowup as nat));
        }
        let log_lde = crate::felt::log2_exact(lde);
        let ext_degree = self.context.options.field_extension().degree();
        let field_security: u64 = 62u64 * (ext_degree as u64) - (log_lde as u64);
        let per_query: u64 = if conjectured {
            log_blowup as u64
        } else {
            (log_blowup - 1) as u64
        };
        let num_queries = self.context.options.num_queries();
        let grinding = self.context.options.grinding_factor();
        proof {
            assert(num_queries as int * per_query as int <= 255 * 31) by (nonlinear_arith)
                requires
                    0 <= num_queries <= 255,
                    0 <= per_query <= 31,
            ;
        }
        let query_security: u64 = (num_queries as u64) * per_query + (grinding as u64);
        let unclamped: u64 = if field_security <= query_security {
            field_security
        } else {
            query_security
        };
        if unclamped >= 128 {
            128
        } else {
            unclamped as u32
        }
    }
}

/// The verdict the policy gives on a parameter set: acceptance, or the
/// exact shortfall.
pub open spec fn spec_validate(
    policy: AcceptableOptions,
    trace_length: int,
    options: ProofOptions,
) -> Result<(), VerifierError> {
    match policy {
        AcceptableOptions::MinConjecturedSecurity(min_security) => {
            let level = spec_security_level(trace_length, options, true);
            if level >= min_security {
                Ok(())
            } else {
                Err(VerifierError::InsufficientConjecturedSecurity(min_security, level as u32))
            }
        },
        AcceptableOptions::MinProvenSecurity(min_security) => {
            let level = spec_security_level(trace_length, options, false);
            if level >= min_security {
                Ok(())
            } else {
                Err(VerifierError::InsufficientProvenSecurity(min_security, level as u32))
            }
        },
        AcceptableOptions::OptionSet(allowed) => {
            if exists|i: int| 0 <= i < allowed@.len() && allowed@[i] == options {
                Ok(())
            } else {
                Err(VerifierError::UnacceptableProofOptions)
            }
        },
    }
}

/// The policy checked against a proof's declared parameters before any
/// cryptographic work: a minimum conjectured security level, a minimum
/// proven security level, or an explicit allow-list of parameter sets.
pub enum AcceptableOptions {
    /// The minimal acceptable conjectured security level, in bits.
    MinConjecturedSecurity(u32),
    /// The minimal acceptable proven security level, in bits.
    MinProvenSecurity(u32),
    /// The exact parameter sets that are acceptable.
    OptionSet(Vec<ProofOptions>),
}

impl AcceptableOptions {
    /// Checks that a proof was generated with an acceptable parameter set:
    /// its security level reaches the configured floor, or its parameters
    /// are listed; the error names the exact shortfall.
    pub fn validate(&self, proof: &StarkProof) -> (r: Result<(), VerifierError>)
        ensures
            r == spec_validate(
                *self,
                proof.context.trace_info.spec_length(),
                proof.context.options,
            ),
    {
        match self {
            AcceptableOptions::MinConjecturedSecurity(min_security) => {
                let proof_security = proof.security_level(true);
                if proof_security < *min_security {
                    return Err(VerifierError::InsufficientConjecturedSecurity(
                        *min_security,
                        proof_security,
                    ));
                }
            },
            AcceptableOptions::MinProvenSecurity(min_security) => {
                let proof_security = proof.security_level(false);
                if proof_security < *min_security {
                    return Err(VerifierError::InsufficientProvenSecurity(
                        *min_security,
                        proof_security,
                    ));
                }
            },
            AcceptableOptions::OptionSet(allowed) => {
                let mut i: usize = 0;
                let mut found = false;
                while i < allowed.len()
                    invariant
                        i <= allowed@.len(),
                        found == exists|j: int|
                            0 <= j < i && allowed@[j] == proof.context.options,
                    decreases allowed@.len() - i,
                {
                    if allowed[i] == proof.context.options {
                        found = true;
                    }
                    i = i + 1;
                }
                if !found {
                    return Err(VerifierError::UnacceptableProofOptions);
                }
            },
        }
        Ok(())
    }
}

} // verus!
