//! The verifier channel: hands the proof's contents to the orchestrator in
//! protocol order, and checks queried openings against the commitments.
//!
//! Whether an opening matches a commitment is decided by the Merkle
//! machinery of `winter-crypto`, an external collaborator consumed as an
//! opaque capability: the channel validates all shapes itself and promises,
//! on success, exactly which values it handed out.

use vstd::prelude::*;
use crate::air::Air;
use crate::digest::{hash_felts, Digest};
use crate::errors::{DeserializationError, VerifierError};
use crate::felt::Felt;
use crate::ood_frame::OodFrameTraceStates;
use crate::stark_proof::{Queries, StarkProof};

verus! {

use winter_utils::Deserializable;
use crate::digest::{blake3_of, felts_to_bytes};

/// Whether the aggregated Merkle authentication paths, with the given leaf
/// digests and depth, resolve to the given root for the given indexes — the
/// decision `winter_crypto::MerkleTree::verify_batch` computes, a pure
/// function of these arguments.
pub uninterp spec fn merkle_ok(
    root: Seq<u8>,
    indexes: Seq<usize>,
    leaves: Seq<Seq<u8>>,
    nodes: Seq<Seq<Seq<u8>>>,
    depth: u8,
) -> bool;

/// The byte view of a digest table.
pub open spec fn spec_digests(digests: Seq<Digest>) -> Seq<Seq<u8>> {
    digests.map_values(|d: Digest| d@)
}

/// The byte view of the authentication-path layers.
pub open spec fn spec_node_layers(nodes: Seq<Vec<Digest>>) -> Seq<Seq<Seq<u8>>> {
    nodes.map_values(|v: Vec<Digest>| spec_digests(v@))
}

/// Relies on `winter_crypto::MerkleTree::verify_batch`: resolves the
/// aggregated authentication paths against the leaf digests and compares
/// the resulting root with the commitment. The depth bound keeps the
/// source's `2^depth` leaf-count computation inside the machine word.
#[verifier::external_body]
fn merkle_verify_batch(
    root: &Digest,
    indexes: &Vec<usize>,
    leaves: &Vec<Digest>,
    nodes: &Vec<Vec<Digest>>,
    depth: u8,
) -> (r: bool)
    requires
        depth < 64,
    ensures
        r == merkle_ok(root@, indexes@, spec_digests(leaves@), spec_node_layers(nodes@), depth),
{
    let proof = winter_crypto::BatchMerkleProof::<
        winter_crypto::hashers::Blake3_256<winter_math::fields::f62::BaseElement>,
    > {
        leaves: leaves.iter().map(|d| Deserializable::read_from_bytes(d.as_bytes()).unwrap()).collect(),
        nodes: nodes.iter().map(|v| v.iter().map(|d| Deserializable::read_from_bytes(d.as_bytes()).unwrap()).collect()).collect(),
        depth,
    };
    let root = Deserializable::read_from_bytes(root.as_bytes()).unwrap();
    winter_crypto::MerkleTree::verify_batch(&root, indexes, &proof).is_ok()
}

/// The leaf digests of a row table: each row hashed as field elements.
pub open spec fn spec_row_leaves(rows: Seq<Vec<Felt>>) -> Seq<Seq<u8>> {
    rows.map_values(|row: Vec<Felt>| blake3_of(felts_to_bytes(row@)))
}

/// Hashes each opened row into its leaf digest.
fn hash_rows(rows: &Vec<Vec<Felt>>) -> (r: Vec<Digest>)
    ensures
        r@.len() == rows@.len(),
        spec_digests(r@) == spec_row_leaves(rows@),
{
    let mut leaves: Vec<Digest> = Vec::new();
    let mut i: usize = 0;
    while i < rows.len()
        invariant
            i <= rows@.len(),
            leaves@.len() == i,
            forall|j: int|
                0 <= j < i ==> (#[trigger] leaves@[j])@ == blake3_of(felts_to_bytes(
                    (rows@[j])@,
                )),
        decreases rows@.len() - i,
    {
        leaves.push(hash_felts(&rows[i]));
        i = i + 1;
    }
    proof {
        assert(spec_digests(leaves@) =~= spec_row_leaves(rows@));
    }
    leaves
}

/// Whether one segment's queried openings are acceptable: one opened row of
/// the declared width per query position, a representable proof depth, and
/// leaf hashes that resolve to the segment's commitment.
pub open spec fn spec_queries_ok(
    queries: Queries,
    commitment: Digest,
    positions: Seq<usize>,
    row_width: int,
) -> bool {
    &&& queries.rows@.len() == positions.len()
    &&& forall|i: int|
        0 <= i < queries.rows@.len() ==> (#[trigger] queries.rows@[i])@.len() == row_width
    &&& queries.proof_depth < 64
    &&& merkle_ok(
        commitment@,
        positions,
        spec_row_leaves(queries.rows@),
        spec_node_layers(queries.proof_nodes@),
        queries.proof_depth,
    )
}

/// Checks one segment's queried openings, deciding exactly
/// `spec_queries_ok`: every opened row must have the declared width, there
/// must be one row per query position, the proof depth must be
/// representable, and the rows must resolve to the segment's commitment.
fn check_queries(
    queries: &Queries,
    commitment: &Digest,
    positions: &Vec<usize>,
    row_width: usize,
) -> (r: bool)
    ensures
        r == spec_queries_ok(*queries, *commitment, positions@, row_width as int),
{
    if queries.rows.len() != positions.len() {
        return false;
    }
    let mut i: usize = 0;
    while i < queries.rows.len()
        invariant
            i <= queries.rows@.len(),
            forall|j: int|
                0 <= j < i ==> (#[trigger] queries.rows@[j])@.len() == row_width,
        decreases queries.rows@.len() - i,
    {
        if queries.rows[i].len() != row_width {
            return false;
        }
        i = i + 1;
    }
    if queries.proof_depth >= 64 {
        return false;
    }
    let leaves = hash_rows(&queries.rows);
    merkle_verify_batch(commitment, positions, &leaves, &queries.proof_nodes, queries.proof_depth)
}

/// Copies a row table.
fn copy_rows(rows: &Vec<Vec<Felt>>) -> (r: Vec<Vec<Felt>>)
    ensures
        r@.len() == rows@.len(),
        forall|i: int| 0 <= i < rows@.len() ==> (#[trigger] r@[i])@ == (rows@[i])@,
{
    let mut out: Vec<Vec<Felt>> = Vec::new();
    let mut i: usize = 0;
    while i < rows.len()
        invariant
            i <= rows@.len(),
            out@.len() == i,
            forall|j: int| 0 <= j < i ==> (#[trigger] out@[j])@ == (rows@[j])@,
        decreases rows@.len() - i,
    {
        let row = vstd::slice::slice_to_vec(rows[i].as_slice());
        out.push(row);
        i = i + 1;
    }
    out
}

/// The outcome the channel constructor determines for a proof: the decoded
/// out-of-domain regions, or the exact error. A proof is refused when it
/// does not carry one commitment and one query set per trace segment, when
/// its out-of-domain frame fails to decode for the computation's widths, or
/// when the Lagrange-kernel sequence is absent, spurious, or of the wrong
/// length for the computation.
pub open spec fn spec_channel_result<A: Air>(air: A, proof: StarkProof) -> Result<
    (Seq<Felt>, Seq<Felt>, Option<Seq<Felt>>, Seq<Felt>),
    VerifierError,
> {
    let ctx = air.spec_context();
    let main_w = ctx.spec_trace_info().spec_main_width();
    let aux_w = ctx.spec_trace_info().spec_aux_width();
    let num_segments: int = if aux_w > 0 {
        2int
    } else {
        1int
    };
    if proof.trace_commitments@.len() != num_segments || proof.trace_queries@.len()
        != num_segments {
        Err(VerifierError::ProofDeserializationError(DeserializationError::InvalidValue))
    } else {
        match proof.ood_frame.spec_parse(
            main_w,
            aux_w,
            ctx.spec_num_constraint_composition_columns(),
        ) {
            Err(e) => Err(VerifierError::ProofDeserializationError(e)),
            Ok(decoded) => {
                let (cur, nxt, lagrange, evals) = decoded;
                let lagrange_shape_ok = (lagrange is Some
                    <==> ctx.spec_lagrange_kernel_aux_column_idx() is Some) && match lagrange {
                    Some(l) => l.len() == crate::felt::spec_log2(
                        ctx.spec_trace_info().spec_length() as nat,
                    ) + 1,
                    None => true,
                };
                if lagrange_shape_ok {
                    Ok(decoded)
                } else {
                    Err(
                        VerifierError::ProofDeserializationError(
                            DeserializationError::InvalidValue,
                        ),
                    )
                }
            },
        }
    }
}

/// The channel through which the orchestrator reads the prover's messages.
pub struct VerifierChannel {
    trace_commitments: Vec<Digest>,
    constraint_commitment: Digest,
    ood_trace_frame: OodFrameTraceStates,
    ood_constraint_evaluations: Vec<Felt>,
    trace_queries: Vec<Queries>,
    constraint_queries: Queries,
    pow_nonce: u64,
    main_width: usize,
    aux_width: usize,
    num_constraint_columns: usize,
}

impl VerifierChannel {
    #[verifier::type_invariant]
    spec fn type_inv(self) -> bool {
        &&& self.trace_commitments@.len() == self.trace_queries@.len()
        &&& 1 <= self.trace_commitments@.len() <= 2
    }

    /// The trace commitments.
    pub closed spec fn spec_trace_commitments(&self) -> Seq<Digest> {
        self.trace_commitments@
    }

    /// The constraint commitment.
    pub closed spec fn spec_constraint_commitment(&self) -> Digest {
        self.constraint_commitment
    }

    /// The decoded out-of-domain trace frame.
    pub closed spec fn spec_ood_trace_frame(&self) -> OodFrameTraceStates {
        self.ood_trace_frame
    }

    /// The decoded out-of-domain constraint evaluations.
    pub closed spec fn spec_ood_constraint_evaluations(&self) -> Seq<Felt> {
        self.ood_constraint_evaluations@
    }

    /// The queried trace openings, one per segment.
    pub closed spec fn spec_trace_queries(&self) -> Seq<Queries> {
        self.trace_queries@
    }

    /// The queried constraint openings.
    pub closed spec fn spec_constraint_queries(&self) -> Queries {
        self.constraint_queries
    }

    /// The proof-of-work nonce.
    pub closed spec fn spec_pow_nonce(&self) -> u64 {
        self.pow_nonce
    }

    /// Builds the channel from a proof, succeeding and failing exactly as
    /// `spec_channel_result` determines: the proof must carry one
    /// commitment and one query set per trace segment, its out-of-domain
    /// frame must decode for the computation's widths, and the
    /// Lagrange-kernel sequence must be present exactly when the
    /// computation has a Lagrange-kernel column, with length
    /// log2(trace length) + 1.
    pub fn new<A: Air>(air: &A, proof: StarkProof) -> (r: Result<VerifierChannel, VerifierError>)
        ensures
            match spec_channel_result(*air, proof) {
                Ok(decoded) => r is Ok && {
                    let channel = r->Ok_0;
                    let ctx = air.spec_context();
                    let main_w = ctx.spec_trace_info().spec_main_width();
                    let aux_w = ctx.spec_trace_info().spec_aux_width();
                    let (cur, nxt, lagrange, evals) = decoded;
                    &&& channel.spec_trace_commitments() == proof.trace_commitments@
                    &&& channel.spec_trace_commitments().len() == (if aux_w > 0 {
                        2int
                    } else {
                        1int
                    })
                    &&& channel.spec_trace_queries() == proof.trace_queries@
                    &&& channel.spec_trace_queries().len()
                        == channel.spec_trace_commitments().len()
                    &&& channel.spec_constraint_queries() == proof.constraint_queries
                    &&& channel.spec_constraint_commitment() == proof.constraint_commitment
                    &&& channel.spec_pow_nonce() == proof.pow_nonce
                    &&& channel.spec_ood_trace_frame().curr() == cur
                    &&& channel.spec_ood_trace_frame().nxt() == nxt
                    &&& channel.spec_ood_trace_frame().main_width() == main_w
                    &&& channel.spec_ood_trace_frame().lagrange() == lagrange
                    &&& channel.spec_ood_constraint_evaluations() == evals
                    &&& channel.spec_ood_constraint_evaluations().len()
                        == ctx.spec_num_constraint_composition_columns()
                    &&& (ctx.spec_lagrange_kernel_aux_column_idx() is Some
                        <==> channel.spec_ood_trace_frame().lagrange() is Some)
                    &&& match channel.spec_ood_trace_frame().lagrange() {
                        Some(l) => l.len() == crate::felt::spec_log2(
                            ctx.spec_trace_info().spec_length() as nat,
                        ) + 1,
                        None => true,
                    }
                },
                Err(e) => r == Err::<VerifierChannel, VerifierError>(e),
            },
    {
        let ctx = air.context();
        let main_width = ctx.trace_info().main_trace_width();
        let aux_width = ctx.trace_info().aux_trace_width();
        let num_constraint_columns = ctx.num_constraint_composition_columns();
        let num_segments: usize = if aux_width > 0 {
            2
        } else {
            1
        };
        if proof.trace_commitments.len() != num_segments {
            return Err(VerifierError::ProofDeserializationError(
                DeserializationError::InvalidValue,
            ));
        }
        if proof.trace_queries.len() != num_segments {
            return Err(VerifierError::ProofDeserializationError(
                DeserializationError::InvalidValue,
            ));
        }
        let (ood_trace_frame, ood_constraint_evaluations) = match proof.ood_frame.parse(
            main_width,
            aux_width,
            num_constraint_columns,
        ) {
            Ok(decoded) => decoded,
            Err(e) => {
                return Err(VerifierError::ProofDeserializationError(e));
            },
        };
        // the Lagrange-kernel sequence must be present exactly when the
        // computation declares a Lagrange-kernel column, and must hold one
        // evaluation per doubling of the trace plus the base point
        let n = ctx.trace_len();
        let log_n = crate::felt::log2_exact(n);
        let expected_lagrange_len = (log_n + 1) as usize;
        match ood_trace_frame.lagrange_kernel_frame() {
            Some(l) => {
                if ctx.lagrange_kernel_aux_column_idx().is_none() {
                    return Err(VerifierError::ProofDeserializationError(
                        DeserializationError::InvalidValue,
                    ));
                }
                if l.len() != expected_lagrange_len {
                    return Err(VerifierError::ProofDeserializationError(
                        DeserializationError::InvalidValue,
                    ));
                }
            },
            None => {
                if ctx.lagrange_kernel_aux_column_idx().is_some() {
                    return Err(VerifierError::ProofDeserializationError(
                        DeserializationError::InvalidValue,
                    ));
                }
            },
        }
        proof {
            crate::felt::lemma_log2_pow2(log_n as nat);
        }
        Ok(
            VerifierChannel {
                trace_commitments: proof.trace_commitments,
                constraint_commitment: proof.constraint_commitment,
                ood_trace_frame,
                ood_constraint_evaluations,
                trace_queries: proof.trace_queries,
                constraint_queries: proof.constraint_queries,
                pow_nonce: proof.pow_nonce,
                main_width,
                aux_width,
                num_constraint_columns,
            },
        )
    }

    /// The trace commitments, main segment first.
    pub fn read_trace_commitments(&self) -> (r: &Vec<Digest>)
        ensures
            r@ == self.spec_trace_commitments(),
    {
        &self.trace_commitments
    }

    /// The constraint-composition commitment.
    pub fn read_constraint_commitment(&self) -> (r: Digest)
        ensures
            r@ == self.spec_constraint_commitment()@,
    {
        self.constraint_commitment.clone()
    }

    /// The decoded out-of-domain trace frame.
    pub fn read_ood_trace_frame(&self) -> (r: &OodFrameTraceStates)
        ensures
            *r == self.spec_ood_trace_frame(),
    {
        &self.ood_trace_frame
    }

    /// The out-of-domain constraint-composition evaluations.
    pub fn read_ood_constraint_evaluations(&self) -> (r: &Vec<Felt>)
        ensures
            r@ == self.spec_ood_constraint_evaluations(),
    {
        &self.ood_constraint_evaluations
    }

    /// The proof-of-work nonce.
    pub fn read_pow_nonce(&self) -> (r: u64)
        ensures
            r == self.spec_pow_nonce(),
    {
        self.pow_nonce
    }

    /// Reads the queried trace rows for the given positions, after checking
    /// each segment's openings against its commitment: it succeeds exactly
    /// when every segment's openings are acceptable, and then the rows
    /// handed out are exactly the proof's opened rows, one per position,
    /// each of its segment's width.
    pub fn read_queried_trace_states(
        &self,
        positions: &Vec<usize>,
        main_width: usize,
        aux_width: usize,
    ) -> (r: Result<(Vec<Vec<Felt>>, Option<Vec<Vec<Felt>>>), VerifierError>)
        requires
            self.spec_trace_queries().len() == (if aux_width > 0 {
                2int
            } else {
                1int
            }),
        ensures
            r is Ok <==> spec_queries_ok(
                self.spec_trace_queries()[0],
                self.spec_trace_commitments()[0],
                positions@,
                main_width as int,
            ) && (aux_width > 0 ==> spec_queries_ok(
                self.spec_trace_queries()[1],
                self.spec_trace_commitments()[1],
                positions@,
                aux_width as int,
            )),
            match r {
                Ok((main_rows, aux_rows)) => {
                    &&& main_rows@.len() == positions@.len()
                    &&& forall|i: int|
                        0 <= i < main_rows@.len() ==> (#[trigger] main_rows@[i])@.len()
                            == main_width
                    &&& forall|i: int|
                        0 <= i < main_rows@.len() ==> (#[trigger] main_rows@[i])@ == (
                        self.spec_trace_queries()[0].rows@[i])@
                    &&& (aux_rows is Some <==> aux_width > 0)
                    &&& match aux_rows {
                        Some(aux) => aux@.len() == positions@.len() && forall|i: int|
                            0 <= i < aux@.len() ==> (#[trigger] aux@[i])@.len() == aux_width && (
                            aux@[i])@ == (self.spec_trace_queries()[1].rows@[i])@,
                        None => true,
                    }
                },
                Err(e) => e == VerifierError::TraceQueryDoesNotMatchCommitment,
            },
    {
        proof {
            use_type_invariant(self);
        }
        if !check_queries(&self.trace_queries[0], &self.trace_commitments[0], positions, main_width
        ) {
            return Err(VerifierError::TraceQueryDoesNotMatchCommitment);
        }
        let main_rows = copy_rows(&self.trace_queries[0].rows);
        if aux_width > 0 {
            if !check_queries(
                &self.trace_queries[1],
                &self.trace_commitments[1],
                positions,
                aux_width,
            ) {
                return Err(VerifierError::TraceQueryDoesNotMatchCommitment);
            }
            let aux_rows = copy_rows(&self.trace_queries[1].rows);
            Ok((main_rows, Some(aux_rows)))
        } else {
            Ok((main_rows, None))
        }
    }

    /// Reads the queried constraint-composition rows for the given
    /// positions, after checking them against the constraint commitment:
    /// it succeeds exactly when those openings are acceptable.
    pub fn read_constraint_evaluations(&self, positions: &Vec<usize>, num_columns: usize) -> (r:
        Result<Vec<Vec<Felt>>, VerifierError>)
        ensures
            r is Ok <==> spec_queries_ok(
                self.spec_constraint_queries(),
                self.spec_constraint_commitment(),
                positions@,
                num_columns as int,
            ),
            match r {
                Ok(rows) => {
                    &&& rows@.len() == positions@.len()
                    &&& forall|i: int|
                        0 <= i < rows@.len() ==> (#[trigger] rows@[i])@.len() == num_columns && (
                        rows@[i])@ == (self.spec_constraint_queries().rows@[i])@
                },
                Err(e) => e == VerifierError::ConstraintQueryDoesNotMatchCommitment,
            },
    {
        if !check_queries(
            &self.constraint_queries,
            &self.constraint_commitment,
            positions,
            num_columns,
        ) {
            return Err(VerifierError::ConstraintQueryDoesNotMatchCommitment);
        }
        Ok(copy_rows(&self.constraint_queries.rows))
    }

    /// The number of trace commitments (and query sets).
    pub fn num_trace_segments(&self) -> (r: usize)
        ensures
            r == self.spec_trace_commitments().len(),
    {
        self.trace_commitments.len()
    }
}

} // verus!
