//! Error values surfaced by the verification engine.
//!
//! Every failure is terminal and non-retryable: a verification run either
//! succeeds or stops at the first failing step with one of these values.

use vstd::prelude::*;

verus! {

/// A wire-encoded region could not be decoded.
#[derive(Clone, Copy, PartialEq, Eq, Structural, Debug)]
pub enum DeserializationError {
    /// The region ended before the declared content was read.
    UnexpectedEof,
    /// Bytes remained after the declared content was decoded.
    UnconsumedBytes,
    /// A decoded value does not denote a field element.
    InvalidValue,
}

/// The public coin could not derive a valid value from its current state.
#[derive(Clone, Copy, PartialEq, Eq, Structural, Debug)]
pub enum RandomCoinError {
    /// No candidate mapped into the field within the allowed number of tries.
    FailedToDrawFieldElement,
    /// The requested number of integers exceeds the allowed number of tries.
    FailedToDrawIntegers,
}

/// A write-once region of the out-of-domain frame was used incorrectly.
#[derive(Clone, Copy, PartialEq, Eq, Structural, Debug)]
pub enum OodFrameError {
    /// The trace-state region was already set.
    TraceStatesAlreadySet,
    /// The constraint-evaluation region was already set.
    EvaluationsAlreadySet,
    /// An empty constraint-evaluation sequence was supplied.
    EmptyEvaluations,
}

/// The reasons a proof can be rejected.
#[derive(Clone, PartialEq, Eq, Debug)]
pub enum VerifierError {
    /// The proof's conjectured security is below the configured floor;
    /// carries the required and the actual level.
    InsufficientConjecturedSecurity(u32, u32),
    /// The proof's proven security is below the configured floor; carries
    /// the required and the actual level.
    InsufficientProvenSecurity(u32, u32),
    /// The proof's parameters are not in the configured allow-list.
    UnacceptableProofOptions,
    /// The proof declares a field-extension degree this engine does not
    /// verify: it computes in the base field only.
    UnsupportedFieldExtension,
    /// The public coin failed to derive a valid field element or integer set.
    RandomCoinError,
    /// The out-of-domain frame or another proof region failed to decode.
    ProofDeserializationError(DeserializationError),
    /// The two independently derived out-of-domain constraint evaluations
    /// disagree.
    InconsistentOodConstraintEvaluations,
    /// The proof-of-work nonce does not meet the grinding threshold.
    QuerySeedProofOfWorkVerificationFailed,
    /// The companion auxiliary-trace verifier rejected its obligation;
    /// carries a description of what failed.
    AuxTraceVerificationFailed(String),
    /// A queried trace opening does not match the trace commitment.
    TraceQueryDoesNotMatchCommitment,
    /// A queried constraint opening does not match the constraint commitment.
    ConstraintQueryDoesNotMatchCommitment,
    /// The low-degree test rejected the DEEP evaluations; carries the test
    /// module's own diagnostic.
    FriVerificationFailed(String),
}

} // verus!
