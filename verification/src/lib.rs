//! Verification engine for a STARK proof protocol.
//!
//! Given a proof transcript, a description of a computation's algebraic
//! constraints, and public inputs, the library decides whether the transcript
//! attests to a correct execution of the computation. It covers the
//! public-coin (Fiat-Shamir) transcript discipline, the out-of-domain frame
//! wire codec, the constraint evaluator, the DEEP composer, and the
//! verification orchestrator. The low-degree test itself is an external
//! collaborator consumed at the module boundary.

pub mod air;
pub mod channel;
pub mod coin;
pub mod composer;
pub mod digest;
pub mod errors;
pub mod evaluator;
pub mod felt;
pub mod frame;
pub mod lagrange;
pub mod ood_frame;
pub mod stark_proof;
pub mod orchestrator;

pub use air::{
    Air, AirContext, Assertion, ConstraintCompositionCoefficients, DeepCompositionCoefficients,
    FieldExtension, ProofOptions, TraceInfo, TransitionConstraintDegree,
};
pub use errors::VerifierError;
pub use evaluator::evaluate_constraints;
pub use orchestrator::{verify, AuxTraceVerifier, DefaultAuxTraceVerifier, VerificationHandoff};
pub use stark_proof::{AcceptableOptions, StarkProof};

use vstd::prelude::*;

verus! {

} // verus!
