//! The example computation: the incrementing trace and the auxiliary
//! segment built from transcript randomness.

use stark_verifier::coin::PublicCoin;
use stark_verifier::felt::Felt;
use stark_verifier::frame::EvaluationFrame;
use stark_verifier::lagrange::{AuxTraceBuilder, LagrangeComplexProver, LagrangeComplexTrace};
use stark_verifier::orchestrator::{AuxTraceVerifier, DefaultAuxTraceVerifier};

fn felts(values: &[u64]) -> Vec<Felt> {
    values.iter().map(|v| Felt::new(*v)).collect()
}

#[test]
fn trace_holds_the_row_index() {
    let trace = LagrangeComplexTrace::new(1024, 2);
    assert_eq!(trace.len(), 1024);
    assert_eq!(trace.info().main_trace_width(), 1);
    assert_eq!(trace.info().aux_trace_width(), 2);
    let column = trace.main_segment().get_column(0);
    assert_eq!(column.len(), 1024);
    assert_eq!(column[0].as_int(), 0);
    assert_eq!(column[17].as_int(), 17);
    assert_eq!(column[1023].as_int(), 1023);

    let mut frame = EvaluationFrame::from_rows(Vec::new(), Vec::new());
    trace.read_main_frame(41, &mut frame);
    assert_eq!(frame.current()[0].as_int(), 41);
    assert_eq!(frame.next()[0].as_int(), 42);
}

#[test]
fn aux_trace_is_the_lagrange_kernel_of_the_drawn_elements() {
    let trace = LagrangeComplexTrace::new(1024, 2);
    let prover = LagrangeComplexProver::new(2);
    let mut transcript = PublicCoin::new(&felts(&[11, 22, 33]));
    let aux = prover
        .build_aux_trace(trace.main_segment(), &mut transcript)
        .unwrap();

    // one random element per doubling of the trace: log2(1024) = 10
    assert_eq!(aux.aux_rand_eles.len(), 10);
    assert!(aux.aux_proof.is_none());
    assert_eq!(aux.aux_trace.num_cols(), 2);
    assert_eq!(aux.aux_trace.num_rows(), 1024);

    // the first column is the Lagrange kernel: at each row, the product
    // over bits of r_b (bit set) or 1 - r_b (bit clear)
    let one = Felt::new(1);
    let kernel = aux.aux_trace.get_column(0);
    for row in [0usize, 1, 5, 333, 1023] {
        let mut expected = one;
        for (bit, r) in aux.aux_rand_eles.iter().enumerate() {
            if row & (1 << bit) != 0 {
                expected = expected.mul(*r);
            } else {
                expected = expected.mul(one.sub(*r));
            }
        }
        assert_eq!(kernel[row], expected);
    }

    // every further column is the main column scaled by the sum of the
    // random elements
    let mut sum = Felt::new(0);
    for r in &aux.aux_rand_eles {
        sum = sum.add(*r);
    }
    let scaled = aux.aux_trace.get_column(1);
    for row in [0usize, 7, 512] {
        assert_eq!(scaled[row], sum.mul(Felt::new(row as u64)));
    }
}

/// The companion verifier draws exactly the elements the builder drew, in
/// the same order, when both start from the same transcript state.
#[test]
fn companion_verifier_reproduces_the_builder_draws() {
    let trace = LagrangeComplexTrace::new(1024, 2);
    let mut prover = LagrangeComplexProver::new(2);
    let mut build_transcript = PublicCoin::new(&felts(&[1, 2, 3, 4]));
    let aux = AuxTraceBuilder::build_aux_trace(
        &mut prover,
        trace.main_segment(),
        (),
        &mut build_transcript,
    )
    .unwrap();

    let mut verify_transcript = PublicCoin::new(&felts(&[1, 2, 3, 4]));
    let companion = DefaultAuxTraceVerifier::new(10);
    let reproduced = companion
        .generate_aux_rand_elements(&mut verify_transcript)
        .unwrap();
    assert_eq!(reproduced, aux.aux_rand_eles);
}
