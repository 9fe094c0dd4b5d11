//! The constraint evaluator and the DEEP composer on concrete values.

use stark_verifier::air::{
    Air, ConstraintCompositionCoefficients, DeepCompositionCoefficients, FieldExtension,
    ProofOptions, TraceInfo,
};
use stark_verifier::composer::DeepComposer;
use stark_verifier::evaluator::evaluate_constraints;
use stark_verifier::felt::Felt;
use stark_verifier::frame::EvaluationFrame;
use stark_verifier::lagrange::LagrangeKernelComplexAir;

fn felts(values: &[u64]) -> Vec<Felt> {
    values.iter().map(|v| Felt::new(*v)).collect()
}

fn example_air() -> LagrangeKernelComplexAir {
    let options = ProofOptions::new(1, 2, 0, FieldExtension::Base, 2, 1);
    let trace_info = TraceInfo::new_multi_segment(1, 2, 8, Vec::new());
    LagrangeKernelComplexAir::new(trace_info, Vec::new(), options)
}

fn unit_coefficients() -> ConstraintCompositionCoefficients {
    ConstraintCompositionCoefficients {
        transition: felts(&[1, 1]),
        boundary: felts(&[1, 1]),
        lagrange_kernel_transition: felts(&[1, 1, 1]),
        lagrange_kernel_boundary: Some(Felt::new(1)),
    }
}

/// A Lagrange frame on which every Lagrange-kernel constraint vanishes:
/// the first coordinate is the product of (1 - r_i), and each further
/// coordinate satisfies frame[k+1] = frame[0] * r_k / (1 - r_k).
fn consistent_lagrange_frame(rand: &[Felt]) -> Vec<Felt> {
    let one = Felt::new(1);
    let mut first = one;
    for r in rand {
        first = first.mul(one.sub(*r));
    }
    let mut frame = vec![first];
    for r in rand {
        frame.push(first.mul(*r).div(one.sub(*r)));
    }
    frame
}

#[test]
fn consistent_frames_evaluate_to_zero() {
    let air = example_air();
    let rand = felts(&[2, 3, 4]);
    let main_frame = EvaluationFrame::from_rows(felts(&[0]), felts(&[1]));
    let aux_frame = Some(EvaluationFrame::from_rows(felts(&[5, 0]), felts(&[6, 7])));
    let lagrange = consistent_lagrange_frame(&rand);
    let result = evaluate_constraints(
        &air,
        unit_coefficients(),
        &main_frame,
        &aux_frame,
        Some(&lagrange),
        &rand,
        Felt::new(2),
    );
    assert_eq!(result.as_int(), 0);
}

#[test]
fn broken_boundary_shows_up_exactly() {
    let air = example_air();
    let rand = felts(&[2, 3, 4]);
    let main_frame = EvaluationFrame::from_rows(felts(&[0]), felts(&[1]));
    // the asserted auxiliary column now holds 5 instead of 0: with unit
    // coefficients and x = 2 the only non-zero term is 5 / (x - g^0) = 5
    let aux_frame = Some(EvaluationFrame::from_rows(felts(&[5, 5]), felts(&[6, 7])));
    let lagrange = consistent_lagrange_frame(&rand);
    let result = evaluate_constraints(
        &air,
        unit_coefficients(),
        &main_frame,
        &aux_frame,
        Some(&lagrange),
        &rand,
        Felt::new(2),
    );
    assert_eq!(result.as_int(), 5);
}

#[test]
fn deep_composition_on_concrete_values() {
    let air = example_air();
    let positions: Vec<usize> = vec![0];
    // at position 0 the domain coordinate is the offset itself: x = 3
    let z = Felt::new(0);
    let cc = DeepCompositionCoefficients { trace: felts(&[1, 1, 1]), constraints: felts(&[1]) };
    let composer = DeepComposer::new(&air, &positions, z, cc);

    // main column: row value 4 against out-of-domain values 1 and 1:
    // (4-1)/3 + (4-1)/3 = 2; the auxiliary columns match their frames and
    // contribute nothing
    let queried_main = vec![felts(&[4])];
    let queried_aux = Some(vec![felts(&[2, 5])]);
    let ood_main = EvaluationFrame::from_rows(felts(&[1]), felts(&[1]));
    let ood_aux = Some(EvaluationFrame::from_rows(felts(&[2, 5]), felts(&[2, 5])));
    let t = composer.compose_trace_columns(&queried_main, &queried_aux, &ood_main, &ood_aux);
    assert_eq!(t.len(), 1);
    assert_eq!(t[0].as_int(), 2);

    // constraint column: (9 - 7) / (3 - 0) ... with z = 0 the pole is x
    // itself; choose the numerator as x - z = 3 to get exactly 1
    let c = composer.compose_constraint_evaluations(&vec![felts(&[10])], &felts(&[7]));
    assert_eq!(c.len(), 1);
    assert_eq!(c[0].as_int(), 1);

    let combined = composer.combine_compositions(t, c);
    assert_eq!(combined.len(), 1);
    assert_eq!(combined[0].as_int(), 3);
}
