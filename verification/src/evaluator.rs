//! The constraint evaluator: combines periodic-column evaluations,
//! transition-constraint evaluations (main, auxiliary, and the optional
//! Lagrange-kernel constraints), and boundary-constraint evaluations into a
//! single scalar at the out-of-domain point.
//!
//! Boundary assertions sharing a step share a divisor; because division
//! distributes over the sum, evaluating them assertion by assertion yields
//! the same scalar as evaluating them group by group.

use vstd::prelude::*;
use crate::air::{Air, Assertion, ConstraintCompositionCoefficients};
use crate::felt::{
    fadd, fdiv, felt_of, fmul, fpow, fsub, spec_log2, Felt, TWO_ADIC_ROOT,
};
use crate::frame::EvaluationFrame;

verus! {

use vstd::arithmetic::power2::pow2;

/// Horner evaluation of a polynomial given by its coefficients, lowest
/// degree first.
pub open spec fn poly_eval(p: Seq<Felt>, x: int) -> int
    decreases p.len(),
{
    if p.len() == 0 {
        0int
    } else {
        fadd(p[0].val(), fmul(x, poly_eval(p.skip(1), x)))
    }
}

/// Relies on `winter_math::polynom::eval`: Horner evaluation of a
/// polynomial over the field.
#[verifier::external_body]
fn poly_eval_raw(p: &Vec<Felt>, x: Felt) -> (r: Felt)
    ensures
        r.val() == poly_eval(p@, x.val()),
{
    let coeffs: Vec<winter_math::fields::f62::BaseElement> =
        p.iter().map(|f| winter_math::fields::f62::BaseElement::new(f.as_int())).collect();
    let e = winter_math::polynom::eval(
        &coeffs,
        winter_math::fields::f62::BaseElement::new(x.as_int()),
    );
    Felt::from_reduced(winter_math::StarkField::as_int(&e))
}

/// Evaluates a polynomial, given by its coefficients lowest degree first,
/// at the point `x`; every periodic column's interpolant is evaluated this
/// way at a power of the out-of-domain point.
pub fn evaluate_polynomial(p: &Vec<Felt>, x: Felt) -> (r: Felt)
    ensures
        r.val() == poly_eval(p@, x.val()),
{
    poly_eval_raw(p, x)
}

/// The generator of the trace domain of the given power-of-two size.
pub open spec fn spec_trace_generator(n: nat) -> int {
    fpow(TWO_ADIC_ROOT as int, pow2((39 - spec_log2(n)) as nat))
}

/// The values of the periodic columns at `x`: each column's polynomial is
/// evaluated at `x` raised to the number of times the column cycles over
/// the trace.
pub open spec fn spec_periodic_values<A: Air>(air: A, x: Felt) -> Seq<Felt> {
    Seq::new(
        air.spec_periodic_columns().len(),
        |i: int|
            felt_of(
                poly_eval(
                    air.spec_periodic_columns()[i],
                    fpow(
                        x.val(),
                        (air.spec_context().spec_trace_info().spec_length() / (
                        air.spec_periodic_columns()[i].len() as int)) as nat,
                    ),
                ),
            ),
    )
}

/// The random linear combination of the first `k` evaluations, weighted by
/// the coefficients starting at `base`.
pub open spec fn sum_weighted(coeffs: Seq<Felt>, base: int, evals: Seq<Felt>, k: nat) -> int
    decreases k,
{
    if k == 0 {
        0int
    } else {
        fadd(
            sum_weighted(coeffs, base, evals, (k - 1) as nat),
            fmul(coeffs[base + k - 1].val(), evals[k - 1].val()),
        )
    }
}

/// The transition divisor at `x`: the trace-domain vanishing polynomial
/// with the last step exempt, (x^n - 1) / (x - g^(n-1)).
pub open spec fn spec_transition_divisor(x: int, n: nat, g: int) -> int {
    fdiv(fsub(fpow(x, n), 1), fsub(x, fpow(g, (n - 1) as nat)))
}

/// The value of Lagrange-kernel transition constraint `k` on a frame
/// [c(z), c(gz), c(g^2 z), c(g^4 z), ...]: c(z) * r_k - c(g^(2^k) z) * (1 - r_k).
pub open spec fn spec_lagrange_transition_eval(frame: Seq<Felt>, rand: Seq<Felt>, k: int) -> int {
    fsub(fmul(frame[0].val(), rand[k].val()), fmul(frame[k + 1].val(), fsub(1, rand[k].val())))
}

/// The combined, divided contribution of the first `k` Lagrange-kernel
/// transition constraints: constraint `j` is divided by x^(2^(v-j-1)) - 1,
/// where `v` is the number of constraints.
pub open spec fn spec_lagrange_transition_sum(
    frame: Seq<Felt>,
    rand: Seq<Felt>,
    coeffs: Seq<Felt>,
    x: int,
    v: nat,
    k: nat,
) -> int
    decreases k,
{
    if k == 0 {
        0int
    } else {
        fadd(
            spec_lagrange_transition_sum(frame, rand, coeffs, x, v, (k - 1) as nat),
            fmul(
                coeffs[k - 1].val(),
                fdiv(
                    spec_lagrange_transition_eval(frame, rand, k - 1),
                    fsub(fpow(x, pow2((v - k) as nat)), 1),
                ),
            ),
        )
    }
}

/// The combined, divided contribution of the first `k` boundary assertions
/// against a row: assertion `j` contributes
/// coeff * (row[column] - value) / (x - g^step).
pub open spec fn spec_boundary_sum(
    assertions: Seq<Assertion>,
    coeffs: Seq<Felt>,
    base: int,
    row: Seq<Felt>,
    x: int,
    g: int,
    k: nat,
) -> int
    decreases k,
{
    if k == 0 {
        0int
    } else {
        fadd(
            spec_boundary_sum(assertions, coeffs, base, row, x, g, (k - 1) as nat),
            fmul(
                coeffs[base + k - 1].val(),
                fdiv(
                    fsub(row[assertions[k - 1].column as int].val(), assertions[k - 1].value.val()),
                    fsub(x, fpow(g, assertions[k - 1].step as nat)),
                ),
            ),
        )
    }
}

/// The product (1 - r_0) * (1 - r_1) * ... over the first `k` random
/// elements: the value the Lagrange-kernel column must take at step 0.
pub open spec fn spec_lagrange_boundary_value(rand: Seq<Felt>, k: nat) -> int
    decreases k,
{
    if k == 0 {
        1int
    } else {
        fmul(spec_lagrange_boundary_value(rand, (k - 1) as nat), fsub(1, rand[k - 1].val()))
    }
}

/// The single scalar that `evaluate_constraints` computes: the combined,
/// divided transition contributions (main, auxiliary, Lagrange-kernel) plus
/// the boundary contributions (main, auxiliary, Lagrange-kernel), over the
/// rows and coefficient sequences themselves.
pub open spec fn spec_evaluate_constraints_seq<A: Air>(
    air: A,
    cc_transition: Seq<Felt>,
    cc_boundary: Seq<Felt>,
    cc_lagrange_transition: Seq<Felt>,
    cc_lagrange_boundary: Option<Felt>,
    main_cur: Seq<Felt>,
    main_nxt: Seq<Felt>,
    aux_rows: Option<(Seq<Felt>, Seq<Felt>)>,
    lagrange_frame: Option<Seq<Felt>>,
    aux_rand: Seq<Felt>,
    x: Felt,
) -> int {
    let ctx = air.spec_context();
    let n = ctx.spec_trace_info().spec_length() as nat;
    let g = spec_trace_generator(n);
    let n1 = ctx.spec_num_main_transition_constraints() as nat;
    let n2 = ctx.spec_num_aux_transition_constraints() as nat;
    let periodic = spec_periodic_values(air, x);
    let t1 = air.spec_transition(main_cur, main_nxt, periodic);
    let main_sum = sum_weighted(cc_transition, 0, t1, n1);
    let aux_sum = match aux_rows {
        Some(aux) => if n2 > 0 {
            sum_weighted(
                cc_transition,
                n1 as int,
                air.spec_aux_transition(main_cur, main_nxt, aux.0, aux.1, periodic, aux_rand),
                n2,
            )
        } else {
            0int
        },
        None => 0int,
    };
    let transition_part = fdiv(fadd(main_sum, aux_sum), spec_transition_divisor(x.val(), n, g));
    let lagrange_rand = air.spec_lagrange_rand_elements(aux_rand);
    let lagrange_transition_part = match lagrange_frame {
        Some(frame) => spec_lagrange_transition_sum(
            frame,
            lagrange_rand,
            cc_lagrange_transition,
            x.val(),
            (frame.len() - 1) as nat,
            (frame.len() - 1) as nat,
        ),
        None => 0int,
    };
    let main_assertions = air.spec_assertions();
    let main_boundary_part = spec_boundary_sum(
        main_assertions,
        cc_boundary,
        0,
        main_cur,
        x.val(),
        g,
        main_assertions.len(),
    );
    let aux_boundary_part = match aux_rows {
        Some(aux) => {
            let aux_assertions = air.spec_aux_assertions(aux_rand);
            spec_boundary_sum(
                aux_assertions,
                cc_boundary,
                main_assertions.len() as int,
                aux.0,
                x.val(),
                g,
                aux_assertions.len(),
            )
        },
        None => 0int,
    };
    let lagrange_boundary_part = match lagrange_frame {
        Some(frame) => match cc_lagrange_boundary {
            Some(cb) => fmul(
                cb.val(),
                fdiv(
                    fsub(
                        frame[0].val(),
                        spec_lagrange_boundary_value(lagrange_rand, (frame.len() - 1) as nat),
                    ),
                    fsub(x.val(), 1),
                ),
            ),
            None => 0int,
        },
        None => 0int,
    };
    fadd(
        fadd(
            fadd(fadd(transition_part, lagrange_transition_part), main_boundary_part),
            aux_boundary_part,
        ),
        lagrange_boundary_part,
    )
}

/// The same combination, taking the coefficient container and row frames.
pub open spec fn spec_evaluate_constraints<A: Air>(
    air: A,
    cc: ConstraintCompositionCoefficients,
    main_frame: EvaluationFrame,
    aux_frame: Option<EvaluationFrame>,
    lagrange_frame: Option<Seq<Felt>>,
    aux_rand: Seq<Felt>,
    x: Felt,
) -> int {
    spec_evaluate_constraints_seq(
        air,
        cc.transition@,
        cc.boundary@,
        cc.lagrange_kernel_transition@,
        cc.lagrange_kernel_boundary,
        main_frame.curr(),
        main_frame.nxt(),
        match aux_frame {
            Some(aux) => Some((aux.curr(), aux.nxt())),
            None => None,
        },
        lagrange_frame,
        aux_rand,
        x,
    )
}

/// Evaluates the periodic columns at `x`.
#[verifier::loop_isolation(false)]
fn evaluate_periodic_values<A: Air>(air: &A, x: Felt) -> (r: Vec<Felt>)
    ensures
        r@ == spec_periodic_values(*air, x),
        r@.len() == air.spec_periodic_columns().len(),
{
    let polys = air.get_periodic_column_polys();
    let n = air.context().trace_len();
    let mut values: Vec<Felt> = Vec::new();
    let mut i: usize = 0;
    while i < polys.len()
        invariant
            i <= polys@.len(),
            values@.len() == i,
            forall|j: int| 0 <= j < i ==> values@[j] == spec_periodic_values(*air, x)[j],
        decreases polys@.len() - i,
    {
        let poly = &polys[i];
        let num_cycles = n / poly.len();
        let xp = x.exp(num_cycles as u64);
        let value = poly_eval_raw(poly, xp);
        proof {
            assert(air.spec_periodic_columns()[i as int] == poly@);
            crate::felt::lemma_felt_of_roundtrip(value);
        }
        values.push(value);
        i = i + 1;
    }
    proof {
        assert(values@ =~= spec_periodic_values(*air, x));
    }
    values
}

/// Combines the given evaluations with the coefficients starting at `base`.
#[verifier::loop_isolation(false)]
fn combine_weighted(coeffs: &Vec<Felt>, base: usize, evals: &Vec<Felt>) -> (r: Felt)
    requires
        base + evals@.len() <= coeffs@.len(),
    ensures
        r.val() == sum_weighted(coeffs@, base as int, evals@, evals@.len()),
{
    // materializes the coefficient count so index bounds stay in scope
    let num_coeffs = coeffs.len();
    let mut acc = Felt::zero();
    let mut k: usize = 0;
    while k < evals.len()
        invariant
            k <= evals@.len(),
            acc.val() == sum_weighted(coeffs@, base as int, evals@, k as nat),
        decreases evals@.len() - k,
    {
        acc = acc.add(coeffs[base + k].mul(evals[k]));
        k = k + 1;
    }
    acc
}

/// Evaluates all constraints at the out-of-domain point `x` and combines
/// them into the single claimed value of the constraint-composition
/// polynomial at `x`, exactly as `spec_evaluate_constraints` states.
#[verifier::loop_isolation(false)]
#[verifier::rlimit(100)]
#[verifier::spinoff_prover]
pub fn evaluate_constraints<A: Air>(
    air: &A,
    composition_coefficients: ConstraintCompositionCoefficients,
    main_trace_frame: &EvaluationFrame,
    aux_trace_frame: &Option<EvaluationFrame>,
    lagrange_kernel_column_frame: Option<&Vec<Felt>>,
    aux_rand_elements: &Vec<Felt>,
    x: Felt,
) -> (r: Felt)
    requires
        main_trace_frame.curr().len() == air.spec_context().spec_trace_info().spec_main_width(),
        main_trace_frame.nxt().len() == air.spec_context().spec_trace_info().spec_main_width(),
        match *aux_trace_frame {
            Some(aux) => aux.curr().len() == air.spec_context().spec_trace_info().spec_aux_width()
                && aux.nxt().len() == air.spec_context().spec_trace_info().spec_aux_width(),
            None => true,
        },
        composition_coefficients.transition@.len()
            == air.spec_context().spec_num_main_transition_constraints()
            + air.spec_context().spec_num_aux_transition_constraints(),
        composition_coefficients.boundary@.len() == air.spec_context().spec_num_main_assertions()
            + air.spec_context().spec_num_aux_assertions(),
        match lagrange_kernel_column_frame {
            Some(frame) => {
                &&& frame@.len() == spec_log2(
                    air.spec_context().spec_trace_info().spec_length() as nat,
                ) + 1
                &&& frame@.len() >= 2
                &&& composition_coefficients.lagrange_kernel_transition@.len() == frame@.len() - 1
                &&& air.spec_lagrange_rand_elements(aux_rand_elements@).len() == frame@.len() - 1
                &&& composition_coefficients.lagrange_kernel_boundary is Some
            },
            None => true,
        },
    ensures
        r.val() == spec_evaluate_constraints(
            *air,
            composition_coefficients,
            *main_trace_frame,
            *aux_trace_frame,
            match lagrange_kernel_column_frame {
                Some(frame) => Some(frame@),
                None => None,
            },
            aux_rand_elements@,
            x,
        ),
{
    proof {
        crate::air::lemma_context_nonneg(air.spec_context());
    }
    let ctx = air.context();
    let n = ctx.trace_len();
    let log_n = crate::felt::log2_exact(n);
    proof {
        vstd::arithmetic::power2::lemma2_to64();
        if log_n == 0 {
            assert(n == 1);
        }
        crate::felt::lemma_log2_pow2(log_n as nat);
    }
    let g = crate::felt::root_of_unity(log_n);

    // 1 ----- transition constraints over the main and auxiliary frames
    let periodic_values = evaluate_periodic_values(air, x);
    let t_evaluations1 = air.evaluate_transition(main_trace_frame, &periodic_values);
    let n1 = ctx.num_main_transition_constraints();
    let n2 = ctx.num_aux_transition_constraints();
    let main_sum = combine_weighted(&composition_coefficients.transition, 0, &t_evaluations1);
    let aux_sum = match aux_trace_frame {
        Some(aux) => {
            if n2 > 0 {
                let t_evaluations2 = air.evaluate_aux_transition(
                    main_trace_frame,
                    aux,
                    &periodic_values,
                    aux_rand_elements,
                );
                combine_weighted(&composition_coefficients.transition, n1, &t_evaluations2)
            } else {
                Felt::zero()
            }
        },
        None => Felt::zero(),
    };
    // divide the combined transition evaluations by the transition divisor
    let xn = x.exp(n as u64);
    let g_last = g.exp((n - 1) as u64);
    let divisor = xn.sub(Felt::one()).div(x.sub(g_last));
    let mut result = main_sum.add(aux_sum).div(divisor);

    // 2 ----- Lagrange-kernel transition constraints
    let lagrange_rand = air.get_lagrange_rand_elements(aux_rand_elements);
    match lagrange_kernel_column_frame {
        Some(frame) => {
            let v = frame.len() - 1;
            let mut lag_acc = Felt::zero();
            let mut k: usize = 0;
            while k < v
                invariant
                    v == frame@.len() - 1,
                    k <= v,
                    lag_acc.val() == spec_lagrange_transition_sum(
                        frame@,
                        lagrange_rand@,
                        composition_coefficients.lagrange_kernel_transition@,
                        x.val(),
                        v as nat,
                        k as nat,
                    ),
                decreases v - k,
            {
                let e_k = frame[0].mul(lagrange_rand[k]).sub(
                    frame[k + 1].mul(Felt::one().sub(lagrange_rand[k])),
                );
                let shift = (v - k - 1) as u32;
                let exp_val: u64 = 1u64 << shift;
                proof {
                    assert(v - k - 1 < 31);
                    vstd::bits::lemma_u64_shl_is_mul(1u64, shift as u64);
                    vstd::arithmetic::power2::lemma2_to64();
                    assert(exp_val == pow2((v - k - 1) as nat));
                }
                let div_k = x.exp(exp_val).sub(Felt::one());
                lag_acc = lag_acc.add(
                    composition_coefficients.lagrange_kernel_transition[k].mul(e_k.div(div_k)),
                );
                k = k + 1;
            }
            result = result.add(lag_acc);
        },
        None => {},
    }

    // 3 ----- boundary constraints against the current rows
    let main_assertions = air.get_assertions();
    let main_boundary = combine_boundary(
        &main_assertions,
        &composition_coefficients.boundary,
        0,
        main_trace_frame.current(),
        x,
        g,
    );
    result = result.add(main_boundary);
    match aux_trace_frame {
        Some(aux) => {
            let aux_assertions = air.get_aux_assertions(aux_rand_elements);
            let aux_boundary = combine_boundary(
                &aux_assertions,
                &composition_coefficients.boundary,
                main_assertions.len(),
                aux.current(),
                x,
                g,
            );
            result = result.add(aux_boundary);
        },
        None => {},
    }

    // 4 ----- Lagrange-kernel boundary constraint at the first coordinate
    match lagrange_kernel_column_frame {
        Some(frame) => {
            match &composition_coefficients.lagrange_kernel_boundary {
                Some(cb) => {
                    let v = frame.len() - 1;
                    let mut prod = Felt::one();
                    let mut j: usize = 0;
                    while j < v
                        invariant
                            v == frame@.len() - 1,
                            v <= lagrange_rand@.len(),
                            j <= v,
                            prod.val() == spec_lagrange_boundary_value(lagrange_rand@, j as nat),
                        decreases v - j,
                    {
                        prod = prod.mul(Felt::one().sub(lagrange_rand[j]));
                        j = j + 1;
                    }
                    let numerator = frame[0].sub(prod);
                    let denominator = x.sub(Felt::one());
                    result = result.add(cb.mul(numerator.div(denominator)));
                },
                None => {},
            }
        },
        None => {},
    }
    result
}

/// Combines boundary assertions against a row: each contributes its
/// coefficient times (row[column] - value) / (x - g^step).
#[verifier::loop_isolation(false)]
fn combine_boundary(
    assertions: &Vec<Assertion>,
    coeffs: &Vec<Felt>,
    base: usize,
    row: &Vec<Felt>,
    x: Felt,
    g: Felt,
) -> (r: Felt)
    requires
        base + assertions@.len() <= coeffs@.len(),
        forall|i: int|
            0 <= i < assertions@.len() ==> (#[trigger] assertions@[i]).column < row@.len(),
    ensures
        r.val() == spec_boundary_sum(
            assertions@,
            coeffs@,
            base as int,
            row@,
            x.val(),
            g.val(),
            assertions@.len(),
        ),
{
    // materializes the coefficient count so index bounds stay in scope
    let num_coeffs = coeffs.len();
    let mut acc = Felt::zero();
    let mut k: usize = 0;
    while k < assertions.len()
        invariant
            k <= assertions@.len(),
            acc.val() == spec_boundary_sum(
                assertions@,
                coeffs@,
                base as int,
                row@,
                x.val(),
                g.val(),
                k as nat,
            ),
        decreases assertions@.len() - k,
    {
        let a = &assertions[k];
        let numerator = row[a.column].sub(a.value);
        let denominator = x.sub(g.exp(a.step as u64));
        acc = acc.add(coeffs[base + k].mul(numerator.div(denominator)));
        k = k + 1;
    }
    acc
}

} // verus!
