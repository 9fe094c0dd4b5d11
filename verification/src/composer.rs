//! The DEEP composer: folds queried trace and constraint evaluations
//! together with the out-of-domain evaluations into evaluations of the DEEP
//! composition polynomial at the query positions.
//!
//! For every queried position, each trace column contributes
//! `(value - ood_current) / (x - z) + (value - ood_next) / (x - z*g)` and
//! each constraint column contributes `(value - ood_value) / (x - z)`, all
//! scaled by the per-column random coefficients; this removes the
//! out-of-domain point's pole structure so that the result can be handed to
//! the low-degree test.

use vstd::prelude::*;
use crate::air::{Air, DeepCompositionCoefficients};
use crate::felt::{
    fadd, fdiv, fmul, fpow, fsub, spec_log2, Felt, FIELD_GENERATOR, TWO_ADIC_ROOT,
};
use crate::frame::EvaluationFrame;

verus! {

use vstd::arithmetic::power2::pow2;

/// The generator of the low-degree-extension domain of the given
/// power-of-two size.
pub open spec fn spec_lde_generator(domain_size: nat) -> int {
    fpow(TWO_ADIC_ROOT as int, pow2((39 - spec_log2(domain_size)) as nat))
}

/// The domain coordinate of a query position: the domain offset times the
/// domain generator raised to the position.
pub open spec fn spec_x_coordinate(position: int, domain_size: nat) -> int {
    fmul(FIELD_GENERATOR as int, fpow(spec_lde_generator(domain_size), position as nat))
}

/// The DEEP contribution of the first `k` columns of one queried trace row:
/// column `c` contributes its coefficient times
/// `(row[c] - ood_cur[c]) / (x - z) + (row[c] - ood_nxt[c]) / (x - z*g)`.
pub open spec fn spec_trace_term_sum(
    row: Seq<Felt>,
    ood_cur: Seq<Felt>,
    ood_nxt: Seq<Felt>,
    coeffs: Seq<Felt>,
    base: int,
    x: int,
    z: int,
    zg: int,
    k: nat,
) -> int
    decreases k,
{
    if k == 0 {
        0int
    } else {
        fadd(
            spec_trace_term_sum(row, ood_cur, ood_nxt, coeffs, base, x, z, zg, (k - 1) as nat),
            fmul(
                coeffs[base + k - 1].val(),
                fadd(
                    fdiv(fsub(row[k - 1].val(), ood_cur[k - 1].val()), fsub(x, z)),
                    fdiv(fsub(row[k - 1].val(), ood_nxt[k - 1].val()), fsub(x, zg)),
                ),
            ),
        )
    }
}

/// The DEEP contribution of the first `k` constraint columns of one queried
/// row: column `c` contributes its coefficient times
/// `(row[c] - ood[c]) / (x - z)`.
pub open spec fn spec_constraint_term_sum(
    row: Seq<Felt>,
    ood: Seq<Felt>,
    coeffs: Seq<Felt>,
    x: int,
    z: int,
    k: nat,
) -> int
    decreases k,
{
    if k == 0 {
        0int
    } else {
        fadd(
            spec_constraint_term_sum(row, ood, coeffs, x, z, (k - 1) as nat),
            fmul(coeffs[k - 1].val(), fdiv(fsub(row[k - 1].val(), ood[k - 1].val()), fsub(x, z))),
        )
    }
}

/// Composes queried openings into DEEP evaluations at the query positions.
pub struct DeepComposer {
    cc: DeepCompositionCoefficients,
    x_coordinates: Vec<Felt>,
    z: Felt,
    z_next: Felt,
}

impl DeepComposer {
    /// The per-column coefficients.
    pub closed spec fn spec_cc(&self) -> DeepCompositionCoefficients {
        self.cc
    }

    /// The domain coordinates of the query positions.
    pub closed spec fn spec_x_coordinates(&self) -> Seq<Felt> {
        self.x_coordinates@
    }

    /// The out-of-domain point.
    pub closed spec fn spec_z(&self) -> int {
        self.z.val()
    }

    /// The out-of-domain point shifted by the trace-domain generator.
    pub closed spec fn spec_z_next(&self) -> int {
        self.z_next.val()
    }

    /// Builds a composer for the given query positions: records the domain
    /// coordinate of each position, the out-of-domain point `z`, and its
    /// coset shift `z * g`.
    #[verifier::loop_isolation(false)]
    pub fn new<A: Air>(
        air: &A,
        query_positions: &Vec<usize>,
        z: Felt,
        cc: DeepCompositionCoefficients,
    ) -> (r: DeepComposer)
        ensures
            r.spec_cc() == cc,
            r.spec_z() == z.val(),
            r.spec_z_next() == fmul(
                z.val(),
                crate::evaluator::spec_trace_generator(
                    air.spec_context().spec_trace_info().spec_length() as nat,
                ),
            ),
            r.spec_x_coordinates().len() == query_positions@.len(),
            forall|p: int|
                0 <= p < query_positions@.len() ==> (#[trigger] r.spec_x_coordinates()[p]).val()
                    == spec_x_coordinate(
                    query_positions@[p] as int,
                    (air.spec_context().spec_trace_info().spec_length()
                        * air.spec_context().spec_options().spec_blowup_factor()) as nat,
                ),
    {
        let ctx = air.context();
        let n = ctx.trace_len();
        let domain_size = ctx.lde_domain_size();
        let log_n = crate::felt::log2_exact(n);
        let log_domain = crate::felt::log2_exact(domain_size);
        proof {
            vstd::arithmetic::power2::lemma2_to64();
            if log_n == 0 {
                assert(n == 1);
            }
            if log_domain == 0 {
                assert(domain_size == 1);
            }
            crate::felt::lemma_log2_pow2(log_n as nat);
            crate::felt::lemma_log2_pow2(log_domain as nat);
        }
        let g_trace = crate::felt::root_of_unity(log_n);
        let g_lde = crate::felt::root_of_unity(log_domain);
        let offset = Felt::new(FIELD_GENERATOR);
        let z_next = z.mul(g_trace);
        let mut x_coordinates: Vec<Felt> = Vec::new();
        let mut i: usize = 0;
        while i < query_positions.len()
            invariant
                i <= query_positions@.len(),
                x_coordinates@.len() == i,
                offset.val() == FIELD_GENERATOR as int,
                g_lde.val() == spec_lde_generator(
                    (ctx.spec_trace_info().spec_length()
                        * ctx.spec_options().spec_blowup_factor()) as nat,
                ),
                forall|p: int|
                    0 <= p < i ==> (#[trigger] x_coordinates@[p]).val() == spec_x_coordinate(
                        query_positions@[p] as int,
                        (ctx.spec_trace_info().spec_length()
                            * ctx.spec_options().spec_blowup_factor()) as nat,
                    ),
            decreases query_positions@.len() - i,
        {
            let position = query_positions[i];
            let x = offset.mul(g_lde.exp(position as u64));
            x_coordinates.push(x);
            i = i + 1;
        }
        DeepComposer { cc, x_coordinates, z, z_next }
    }

    /// Composes the queried trace rows (main and auxiliary columns
    /// concatenated) against the out-of-domain frames: position `p` yields
    /// the sum of the per-column DEEP terms at its domain coordinate.
    #[verifier::loop_isolation(false)]
    pub fn compose_trace_columns(
        &self,
        queried_main_trace_states: &Vec<Vec<Felt>>,
        queried_aux_trace_states: &Option<Vec<Vec<Felt>>>,
        ood_main_frame: &EvaluationFrame,
        ood_aux_frame: &Option<EvaluationFrame>,
    ) -> (r: Vec<Felt>)
        requires
            queried_main_trace_states@.len() == self.spec_x_coordinates().len(),
            forall|p: int|
                0 <= p < queried_main_trace_states@.len() ==> (
                #[trigger] queried_main_trace_states@[p])@.len() == ood_main_frame.curr().len(),
            ood_main_frame.curr().len() == ood_main_frame.nxt().len(),
            match (*queried_aux_trace_states, *ood_aux_frame) {
                (Some(aux_rows), Some(aux_frame)) => aux_rows@.len()
                    == self.spec_x_coordinates().len() && aux_frame.curr().len()
                    == aux_frame.nxt().len() && forall|p: int|
                    0 <= p < aux_rows@.len() ==> (#[trigger] aux_rows@[p])@.len()
                        == aux_frame.curr().len(),
                (None, None) => true,
                _ => false,
            },
            self.spec_cc().trace@.len() == ood_main_frame.curr().len() + (match *ood_aux_frame {
                Some(aux_frame) => aux_frame.curr().len() as int,
                None => 0int,
            }),
        ensures
            r@.len() == self.spec_x_coordinates().len(),
            forall|p: int|
                0 <= p < r@.len() ==> (#[trigger] r@[p]).val() == {
                    let main_w = ood_main_frame.curr().len();
                    let main_part = spec_trace_term_sum(
                        queried_main_trace_states@[p]@,
                        ood_main_frame.curr(),
                        ood_main_frame.nxt(),
                        self.spec_cc().trace@,
                        0,
                        self.spec_x_coordinates()[p].val(),
                        self.spec_z(),
                        self.spec_z_next(),
                        main_w,
                    );
                    match *queried_aux_trace_states {
                        Some(aux_rows) => fadd(
                            main_part,
                            spec_trace_term_sum(
                                aux_rows@[p]@,
                                ood_aux_frame->0.curr(),
                                ood_aux_frame->0.nxt(),
                                self.spec_cc().trace@,
                                main_w as int,
                                self.spec_x_coordinates()[p].val(),
                                self.spec_z(),
                                self.spec_z_next(),
                                ood_aux_frame->0.curr().len(),
                            ),
                        ),
                        None => main_part,
                    }
                },
    {
        let mut result: Vec<Felt> = Vec::new();
        let mut p: usize = 0;
        while p < self.x_coordinates.len()
            invariant
                p <= self.x_coordinates@.len(),
                result@.len() == p,
                forall|q: int|
                    0 <= q < p ==> (#[trigger] result@[q]).val() == {
                        let main_w = ood_main_frame.curr().len();
                        let main_part = spec_trace_term_sum(
                            queried_main_trace_states@[q]@,
                            ood_main_frame.curr(),
                            ood_main_frame.nxt(),
                            self.spec_cc().trace@,
                            0,
                            self.spec_x_coordinates()[q].val(),
                            self.spec_z(),
                            self.spec_z_next(),
                            main_w,
                        );
                        match *queried_aux_trace_states {
                            Some(aux_rows) => fadd(
                                main_part,
                                spec_trace_term_sum(
                                    aux_rows@[q]@,
                                    ood_aux_frame->0.curr(),
                                    ood_aux_frame->0.nxt(),
                                    self.spec_cc().trace@,
                                    main_w as int,
                                    self.spec_x_coordinates()[q].val(),
                                    self.spec_z(),
                                    self.spec_z_next(),
                                    ood_aux_frame->0.curr().len(),
                                ),
                            ),
                            None => main_part,
                        }
                    },
            decreases self.x_coordinates@.len() - p,
        {
            let x = self.x_coordinates[p];
            let main_row = &queried_main_trace_states[p];
            let main_part = self.trace_row_sum(
                main_row,
                ood_main_frame.current(),
                ood_main_frame.next(),
                0,
                x,
            );
            let total = match queried_aux_trace_states {
                Some(aux_rows) => {
                    match ood_aux_frame {
                        Some(aux_frame) => {
                            let aux_part = self.trace_row_sum(
                                &aux_rows[p],
                                aux_frame.current(),
                                aux_frame.next(),
                                main_row.len(),
                                x,
                            );
                            main_part.add(aux_part)
                        },
                        None => main_part,  // unreachable: the frames come together
                    }
                },
                None => main_part,
            };
            result.push(total);
            p = p + 1;
        }
        result
    }

    /// The DEEP sum of one row against one out-of-domain row pair.
    #[verifier::loop_isolation(false)]
    fn trace_row_sum(
        &self,
        row: &Vec<Felt>,
        ood_cur: &Vec<Felt>,
        ood_nxt: &Vec<Felt>,
        base: usize,
        x: Felt,
    ) -> (r: Felt)
        requires
            row@.len() == ood_cur@.len(),
            row@.len() == ood_nxt@.len(),
            base + row@.len() <= self.spec_cc().trace@.len(),
        ensures
            r.val() == spec_trace_term_sum(
                row@,
                ood_cur@,
                ood_nxt@,
                self.spec_cc().trace@,
                base as int,
                x.val(),
                self.spec_z(),
                self.spec_z_next(),
                row@.len(),
            ),
    {
        // materializes the coefficient count so index bounds stay in scope
        let num_cc = self.cc.trace.len();
        let mut acc = Felt::zero();
        let mut c: usize = 0;
        while c < row.len()
            invariant
                c <= row@.len(),
                acc.val() == spec_trace_term_sum(
                    row@,
                    ood_cur@,
                    ood_nxt@,
                    self.spec_cc().trace@,
                    base as int,
                    x.val(),
                    self.spec_z(),
                    self.spec_z_next(),
                    c as nat,
                ),
            decreases row@.len() - c,
        {
            let t1 = row[c].sub(ood_cur[c]).div(x.sub(self.z));
            let t2 = row[c].sub(ood_nxt[c]).div(x.sub(self.z_next));
            acc = acc.add(self.cc.trace[base + c].mul(t1.add(t2)));
            c = c + 1;
        }
        acc
    }

    /// Composes the queried constraint-composition rows against the
    /// out-of-domain constraint evaluations, using `z` only (no coset
    /// shift).
    #[verifier::loop_isolation(false)]
    pub fn compose_constraint_evaluations(
        &self,
        queried_evaluations: &Vec<Vec<Felt>>,
        ood_evaluations: &Vec<Felt>,
    ) -> (r: Vec<Felt>)
        requires
            queried_evaluations@.len() == self.spec_x_coordinates().len(),
            forall|p: int|
                0 <= p < queried_evaluations@.len() ==> (#[trigger] queried_evaluations@[p])@.len()
                    == ood_evaluations@.len(),
            self.spec_cc().constraints@.len() == ood_evaluations@.len(),
        ensures
            r@.len() == self.spec_x_coordinates().len(),
            forall|p: int|
                0 <= p < r@.len() ==> (#[trigger] r@[p]).val() == spec_constraint_term_sum(
                    queried_evaluations@[p]@,
                    ood_evaluations@,
                    self.spec_cc().constraints@,
                    self.spec_x_coordinates()[p].val(),
                    self.spec_z(),
                    ood_evaluations@.len(),
                ),
    {
        let num_cols = ood_evaluations.len();
        let mut result: Vec<Felt> = Vec::new();
        let mut p: usize = 0;
        while p < self.x_coordinates.len()
            invariant
                p <= self.x_coordinates@.len(),
                result@.len() == p,
                forall|q: int|
                    0 <= q < p ==> (#[trigger] result@[q]).val() == spec_constraint_term_sum(
                        queried_evaluations@[q]@,
                        ood_evaluations@,
                        self.spec_cc().constraints@,
                        self.spec_x_coordinates()[q].val(),
                        self.spec_z(),
                        ood_evaluations@.len(),
                    ),
            decreases self.x_coordinates@.len() - p,
        {
            let x = self.x_coordinates[p];
            let row = &queried_evaluations[p];
            let mut acc = Felt::zero();
            let mut c: usize = 0;
            while c < num_cols
                invariant
                    c <= num_cols,
                    num_cols == ood_evaluations@.len(),
                    p < queried_evaluations@.len(),
                    row@ == queried_evaluations@[p as int]@,
                    x == self.spec_x_coordinates()[p as int],
                    acc.val() == spec_constraint_term_sum(
                        row@,
                        ood_evaluations@,
                        self.spec_cc().constraints@,
                        x.val(),
                        self.spec_z(),
                        c as nat,
                    ),
                decreases num_cols - c,
            {
                let term = row[c].sub(ood_evaluations[c]).div(x.sub(self.z));
                acc = acc.add(self.cc.constraints[c].mul(term));
                c = c + 1;
            }
            result.push(acc);
            p = p + 1;
        }
        result
    }

    /// Sums the trace and constraint compositions element-wise, yielding
    /// the final DEEP polynomial evaluations.
    #[verifier::loop_isolation(false)]
    pub fn combine_compositions(&self, t_composition: Vec<Felt>, c_composition: Vec<Felt>) -> (r:
        Vec<Felt>)
        requires
            t_composition@.len() == c_composition@.len(),
        ensures
            r@.len() == t_composition@.len(),
            forall|p: int|
                0 <= p < r@.len() ==> (#[trigger] r@[p]).val() == fadd(
                    t_composition@[p].val(),
                    c_composition@[p].val(),
                ),
    {
        let mut result: Vec<Felt> = Vec::new();
        let mut p: usize = 0;
        while p < t_composition.len()
            invariant
                p <= t_composition@.len(),
                result@.len() == p,
                forall|q: int|
                    0 <= q < p ==> (#[trigger] result@[q]).val() == fadd(
                        t_composition@[q].val(),
                        c_composition@[q].val(),
                    ),
            decreases t_composition@.len() - p,
        {
            result.push(t_composition[p].add(c_composition[p]));
            p = p + 1;
        }
        result
    }
}

} // verus!
