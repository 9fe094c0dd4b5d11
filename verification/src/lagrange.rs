//! An example computation with a Lagrange-kernel auxiliary column: one main
//! column that increments by one per row, an auxiliary segment whose first
//! column is the Lagrange kernel of the transcript's random elements, and
//! dummy auxiliary columns scaled by the sum of those elements.
//!
//! It exercises the generalized auxiliary-trace interface: the builder
//! draws its random elements directly from the transcript, and the
//! companion verifier draws them in the identical order and quantity.

use vstd::prelude::*;
use crate::air::{
    Air, AirContext, Assertion, FieldExtension, ProofOptions, TraceInfo,
    TransitionConstraintDegree,
};
use crate::coin::PublicCoin;
use crate::errors::RandomCoinError;
use crate::felt::{fadd, felt_of, fmul, fsub, spec_log2, Felt};
use crate::frame::{ColMatrix, EvaluationFrame};

verus! {

use vstd::arithmetic::power2::pow2;

/// Holds an auxiliary trace segment, the random elements used to build it,
/// and, optionally, a computation-defined side proof checked outside the
/// base protocol.
pub struct AuxTraceWithMetadata<P> {
    /// The auxiliary trace columns.
    pub aux_trace: ColMatrix,
    /// The random elements drawn from the transcript while building.
    pub aux_rand_eles: Vec<Felt>,
    /// The optional side proof.
    pub aux_proof: Option<P>,
}

/// The interface for building an auxiliary trace segment: the builder draws
/// whatever random elements the computation needs directly from the
/// transcript (never reseeding it) and returns the segment, the elements
/// used, and an optional side proof.
pub trait AuxTraceBuilder {
    /// Parameters for building the auxiliary trace.
    type AuxParams;

    /// The optional side-proof object.
    type AuxProof;

    /// Builds the auxiliary trace. Drawing can exhaust the transcript's
    /// tries, so the build can fail; it must never reseed the transcript.
    fn build_aux_trace(
        &mut self,
        main_trace: &ColMatrix,
        aux_params: Self::AuxParams,
        transcript: &mut PublicCoin,
    ) -> (r: Result<AuxTraceWithMetadata<Self::AuxProof>, RandomCoinError>)
        ensures
            final(transcript).seed_bytes() == old(transcript).seed_bytes(),
    ;
}

/// The Lagrange kernel value at `row` over the first `k` random elements:
/// the product over bits of `r_b` where the row's bit `b` is set and
/// `1 - r_b` where it is clear.
pub open spec fn spec_lagrange_kernel_entry(rand: Seq<Felt>, row: u64, k: nat) -> int
    decreases k,
{
    if k == 0 {
        1int
    } else {
        let factor = if (row >> ((k - 1) as u64)) & 1 == 1 {
            rand[k - 1].val()
        } else {
            fsub(1, rand[k - 1].val())
        };
        fmul(spec_lagrange_kernel_entry(rand, row, (k - 1) as nat), factor)
    }
}

/// The sum of the first `k` random elements.
pub open spec fn spec_rand_sum(rand: Seq<Felt>, k: nat) -> int
    decreases k,
{
    if k == 0 {
        0int
    } else {
        fadd(spec_rand_sum(rand, (k - 1) as nat), rand[k - 1].val())
    }
}

/// A trace whose single main column holds the row index.
pub struct LagrangeComplexTrace {
    main_trace: ColMatrix,
    info: TraceInfo,
}

impl LagrangeComplexTrace {
    /// The trace shape.
    pub closed spec fn spec_info(&self) -> TraceInfo {
        self.info
    }

    /// The main segment.
    pub closed spec fn spec_main(&self) -> Seq<Seq<Felt>> {
        self.main_trace.cols()
    }

    #[verifier::type_invariant]
    spec fn type_inv(self) -> bool {
        &&& self.main_trace.cols().len() == 1
        &&& self.main_trace.cols()[0].len() == self.info.spec_length()
        &&& self.info.spec_main_width() == 1
    }

    /// Builds the trace: one main column holding 0, 1, 2, ... and an
    /// auxiliary segment of the given width to be filled later.
    pub fn new(trace_len: usize, aux_segment_width: usize) -> (r: LagrangeComplexTrace)
        requires
            exists|k: nat| trace_len == pow2(k),
            8 <= trace_len <= 0x100_0000,
            1 <= aux_segment_width <= 255,
        ensures
            r.spec_info().spec_length() == trace_len,
            r.spec_info().spec_main_width() == 1,
            r.spec_info().spec_aux_width() == aux_segment_width,
            r.spec_main().len() == 1,
            r.spec_main()[0].len() == trace_len,
            forall|i: int| 0 <= i < trace_len ==> (#[trigger] r.spec_main()[0][i]).val() == i,
    {
        let mut main_trace_col: Vec<Felt> = Vec::new();
        let mut idx: usize = 0;
        while idx < trace_len
            invariant
                idx <= trace_len,
                trace_len <= 0x100_0000,
                main_trace_col@.len() == idx,
                forall|i: int| 0 <= i < idx ==> (#[trigger] main_trace_col@[i]).val() == i,
            decreases trace_len - idx,
        {
            let f = Felt::new(idx as u64);
            proof {
                assert(idx as int % (crate::felt::MODULUS as int) == idx as int) by {
                    vstd::arithmetic::div_mod::lemma_small_mod(
                        idx as nat,
                        crate::felt::MODULUS as nat,
                    );
                }
            }
            main_trace_col.push(f);
            idx = idx + 1;
        }
        let mut columns: Vec<Vec<Felt>> = Vec::new();
        columns.push(main_trace_col);
        let main_trace = ColMatrix::new(columns);
        let info = TraceInfo::new_multi_segment(1, aux_segment_width, trace_len, Vec::new());
        LagrangeComplexTrace { main_trace, info }
    }

    /// The number of steps in the trace.
    pub fn len(&self) -> (r: usize)
        ensures
            r as int == self.spec_info().spec_length(),
    {
        proof {
            use_type_invariant(self);
        }
        self.main_trace.num_rows()
    }

    /// The trace shape.
    pub fn info(&self) -> (r: &TraceInfo)
        ensures
            *r == self.spec_info(),
    {
        &self.info
    }

    /// The main segment.
    pub fn main_segment(&self) -> (r: &ColMatrix)
        ensures
            r.cols() == self.spec_main(),
    {
        &self.main_trace
    }

    /// Reads rows `row_idx` and `row_idx + 1` of the main segment into the
    /// given frame.
    pub fn read_main_frame(&self, row_idx: usize, frame: &mut EvaluationFrame)
        requires
            row_idx + 1 < self.spec_info().spec_length(),
        ensures
            final(frame).curr().len() == 1,
            final(frame).nxt().len() == 1,
            final(frame).curr()[0] == self.spec_main()[0][row_idx as int],
            final(frame).nxt()[0] == self.spec_main()[0][row_idx + 1],
    {
        proof {
            use_type_invariant(self);
        }
        let len = self.info.length();
        let current = self.main_trace.read_row(row_idx);
        let next = self.main_trace.read_row(row_idx + 1);
        *frame = EvaluationFrame::from_rows(current, next);
    }
}

/// The example computation's descriptor: one degree-one main transition
/// constraint (each row increments by one), a trivial auxiliary transition
/// constraint, one boundary assertion per segment, and a Lagrange-kernel
/// column at auxiliary index 0.
pub struct LagrangeKernelComplexAir {
    context: AirContext,
}

impl LagrangeKernelComplexAir {
    #[verifier::type_invariant]
    spec fn air_inv(self) -> bool {
        &&& self.context.spec_num_main_transition_constraints() == 1
        &&& self.context.spec_num_aux_transition_constraints() == 1
        &&& self.context.spec_num_main_assertions() == 1
        &&& self.context.spec_num_aux_assertions() == (
        if self.context.spec_trace_info().spec_aux_width() > 0 {
            1int
        } else {
            0int
        })
        &&& self.context.spec_lagrange_kernel_aux_column_idx() == (
        if self.context.spec_trace_info().spec_aux_width() > 0 {
            Some(0usize)
        } else {
            None::<usize>
        })
    }
}

impl Air for LagrangeKernelComplexAir {
    closed spec fn spec_new_air(
        trace_info: TraceInfo,
        pub_inputs: Seq<Felt>,
        options: ProofOptions,
    ) -> Self {
        LagrangeKernelComplexAir {
            context: AirContext::spec_make(
                trace_info,
                seq![crate::air::spec_degree_of(1)],
                seq![crate::air::spec_degree_of(1)],
                1,
                if trace_info.spec_aux_width() > 0 {
                    1int
                } else {
                    0int
                },
                if trace_info.spec_aux_width() > 0 {
                    Some(0usize)
                } else {
                    None
                },
                options,
            ),
        }
    }

    closed spec fn spec_context(&self) -> AirContext {
        self.context
    }

    open spec fn spec_periodic_columns(&self) -> Seq<Seq<Felt>> {
        Seq::empty()
    }

    open spec fn spec_transition(&self, cur: Seq<Felt>, nxt: Seq<Felt>, periodic: Seq<Felt>) -> Seq<
        Felt,
    > {
        seq![felt_of(fsub(fsub(nxt[0].val(), cur[0].val()), 1))]
    }

    open spec fn spec_aux_transition(
        &self,
        main_cur: Seq<Felt>,
        main_nxt: Seq<Felt>,
        aux_cur: Seq<Felt>,
        aux_nxt: Seq<Felt>,
        periodic: Seq<Felt>,
        aux_rand: Seq<Felt>,
    ) -> Seq<Felt> {
        seq![felt_of(0)]
    }

    open spec fn spec_assertions(&self) -> Seq<Assertion> {
        seq![Assertion { column: 0, step: 0, value: felt_of(0) }]
    }

    closed spec fn spec_aux_assertions(&self, aux_rand: Seq<Felt>) -> Seq<Assertion> {
        if self.context.spec_trace_info().spec_aux_width() > 0 {
            seq![
                Assertion {
                    column: (self.context.spec_trace_info().spec_aux_width() - 1) as usize,
                    step: 0,
                    value: felt_of(0),
                },
            ]
        } else {
            Seq::empty()
        }
    }

    closed spec fn spec_lagrange_rand_elements(&self, aux_rand: Seq<Felt>) -> Seq<Felt> {
        let v = spec_log2(self.context.spec_trace_info().spec_length() as nat) as int;
        Seq::new(v as nat, |i: int| if i < aux_rand.len() {
            aux_rand[i]
        } else {
            felt_of(0)
        })
    }

    fn new(trace_info: TraceInfo, pub_inputs: Vec<Felt>, options: ProofOptions) -> (r: Self) {
        let ghost trace_info_spec = trace_info;
        let mut main_degrees: Vec<TransitionConstraintDegree> = Vec::new();
        main_degrees.push(TransitionConstraintDegree::new(1));
        let mut aux_degrees: Vec<TransitionConstraintDegree> = Vec::new();
        aux_degrees.push(TransitionConstraintDegree::new(1));
        proof {
            assert(main_degrees@ =~= seq![crate::air::spec_degree_of(1)]);
            assert(aux_degrees@ =~= seq![crate::air::spec_degree_of(1)]);
        }
        let lagrange_idx: Option<usize> = if trace_info.aux_trace_width() > 0 {
            Some(0)
        } else {
            None
        };
        let num_aux_assertions: usize = if trace_info.aux_trace_width() > 0 {
            1
        } else {
            0
        };
        let context = AirContext::new_multi_segment(
            trace_info,
            main_degrees,
            aux_degrees,
            1,
            num_aux_assertions,
            lagrange_idx,
            options,
        );
        LagrangeKernelComplexAir { context }
    }

    fn context(&self) -> (r: &AirContext) {
        &self.context
    }

    fn get_periodic_column_polys(&self) -> (r: Vec<Vec<Felt>>) {
        let empty: Vec<Vec<Felt>> = Vec::new();
        proof {
            assert(empty@.map_values(|c: Vec<Felt>| c@) =~= Seq::<Seq<Felt>>::empty());
        }
        empty
    }

    fn evaluate_transition(&self, frame: &EvaluationFrame, periodic_values: &Vec<Felt>) -> (r:
        Vec<Felt>) {
        proof {
            use_type_invariant(self);
        }
        let main_width = self.context.trace_info().main_trace_width();
        let current = frame.current()[0];
        let next = frame.next()[0];
        // the main column increments by one per row
        let value = next.sub(current).sub(Felt::one());
        let mut result: Vec<Felt> = Vec::new();
        result.push(value);
        proof {
            crate::felt::lemma_felt_of_roundtrip(value);
            assert(result@ =~= self.spec_transition(
                frame.curr(),
                frame.nxt(),
                periodic_values@,
            ));
        }
        result
    }

    fn evaluate_aux_transition(
        &self,
        main_frame: &EvaluationFrame,
        aux_frame: &EvaluationFrame,
        periodic_values: &Vec<Felt>,
        aux_rand_elements: &Vec<Felt>,
    ) -> (r: Vec<Felt>) {
        proof {
            use_type_invariant(self);
        }
        // the auxiliary segment carries no transition constraint of its own
        let zero = Felt::zero();
        let mut result: Vec<Felt> = Vec::new();
        result.push(zero);
        proof {
            crate::felt::lemma_felt_of_roundtrip(zero);
            assert(result@ =~= self.spec_aux_transition(
                main_frame.curr(),
                main_frame.nxt(),
                aux_frame.curr(),
                aux_frame.nxt(),
                periodic_values@,
                aux_rand_elements@,
            ));
        }
        result
    }

    fn get_assertions(&self) -> (r: Vec<Assertion>) {
        proof {
            use_type_invariant(self);
        }
        // the main segment is at least one column wide and the trace is at
        // least eight steps long, so the asserted cell exists
        let main_width = self.context.trace_info().main_trace_width();
        let trace_length = self.context.trace_len();
        let zero = Felt::zero();
        let a = Assertion::single(0, 0, zero);
        let mut result: Vec<Assertion> = Vec::new();
        result.push(a);
        proof {
            crate::felt::lemma_felt_of_roundtrip(zero);
            assert(result@ =~= self.spec_assertions());
        }
        result
    }

    fn get_aux_assertions(&self, aux_rand_elements: &Vec<Felt>) -> (r: Vec<Assertion>) {
        proof {
            use_type_invariant(self);
        }
        let zero = Felt::zero();
        let aux_width = self.context.trace_info().aux_trace_width();
        // the trace is at least eight steps long, so step zero exists
        let trace_length = self.context.trace_len();
        let mut result: Vec<Assertion> = Vec::new();
        if aux_width > 0 {
            result.push(Assertion::single(aux_width - 1, 0, zero));
        }
        proof {
            crate::felt::lemma_felt_of_roundtrip(zero);
            assert(result@ =~= self.spec_aux_assertions(aux_rand_elements@));
        }
        result
    }

    fn get_lagrange_rand_elements(&self, aux_rand_elements: &Vec<Felt>) -> (r: Vec<Felt>) {
        let n = self.context.trace_len();
        let log_n = crate::felt::log2_exact(n);
        proof {
            crate::felt::lemma_log2_pow2(log_n as nat);
        }
        let v = log_n as usize;
        let mut result: Vec<Felt> = Vec::new();
        let mut i: usize = 0;
        while i < v
            invariant
                i <= v,
                result@.len() == i,
                forall|j: int|
                    0 <= j < i ==> #[trigger] result@[j] == (if j < aux_rand_elements@.len() {
                        aux_rand_elements@[j]
                    } else {
                        felt_of(0)
                    }),
            decreases v - i,
        {
            if i < aux_rand_elements.len() {
                result.push(aux_rand_elements[i]);
            } else {
                let zero = Felt::zero();
                proof {
                    crate::felt::lemma_felt_of_roundtrip(zero);
                }
                result.push(zero);
            }
            i = i + 1;
        }
        proof {
            assert(result@ =~= self.spec_lagrange_rand_elements(aux_rand_elements@));
        }
        result
    }

    proof fn lagrange_rand_len(&self, aux_rand: Seq<Felt>) {
    }
}

/// Builds proofs for the example computation: holds the auxiliary width
/// and the proof parameters, and fills the auxiliary trace segment.
pub struct LagrangeComplexProver {
    aux_trace_width: usize,
    options: ProofOptions,
}

impl LagrangeComplexProver {
    /// The auxiliary segment's width.
    pub closed spec fn spec_aux_trace_width(&self) -> int {
        self.aux_trace_width as int
    }

    /// The proof parameters.
    pub closed spec fn spec_options(&self) -> ProofOptions {
        self.options
    }

    #[verifier::type_invariant]
    spec fn type_inv(self) -> bool {
        1 <= self.aux_trace_width <= 255
    }

    /// A prover for an auxiliary segment of the given width, with one
    /// query, blowup two, and no grinding.
    pub fn new(aux_trace_width: usize) -> (r: LagrangeComplexProver)
        requires
            1 <= aux_trace_width <= 255,
        ensures
            r.spec_aux_trace_width() == aux_trace_width,
    {
        LagrangeComplexProver {
            aux_trace_width,
            options: ProofOptions::new(1, 2, 0, FieldExtension::Base, 2, 1),
        }
    }

    /// The proof parameters.
    pub fn options(&self) -> (r: &ProofOptions)
        ensures
            *r == self.spec_options(),
    {
        &self.options
    }

    /// The public inputs of the example computation (there are none).
    pub fn get_pub_inputs(&self, trace: &LagrangeComplexTrace) -> (r: Vec<Felt>)
        ensures
            r@.len() == 0,
    {
        Vec::new()
    }

    /// Builds the auxiliary trace: draws one random element per doubling of
    /// the trace from the transcript, fills the first column with the
    /// Lagrange kernel of those elements, and fills every further column
    /// with the main column scaled by their sum. Never reseeds the
    /// transcript.
    #[verifier::loop_isolation(false)]
    pub fn build_aux_trace(&self, main_trace: &ColMatrix, transcript: &mut PublicCoin) -> (r:
        Result<AuxTraceWithMetadata<Vec<Felt>>, RandomCoinError>)
        requires
            main_trace.cols().len() == 1,
            exists|k: nat| main_trace.cols()[0].len() == pow2(k),
            8 <= main_trace.cols()[0].len() <= 0x100_0000,
        ensures
            final(transcript).seed_bytes() == old(transcript).seed_bytes(),
            ({
                let (res, end_counter) = crate::coin::spec_draw_seq(
                    old(transcript).seed_bytes(),
                    old(transcript).counter(),
                    spec_log2(main_trace.cols()[0].len() as nat),
                );
                &&& final(transcript).counter() == end_counter
                &&& (r is Ok <==> res is Some)
                &&& (r matches Ok(aux) ==> res == Some(
                    crate::felt::spec_felt_vals(aux.aux_rand_eles@),
                ) && (res matches Some(vs) && aux.aux_rand_eles@ == crate::felt::spec_felts_of(
                    vs,
                )))
            }),
            match r {
                Ok(aux) => {
                    let n = main_trace.cols()[0].len();
                    let v = spec_log2(n);
                    let rand = aux.aux_rand_eles@;
                    &&& rand.len() == v
                    &&& aux.aux_trace.cols().len() == self.spec_aux_trace_width()
                    &&& aux.aux_trace.cols()[0].len() == n
                    &&& forall|row: int|
                        0 <= row < n ==> (#[trigger] aux.aux_trace.cols()[0][row]).val()
                            == spec_lagrange_kernel_entry(rand, row as u64, v)
                    &&& forall|c: int, row: int|
                        1 <= c < aux.aux_trace.cols().len() && 0 <= row < n
                            ==> (#[trigger] aux.aux_trace.cols()[c][row]).val() == fmul(
                            spec_rand_sum(rand, v),
                            main_trace.cols()[0][row].val(),
                        )
                    &&& aux.aux_proof is None
                },
                Err(e) => e == RandomCoinError::FailedToDrawFieldElement,
            },
    {
        proof {
            use_type_invariant(self);
        }
        let num_rows = main_trace.num_rows();
        let log_trace_len = crate::felt::log2_exact(num_rows);
        proof {
            crate::felt::lemma_log2_pow2(log_trace_len as nat);
        }
        let v = log_trace_len as usize;

        // draw the Lagrange-kernel random elements from the transcript
        let rand_elements: Vec<Felt> = match transcript.draw_many(v) {
            Ok(elements) => elements,
            Err(e) => {
                return Err(e);
            },
        };

        let mut columns: Vec<Vec<Felt>> = Vec::new();

        // the Lagrange kernel column
        let mut lagrange_col: Vec<Felt> = Vec::new();
        let mut row_idx: usize = 0;
        while row_idx < num_rows
            invariant
                row_idx <= num_rows,
                rand_elements@.len() == v,
                lagrange_col@.len() == row_idx,
                forall|row: int|
                    0 <= row < row_idx ==> (#[trigger] lagrange_col@[row]).val()
                        == spec_lagrange_kernel_entry(rand_elements@, row as u64, v as nat),
            decreases num_rows - row_idx,
        {
            let mut row_value = Felt::one();
            let mut bit_idx: usize = 0;
            while bit_idx < v
                invariant
                    bit_idx <= v,
                    rand_elements@.len() == v,
                    row_idx < num_rows,
                    row_value.val() == spec_lagrange_kernel_entry(
                        rand_elements@,
                        row_idx as u64,
                        bit_idx as nat,
                    ),
                decreases v - bit_idx,
            {
                let r_i = rand_elements[bit_idx];
                let row_u64: u64 = row_idx as u64;
                let bit_u64: u64 = bit_idx as u64;
                let factor = if (row_u64 >> bit_u64) & 1 == 1 {
                    r_i
                } else {
                    Felt::one().sub(r_i)
                };
                row_value = row_value.mul(factor);
                bit_idx = bit_idx + 1;
            }
            lagrange_col.push(row_value);
            row_idx = row_idx + 1;
        }
        columns.push(lagrange_col);

        // every further column: the main column scaled by the sum of the
        // random elements
        let mut rand_summed = Felt::zero();
        let mut s: usize = 0;
        while s < v
            invariant
                s <= v,
                rand_elements@.len() == v,
                rand_summed.val() == spec_rand_sum(rand_elements@, s as nat),
            decreases v - s,
        {
            rand_summed = rand_summed.add(rand_elements[s]);
            s = s + 1;
        }
        let main_col = main_trace.get_column(0);
        let mut c: usize = 1;
        while c < self.aux_trace_width
            invariant
                1 <= c <= self.aux_trace_width,
                rand_elements@.len() == v,
                rand_summed.val() == spec_rand_sum(rand_elements@, v as nat),
                main_col@ == main_trace.cols()[0],
                columns@.len() == c,
                columns@[0]@.len() == num_rows,
                forall|row: int|
                    0 <= row < num_rows ==> (#[trigger] columns@[0]@[row]).val()
                        == spec_lagrange_kernel_entry(rand_elements@, row as u64, v as nat),
                forall|cc: int, row: int|
                    1 <= cc < c && 0 <= row < num_rows ==> (#[trigger] columns@[cc]@[row]).val()
                        == fmul(
                        spec_rand_sum(rand_elements@, v as nat),
                        main_trace.cols()[0][row].val(),
                    ),
                forall|cc: int| 0 <= cc < c ==> (#[trigger] columns@[cc])@.len() == num_rows,
            decreases self.aux_trace_width - c,
        {
            let mut column: Vec<Felt> = Vec::new();
            let mut row: usize = 0;
            while row < num_rows
                invariant
                    row <= num_rows,
                    main_col@ == main_trace.cols()[0],
                    main_col@.len() == num_rows,
                    rand_summed.val() == spec_rand_sum(rand_elements@, v as nat),
                    rand_elements@.len() == v,
                    column@.len() == row,
                    forall|rr: int|
                        0 <= rr < row ==> (#[trigger] column@[rr]).val() == fmul(
                            spec_rand_sum(rand_elements@, v as nat),
                            main_trace.cols()[0][rr].val(),
                        ),
                decreases num_rows - row,
            {
                column.push(rand_summed.mul(main_col[row]));
                row = row + 1;
            }
            columns.push(column);
            c = c + 1;
        }

        let aux_trace = ColMatrix::new(columns);
        Ok(AuxTraceWithMetadata { aux_trace, aux_rand_eles: rand_elements, aux_proof: None })
    }
}

impl AuxTraceBuilder for LagrangeComplexProver {
    type AuxParams = ();

    type AuxProof = Vec<Felt>;

    fn build_aux_trace(
        &mut self,
        main_trace: &ColMatrix,
        aux_params: (),
        transcript: &mut PublicCoin,
    ) -> (r: Result<AuxTraceWithMetadata<Vec<Felt>>, RandomCoinError>) {
        if main_trace.num_cols() != 1 {
            return Err(RandomCoinError::FailedToDrawFieldElement);
        }
        let rows = main_trace.num_rows();
        if rows < 8 || rows > 0x100_0000 {
            return Err(RandomCoinError::FailedToDrawFieldElement);
        }
        let log_rows = log2_check(rows);
        match log_rows {
            Some(_) => LagrangeComplexProver::build_aux_trace(self, main_trace, transcript),
            None => Err(RandomCoinError::FailedToDrawFieldElement),
        }
    }
}

/// Returns the base-2 logarithm of `n` when `n` is a power of two.
fn log2_check(n: usize) -> (r: Option<u32>)
    requires
        n >= 1,
    ensures
        match r {
            Some(k) => n == pow2(k as nat),
            None => true,
        },
{
    let mut m = n;
    let mut k: u32 = 0;
    let ghost n0 = n;
    proof {
        vstd::arithmetic::power2::lemma2_to64();
        assert(n == m * pow2(0));
    }
    while m > 1 && m % 2 == 0 && k < 63
        invariant
            m >= 1,
            k <= 63,
            n == m * pow2(k as nat),
        decreases m,
    {
        proof {
            vstd::arithmetic::power2::lemma_pow2_adds(k as nat, 1);
            vstd::arithmetic::power2::lemma2_to64();
            assert((m / 2) * (pow2(k as nat) * 2) == m * pow2(k as nat)) by (nonlinear_arith)
                requires
                    m % 2 == 0,
                    m >= 2,
            ;
        }
        m = m / 2;
        k = k + 1;
    }
    if m == 1 {
        proof {
            vstd::arithmetic::power2::lemma2_to64();
        }
        Some(k)
    } else {
        None
    }
}

} // verus!
