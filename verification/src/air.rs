//! The computation descriptor: the shape of a computation, the protocol
//! parameters, and the capability interface through which a concrete
//! computation supplies its algebraic constraints.
//!
//! The verification engine depends only on the `Air` trait, never on a
//! concrete computation. Each executable method of the trait is tied to a
//! specification method, so that a verified implementor pins down exactly
//! what its constraints evaluate to and the engine's own contracts can speak
//! of those values.

use vstd::prelude::*;
use crate::felt::{Felt, MODULUS, TWO_ADIC_ROOT};
use crate::frame::EvaluationFrame;

verus! {

use vstd::arithmetic::power2::pow2;

/// Whether computations happen in the base field or in an extension of it.
#[derive(Clone, Copy, PartialEq, Eq, Structural, Debug)]
pub enum FieldExtension {
    /// Base field arithmetic only.
    Base,
    /// A quadratic extension.
    Quadratic,
    /// A cubic extension.
    Cubic,
}

impl FieldExtension {
    /// The extension degree this choice denotes.
    pub open spec fn spec_degree(self) -> int {
        match self {
            FieldExtension::Base => 1,
            FieldExtension::Quadratic => 2,
            FieldExtension::Cubic => 3,
        }
    }

    /// The extension degree this choice denotes.
    pub fn degree(&self) -> (r: u32)
        ensures
            r as int == self.spec_degree(),
    {
        match self {
            FieldExtension::Base => 1,
            FieldExtension::Quadratic => 2,
            FieldExtension::Cubic => 3,
        }
    }
}

/// Protocol parameters: query count, blowup factor, grinding factor, field
/// extension, and the shape of the low-degree test.
#[derive(Clone, Copy, PartialEq, Eq, Structural, Debug)]
pub struct ProofOptions {
    num_queries: u8,
    blowup_factor: u8,
    grinding_factor: u8,
    field_extension: FieldExtension,
    fri_folding_factor: u8,
    fri_remainder_max_degree: u8,
}

impl ProofOptions {
    /// The number of queries drawn against the trace commitments.
    pub closed spec fn spec_num_queries(self) -> int {
        self.num_queries as int
    }

    /// The blowup factor of the low-degree-extension domain.
    pub closed spec fn spec_blowup_factor(self) -> int {
        self.blowup_factor as int
    }

    /// The required number of zero bits in the proof-of-work check.
    pub closed spec fn spec_grinding_factor(self) -> int {
        self.grinding_factor as int
    }

    /// The field extension choice.
    pub closed spec fn spec_field_extension(self) -> FieldExtension {
        self.field_extension
    }

    /// The folding factor of the low-degree test.
    pub closed spec fn spec_fri_folding_factor(self) -> int {
        self.fri_folding_factor as int
    }

    /// The maximum remainder degree of the low-degree test.
    pub closed spec fn spec_fri_remainder_max_degree(self) -> int {
        self.fri_remainder_max_degree as int
    }

    #[verifier::type_invariant]
    spec fn type_inv(self) -> bool {
        &&& 1 <= self.num_queries <= 255
        &&& (self.blowup_factor == 2 || self.blowup_factor == 4 || self.blowup_factor == 8
            || self.blowup_factor == 16 || self.blowup_factor == 32 || self.blowup_factor == 64
            || self.blowup_factor == 128)
        &&& self.grinding_factor <= 32
        &&& (self.fri_folding_factor == 2 || self.fri_folding_factor == 4
            || self.fri_folding_factor == 8 || self.fri_folding_factor == 16)
    }

    /// Builds a parameter set. The ranges mirror what the protocol supports:
    /// 1 to 255 queries, a power-of-two blowup between 2 and 128, at most 32
    /// grinding bits, and a folding factor of 2, 4, 8 or 16.
    pub fn new(
        num_queries: usize,
        blowup_factor: usize,
        grinding_factor: u32,
        field_extension: FieldExtension,
        fri_folding_factor: usize,
        fri_remainder_max_degree: usize,
    ) -> (r: ProofOptions)
        requires
            1 <= num_queries <= 255,
            blowup_factor == 2 || blowup_factor == 4 || blowup_factor == 8 || blowup_factor == 16
                || blowup_factor == 32 || blowup_factor == 64 || blowup_factor == 128,
            grinding_factor <= 32,
            fri_folding_factor == 2 || fri_folding_factor == 4 || fri_folding_factor == 8
                || fri_folding_factor == 16,
            fri_remainder_max_degree <= 255,
        ensures
            r.spec_num_queries() == num_queries,
            r.spec_blowup_factor() == blowup_factor,
            r.spec_grinding_factor() == grinding_factor,
            r.spec_field_extension() == field_extension,
            r.spec_fri_folding_factor() == fri_folding_factor,
            r.spec_fri_remainder_max_degree() == fri_remainder_max_degree,
    {
        ProofOptions {
            num_queries: num_queries as u8,
            blowup_factor: blowup_factor as u8,
            grinding_factor: grinding_factor as u8,
            field_extension,
            fri_folding_factor: fri_folding_factor as u8,
            fri_remainder_max_degree: fri_remainder_max_degree as u8,
        }
    }

    /// The number of queries.
    pub fn num_queries(&self) -> (r: usize)
        ensures
            r as int == self.spec_num_queries(),
            1 <= r <= 255,
    {
        proof {
            use_type_invariant(self);
        }
        self.num_queries as usize
    }

    /// The blowup factor; always a power of two between 2 and 128.
    pub fn blowup_factor(&self) -> (r: usize)
        ensures
            r as int == self.spec_blowup_factor(),
            r == 2 || r == 4 || r == 8 || r == 16 || r == 32 || r == 64 || r == 128,
    {
        proof {
            use_type_invariant(self);
        }
        self.blowup_factor as usize
    }

    /// The grinding factor.
    pub fn grinding_factor(&self) -> (r: u32)
        ensures
            r as int == self.spec_grinding_factor(),
            r <= 32,
    {
        proof {
            use_type_invariant(self);
        }
        self.grinding_factor as u32
    }

    /// The field extension choice.
    pub fn field_extension(&self) -> (r: FieldExtension)
        ensures
            r == self.spec_field_extension(),
    {
        self.field_extension
    }

    /// The folding factor of the low-degree test.
    pub fn fri_folding_factor(&self) -> (r: usize)
        ensures
            r as int == self.spec_fri_folding_factor(),
            r == 2 || r == 4 || r == 8 || r == 16,
    {
        proof {
            use_type_invariant(self);
        }
        self.fri_folding_factor as usize
    }

    /// The maximum remainder degree of the low-degree test.
    pub fn fri_remainder_max_degree(&self) -> (r: usize)
        ensures
            r as int == self.spec_fri_remainder_max_degree(),
            r <= 255,
    {
        self.fri_remainder_max_degree as usize
    }
}

/// The shape of a computation's execution trace.
#[derive(PartialEq, Eq, Debug)]
#[verifier::ext_equal]
pub struct TraceInfo {
    main_trace_width: usize,
    aux_trace_width: usize,
    trace_length: usize,
    meta: Vec<u8>,
}

impl Clone for TraceInfo {
    fn clone(&self) -> (r: Self)
        ensures
            r.spec_main_width() == self.spec_main_width(),
            r.spec_aux_width() == self.spec_aux_width(),
            r.spec_length() == self.spec_length(),
            r.spec_meta() == self.spec_meta(),
    {
        proof {
            use_type_invariant(self);
        }
        let meta: Vec<u8> = self.meta.clone();
        TraceInfo {
            main_trace_width: self.main_trace_width,
            aux_trace_width: self.aux_trace_width,
            trace_length: self.trace_length,
            meta,
        }
    }
}

impl TraceInfo {
    /// The width of the main trace segment.
    pub closed spec fn spec_main_width(self) -> int {
        self.main_trace_width as int
    }

    /// The width of the auxiliary trace segment (0 when there is none).
    pub closed spec fn spec_aux_width(self) -> int {
        self.aux_trace_width as int
    }

    /// The number of steps in the trace.
    pub closed spec fn spec_length(self) -> int {
        self.trace_length as int
    }

    /// The auxiliary metadata bytes.
    pub closed spec fn spec_meta(self) -> Seq<u8> {
        self.meta@
    }

    #[verifier::type_invariant]
    spec fn type_inv(self) -> bool {
        &&& 1 <= self.main_trace_width <= 255
        &&& self.aux_trace_width <= 255
        &&& (exists|k: nat| self.trace_length == pow2(k))
        &&& 8 <= self.trace_length <= 0x100_0000
    }

    /// Builds the shape of a single-segment trace.
    pub fn new(width: usize, trace_length: usize) -> (r: TraceInfo)
        requires
            1 <= width <= 255,
            exists|k: nat| trace_length == pow2(k),
            8 <= trace_length <= 0x100_0000,
        ensures
            r.spec_main_width() == width,
            r.spec_aux_width() == 0,
            r.spec_length() == trace_length,
    {
        TraceInfo {
            main_trace_width: width,
            aux_trace_width: 0,
            trace_length,
            meta: Vec::new(),
        }
    }

    /// Builds the shape of a trace with a main and an auxiliary segment.
    /// The trace length must be a power of two between 8 and 2^24: the
    /// evaluation domain (trace length times blowup) must fit the machine
    /// word on every supported platform.
    pub fn new_multi_segment(
        main_trace_width: usize,
        aux_trace_width: usize,
        trace_length: usize,
        meta: Vec<u8>,
    ) -> (r: TraceInfo)
        requires
            1 <= main_trace_width <= 255,
            aux_trace_width <= 255,
            exists|k: nat| trace_length == pow2(k),
            8 <= trace_length <= 0x100_0000,
        ensures
            r.spec_main_width() == main_trace_width,
            r.spec_aux_width() == aux_trace_width,
            r.spec_length() == trace_length,
            r.spec_meta() == meta@,
    {
        TraceInfo { main_trace_width, aux_trace_width, trace_length, meta }
    }

    /// The width of the main trace segment.
    pub fn main_trace_width(&self) -> (r: usize)
        ensures
            r as int == self.spec_main_width(),
            1 <= r <= 255,
    {
        proof {
            use_type_invariant(self);
        }
        self.main_trace_width
    }

    /// The width of the auxiliary trace segment.
    pub fn aux_trace_width(&self) -> (r: usize)
        ensures
            r as int == self.spec_aux_width(),
            r <= 255,
    {
        proof {
            use_type_invariant(self);
        }
        self.aux_trace_width
    }

    /// The number of steps in the trace; always a power of two in
    /// [8, 2^32].
    pub fn length(&self) -> (r: usize)
        ensures
            r as int == self.spec_length(),
            8 <= r <= 0x100_0000,
            exists|k: nat| r == pow2(k),
    {
        proof {
            use_type_invariant(self);
        }
        self.trace_length
    }
}

/// A single-point boundary assertion: the trace column must hold the given
/// value at the given step.
#[derive(Clone, Copy, PartialEq, Eq, Structural, Debug)]
pub struct Assertion {
    /// The asserted column.
    pub column: usize,
    /// The asserted step.
    pub step: usize,
    /// The asserted value.
    pub value: Felt,
}

impl Assertion {
    /// An assertion that one column holds one value at one step.
    pub fn single(column: usize, step: usize, value: Felt) -> (r: Assertion)
        ensures
            r == (Assertion { column, step, value }),
    {
        Assertion { column, step, value }
    }
}

/// The degree of one transition constraint.
#[derive(Clone, Copy, PartialEq, Eq, Structural, Debug)]
pub struct TransitionConstraintDegree {
    degree: usize,
}

/// The degree value of the given size (spec level).
pub closed spec fn spec_degree_of(degree: int) -> TransitionConstraintDegree {
    TransitionConstraintDegree { degree: degree as usize }
}

impl TransitionConstraintDegree {
    /// The degree.
    pub closed spec fn spec_degree(self) -> int {
        self.degree as int
    }

    /// A constraint degree between 1 and 255.
    pub fn new(degree: usize) -> (r: TransitionConstraintDegree)
        requires
            1 <= degree <= 255,
        ensures
            r.spec_degree() == degree,
            r == spec_degree_of(degree as int),
    {
        TransitionConstraintDegree { degree }
    }
}

/// The running maximum of the first `k` constraint degrees, starting from
/// `acc`.
pub open spec fn spec_fold_max_degree(
    degrees: Seq<TransitionConstraintDegree>,
    k: nat,
    acc: int,
) -> int
    decreases k,
{
    if k == 0 {
        acc
    } else {
        let prev = spec_fold_max_degree(degrees, (k - 1) as nat, acc);
        if degrees[k - 1].spec_degree() > prev {
            degrees[k - 1].spec_degree()
        } else {
            prev
        }
    }
}

/// The number of constraint-composition columns a degree set determines:
/// the highest transition-constraint degree less one, and at least one.
pub open spec fn spec_num_composition_columns(
    main_degrees: Seq<TransitionConstraintDegree>,
    aux_degrees: Seq<TransitionConstraintDegree>,
) -> int {
    let highest = spec_fold_max_degree(
        aux_degrees,
        aux_degrees.len(),
        spec_fold_max_degree(main_degrees, main_degrees.len(), 1),
    );
    if highest > 1 {
        highest - 1
    } else {
        1
    }
}

/// Random weights for combining constraint evaluations into the composition
/// value, drawn from the transcript after all commitments.
pub struct ConstraintCompositionCoefficients {
    /// One weight per transition constraint, main then auxiliary.
    pub transition: Vec<Felt>,
    /// One weight per boundary assertion, main then auxiliary.
    pub boundary: Vec<Felt>,
    /// One weight per Lagrange-kernel transition constraint.
    pub lagrange_kernel_transition: Vec<Felt>,
    /// The weight of the Lagrange-kernel boundary constraint, when the
    /// computation has a Lagrange-kernel column.
    pub lagrange_kernel_boundary: Option<Felt>,
}

/// Random weights for the DEEP composition, drawn from the transcript after
/// the out-of-domain consistency check.
pub struct DeepCompositionCoefficients {
    /// One weight per trace column (main and auxiliary).
    pub trace: Vec<Felt>,
    /// One weight per constraint-composition column.
    pub constraints: Vec<Felt>,
}

/// The context of a computation: its trace shape, protocol parameters, and
/// constraint counts.
#[derive(PartialEq, Eq, Debug)]
#[verifier::ext_equal]
pub struct AirContext {
    trace_info: TraceInfo,
    options: ProofOptions,
    num_main_transition_constraints: usize,
    num_aux_transition_constraints: usize,
    num_main_assertions: usize,
    num_aux_assertions: usize,
    lagrange_kernel_aux_column_idx: Option<usize>,
    num_constraint_composition_columns: usize,
}

impl Clone for AirContext {
    fn clone(&self) -> (r: Self)
        ensures
            r.spec_trace_info().spec_main_width() == self.spec_trace_info().spec_main_width(),
            r.spec_trace_info().spec_aux_width() == self.spec_trace_info().spec_aux_width(),
            r.spec_trace_info().spec_length() == self.spec_trace_info().spec_length(),
            r.spec_options() == self.spec_options(),
            r.spec_num_main_transition_constraints()
                == self.spec_num_main_transition_constraints(),
            r.spec_num_aux_transition_constraints() == self.spec_num_aux_transition_constraints(),
            r.spec_num_main_assertions() == self.spec_num_main_assertions(),
            r.spec_num_aux_assertions() == self.spec_num_aux_assertions(),
            r.spec_lagrange_kernel_aux_column_idx() == self.spec_lagrange_kernel_aux_column_idx(),
            r.spec_num_constraint_composition_columns()
                == self.spec_num_constraint_composition_columns(),
    {
        proof {
            use_type_invariant(self);
        }
        AirContext {
            trace_info: self.trace_info.clone(),
            options: self.options,
            num_main_transition_constraints: self.num_main_transition_constraints,
            num_aux_transition_constraints: self.num_aux_transition_constraints,
            num_main_assertions: self.num_main_assertions,
            num_aux_assertions: self.num_aux_assertions,
            lagrange_kernel_aux_column_idx: self.lagrange_kernel_aux_column_idx,
            num_constraint_composition_columns: self.num_constraint_composition_columns,
        }
    }
}

impl AirContext {
    /// The trace shape.
    pub closed spec fn spec_trace_info(self) -> TraceInfo {
        self.trace_info
    }

    /// The protocol parameters.
    pub closed spec fn spec_options(self) -> ProofOptions {
        self.options
    }

    /// The number of main-segment transition constraints.
    pub closed spec fn spec_num_main_transition_constraints(self) -> int {
        self.num_main_transition_constraints as int
    }

    /// The number of auxiliary-segment transition constraints.
    pub closed spec fn spec_num_aux_transition_constraints(self) -> int {
        self.num_aux_transition_constraints as int
    }

    /// The number of main-segment boundary assertions.
    pub closed spec fn spec_num_main_assertions(self) -> int {
        self.num_main_assertions as int
    }

    /// The number of auxiliary-segment boundary assertions.
    pub closed spec fn spec_num_aux_assertions(self) -> int {
        self.num_aux_assertions as int
    }

    /// The index of the Lagrange-kernel column within the auxiliary segment,
    /// when the computation has one.
    pub closed spec fn spec_lagrange_kernel_aux_column_idx(self) -> Option<usize> {
        self.lagrange_kernel_aux_column_idx
    }

    /// The number of constraint-composition columns.
    pub closed spec fn spec_num_constraint_composition_columns(self) -> int {
        self.num_constraint_composition_columns as int
    }

    #[verifier::type_invariant]
    spec fn type_inv(self) -> bool {
        &&& self.num_main_transition_constraints <= 0xFFFF
        &&& self.num_aux_transition_constraints <= 0xFFFF
        &&& self.num_main_assertions <= 0xFFFF
        &&& self.num_aux_assertions <= 0xFFFF
        &&& 1 <= self.num_constraint_composition_columns <= 255
        &&& match self.lagrange_kernel_aux_column_idx {
            Some(idx) => idx < self.trace_info.spec_aux_width(),
            None => true,
        }
    }

    /// The context the multi-segment constructor builds (spec level).
    pub closed spec fn spec_make(
        trace_info: TraceInfo,
        main_degrees: Seq<TransitionConstraintDegree>,
        aux_degrees: Seq<TransitionConstraintDegree>,
        num_main_assertions: int,
        num_aux_assertions: int,
        lagrange_kernel_aux_column_idx: Option<usize>,
        options: ProofOptions,
    ) -> AirContext {
        AirContext {
            trace_info,
            options,
            num_main_transition_constraints: main_degrees.len() as usize,
            num_aux_transition_constraints: aux_degrees.len() as usize,
            num_main_assertions: num_main_assertions as usize,
            num_aux_assertions: num_aux_assertions as usize,
            lagrange_kernel_aux_column_idx,
            num_constraint_composition_columns: spec_num_composition_columns(
                main_degrees,
                aux_degrees,
            ) as usize,
        }
    }

    /// Builds a context for a computation with a main and an auxiliary
    /// trace segment. The number of constraint-composition columns is the
    /// highest transition-constraint degree less one, and at least one.
    pub fn new_multi_segment(
        trace_info: TraceInfo,
        main_transition_degrees: Vec<TransitionConstraintDegree>,
        aux_transition_degrees: Vec<TransitionConstraintDegree>,
        num_main_assertions: usize,
        num_aux_assertions: usize,
        lagrange_kernel_aux_column_idx: Option<usize>,
        options: ProofOptions,
    ) -> (r: AirContext)
        requires
            main_transition_degrees@.len() <= 0xFFFF,
            aux_transition_degrees@.len() <= 0xFFFF,
            num_main_assertions <= 0xFFFF,
            num_aux_assertions <= 0xFFFF,
            match lagrange_kernel_aux_column_idx {
                Some(idx) => idx < trace_info.spec_aux_width(),
                None => true,
            },
        ensures
            r.spec_trace_info() == trace_info,
            r.spec_options() == options,
            r.spec_num_main_transition_constraints() == main_transition_degrees@.len(),
            r.spec_num_aux_transition_constraints() == aux_transition_degrees@.len(),
            r.spec_num_main_assertions() == num_main_assertions,
            r.spec_num_aux_assertions() == num_aux_assertions,
            r.spec_lagrange_kernel_aux_column_idx() == lagrange_kernel_aux_column_idx,
            1 <= r.spec_num_constraint_composition_columns() <= 255,
            r == AirContext::spec_make(
                trace_info,
                main_transition_degrees@,
                aux_transition_degrees@,
                num_main_assertions as int,
                num_aux_assertions as int,
                lagrange_kernel_aux_column_idx,
                options,
            ),
    {
        proof {
            use_type_invariant(&trace_info);
        }
        let mut max_degree: usize = 1;
        let mut i: usize = 0;
        while i < main_transition_degrees.len()
            invariant
                1 <= max_degree <= 255,
                i <= main_transition_degrees@.len(),
                max_degree as int == spec_fold_max_degree(
                    main_transition_degrees@,
                    i as nat,
                    1,
                ),
            decreases main_transition_degrees@.len() - i,
        {
            let d = degree_value(&main_transition_degrees[i]);
            if d > max_degree {
                max_degree = d;
            }
            i = i + 1;
        }
        let mut j: usize = 0;
        let ghost main_max = max_degree as int;
        while j < aux_transition_degrees.len()
            invariant
                1 <= max_degree <= 255,
                j <= aux_transition_degrees@.len(),
                main_max == spec_fold_max_degree(
                    main_transition_degrees@,
                    main_transition_degrees@.len(),
                    1,
                ),
                max_degree as int == spec_fold_max_degree(
                    aux_transition_degrees@,
                    j as nat,
                    main_max,
                ),
            decreases aux_transition_degrees@.len() - j,
        {
            let d = degree_value(&aux_transition_degrees[j]);
            if d > max_degree {
                max_degree = d;
            }
            j = j + 1;
        }
        let num_constraint_composition_columns = if max_degree > 1 {
            max_degree - 1
        } else {
            1
        };
        AirContext {
            trace_info,
            options,
            num_main_transition_constraints: main_transition_degrees.len(),
            num_aux_transition_constraints: aux_transition_degrees.len(),
            num_main_assertions,
            num_aux_assertions,
            lagrange_kernel_aux_column_idx,
            num_constraint_composition_columns,
        }
    }

    /// The trace shape.
    pub fn trace_info(&self) -> (r: &TraceInfo)
        ensures
            *r == self.spec_trace_info(),
    {
        &self.trace_info
    }

    /// The protocol parameters.
    pub fn options(&self) -> (r: &ProofOptions)
        ensures
            *r == self.spec_options(),
    {
        &self.options
    }

    /// The number of steps in the trace.
    pub fn trace_len(&self) -> (r: usize)
        ensures
            r as int == self.spec_trace_info().spec_length(),
            8 <= r <= 0x100_0000,
            exists|k: nat| r == pow2(k),
    {
        self.trace_info.length()
    }

    /// The size of the low-degree-extension domain: the trace length times
    /// the blowup factor.
    pub fn lde_domain_size(&self) -> (r: usize)
        ensures
            r as int == self.spec_trace_info().spec_length()
                * self.spec_options().spec_blowup_factor(),
            exists|k: nat| r == pow2(k),
            16 <= r <= 0x8000_0000,
    {
        proof {
            use_type_invariant(self);
        }
        let n = self.trace_info.length();
        let b = self.options.blowup_factor();
        proof {
            assert(n as int * b as int >= 16) by (nonlinear_arith)
                requires
                    n >= 8,
                    b >= 2,
            ;
        }
        proof {
            let k0 = choose|k: nat| n == pow2(k);
            let kb: nat = if b == 2 {
                1nat
            } else if b == 4 {
                2nat
            } else if b == 8 {
                3nat
            } else if b == 16 {
                4nat
            } else if b == 32 {
                5nat
            } else if b == 64 {
                6nat
            } else {
                7nat
            };
            vstd::arithmetic::power2::lemma2_to64();
            assert(b == pow2(kb));
            vstd::arithmetic::power2::lemma_pow2_adds(k0, kb);
            assert(n as int * b as int == pow2(k0 + kb) as int);
            assert(n as int * b as int <= 0x100_0000int * 128) by (nonlinear_arith)
                requires
                    n <= 0x100_0000,
                    b <= 128,
                    0 <= n,
                    0 <= b,
            ;
        }
        n * b
    }

    /// The number of main-segment transition constraints.
    pub fn num_main_transition_constraints(&self) -> (r: usize)
        ensures
            r as int == self.spec_num_main_transition_constraints(),
            r <= 0xFFFF,
    {
        proof {
            use_type_invariant(self);
        }
        self.num_main_transition_constraints
    }

    /// The number of auxiliary-segment transition constraints.
    pub fn num_aux_transition_constraints(&self) -> (r: usize)
        ensures
            r as int == self.spec_num_aux_transition_constraints(),
            r <= 0xFFFF,
    {
        proof {
            use_type_invariant(self);
        }
        self.num_aux_transition_constraints
    }

    /// The number of main-segment boundary assertions.
    pub fn num_main_assertions(&self) -> (r: usize)
        ensures
            r as int == self.spec_num_main_assertions(),
            r <= 0xFFFF,
    {
        proof {
            use_type_invariant(self);
        }
        self.num_main_assertions
    }

    /// The number of auxiliary-segment boundary assertions.
    pub fn num_aux_assertions(&self) -> (r: usize)
        ensures
            r as int == self.spec_num_aux_assertions(),
            r <= 0xFFFF,
    {
        proof {
            use_type_invariant(self);
        }
        self.num_aux_assertions
    }

    /// The index of the Lagrange-kernel column within the auxiliary
    /// segment, when the computation has one.
    pub fn lagrange_kernel_aux_column_idx(&self) -> (r: Option<usize>)
        ensures
            r == self.spec_lagrange_kernel_aux_column_idx(),
            match r {
                Some(idx) => idx < self.spec_trace_info().spec_aux_width(),
                None => true,
            },
    {
        proof {
            use_type_invariant(self);
        }
        self.lagrange_kernel_aux_column_idx
    }

    /// The number of constraint-composition columns.
    pub fn num_constraint_composition_columns(&self) -> (r: usize)
        ensures
            r as int == self.spec_num_constraint_composition_columns(),
            1 <= r <= 255,
    {
        proof {
            use_type_invariant(self);
        }
        self.num_constraint_composition_columns
    }
}

/// Every count in a context is a machine integer and hence non-negative.
pub proof fn lemma_context_nonneg(ctx: AirContext)
    ensures
        0 <= ctx.spec_num_main_transition_constraints(),
        0 <= ctx.spec_num_aux_transition_constraints(),
        0 <= ctx.spec_num_main_assertions(),
        0 <= ctx.spec_num_aux_assertions(),
        0 <= ctx.spec_num_constraint_composition_columns(),
        0 <= ctx.spec_trace_info().spec_main_width(),
        0 <= ctx.spec_trace_info().spec_aux_width(),
        0 <= ctx.spec_trace_info().spec_length(),
{
}

/// Reads a degree's value (a helper so that borrowing stays simple).
fn degree_value(d: &TransitionConstraintDegree) -> (r: usize)
    ensures
        r as int == d.spec_degree(),
        r <= 255,
{
    proof {
        use_type_invariant(d);
    }
    degree_field(d)
}

/// The raw degree field.
fn degree_field(d: &TransitionConstraintDegree) -> (r: usize)
    ensures
        r as int == d.spec_degree(),
{
    d.degree_get()
}

impl TransitionConstraintDegree {
    #[verifier::type_invariant]
    spec fn type_inv(self) -> bool {
        1 <= self.degree <= 255
    }

    fn degree_get(&self) -> (r: usize)
        ensures
            r as int == self.spec_degree(),
    {
        self.degree
    }
}

/// The capability interface a concrete computation implements: constructors,
/// periodic columns, transition constraints, and boundary assertions. Every
/// executable method is pinned to a specification method, so a verified
/// implementor fixes exactly what its constraints evaluate to.
pub trait Air: Sized {
    /// The context this descriptor was built with.
    spec fn spec_context(&self) -> AirContext;

    /// The periodic column polynomials.
    spec fn spec_periodic_columns(&self) -> Seq<Seq<Felt>>;

    /// The values of the main-segment transition constraints on a frame.
    spec fn spec_transition(&self, cur: Seq<Felt>, nxt: Seq<Felt>, periodic: Seq<Felt>) -> Seq<
        Felt,
    >;

    /// The values of the auxiliary-segment transition constraints.
    spec fn spec_aux_transition(
        &self,
        main_cur: Seq<Felt>,
        main_nxt: Seq<Felt>,
        aux_cur: Seq<Felt>,
        aux_nxt: Seq<Felt>,
        periodic: Seq<Felt>,
        aux_rand: Seq<Felt>,
    ) -> Seq<Felt>;

    /// The main-segment boundary assertions.
    spec fn spec_assertions(&self) -> Seq<Assertion>;

    /// The auxiliary-segment boundary assertions.
    spec fn spec_aux_assertions(&self, aux_rand: Seq<Felt>) -> Seq<Assertion>;

    /// The random elements that parameterize the Lagrange-kernel column.
    spec fn spec_lagrange_rand_elements(&self, aux_rand: Seq<Felt>) -> Seq<Felt>;

    /// The descriptor the constructor builds: a pure function of the trace
    /// shape, the public inputs, and the parameters, so that the whole
    /// verification run is a function of its inputs.
    spec fn spec_new_air(trace_info: TraceInfo, pub_inputs: Seq<Felt>, options: ProofOptions)
        -> Self;

    /// Builds the descriptor from the trace shape, the public inputs
    /// (serialized as field elements), and the protocol parameters.
    fn new(trace_info: TraceInfo, pub_inputs: Vec<Felt>, options: ProofOptions) -> (r: Self)
        ensures
            r == Self::spec_new_air(trace_info, pub_inputs@, options),
            r.spec_context().spec_trace_info() == trace_info,
            r.spec_context().spec_options() == options,
    ;

    /// The context.
    fn context(&self) -> (r: &AirContext)
        ensures
            *r == self.spec_context(),
    ;

    /// The periodic column polynomials. Each column's length divides the
    /// trace length.
    fn get_periodic_column_polys(&self) -> (r: Vec<Vec<Felt>>)
        ensures
            r@.map_values(|c: Vec<Felt>| c@) == self.spec_periodic_columns(),
            forall|i: int|
                0 <= i < r@.len() ==> 1 <= (#[trigger] r@[i])@.len()
                    <= self.spec_context().spec_trace_info().spec_length()
                    && self.spec_context().spec_trace_info().spec_length() % ((r@[i])@.len()
                    as int) == 0,
    ;

    /// Evaluates the main-segment transition constraints over a frame and
    /// the periodic values.
    fn evaluate_transition(&self, frame: &EvaluationFrame, periodic_values: &Vec<Felt>) -> (r:
        Vec<Felt>)
        requires
            frame.curr().len() == self.spec_context().spec_trace_info().spec_main_width(),
            frame.nxt().len() == self.spec_context().spec_trace_info().spec_main_width(),
            periodic_values@.len() == self.spec_periodic_columns().len(),
        ensures
            r@ == self.spec_transition(frame.curr(), frame.nxt(), periodic_values@),
            r@.len() == self.spec_context().spec_num_main_transition_constraints(),
    ;

    /// Evaluates the auxiliary-segment transition constraints.
    fn evaluate_aux_transition(
        &self,
        main_frame: &EvaluationFrame,
        aux_frame: &EvaluationFrame,
        periodic_values: &Vec<Felt>,
        aux_rand_elements: &Vec<Felt>,
    ) -> (r: Vec<Felt>)
        requires
            main_frame.curr().len() == self.spec_context().spec_trace_info().spec_main_width(),
            main_frame.nxt().len() == self.spec_context().spec_trace_info().spec_main_width(),
            aux_frame.curr().len() == self.spec_context().spec_trace_info().spec_aux_width(),
            aux_frame.nxt().len() == self.spec_context().spec_trace_info().spec_aux_width(),
            periodic_values@.len() == self.spec_periodic_columns().len(),
        ensures
            r@ == self.spec_aux_transition(
                main_frame.curr(),
                main_frame.nxt(),
                aux_frame.curr(),
                aux_frame.nxt(),
                periodic_values@,
                aux_rand_elements@,
            ),
            r@.len() == self.spec_context().spec_num_aux_transition_constraints(),
    ;

    /// The main-segment boundary assertions. Every assertion points into the
    /// main segment and at a step inside the trace.
    fn get_assertions(&self) -> (r: Vec<Assertion>)
        ensures
            r@ == self.spec_assertions(),
            r@.len() == self.spec_context().spec_num_main_assertions(),
            forall|i: int|
                0 <= i < r@.len() ==> (#[trigger] r@[i]).column
                    < self.spec_context().spec_trace_info().spec_main_width() && r@[i].step
                    < self.spec_context().spec_trace_info().spec_length(),
    ;

    /// The auxiliary-segment boundary assertions; columns index into the
    /// auxiliary segment.
    fn get_aux_assertions(&self, aux_rand_elements: &Vec<Felt>) -> (r: Vec<Assertion>)
        ensures
            r@ == self.spec_aux_assertions(aux_rand_elements@),
            r@.len() == self.spec_context().spec_num_aux_assertions(),
            forall|i: int|
                0 <= i < r@.len() ==> (#[trigger] r@[i]).column
                    < self.spec_context().spec_trace_info().spec_aux_width() && r@[i].step
                    < self.spec_context().spec_trace_info().spec_length(),
    ;

    /// The random elements that parameterize the Lagrange-kernel column,
    /// taken from the auxiliary random elements.
    fn get_lagrange_rand_elements(&self, aux_rand_elements: &Vec<Felt>) -> (r: Vec<Felt>)
        ensures
            r@ == self.spec_lagrange_rand_elements(aux_rand_elements@),
    ;

    /// When the computation has a Lagrange-kernel column, its random
    /// elements number exactly log2(trace length).
    proof fn lagrange_rand_len(&self, aux_rand: Seq<Felt>)
        ensures
            self.spec_context().spec_lagrange_kernel_aux_column_idx() is Some
                ==> self.spec_lagrange_rand_elements(aux_rand).len() == crate::felt::spec_log2(
                self.spec_context().spec_trace_info().spec_length() as nat,
            ),
    ;
}

} // verus!
