//! The out-of-domain frame: a compact byte-encoded container for the trace
//! and constraint evaluations at the out-of-domain point.
//!
//! The frame holds three independently encoded byte regions: the interleaved
//! current/next trace-row evaluations, an optional Lagrange-kernel evaluation
//! sequence, and the constraint-composition-column evaluations. Each region
//! is write-once; `parse` decodes all three and fails if any region holds
//! leftover or malformed bytes. Interleaving exists so that the verifier can
//! reseed the transcript with a single hash of the whole frame.

use vstd::prelude::*;
use crate::digest::{felt_bytes, felts_to_bytes, hash_felts, Digest};
use crate::errors::{DeserializationError, OodFrameError};
use crate::felt::{felt_of, lemma_felt_of_roundtrip, Felt, MODULUS};
use crate::frame::EvaluationFrame;

verus! {

use vstd::bytes::{
    spec_u16_to_le_bytes,
    spec_u16_from_le_bytes,
    spec_u64_from_le_bytes,
    spec_u64_to_le_bytes,
};

// SPEC-LEVEL CODEC
// ------------------------------------------------------------------------

/// Whether the 8-byte slot `i` of a region decodes to a field element.
pub open spec fn felt_slot_valid(bytes: Seq<u8>, i: int) -> bool {
    spec_u64_from_le_bytes(bytes.subrange(8 * i, 8 * i + 8)) < MODULUS
}

/// The decoding status of a byte region declared to hold `count` elements:
/// `None` when it decodes cleanly, otherwise the exact error.
pub open spec fn felts_region_error(bytes: Seq<u8>, count: nat) -> Option<DeserializationError> {
    if bytes.len() < 8 * count {
        Some(DeserializationError::UnexpectedEof)
    } else if bytes.len() > 8 * count {
        Some(DeserializationError::UnconsumedBytes)
    } else if exists|i: int| 0 <= i < count && !felt_slot_valid(bytes, i) {
        Some(DeserializationError::InvalidValue)
    } else {
        None
    }
}

/// The elements decoded from a clean region.
pub open spec fn decoded_felts(bytes: Seq<u8>, count: nat) -> Seq<Felt> {
    Seq::new(count, |i: int| felt_of(spec_u64_from_le_bytes(bytes.subrange(8 * i, 8 * i + 8)) as int))
}

/// The interleaving of two equally long rows, column by column.
pub open spec fn interleave(cur: Seq<Felt>, nxt: Seq<Felt>) -> Seq<Felt>
    recommends
        cur.len() == nxt.len(),
{
    Seq::new(2 * cur.len(), |i: int| if i % 2 == 0 { cur[i / 2] } else { nxt[i / 2] })
}

/// Slot `i` of an encoded sequence holds that sequence's element `i`.
proof fn lemma_felts_to_bytes_slot(s: Seq<Felt>, i: int)
    requires
        forall|j: int| 0 <= j < s.len() ==> 0 <= (#[trigger] s[j]).val() < MODULUS,
        0 <= i < s.len(),
    ensures
        felts_to_bytes(s).subrange(8 * i, 8 * i + 8) == felt_bytes(s[i]),
    decreases i,
{
    vstd::bytes::lemma_auto_spec_u64_to_from_le_bytes();
    crate::digest::lemma_felts_to_bytes_len(s);
    crate::digest::lemma_felts_to_bytes_len(s.skip(1));
    if i == 0 {
        assert(felts_to_bytes(s) == felt_bytes(s[0]) + felts_to_bytes(s.skip(1)));
        assert(felts_to_bytes(s).subrange(0, 8) =~= felt_bytes(s[0]));
    } else {
        lemma_felts_to_bytes_slot(s.skip(1), i - 1);
        assert(s.skip(1)[i - 1] == s[i]);
        assert(felts_to_bytes(s).subrange(8 * i, 8 * i + 8) =~= felts_to_bytes(
            s.skip(1),
        ).subrange(8 * (i - 1), 8 * (i - 1) + 8));
    }
}

/// Encoding then decoding a sequence of elements is the identity.
pub proof fn lemma_encode_decode(s: Seq<Felt>)
    requires
        forall|j: int| 0 <= j < s.len() ==> 0 <= (#[trigger] s[j]).val() < MODULUS,
    ensures
        felts_region_error(felts_to_bytes(s), s.len()) is None,
        decoded_felts(felts_to_bytes(s), s.len()) == s,
{
    vstd::bytes::lemma_auto_spec_u64_to_from_le_bytes();
    crate::digest::lemma_felts_to_bytes_len(s);
    let bytes = felts_to_bytes(s);
    assert forall|i: int| 0 <= i < s.len() implies felt_slot_valid(bytes, i) by {
        lemma_felts_to_bytes_slot(s, i);
        assert(spec_u64_from_le_bytes(felt_bytes(s[i])) == s[i].val() as u64);
    }
    assert forall|i: int| 0 <= i < s.len() implies decoded_felts(bytes, s.len())[i] == s[i] by {
        lemma_felts_to_bytes_slot(s, i);
        assert(spec_u64_from_le_bytes(felt_bytes(s[i])) == s[i].val() as u64);
        lemma_felt_of_roundtrip(s[i]);
    }
    assert(decoded_felts(bytes, s.len()) =~= s);
}

// EXEC CODEC HELPERS
// ------------------------------------------------------------------------

/// Appends the canonical byte encoding of the elements to the target buffer.
fn append_felts(target: &mut Vec<u8>, elems: &Vec<Felt>)
    ensures
        final(target)@ == old(target)@ + felts_to_bytes(elems@),
{
    let mut i: usize = 0;
    while i < elems.len()
        invariant
            i <= elems@.len(),
            target@ == old(target)@ + felts_to_bytes(elems@.take(i as int)),
        decreases elems@.len() - i,
    {
        let e = elems[i];
        let mut eb = vstd::bytes::u64_to_le_bytes(e.as_int());
        target.append(&mut eb);
        proof {
            crate::digest::lemma_felts_to_bytes_push(elems@.take(i as int), e);
            assert(elems@.take(i as int).push(e) =~= elems@.take(i + 1));
        }
        i = i + 1;
    }
    proof {
        assert(elems@.take(elems@.len() as int) =~= elems@);
    }
}

/// Decodes exactly `count` field elements from `bytes[start..]`, failing
/// exactly as `felts_region_error` describes.
#[verifier::loop_isolation(false)]
fn read_felts_region(bytes: &Vec<u8>, start: usize, count: usize) -> (r: Result<
    Vec<Felt>,
    DeserializationError,
>)
    requires
        start <= bytes@.len(),
        count <= 0x0FFF_FFFF,
    ensures
        ({
            let region = bytes@.skip(start as int);
            match felts_region_error(region, count as nat) {
                Some(e) => r == Err::<Vec<Felt>, DeserializationError>(e),
                None => r is Ok && r->Ok_0@ == decoded_felts(region, count as nat) && r->Ok_0@.len()
                    == count,
            }
        }),
{
    let ghost region = bytes@.skip(start as int);
    let n = bytes.len() - start;
    if n < 8 * count {
        return Err(DeserializationError::UnexpectedEof);
    }
    if n > 8 * count {
        return Err(DeserializationError::UnconsumedBytes);
    }
    let mut out: Vec<Felt> = Vec::new();
    let mut i: usize = 0;
    while i < count
        invariant
            region == bytes@.skip(start as int),
            start + 8 * count <= bytes@.len(),
            count <= 0x0FFF_FFFF,
            i <= count,
            out@.len() == i,
            forall|j: int| 0 <= j < i ==> felt_slot_valid(region, j),
            forall|j: int| 0 <= j < i ==> out@[j] == decoded_felts(region, count as nat)[j],
        decreases count - i,
    {
        let lo = start + 8 * i;
        let v = vstd::bytes::u64_from_le_bytes(
            vstd::slice::slice_subrange(bytes.as_slice(), lo, lo + 8),
        );
        proof {
            assert(bytes@.subrange(lo as int, lo + 8) =~= region.subrange(
                8 * (i as int),
                8 * (i as int) + 8,
            ));
        }
        if v >= MODULUS {
            proof {
                assert(!felt_slot_valid(region, i as int));
            }
            return Err(DeserializationError::InvalidValue);
        }
        let f = Felt::from_reduced(v);
        proof {
            crate::felt::lemma_felt_of_val(v as int);
            lemma_felt_of_roundtrip(f);
        }
        out.push(f);
        i = i + 1;
    }
    proof {
        assert(felts_region_error(region, count as nat) is None);
        assert(out@ =~= decoded_felts(region, count as nat));
    }
    Ok(out)
}

// OOD FRAME TRACE STATES
// ------------------------------------------------------------------------

/// The decoded trace portion of an out-of-domain frame: the full current and
/// next rows (main and auxiliary columns concatenated), the width of the
/// main segment, and the optional Lagrange-kernel evaluation sequence.
#[derive(Debug)]
pub struct OodFrameTraceStates {
    current_row: Vec<Felt>,
    next_row: Vec<Felt>,
    main_trace_width: usize,
    lagrange_kernel_frame: Option<Vec<Felt>>,
}

impl OodFrameTraceStates {
    /// The current row.
    pub closed spec fn curr(&self) -> Seq<Felt> {
        self.current_row@
    }

    /// The next row.
    pub closed spec fn nxt(&self) -> Seq<Felt> {
        self.next_row@
    }

    /// The main segment's width.
    pub closed spec fn main_width(&self) -> int {
        self.main_trace_width as int
    }

    /// The Lagrange-kernel evaluations, if the computation has such a column.
    pub closed spec fn lagrange(&self) -> Option<Seq<Felt>> {
        match self.lagrange_kernel_frame {
            Some(l) => Some(l@),
            None => None,
        }
    }

    /// The Lagrange-kernel evaluations, or an empty sequence without one.
    pub open spec fn lagrange_or_empty(&self) -> Seq<Felt> {
        match self.lagrange() {
            Some(l) => l,
            None => Seq::empty(),
        }
    }

    /// The frame flattened in transcript order: the interleaved rows
    /// followed by the Lagrange-kernel evaluations.
    pub open spec fn flattened(&self) -> Seq<Felt> {
        interleave(self.curr(), self.nxt()) + self.lagrange_or_empty()
    }

    #[verifier::type_invariant]
    spec fn type_inv(self) -> bool {
        &&& self.current_row@.len() == self.next_row@.len()
        &&& self.current_row@.len() <= 0x07FF_FFFF
        &&& self.main_trace_width <= self.current_row@.len()
        &&& match self.lagrange_kernel_frame {
            Some(l) => 1 <= l@.len() < 256,
            None => true,
        }
    }

    /// Builds the trace portion from the current row, the next row, and the
    /// optional Lagrange-kernel evaluations. The rows must be equally long
    /// and at least as wide as the main segment, and a Lagrange sequence
    /// must hold between 1 and 255 evaluations (its length is the logarithm
    /// of the trace length, so longer traces are unsupported by
    /// construction).
    pub fn new(
        current_row: Vec<Felt>,
        next_row: Vec<Felt>,
        main_trace_width: usize,
        lagrange_kernel_frame: Option<Vec<Felt>>,
    ) -> (r: OodFrameTraceStates)
        requires
            current_row@.len() == next_row@.len(),
            current_row@.len() <= 0x07FF_FFFF,
            main_trace_width <= current_row@.len(),
            match lagrange_kernel_frame {
                Some(l) => 1 <= l@.len() < 256,
                None => true,
            },
        ensures
            r.curr() == current_row@,
            r.nxt() == next_row@,
            r.main_width() == main_trace_width as int,
            r.lagrange() == match lagrange_kernel_frame {
                Some(l) => Some(l@),
                None => None::<Seq<Felt>>,
            },
    {
        OodFrameTraceStates { current_row, next_row, main_trace_width, lagrange_kernel_frame }
    }

    /// The number of columns in each row.
    pub fn num_columns(&self) -> (r: usize)
        ensures
            r == self.curr().len(),
            self.curr().len() == self.nxt().len(),
            self.curr().len() <= 0x07FF_FFFF,
            self.main_width() <= self.curr().len(),
    {
        proof {
            use_type_invariant(self);
        }
        self.current_row.len()
    }

    /// The current row, consisting of both main and auxiliary columns.
    pub fn current_row(&self) -> (r: &Vec<Felt>)
        ensures
            r@ == self.curr(),
    {
        &self.current_row
    }

    /// The next row, consisting of both main and auxiliary columns.
    pub fn next_row(&self) -> (r: &Vec<Felt>)
        ensures
            r@ == self.nxt(),
    {
        &self.next_row
    }

    /// The frame restricted to the main segment's columns.
    pub fn main_frame(&self) -> (r: EvaluationFrame)
        ensures
            r.curr() == self.curr().subrange(0, self.main_width()),
            r.nxt() == self.nxt().subrange(0, self.main_width()),
    {
        proof {
            use_type_invariant(self);
        }
        let current = vstd::slice::slice_to_vec(
            vstd::slice::slice_subrange(self.current_row.as_slice(), 0, self.main_trace_width),
        );
        let next = vstd::slice::slice_to_vec(
            vstd::slice::slice_subrange(self.next_row.as_slice(), 0, self.main_trace_width),
        );
        EvaluationFrame::from_rows(current, next)
    }

    /// The frame restricted to the auxiliary columns, when there are any.
    pub fn aux_frame(&self) -> (r: Option<EvaluationFrame>)
        ensures
            self.curr().len() > self.main_width() ==> r is Some
                && r->0.curr() == self.curr().subrange(self.main_width(), self.curr().len() as int)
                && r->0.nxt() == self.nxt().subrange(self.main_width(), self.nxt().len() as int),
            self.curr().len() <= self.main_width() ==> r is None,
    {
        proof {
            use_type_invariant(self);
        }
        if self.has_aux_frame() {
            let current = vstd::slice::slice_to_vec(
                vstd::slice::slice_subrange(
                    self.current_row.as_slice(),
                    self.main_trace_width,
                    self.current_row.len(),
                ),
            );
            let next = vstd::slice::slice_to_vec(
                vstd::slice::slice_subrange(
                    self.next_row.as_slice(),
                    self.main_trace_width,
                    self.next_row.len(),
                ),
            );
            Some(EvaluationFrame::from_rows(current, next))
        } else {
            None
        }
    }

    /// The Lagrange-kernel frame, if any.
    pub fn lagrange_kernel_frame(&self) -> (r: Option<&Vec<Felt>>)
        ensures
            match r {
                Some(l) => self.lagrange() == Some(l@),
                None => self.lagrange() is None,
            },
    {
        match &self.lagrange_kernel_frame {
            Some(l) => Some(l),
            None => None,
        }
    }

    /// Hashes the frame for reseeding the transcript. The digest covers the
    /// interleaved current/next rows followed by the Lagrange-kernel
    /// evaluations — the same flattened ordering in which the frame was
    /// written, so proving and verifying sides reseed identically.
    pub fn hash(&self) -> (r: Digest)
        ensures
            r@ == crate::digest::blake3_of(felts_to_bytes(self.flattened())),
            r@.len() == 32,
    {
        proof {
            use_type_invariant(self);
        }
        let flat = self.flatten();
        hash_felts(&flat)
    }

    /// Whether the rows extend beyond the main segment.
    pub fn has_aux_frame(&self) -> (r: bool)
        ensures
            r == (self.curr().len() > self.main_width()),
    {
        proof {
            use_type_invariant(self);
        }
        self.current_row.len() > self.main_trace_width
    }

    /// The rows interleaved column by column, followed by the Lagrange
    /// evaluations.
    fn flatten(&self) -> (r: Vec<Felt>)
        ensures
            r@ == self.flattened(),
    {
        proof {
            use_type_invariant(self);
        }
        let w = self.current_row.len();
        let mut flat: Vec<Felt> = Vec::new();
        let mut col: usize = 0;
        while col < w
            invariant
                w == self.curr().len(),
                self.curr().len() == self.nxt().len(),
                col <= w,
                flat@.len() == 2 * col,
                forall|k: int|
                    0 <= k < flat@.len() ==> flat@[k] == interleave(self.curr(), self.nxt())[k],
        decreases w - col,
        {
            flat.push(self.current_row[col]);
            flat.push(self.next_row[col]);
            proof {
                assert((2 * col as int) % 2 == 0 && (2 * col as int) / 2 == col as int);
                assert((2 * col as int + 1) % 2 == 1 && (2 * col as int + 1) / 2 == col as int);
            }
            col = col + 1;
        }
        proof {
            assert(flat@ =~= interleave(self.curr(), self.nxt()));
        }
        match &self.lagrange_kernel_frame {
            Some(l) => {
                let mut i: usize = 0;
                let ghost inter = flat@;
                while i < l.len()
                    invariant
                        inter == interleave(self.curr(), self.nxt()),
                        self.lagrange() == Some(l@),
                        i <= l@.len(),
                        flat@ == inter + l@.take(i as int),
                    decreases l@.len() - i,
                {
                    flat.push(l[i]);
                    proof {
                        assert(inter + l@.take(i as int) + seq![l@[i as int]] =~= inter + l@.take(
                            i + 1,
                        ));
                    }
                    i = i + 1;
                }
                proof {
                    assert(l@.take(l@.len() as int) =~= l@);
                }
                flat
            },
            None => {
                proof {
                    assert(self.flattened() =~= interleave(self.curr(), self.nxt()));
                }
                flat
            },
        }
    }
}

// OOD FRAME
// ------------------------------------------------------------------------

/// Trace and constraint polynomial evaluations at the out-of-domain point,
/// stored as three write-once byte regions.
#[derive(PartialEq, Eq, Debug)]
pub struct OodFrame {
    trace_states: Vec<u8>,
    lagrange_kernel_trace_states: Vec<u8>,
    evaluations: Vec<u8>,
}

impl Clone for OodFrame {
    fn clone(&self) -> (r: Self)
        ensures
            r.trace_bytes() == self.trace_bytes(),
            r.lagrange_bytes() == self.lagrange_bytes(),
            r.eval_bytes() == self.eval_bytes(),
    {
        OodFrame {
            trace_states: self.trace_states.clone(),
            lagrange_kernel_trace_states: self.lagrange_kernel_trace_states.clone(),
            evaluations: self.evaluations.clone(),
        }
    }
}

impl Default for OodFrame {
    /// An empty frame with no region set.
    fn default() -> (r: Self)
        ensures
            r.trace_bytes().len() == 0,
            r.lagrange_bytes().len() == 0,
            r.eval_bytes().len() == 0,
    {
        OodFrame { trace_states: Vec::new(), lagrange_kernel_trace_states: Vec::new(), evaluations: Vec::new() }
    }
}

impl OodFrame {
    /// The interleaved trace-row region's bytes.
    pub closed spec fn trace_bytes(&self) -> Seq<u8> {
        self.trace_states@
    }

    /// The Lagrange-kernel region's bytes.
    pub closed spec fn lagrange_bytes(&self) -> Seq<u8> {
        self.lagrange_kernel_trace_states@
    }

    /// The constraint-evaluation region's bytes.
    pub closed spec fn eval_bytes(&self) -> Seq<u8> {
        self.evaluations@
    }

    /// An empty frame with no region set.
    pub fn new() -> (r: Self)
        ensures
            r.trace_bytes().len() == 0,
            r.lagrange_bytes().len() == 0,
            r.eval_bytes().len() == 0,
    {
        OodFrame { trace_states: Vec::new(), lagrange_kernel_trace_states: Vec::new(), evaluations: Vec::new() }
    }

    /// Stores the trace portion of the frame: the current/next rows are
    /// interleaved column by column behind a frame-size marker (2, for
    /// "current, next"), and the Lagrange-kernel evaluations are stored
    /// behind their element count. Returns the flattened interleaved-plus-
    /// Lagrange sequence, so that the caller can reseed the transcript with
    /// a single hash of the whole frame.
    ///
    /// Fails, changing nothing, if the trace region was already set.
    pub fn set_trace_states(&mut self, trace_states: &OodFrameTraceStates) -> (r: Result<
        Vec<Felt>,
        OodFrameError,
    >)
        ensures
            match r {
                Ok(flat) => {
                    &&& old(self).trace_bytes().len() == 0
                    &&& flat@ == trace_states.flattened()
                    &&& final(self).trace_bytes() == seq![2u8] + felts_to_bytes(
                        interleave(trace_states.curr(), trace_states.nxt()),
                    )
                    &&& final(self).lagrange_bytes() == seq![
                        trace_states.lagrange_or_empty().len() as u8,
                    ] + felts_to_bytes(trace_states.lagrange_or_empty())
                    &&& final(self).eval_bytes() == old(self).eval_bytes()
                },
                Err(e) => {
                    &&& old(self).trace_bytes().len() > 0
                    &&& e == OodFrameError::TraceStatesAlreadySet
                    &&& *final(self) == *old(self)
                },
            },
    {
        proof {
            use_type_invariant(trace_states);
        }
        if self.trace_states.len() > 0 {
            return Err(OodFrameError::TraceStatesAlreadySet);
        }
        // interleave the rows and write them behind the frame-size marker
        let flat = trace_states.flatten();
        let w = trace_states.num_columns();
        let interleaved = vstd::slice::slice_to_vec(
            vstd::slice::slice_subrange(flat.as_slice(), 0, 2 * w),
        );
        proof {
            assert(interleaved@ =~= interleave(trace_states.curr(), trace_states.nxt()));
        }
        self.trace_states.push(2u8);
        append_felts(&mut self.trace_states, &interleaved);
        proof {
            assert(old(self).trace_bytes() + seq![2u8] =~= seq![2u8]);
            assert(seq![2u8] + felts_to_bytes(interleaved@) =~= self.trace_states@);
        }
        // write the Lagrange-kernel evaluations behind their element count
        let lagrange: Vec<Felt> = match trace_states.lagrange_kernel_frame() {
            Some(l) => vstd::slice::slice_to_vec(l.as_slice()),
            None => Vec::new(),
        };
        proof {
            assert(lagrange@ =~= trace_states.lagrange_or_empty());
        }
        let lag_len = lagrange.len() as u8;
        let mut lag_region: Vec<u8> = Vec::new();
        lag_region.push(lag_len);
        append_felts(&mut lag_region, &lagrange);
        self.lagrange_kernel_trace_states = lag_region;
        proof {
            assert(Seq::<u8>::empty().push(lag_len) =~= seq![lag_len]);
            assert(seq![lag_len] + felts_to_bytes(lagrange@) =~= self.lagrange_kernel_trace_states@);
        }
        Ok(flat)
    }

    /// Stores the constraint-composition-column evaluations. Fails, changing
    /// nothing, if they were already set or if the sequence is empty.
    pub fn set_constraint_evaluations(&mut self, evaluations: &Vec<Felt>) -> (r: Result<
        (),
        OodFrameError,
    >)
        ensures
            match r {
                Ok(_) => {
                    &&& old(self).eval_bytes().len() == 0
                    &&& evaluations@.len() > 0
                    &&& final(self).eval_bytes() == felts_to_bytes(evaluations@)
                    &&& final(self).trace_bytes() == old(self).trace_bytes()
                    &&& final(self).lagrange_bytes() == old(self).lagrange_bytes()
                },
                Err(e) => {
                    &&& *final(self) == *old(self)
                    &&& if old(self).eval_bytes().len() > 0 {
                        e == OodFrameError::EvaluationsAlreadySet
                    } else {
                        evaluations@.len() == 0 && e == OodFrameError::EmptyEvaluations
                    }
                },
            },
    {
        if self.evaluations.len() > 0 {
            return Err(OodFrameError::EvaluationsAlreadySet);
        }
        if evaluations.len() == 0 {
            return Err(OodFrameError::EmptyEvaluations);
        }
        append_felts(&mut self.evaluations, evaluations);
        proof {
            assert(old(self).eval_bytes() + felts_to_bytes(evaluations@) =~= felts_to_bytes(
                evaluations@,
            ));
        }
        Ok(())
    }

    /// The parse outcome this frame's bytes determine, for the given widths
    /// and evaluation count: either the exact decoding error, or the decoded
    /// (current row, next row, Lagrange evaluations, constraint evaluations).
    pub open spec fn spec_parse(
        &self,
        main_trace_width: int,
        aux_trace_width: int,
        num_evaluations: int,
    ) -> Result<(Seq<Felt>, Seq<Felt>, Option<Seq<Felt>>, Seq<Felt>), DeserializationError> {
        let width = main_trace_width + aux_trace_width;
        if self.trace_bytes().len() == 0 {
            Err(DeserializationError::UnexpectedEof)
        } else if self.trace_bytes()[0] != 2 {
            Err(DeserializationError::InvalidValue)
        } else {
            match felts_region_error(self.trace_bytes().skip(1), (2 * width) as nat) {
                Some(e) => Err(e),
                None => if self.lagrange_bytes().len() == 0 {
                    Err(DeserializationError::UnexpectedEof)
                } else {
                    let lag_count = self.lagrange_bytes()[0] as nat;
                    match felts_region_error(self.lagrange_bytes().skip(1), lag_count) {
                        Some(e) => Err(e),
                        None => match felts_region_error(
                            self.eval_bytes(),
                            num_evaluations as nat,
                        ) {
                            Some(e) => Err(e),
                            None => {
                                let trace = decoded_felts(
                                    self.trace_bytes().skip(1),
                                    (2 * width) as nat,
                                );
                                let cur = Seq::new(width as nat, |i: int| trace[2 * i]);
                                let nxt = Seq::new(width as nat, |i: int| trace[2 * i + 1]);
                                let lagrange = if lag_count == 0 {
                                    None
                                } else {
                                    Some(
                                        decoded_felts(self.lagrange_bytes().skip(1), lag_count),
                                    )
                                };
                                let evals = decoded_felts(
                                    self.eval_bytes(),
                                    num_evaluations as nat,
                                );
                                Ok((cur, nxt, lagrange, evals))
                            },
                        },
                    }
                },
            }
        }
    }

    /// Decodes the frame into the trace portion and the constraint
    /// evaluations, reversing the interleaving exactly: pairs are taken from
    /// the tail of the decoded sequence, the inverse of the order in which
    /// the encoder walked the columns. Fails, exactly as `spec_parse` says,
    /// if any region is truncated, holds a non-element value, or has
    /// leftover bytes after the declared content.
    #[verifier::loop_isolation(false)]
    pub fn parse(self, main_trace_width: usize, aux_trace_width: usize, num_evaluations: usize)
        -> (r: Result<(OodFrameTraceStates, Vec<Felt>), DeserializationError>)
        requires
            0 < main_trace_width,
            0 < num_evaluations <= 0x0FFF_FFFF,
            main_trace_width + aux_trace_width <= 0x07FF_FFFF,
        ensures
            match self.spec_parse(
                main_trace_width as int,
                aux_trace_width as int,
                num_evaluations as int,
            ) {
                Ok((cur, nxt, lagrange, evals)) => r is Ok && {
                    let ts = r->Ok_0.0;
                    &&& ts.curr() == cur
                    &&& ts.nxt() == nxt
                    &&& ts.main_width() == main_trace_width as int
                    &&& ts.lagrange() == lagrange
                    &&& r->Ok_0.1@ == evals
                },
                Err(e) => r == Err::<(OodFrameTraceStates, Vec<Felt>), DeserializationError>(e),
            },
    {
        let width = main_trace_width + aux_trace_width;
        // decode the interleaved trace rows behind the frame-size marker
        if self.trace_states.len() == 0 {
            return Err(DeserializationError::UnexpectedEof);
        }
        if self.trace_states[0] != 2 {
            return Err(DeserializationError::InvalidValue);
        }
        let mut trace = match read_felts_region(&self.trace_states, 1, 2 * width) {
            Ok(t) => t,
            Err(e) => {
                return Err(e);
            },
        };
        let ghost decoded = trace@;
        // split the rows back apart, popping pairs from the tail
        let mut current_rev: Vec<Felt> = Vec::new();
        let mut next_rev: Vec<Felt> = Vec::new();
        while trace.len() > 0
            invariant
                decoded.len() == 2 * width,
                trace@.len() % 2 == 0,
                trace@ == decoded.take(trace@.len() as int),
                current_rev@.len() == next_rev@.len(),
                2 * current_rev@.len() + trace@.len() == decoded.len(),
                forall|j: int|
                    0 <= j < current_rev@.len() ==> #[trigger] current_rev@[j] == decoded[2 * (
                    width - 1 - j)],
                forall|j: int|
                    0 <= j < next_rev@.len() ==> #[trigger] next_rev@[j] == decoded[2 * (width - 1
                        - j) + 1],
            decreases trace@.len(),
        {
            let n = trace.pop().unwrap();
            let c = trace.pop().unwrap();
            current_rev.push(c);
            next_rev.push(n);
            proof {
                assert(trace@ =~= decoded.take(trace@.len() as int));
            }
        }
        let mut current_row: Vec<Felt> = Vec::new();
        let mut next_row: Vec<Felt> = Vec::new();
        let mut i: usize = 0;
        while i < width
            invariant
                width == main_trace_width + aux_trace_width,
                decoded.len() == 2 * width,
                current_rev@.len() == width,
                next_rev@.len() == width,
                forall|j: int|
                    0 <= j < width ==> #[trigger] current_rev@[j] == decoded[2 * (width - 1 - j)],
                forall|j: int|
                    0 <= j < width ==> #[trigger] next_rev@[j] == decoded[2 * (width - 1 - j) + 1],
                i <= width,
                current_row@.len() == i,
                next_row@.len() == i,
                forall|j: int| 0 <= j < i ==> #[trigger] current_row@[j] == decoded[2 * j],
                forall|j: int| 0 <= j < i ==> #[trigger] next_row@[j] == decoded[2 * j + 1],
            decreases width - i,
        {
            current_row.push(current_rev[width - 1 - i]);
            next_row.push(next_rev[width - 1 - i]);
            i = i + 1;
        }
        // decode the Lagrange-kernel evaluations behind their count
        if self.lagrange_kernel_trace_states.len() == 0 {
            return Err(DeserializationError::UnexpectedEof);
        }
        let lag_count = self.lagrange_kernel_trace_states[0] as usize;
        let lagrange_vals = match read_felts_region(
            &self.lagrange_kernel_trace_states,
            1,
            lag_count,
        ) {
            Ok(l) => l,
            Err(e) => {
                return Err(e);
            },
        };
        let lagrange_kernel_frame: Option<Vec<Felt>> = if lag_count > 0 {
            Some(lagrange_vals)
        } else {
            None
        };
        // decode the constraint evaluations
        proof {
            assert(self.eval_bytes().skip(0) =~= self.eval_bytes());
        }
        let evaluations = match read_felts_region(&self.evaluations, 0, num_evaluations) {
            Ok(ev) => ev,
            Err(e) => {
                return Err(e);
            },
        };
        proof {
            assert(self.eval_bytes().skip(0) =~= self.eval_bytes());
            let spec_cur = Seq::new(
                (main_trace_width + aux_trace_width) as nat,
                |j: int| decoded[2 * j],
            );
            let spec_nxt = Seq::new(
                (main_trace_width + aux_trace_width) as nat,
                |j: int| decoded[2 * j + 1],
            );
            assert(current_row@ =~= spec_cur);
            assert(next_row@ =~= spec_nxt);
        }
        let ts = OodFrameTraceStates::new(
            current_row,
            next_row,
            main_trace_width,
            lagrange_kernel_frame,
        );
        Ok((ts, evaluations))
    }

    /// The frame's wire form: each region framed with a 16-bit little-endian
    /// length prefix followed by its raw bytes, so a higher-level proof
    /// reader can skip or validate regions before parsing.
    pub open spec fn wire_bytes(&self) -> Seq<u8> {
        spec_u16_to_le_bytes(self.trace_bytes().len() as u16) + self.trace_bytes()
            + spec_u16_to_le_bytes(self.lagrange_bytes().len() as u16) + self.lagrange_bytes()
            + spec_u16_to_le_bytes(self.eval_bytes().len() as u16) + self.eval_bytes()
    }

    /// Serializes the frame into the target buffer in its wire form.
    pub fn write_into(&self, target: &mut Vec<u8>)
        requires
            self.trace_bytes().len() <= u16::MAX,
            self.lagrange_bytes().len() <= u16::MAX,
            self.eval_bytes().len() <= u16::MAX,
        ensures
            final(target)@ == old(target)@ + self.wire_bytes(),
    {
        append_region(target, &self.trace_states);
        append_region(target, &self.lagrange_kernel_trace_states);
        append_region(target, &self.evaluations);
        proof {
            assert(final(target)@ =~= old(target)@ + self.wire_bytes());
        }
    }

    /// An estimate of the serialized size: the trace and evaluation regions
    /// plus two of the three length prefixes.
    pub fn get_size_hint(&self) -> (r: usize)
        requires
            self.trace_bytes().len() + self.eval_bytes().len() + 4 <= usize::MAX,
        ensures
            r == self.trace_bytes().len() + self.eval_bytes().len() + 4,
    {
        self.trace_states.len() + self.evaluations.len() + 4
    }

    /// The outcome of reading a wire-form frame from `bytes` at `pos`: the
    /// frame and the position after it, or the exact error.
    pub open spec fn spec_read_from(bytes: Seq<u8>, pos: int) -> Result<
        (Seq<u8>, Seq<u8>, Seq<u8>, int),
        DeserializationError,
    > {
        match spec_read_region(bytes, pos) {
            Err(e) => Err(e),
            Ok((trace, p1)) => match spec_read_region(bytes, p1) {
                Err(e) => Err(e),
                Ok((lagrange, p2)) => match spec_read_region(bytes, p2) {
                    Err(e) => Err(e),
                    Ok((evals, p3)) => Ok((trace, lagrange, evals, p3)),
                },
            },
        }
    }

    /// Reads a wire-form frame from `bytes` starting at `pos`; returns the
    /// frame and the position just after it.
    pub fn read_from(bytes: &Vec<u8>, pos: usize) -> (r: Result<
        (OodFrame, usize),
        DeserializationError,
    >)
        requires
            pos <= bytes@.len(),
        ensures
            match Self::spec_read_from(bytes@, pos as int) {
                Ok((trace, lagrange, evals, p3)) => r is Ok && {
                    let (frame, rp) = r->Ok_0;
                    &&& frame.trace_bytes() == trace
                    &&& frame.lagrange_bytes() == lagrange
                    &&& frame.eval_bytes() == evals
                    &&& rp as int == p3
                },
                Err(e) => r == Err::<(OodFrame, usize), DeserializationError>(e),
            },
    {
        let (trace_states, p1) = match read_region(bytes, pos) {
            Ok(t) => t,
            Err(e) => {
                return Err(e);
            },
        };
        let (lagrange_kernel_trace_states, p2) = match read_region(bytes, p1) {
            Ok(t) => t,
            Err(e) => {
                return Err(e);
            },
        };
        let (evaluations, p3) = match read_region(bytes, p2) {
            Ok(t) => t,
            Err(e) => {
                return Err(e);
            },
        };
        Ok((OodFrame { trace_states, lagrange_kernel_trace_states, evaluations }, p3))
    }
}

/// One wire region read at `pos`: a 16-bit little-endian length prefix
/// followed by that many raw bytes.
pub open spec fn spec_read_region(bytes: Seq<u8>, pos: int) -> Result<
    (Seq<u8>, int),
    DeserializationError,
> {
    if bytes.len() - pos < 2 {
        Err(DeserializationError::UnexpectedEof)
    } else {
        let n = spec_u16_from_le_bytes(bytes.subrange(pos, pos + 2)) as int;
        if bytes.len() - pos - 2 < n {
            Err(DeserializationError::UnexpectedEof)
        } else {
            Ok((bytes.subrange(pos + 2, pos + 2 + n), pos + 2 + n))
        }
    }
}

/// Appends one region in wire form: its 16-bit length prefix, then its bytes.
fn append_region(target: &mut Vec<u8>, region: &Vec<u8>)
    requires
        region@.len() <= u16::MAX,
    ensures
        final(target)@ == old(target)@ + spec_u16_to_le_bytes(region@.len() as u16) + region@,
{
    let mut prefix = vstd::bytes::u16_to_le_bytes(region.len() as u16);
    target.append(&mut prefix);
    let mut body = vstd::slice::slice_to_vec(region.as_slice());
    target.append(&mut body);
}

/// Reads one wire region at `pos`, exactly as `spec_read_region` describes.
fn read_region(bytes: &Vec<u8>, pos: usize) -> (r: Result<
    (Vec<u8>, usize),
    DeserializationError,
>)
    requires
        pos <= bytes@.len(),
    ensures
        match spec_read_region(bytes@, pos as int) {
            Ok((region, p)) => r is Ok && r->Ok_0.0@ == region && r->Ok_0.1 as int == p && p
                <= bytes@.len(),
            Err(e) => r == Err::<(Vec<u8>, usize), DeserializationError>(e),
        },
{
    if bytes.len() - pos < 2 {
        return Err(DeserializationError::UnexpectedEof);
    }
    let n = vstd::bytes::u16_from_le_bytes(
        vstd::slice::slice_subrange(bytes.as_slice(), pos, pos + 2),
    ) as usize;
    if bytes.len() - pos - 2 < n {
        return Err(DeserializationError::UnexpectedEof);
    }
    let region = vstd::slice::slice_to_vec(
        vstd::slice::slice_subrange(bytes.as_slice(), pos + 2, pos + 2 + n),
    );
    Ok((region, pos + 2 + n))
}

/// Round trip: a frame whose regions hold what `set_trace_states` and
/// `set_constraint_evaluations` wrote parses back to exactly the written
/// current row, next row, Lagrange sequence, and constraint evaluations,
/// for every split of the width into main and auxiliary parts.
pub proof fn lemma_ood_frame_round_trip(
    frame: OodFrame,
    cur: Seq<Felt>,
    nxt: Seq<Felt>,
    lagrange: Option<Seq<Felt>>,
    evals: Seq<Felt>,
    main_width: int,
    aux_width: int,
)
    requires
        cur.len() == nxt.len(),
        cur.len() == main_width + aux_width,
        0 < main_width,
        0 <= aux_width,
        main_width + aux_width <= 0x07FF_FFFF,
        0 < evals.len() <= 0x0FFF_FFFF,
        forall|j: int| 0 <= j < cur.len() ==> 0 <= (#[trigger] cur[j]).val() < MODULUS,
        forall|j: int| 0 <= j < nxt.len() ==> 0 <= (#[trigger] nxt[j]).val() < MODULUS,
        forall|j: int| 0 <= j < evals.len() ==> 0 <= (#[trigger] evals[j]).val() < MODULUS,
        match lagrange {
            Some(l) => 1 <= l.len() < 256 && forall|j: int|
                0 <= j < l.len() ==> 0 <= (#[trigger] l[j]).val() < MODULUS,
            None => true,
        },
        frame.trace_bytes() == seq![2u8] + felts_to_bytes(interleave(cur, nxt)),
        frame.lagrange_bytes() == seq![lagrange_len_of(lagrange) as u8] + felts_to_bytes(
            lagrange_seq_of(lagrange),
        ),
        frame.eval_bytes() == felts_to_bytes(evals),
    ensures
        frame.spec_parse(main_width, aux_width, evals.len() as int) == Ok::<
            (Seq<Felt>, Seq<Felt>, Option<Seq<Felt>>, Seq<Felt>),
            DeserializationError,
        >((cur, nxt, lagrange, evals)),
{
    let inter = interleave(cur, nxt);
    assert forall|j: int| 0 <= j < inter.len() implies 0 <= (#[trigger] inter[j]).val()
        < MODULUS by {
        if j % 2 == 0 {
            assert(inter[j] == cur[j / 2]);
        } else {
            assert(inter[j] == nxt[j / 2]);
        }
    }
    lemma_encode_decode(inter);
    assert(frame.trace_bytes()[0] == 2);
    assert(frame.trace_bytes().skip(1) =~= felts_to_bytes(inter));
    assert(inter.len() == 2 * (main_width + aux_width));
    let decoded = decoded_felts(frame.trace_bytes().skip(1), (2 * (main_width + aux_width)) as nat);
    assert(decoded == inter);
    let width = main_width + aux_width;
    assert(Seq::new(width as nat, |i: int| decoded[2 * i]) =~= cur) by {
        assert forall|i: int| 0 <= i < width implies decoded[2 * i] == cur[i] by {
            assert((2 * i) % 2 == 0 && (2 * i) / 2 == i);
        }
    }
    assert(Seq::new(width as nat, |i: int| decoded[2 * i + 1]) =~= nxt) by {
        assert forall|i: int| 0 <= i < width implies decoded[2 * i + 1] == nxt[i] by {
            assert((2 * i + 1) % 2 == 1 && (2 * i + 1) / 2 == i);
        }
    }
    let lag = lagrange_seq_of(lagrange);
    lemma_encode_decode(lag);
    assert(frame.lagrange_bytes()[0] == lagrange_len_of(lagrange) as u8);
    assert(frame.lagrange_bytes().skip(1) =~= felts_to_bytes(lag));
    assert(lagrange_len_of(lagrange) < 256);
    lemma_encode_decode(evals);
}

/// The length of an optional Lagrange sequence (0 when absent).
pub open spec fn lagrange_len_of(lagrange: Option<Seq<Felt>>) -> int {
    match lagrange {
        Some(l) => l.len() as int,
        None => 0,
    }
}

/// An optional Lagrange sequence, or empty when absent.
pub open spec fn lagrange_seq_of(lagrange: Option<Seq<Felt>>) -> Seq<Felt> {
    match lagrange {
        Some(l) => l,
        None => Seq::empty(),
    }
}

} // verus!
