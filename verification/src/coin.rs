//! The public coin: a Fiat-Shamir transcript.
//!
//! The coin holds a running hash state (a seed digest and a counter). It
//! absorbs commitments by reseeding and emits pseudo-random field elements
//! and query positions. Every emitted value is a pure function of the seed
//! and of the sequence of reseeds and draws performed so far — the transcript
//! discipline on which the protocol's soundness rests — and the contracts
//! below state each operation as exactly that function.

use vstd::prelude::*;
use crate::digest::{blake3_of, felts_to_bytes, hash_felts, merge, merge_with_int, Digest};
use crate::errors::RandomCoinError;
use crate::felt::{spec_felt_vals, spec_felts_of, Felt, MODULUS};

verus! {

use vstd::bytes::{spec_u64_from_le_bytes, spec_u64_to_le_bytes};
use vstd::std_specs::bits::u64_trailing_zeros;
use vstd::arithmetic::power2::pow2;

/// The 64-bit candidate value derived from a seed and a counter: the first
/// eight bytes, read little-endian, of hash(seed || counter).
pub open spec fn candidate_at(seed: Seq<u8>, counter: u64) -> u64 {
    spec_u64_from_le_bytes(blake3_of(seed + spec_u64_to_le_bytes(counter)).subrange(0, 8))
}

/// The seed obtained from the initial seed elements.
pub open spec fn spec_seed_of(elements: Seq<Felt>) -> Seq<u8> {
    blake3_of(felts_to_bytes(elements))
}

/// The seed after absorbing a digest: hash(seed || data).
pub open spec fn spec_reseed(seed: Seq<u8>, data: Seq<u8>) -> Seq<u8> {
    blake3_of(seed + data)
}

/// The seed after absorbing an integer: hash(seed || value).
pub open spec fn spec_reseed_with_int(seed: Seq<u8>, value: u64) -> Seq<u8> {
    blake3_of(seed + spec_u64_to_le_bytes(value))
}

/// The result of drawing one field element with the given amount of tries
/// left: the drawn candidate (if any try produces a value inside the field)
/// and the counter after the draw.
pub open spec fn spec_draw_from(seed: Seq<u8>, counter: u64, fuel: nat) -> (Option<u64>, u64)
    decreases fuel,
{
    if fuel == 0 || counter >= u64::MAX {
        (None::<u64>, counter)
    } else {
        let next = (counter + 1) as u64;
        let cand = candidate_at(seed, next);
        if cand < MODULUS {
            (Some(cand), next)
        } else {
            spec_draw_from(seed, next, (fuel - 1) as nat)
        }
    }
}

/// The result of drawing one field element: up to 1000 candidates are tried.
pub open spec fn spec_draw(seed: Seq<u8>, counter: u64) -> (Option<u64>, u64) {
    spec_draw_from(seed, counter, 1000)
}

/// The result of drawing `count` field elements in sequence: the drawn
/// values (when every draw finds a candidate within its tries) and the
/// counter after the last draw.
pub open spec fn spec_draw_seq(seed: Seq<u8>, counter: u64, count: nat) -> (
    Option<Seq<u64>>,
    u64,
)
    decreases count,
{
    if count == 0 {
        (Some(Seq::<u64>::empty()), counter)
    } else {
        let (first, c1) = spec_draw(seed, counter);
        match first {
            Some(v) => {
                let (rest, c2) = spec_draw_seq(seed, c1, (count - 1) as nat);
                match rest {
                    Some(vs) => (Some(seq![v] + vs), c2),
                    None => (None::<Seq<u64>>, c2),
                }
            },
            None => (None::<Seq<u64>>, c1),
        }
    }
}

/// A drawn candidate always lies inside the field.
pub proof fn lemma_spec_draw_from_bound(seed: Seq<u8>, counter: u64, fuel: nat)
    ensures
        ({
            let (res, c2) = spec_draw_from(seed, counter, fuel);
            res matches Some(v) ==> v < MODULUS
        }),
    decreases fuel,
{
    if fuel > 0 && counter < u64::MAX {
        let next = (counter + 1) as u64;
        if candidate_at(seed, next) >= MODULUS {
            lemma_spec_draw_from_bound(seed, next, (fuel - 1) as nat);
        }
    }
}

/// A drawn candidate always lies inside the field.
pub proof fn lemma_spec_draw_bound(seed: Seq<u8>, counter: u64)
    ensures
        ({
            let (res, c2) = spec_draw(seed, counter);
            res matches Some(v) ==> v < MODULUS
        }),
{
    lemma_spec_draw_from_bound(seed, counter, 1000);
}

/// A successful draw sequence yields exactly `count` values.
pub proof fn lemma_spec_draw_seq_len(seed: Seq<u8>, counter: u64, count: nat)
    ensures
        ({
            let (res, c2) = spec_draw_seq(seed, counter, count);
            res matches Some(vs) ==> vs.len() == count
        }),
    decreases count,
{
    if count > 0 {
        let (first, c1) = spec_draw(seed, counter);
        if first is Some {
            lemma_spec_draw_seq_len(seed, c1, (count - 1) as nat);
        }
    }
}

/// The grinding measure of a nonce against a seed: the number of trailing
/// zero bits of the candidate value derived from the nonce.
pub open spec fn spec_check_leading_zeros(seed: Seq<u8>, value: u64) -> u32 {
    u64_trailing_zeros(candidate_at(seed, value))
}

/// Determinism of the transcript: every value the coin can emit is a pure
/// function of its seed and counter. Two coins in byte-identical states
/// produce the identical element draw, the identical grinding measure for
/// any nonce, and the identical candidate stream — reproducing a transcript
/// reproduces all of its randomness.
pub proof fn lemma_transcript_determinism(
    seed1: Seq<u8>,
    counter1: u64,
    seed2: Seq<u8>,
    counter2: u64,
    nonce: u64,
)
    requires
        seed1 == seed2,
        counter1 == counter2,
    ensures
        spec_draw(seed1, counter1) == spec_draw(seed2, counter2),
        spec_check_leading_zeros(seed1, nonce) == spec_check_leading_zeros(seed2, nonce),
        spec_reseed_with_int(seed1, nonce) == spec_reseed_with_int(seed2, nonce),
        forall|c: u64| candidate_at(seed1, c) == candidate_at(seed2, c),
{
}

/// A Fiat-Shamir transcript with a hash-chain state.
pub struct PublicCoin {
    seed: Digest,
    counter: u64,
}

impl PublicCoin {
    /// The current seed digest bytes.
    pub closed spec fn seed_bytes(&self) -> Seq<u8> {
        self.seed@
    }

    /// The current draw counter.
    pub closed spec fn counter(&self) -> u64 {
        self.counter
    }

    /// Creates a coin seeded with a hash of the given field elements.
    pub fn new(seed_elements: &Vec<Felt>) -> (r: PublicCoin)
        ensures
            r.seed_bytes() == spec_seed_of(seed_elements@),
            r.counter() == 0,
    {
        PublicCoin { seed: hash_felts(seed_elements), counter: 0 }
    }

    /// Absorbs a commitment digest: the seed becomes hash(seed || data) and
    /// the counter restarts.
    pub fn reseed(&mut self, data: &Digest)
        ensures
            final(self).seed_bytes() == spec_reseed(old(self).seed_bytes(), data@),
            final(self).counter() == 0,
    {
        let new_seed = merge(&self.seed, data);
        self.seed = new_seed;
        self.counter = 0;
    }

    /// Counts the trailing zero bits of hash(seed || value); used to enforce
    /// the proof-of-work gate before query positions are drawn.
    pub fn check_leading_zeros(&self, value: u64) -> (r: u32)
        ensures
            r == spec_check_leading_zeros(self.seed_bytes(), value),
    {
        let d = merge_with_int(&self.seed, value);
        let bytes = d.as_bytes();
        let head = vstd::bytes::u64_from_le_bytes(vstd::slice::slice_subrange(
            bytes.as_slice(),
            0,
            8,
        ));
        head.trailing_zeros()
    }

    /// Draws the next pseudo-random field element. Fails only if no candidate
    /// maps into the field after 1000 tries.
    pub fn draw(&mut self) -> (r: Result<Felt, RandomCoinError>)
        ensures
            final(self).seed_bytes() == old(self).seed_bytes(),
            ({
                let (res, end_counter) = spec_draw(old(self).seed_bytes(), old(self).counter());
                &&& final(self).counter() == end_counter
                &&& match r {
                    Ok(f) => res matches Some(v) && f.val() == v,
                    Err(e) => res is None && e == RandomCoinError::FailedToDrawFieldElement,
                }
            }),
    {
        let ghost seed0 = self.seed@;
        let ghost c0 = self.counter;
        let mut tries: u64 = 0;
        while tries < 1000
            invariant
                seed0 == old(self).seed_bytes(),
                c0 == old(self).counter(),
                self.seed@ == seed0,
                tries <= 1000,
                spec_draw_from(seed0, c0, 1000) == spec_draw_from(
                    seed0,
                    self.counter,
                    (1000 - tries) as nat,
                ),
            decreases 1000 - tries,
        {
            if self.counter == u64::MAX {
                return Err(RandomCoinError::FailedToDrawFieldElement);
            }
            self.counter = self.counter + 1;
            let d = merge_with_int(&self.seed, self.counter);
            let bytes = d.as_bytes();
            let head = vstd::bytes::u64_from_le_bytes(vstd::slice::slice_subrange(
                bytes.as_slice(),
                0,
                8,
            ));
            proof {
                assert(head == candidate_at(seed0, self.counter));
            }
            if head < MODULUS {
                return Ok(Felt::from_reduced(head));
            }
            tries = tries + 1;
        }
        Err(RandomCoinError::FailedToDrawFieldElement)
    }

    /// Draws `count` pseudo-random field elements in sequence: the result
    /// is exactly the draw sequence the coin's state determines, and the
    /// call fails exactly when one of those draws finds no candidate.
    #[verifier::loop_isolation(false)]
    pub fn draw_many(&mut self, count: usize) -> (r: Result<Vec<Felt>, RandomCoinError>)
        ensures
            final(self).seed_bytes() == old(self).seed_bytes(),
            ({
                let (res, end_counter) = spec_draw_seq(
                    old(self).seed_bytes(),
                    old(self).counter(),
                    count as nat,
                );
                &&& final(self).counter() == end_counter
                &&& (r is Ok <==> res is Some)
                &&& match r {
                    Ok(elements) => {
                        &&& elements@.len() == count
                        &&& res == Some(spec_felt_vals(elements@))
                        &&& res matches Some(vs) && elements@ == spec_felts_of(vs)
                    },
                    Err(e) => e == RandomCoinError::FailedToDrawFieldElement,
                }
            }),
    {
        let ghost seed0 = self.seed_bytes();
        let ghost c0 = self.counter();
        let mut elements: Vec<Felt> = Vec::new();
        let mut i: usize = 0;
        while i < count
            invariant
                i <= count,
                elements@.len() == i,
                self.seed_bytes() == seed0,
                elements@ == spec_felts_of(spec_felt_vals(elements@)),
                ({
                    let (res0, end0) = spec_draw_seq(seed0, c0, count as nat);
                    let (rest, endk) = spec_draw_seq(seed0, self.counter(), (count - i) as nat);
                    &&& end0 == endk
                    &&& match rest {
                        Some(vs) => res0 == Some(spec_felt_vals(elements@) + vs),
                        None => res0 is None,
                    }
                }),
            decreases count - i,
        {
            let ghost prefix = spec_felt_vals(elements@);
            let ghost counter_before = self.counter();
            match self.draw() {
                Ok(e) => {
                    elements.push(e);
                    proof {
                        // the drawn candidate lies inside the field, so the
                        // element round-trips through its representative
                        lemma_spec_draw_bound(seed0, counter_before);
                        assert(0 <= e.val() < MODULUS);
                        crate::felt::lemma_felt_of_roundtrip(e);
                        assert(spec_felt_vals(elements@) =~= prefix.push(e.val() as u64));
                        assert(elements@ =~= spec_felts_of(spec_felt_vals(elements@)));
                        let (rest2, _) = spec_draw_seq(
                            seed0,
                            self.counter(),
                            (count - i - 1) as nat,
                        );
                        match rest2 {
                            Some(vs2) => {
                                assert(prefix + (seq![e.val() as u64] + vs2) =~= prefix.push(
                                    e.val() as u64,
                                ) + vs2);
                            },
                            None => {},
                        }
                    }
                },
                Err(e) => {
                    return Err(e);
                },
            }
            i = i + 1;
        }
        proof {
            assert(spec_felt_vals(elements@) + Seq::<u64>::empty() =~= spec_felt_vals(
                elements@,
            ));
        }
        Ok(elements)
    }

    /// Draws `num_values` pseudo-random integers in `[0, domain_size)` after
    /// folding the proof-of-work nonce into the seed. `domain_size` must be a
    /// power of two and larger than `num_values`. Fails only if more than
    /// 1000 values are requested.
    pub fn draw_integers(
        &mut self,
        num_values: usize,
        domain_size: usize,
        nonce: u64,
    ) -> (r: Result<Vec<usize>, RandomCoinError>)
        requires
            exists|k: nat| domain_size == pow2(k),
            num_values < domain_size,
        ensures
            final(self).seed_bytes() == spec_reseed_with_int(old(self).seed_bytes(), nonce),
            match r {
                Ok(v) => {
                    &&& num_values <= 1000
                    &&& final(self).counter() == num_values
                    &&& v@.len() == num_values
                    &&& forall|i: int|
                        0 <= i < v@.len() ==> #[trigger] v@[i] == (candidate_at(
                            final(self).seed_bytes(),
                            (i + 1) as u64,
                        ) & (domain_size - 1) as u64) as usize
                    &&& forall|i: int| 0 <= i < v@.len() ==> #[trigger] v@[i] < domain_size
                },
                Err(e) => {
                    &&& num_values > 1000
                    &&& e == RandomCoinError::FailedToDrawIntegers
                    &&& final(self).counter() == 0
                },
            },
    {
        let new_seed = merge_with_int(&self.seed, nonce);
        self.seed = new_seed;
        self.counter = 0;
        if num_values > 1000 {
            return Err(RandomCoinError::FailedToDrawIntegers);
        }
        let ghost seed1 = self.seed@;
        let mask: u64 = (domain_size - 1) as u64;
        let mut values: Vec<usize> = Vec::new();
        while values.len() < num_values
            invariant
                seed1 == spec_reseed_with_int(old(self).seed_bytes(), nonce),
                self.seed@ == seed1,
                num_values <= 1000,
                num_values < domain_size,
                mask == (domain_size - 1) as u64,
                self.counter == values@.len(),
                values@.len() <= num_values,
                forall|i: int|
                    0 <= i < values@.len() ==> #[trigger] values@[i] == (candidate_at(
                        seed1,
                        (i + 1) as u64,
                    ) & mask) as usize,
                forall|i: int| 0 <= i < values@.len() ==> #[trigger] values@[i] < domain_size,
            decreases num_values - values@.len(),
        {
            self.counter = self.counter + 1;
            let d = merge_with_int(&self.seed, self.counter);
            let bytes = d.as_bytes();
            let head = vstd::bytes::u64_from_le_bytes(vstd::slice::slice_subrange(
                bytes.as_slice(),
                0,
                8,
            ));
            let masked = head & mask;
            proof {
                assert(head & mask <= mask) by (bit_vector);
            }
            values.push(masked as usize);
        }
        Ok(values)
    }
}

} // verus!
