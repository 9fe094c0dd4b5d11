//! Hash digests and the hash primitives behind the Fiat-Shamir transcript.
//!
//! The protocol treats a digest as an opaque 32-byte commitment identity. The
//! hash itself (BLAKE3, 256-bit output, via `winter-crypto`) is an external
//! primitive: each operation is wrapped and its result is stated as the hash
//! of an explicitly assembled byte sequence, so that the transcript logic can
//! be verified as a deterministic function of the absorbed data.

use vstd::prelude::*;
use crate::felt::Felt;

verus! {

use vstd::bytes::spec_u64_to_le_bytes;
use winter_crypto::Digest as WDigest;
use winter_crypto::ElementHasher;
use winter_crypto::Hasher;
use winter_crypto::hashers::Blake3_256;
use winter_math::fields::f62::BaseElement;
use winter_utils::Deserializable;

/// The 32-byte output of the BLAKE3 hash function on the given input bytes.
pub uninterp spec fn blake3_of(input: Seq<u8>) -> Seq<u8>;

/// The canonical little-endian byte encoding of one field element.
pub open spec fn felt_bytes(f: Felt) -> Seq<u8> {
    spec_u64_to_le_bytes(f.val() as u64)
}

/// The canonical byte encoding of a sequence of field elements.
pub open spec fn felts_to_bytes(s: Seq<Felt>) -> Seq<u8>
    decreases s.len(),
{
    if s.len() == 0 {
        Seq::empty()
    } else {
        felt_bytes(s[0]) + felts_to_bytes(s.skip(1))
    }
}

/// Appending one element extends the encoding by that element's bytes.
pub proof fn lemma_felts_to_bytes_push(s: Seq<Felt>, x: Felt)
    ensures
        felts_to_bytes(s.push(x)) == felts_to_bytes(s) + felt_bytes(x),
    decreases s.len(),
{
    let p = s.push(x);
    assert(felts_to_bytes(p) == felt_bytes(p[0]) + felts_to_bytes(p.skip(1)));
    if s.len() == 0 {
        assert(p[0] == x);
        assert(p.skip(1) =~= Seq::<Felt>::empty());
        assert(felts_to_bytes(Seq::<Felt>::empty()) == Seq::<u8>::empty());
        assert(felt_bytes(x) + Seq::<u8>::empty() =~= felt_bytes(x));
        assert(felts_to_bytes(s) + felt_bytes(x) =~= felt_bytes(x));
    } else {
        assert(p[0] == s[0]);
        assert(s.push(x).skip(1) =~= s.skip(1).push(x));
        lemma_felts_to_bytes_push(s.skip(1), x);
        assert(felts_to_bytes(s.push(x)) =~= felts_to_bytes(s) + felt_bytes(x));
    }
}

/// The encoding of `n` elements takes exactly `8 * n` bytes.
pub proof fn lemma_felts_to_bytes_len(s: Seq<Felt>)
    ensures
        felts_to_bytes(s).len() == 8 * s.len(),
    decreases s.len(),
{
    vstd::bytes::lemma_auto_spec_u64_to_from_le_bytes();
    if s.len() > 0 {
        lemma_felts_to_bytes_len(s.skip(1));
    }
}

/// A 32-byte hash digest, the binding identity of a commitment.
#[derive(Debug, PartialEq, Eq)]
pub struct Digest {
    bytes: Vec<u8>,
}

impl View for Digest {
    type V = Seq<u8>;

    closed spec fn view(&self) -> Seq<u8> {
        self.bytes@
    }
}

impl Clone for Digest {
    fn clone(&self) -> (r: Self)
        ensures
            r@ == self@,
    {
        proof {
            use_type_invariant(self);
        }
        let copied: Vec<u8> = self.bytes.clone();
        Digest { bytes: copied }
    }
}

impl Digest {
    #[verifier::type_invariant]
    spec fn type_inv(self) -> bool {
        self.bytes@.len() == 32
    }

    /// Wraps 32 raw bytes as a digest.
    pub fn new(bytes: Vec<u8>) -> (r: Digest)
        requires
            bytes@.len() == 32,
        ensures
            r@ == bytes@,
    {
        Digest { bytes }
    }

    /// The digest's bytes.
    pub fn as_bytes(&self) -> (r: &Vec<u8>)
        ensures
            r@ == self@,
            r@.len() == 32,
    {
        proof {
            use_type_invariant(self);
        }
        &self.bytes
    }
}

/// Relies on `winter_crypto::hashers::Blake3_256::hash_elements`: hashes the
/// canonical little-endian byte serialization of the elements with BLAKE3.
#[verifier::external_body]
pub fn hash_felts(elements: &Vec<Felt>) -> (r: Digest)
    ensures
        r@ == blake3_of(felts_to_bytes(elements@)),
        r@.len() == 32,
{
    let elems: Vec<BaseElement> = elements.iter().map(|f| BaseElement::new(f.as_int())).collect();
    let d = Blake3_256::hash_elements(&elems);
    Digest { bytes: d.as_bytes().to_vec() }
}

/// Relies on `winter_crypto::hashers::Blake3_256::merge`: hashes the
/// concatenation of two 32-byte digests with BLAKE3.
#[verifier::external_body]
pub fn merge(a: &Digest, b: &Digest) -> (r: Digest)
    ensures
        r@ == blake3_of(a@ + b@),
        r@.len() == 32,
{
    let da = Deserializable::read_from_bytes(&a.bytes).unwrap();
    let db = Deserializable::read_from_bytes(&b.bytes).unwrap();
    let d = Blake3_256::<BaseElement>::merge(&[da, db]);
    Digest { bytes: d.as_bytes().to_vec() }
}

/// Relies on `winter_crypto::hashers::Blake3_256::merge_with_int`: hashes the
/// digest followed by the little-endian bytes of the integer with BLAKE3.
#[verifier::external_body]
pub fn merge_with_int(seed: &Digest, value: u64) -> (r: Digest)
    ensures
        r@ == blake3_of(seed@ + spec_u64_to_le_bytes(value)),
        r@.len() == 32,
{
    let ds = Deserializable::read_from_bytes(&seed.bytes).unwrap();
    let d = Blake3_256::<BaseElement>::merge_with_int(ds, value);
    Digest { bytes: d.as_bytes().to_vec() }
}

} // verus!
