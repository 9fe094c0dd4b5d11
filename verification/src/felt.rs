//! Elements of the 62-bit prime field with modulus 2^62 - 111 * 2^39 + 1.
//!
//! All protocol arithmetic happens in this field. The arithmetic itself is
//! performed by the `winter-math` crate; this module wraps each operation and
//! states its result over the canonical integer representation, so that the
//! rest of the library can reason about field values as integers below the
//! modulus.

use vstd::prelude::*;

verus! {

use winter_math::FieldElement;
use winter_math::StarkField;
use vstd::arithmetic::power2::pow2;

/// Field modulus: 2^62 - 111 * 2^39 + 1.
pub const MODULUS: u64 = 4611624995532046337;

/// The 2^39-th root of unity of the field (all multiplicative subgroups used
/// by the protocol are generated from powers of this value).
pub const TWO_ADIC_ROOT: u64 = 4421547261963328785;

/// Multiplicative generator of the field; also used as the offset of the
/// low-degree-extension domain.
pub const FIELD_GENERATOR: u64 = 3;

/// Field addition over canonical representatives.
pub open spec fn fadd(a: int, b: int) -> int {
    (a + b) % (MODULUS as int)
}

/// Field subtraction over canonical representatives.
pub open spec fn fsub(a: int, b: int) -> int {
    (a - b) % (MODULUS as int)
}

/// Field multiplication over canonical representatives.
pub open spec fn fmul(a: int, b: int) -> int {
    (a * b) % (MODULUS as int)
}

/// Field exponentiation: `b` raised to the power `e`, reduced.
pub open spec fn fpow(b: int, e: nat) -> int
    decreases e,
{
    if e == 0 {
        1int
    } else {
        fmul(fpow(b, (e - 1) as nat), b)
    }
}

/// Multiplicative inverse as the field computes it: b^(MODULUS - 2).
/// (For b == 0 this yields 0.)
pub open spec fn finv(b: int) -> int {
    fpow(b, (MODULUS - 2) as nat)
}

/// Field division: a * b^(MODULUS - 2).
pub open spec fn fdiv(a: int, b: int) -> int {
    fmul(a, finv(b))
}

/// Relies on `winter_math::fields::f62::BaseElement`: addition of two field
/// elements; `new` reduces the input and `as_int` returns the canonical
/// representative.
#[verifier::external_body]
fn raw_add(a: u64, b: u64) -> (r: u64)
    requires
        a < MODULUS,
        b < MODULUS,
    ensures
        r < MODULUS,
        r == fadd(a as int, b as int),
{
    (winter_math::fields::f62::BaseElement::new(a) + winter_math::fields::f62::BaseElement::new(b))
        .as_int()
}

/// Relies on `winter_math::fields::f62::BaseElement`: field subtraction.
#[verifier::external_body]
fn raw_sub(a: u64, b: u64) -> (r: u64)
    requires
        a < MODULUS,
        b < MODULUS,
    ensures
        r < MODULUS,
        r == fsub(a as int, b as int),
{
    (winter_math::fields::f62::BaseElement::new(a) - winter_math::fields::f62::BaseElement::new(b))
        .as_int()
}

/// Relies on `winter_math::fields::f62::BaseElement`: field multiplication.
#[verifier::external_body]
fn raw_mul(a: u64, b: u64) -> (r: u64)
    requires
        a < MODULUS,
        b < MODULUS,
    ensures
        r < MODULUS,
        r == fmul(a as int, b as int),
{
    (winter_math::fields::f62::BaseElement::new(a) * winter_math::fields::f62::BaseElement::new(b))
        .as_int()
}

/// Relies on `winter_math::fields::f62::BaseElement::inv`: the
/// multiplicative inverse, with zero mapping to zero. For a non-zero
/// element the inverse equals base^(MODULUS - 2) by Fermat's little
/// theorem, and zero^(MODULUS - 2) is zero as well, so the stated power
/// describes both cases.
#[verifier::external_body]
fn raw_inv(a: u64) -> (r: u64)
    requires
        a < MODULUS,
    ensures
        r < MODULUS,
        r == finv(a as int),
{
    winter_math::fields::f62::BaseElement::new(a).inv().as_int()
}

/// Relies on `winter_math::fields::f62::BaseElement::exp`: raises a field
/// element to the given power.
#[verifier::external_body]
fn raw_exp(a: u64, e: u64) -> (r: u64)
    requires
        a < MODULUS,
    ensures
        r < MODULUS,
        r == fpow(a as int, e as nat),
{
    winter_math::fields::f62::BaseElement::new(a).exp(e).as_int()
}

/// A field element held as its canonical integer representative.
#[derive(Clone, Copy, PartialEq, Eq, Structural, Debug)]
pub struct Felt {
    v: u64,
}

/// The base-2 logarithm of a power of two.
pub open spec fn spec_log2(n: nat) -> nat {
    choose|k: nat| pow2(k) == n
}

/// `spec_log2` inverts `pow2`.
pub proof fn lemma_log2_pow2(k: nat)
    ensures
        spec_log2(pow2(k)) == k,
{
    let k2 = choose|j: nat| pow2(j) == pow2(k);
    if k2 < k {
        vstd::arithmetic::power2::lemma_pow2_strictly_increases(k2, k);
    } else if k2 > k {
        vstd::arithmetic::power2::lemma_pow2_strictly_increases(k, k2);
    }
}

/// Computes the base-2 logarithm of a power of two.
pub fn log2_exact(n: usize) -> (r: u32)
    requires
        exists|k: nat| n == pow2(k),
        1 <= n <= 0x8000_0000,
    ensures
        n == pow2(r as nat),
        r as nat == spec_log2(n as nat),
        r <= 31,
{
    let ghost k0 = choose|k: nat| n == pow2(k);
    proof {
        vstd::arithmetic::power2::lemma2_to64();
        if k0 > 31 {
            vstd::arithmetic::power2::lemma_pow2_strictly_increases(31, k0);
        }
    }
    let mut m = n;
    let mut r: u32 = 0;
    let ghost mut km: nat = k0;
    while m > 1
        invariant
            m == pow2(km),
            km + r == k0,
            k0 <= 31,
            n == pow2(k0),
        decreases m,
    {
        proof {
            vstd::arithmetic::power2::lemma2_to64();
            assert(km != 0);
            vstd::arithmetic::power2::lemma_pow2_unfold(km);
            km = (km - 1) as nat;
        }
        m = m / 2;
        r = r + 1;
    }
    proof {
        if km > 0 {
            vstd::arithmetic::power2::lemma_pow2_strictly_increases(0, km);
        }
        assert(km == 0);
        lemma_log2_pow2(k0);
    }
    r
}

/// Relies on `winter_math::StarkField::get_root_of_unity`: the generator of
/// the multiplicative subgroup of order 2^n, computed as the 2^39-th root of
/// unity raised to the power 2^(39 - n).
#[verifier::external_body]
pub fn root_of_unity(log_n: u32) -> (r: Felt)
    requires
        1 <= log_n <= 39,
    ensures
        r.val() == fpow(TWO_ADIC_ROOT as int, pow2((39 - log_n) as nat)),
{
    Felt::from_reduced(winter_math::fields::f62::BaseElement::get_root_of_unity(log_n).as_int())
}

/// The canonical representatives of a sequence of field elements.
pub open spec fn spec_felt_vals(s: Seq<Felt>) -> Seq<u64> {
    s.map_values(|f: Felt| f.val() as u64)
}

/// The field elements with the given canonical representatives.
pub open spec fn spec_felts_of(vals: Seq<u64>) -> Seq<Felt> {
    vals.map_values(|v: u64| felt_of(v as int))
}

/// The field element with the given canonical representative (spec level).
pub closed spec fn felt_of(v: int) -> Felt {
    Felt { v: v as u64 }
}

/// `felt_of` and `val` are inverse on reduced representatives.
pub proof fn lemma_felt_of_val(v: int)
    requires
        0 <= v < MODULUS,
    ensures
        felt_of(v).val() == v,
{
}

/// Every element is recovered from its representative.
pub proof fn lemma_felt_of_roundtrip(f: Felt)
    requires
        0 <= f.val() < MODULUS,
    ensures
        felt_of(f.val()) == f,
{
}

impl Felt {
    /// The canonical integer representative of this element.
    pub closed spec fn val(self) -> int {
        self.v as int
    }

    #[verifier::type_invariant]
    spec fn type_inv(self) -> bool {
        self.v < MODULUS
    }

    /// The additive identity.
    pub fn zero() -> (r: Felt)
        ensures
            r.val() == 0,
    {
        Felt { v: 0 }
    }

    /// The multiplicative identity.
    pub fn one() -> (r: Felt)
        ensures
            r.val() == 1,
    {
        Felt { v: 1 }
    }

    /// Builds an element from an integer, reducing it into the field.
    pub fn new(value: u64) -> (r: Felt)
        ensures
            r.val() == value as int % (MODULUS as int),
    {
        Felt { v: value % MODULUS }
    }

    /// Wraps an integer already known to be reduced into the field.
    pub fn from_reduced(value: u64) -> (r: Felt)
        requires
            value < MODULUS,
        ensures
            r.val() == value,
    {
        Felt { v: value }
    }

    /// Returns the canonical integer representative.
    pub fn as_int(self) -> (r: u64)
        ensures
            r == self.val(),
            r < MODULUS,
    {
        proof {
            use_type_invariant(self);
        }
        self.v
    }

    /// Field addition.
    pub fn add(self, rhs: Felt) -> (r: Felt)
        ensures
            r.val() == fadd(self.val(), rhs.val()),
    {
        proof {
            use_type_invariant(self);
            use_type_invariant(rhs);
        }
        Felt { v: raw_add(self.v, rhs.v) }
    }

    /// Field subtraction.
    pub fn sub(self, rhs: Felt) -> (r: Felt)
        ensures
            r.val() == fsub(self.val(), rhs.val()),
    {
        proof {
            use_type_invariant(self);
            use_type_invariant(rhs);
        }
        Felt { v: raw_sub(self.v, rhs.v) }
    }

    /// Field multiplication.
    pub fn mul(self, rhs: Felt) -> (r: Felt)
        ensures
            r.val() == fmul(self.val(), rhs.val()),
    {
        proof {
            use_type_invariant(self);
            use_type_invariant(rhs);
        }
        Felt { v: raw_mul(self.v, rhs.v) }
    }

    /// Multiplicative inverse (0 maps to 0).
    pub fn inv(self) -> (r: Felt)
        ensures
            r.val() == finv(self.val()),
    {
        proof {
            use_type_invariant(self);
        }
        Felt { v: raw_inv(self.v) }
    }

    /// Field division.
    pub fn div(self, rhs: Felt) -> (r: Felt)
        ensures
            r.val() == fdiv(self.val(), rhs.val()),
    {
        proof {
            use_type_invariant(self);
            use_type_invariant(rhs);
        }
        let i = rhs.inv();
        self.mul(i)
    }

    /// Exponentiation by an integer power.
    pub fn exp(self, power: u64) -> (r: Felt)
        ensures
            r.val() == fpow(self.val(), power as nat),
    {
        proof {
            use_type_invariant(self);
        }
        Felt { v: raw_exp(self.v, power) }
    }
}

} // verus!
