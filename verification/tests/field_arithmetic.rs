//! Field arithmetic through the library's element type.

use stark_verifier::felt::{Felt, MODULUS};

#[test]
fn addition_and_subtraction() {
    let a = Felt::new(5);
    let b = Felt::new(7);
    assert_eq!(a.add(b).as_int(), 12);
    assert_eq!(b.sub(a).as_int(), 2);
    // subtraction wraps around the modulus
    assert_eq!(a.sub(b).as_int(), MODULUS - 2);
    assert_eq!(Felt::zero().sub(Felt::one()).as_int(), MODULUS - 1);
}

#[test]
fn multiplication_and_exponentiation() {
    let three = Felt::new(3);
    assert_eq!(three.mul(three).as_int(), 9);
    assert_eq!(three.exp(4).as_int(), 81);
    assert_eq!(three.exp(0).as_int(), 1);
    // values reduce modulo the field order
    let big = Felt::new(MODULUS - 1);
    assert_eq!(big.add(Felt::new(2)).as_int(), 1);
    assert_eq!(big.mul(big).as_int(), 1);
}

#[test]
fn inversion_and_division() {
    let two = Felt::new(2);
    let inv = two.inv();
    assert_eq!(two.mul(inv).as_int(), 1);
    // division is multiplication by the inverse
    let a = Felt::new(10);
    assert_eq!(a.div(two).as_int(), 5);
    // zero maps to zero
    assert_eq!(Felt::zero().inv().as_int(), 0);
}

#[test]
fn construction_reduces() {
    assert_eq!(Felt::new(MODULUS).as_int(), 0);
    assert_eq!(Felt::new(MODULUS + 3).as_int(), 3);
}

#[test]
fn root_of_unity_has_the_right_order() {
    let g = stark_verifier::felt::root_of_unity(3);
    // the generator of the order-8 subgroup: g^8 == 1 and g^4 != 1
    assert_eq!(g.exp(8).as_int(), 1);
    assert_ne!(g.exp(4).as_int(), 1);
}

#[test]
fn polynomial_evaluation() {
    // 1 + 2x + 3x^2 at x = 2: 1 + 4 + 12 = 17
    let p = vec![Felt::new(1), Felt::new(2), Felt::new(3)];
    let r = stark_verifier::evaluator::evaluate_polynomial(&p, Felt::new(2));
    assert_eq!(r.as_int(), 17);
    // the zero polynomial evaluates to zero
    let empty: Vec<Felt> = Vec::new();
    assert_eq!(stark_verifier::evaluator::evaluate_polynomial(&empty, Felt::new(9)).as_int(), 0);
}

#[test]
fn log2_of_powers_of_two() {
    assert_eq!(stark_verifier::felt::log2_exact(8), 3);
    assert_eq!(stark_verifier::felt::log2_exact(1024), 10);
    assert_eq!(stark_verifier::felt::log2_exact(1), 0);
}
