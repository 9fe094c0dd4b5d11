//! The public coin: determinism, query-position ranges, and agreement with
//! the transcript implementation of the `winter-crypto` crate.

use stark_verifier::coin::PublicCoin;
use stark_verifier::digest::Digest;
use stark_verifier::felt::Felt;
use winter_crypto::hashers::Blake3_256;
use winter_crypto::{DefaultRandomCoin, RandomCoin};
use winter_math::fields::f62::BaseElement;
use winter_math::StarkField;

fn seed_elements() -> Vec<Felt> {
    vec![Felt::new(1), Felt::new(2), Felt::new(3), Felt::new(4)]
}

#[test]
fn coin_is_deterministic() {
    let mut coin1 = PublicCoin::new(&seed_elements());
    let mut coin2 = PublicCoin::new(&seed_elements());
    for _ in 0..5 {
        let a = coin1.draw().unwrap();
        let b = coin2.draw().unwrap();
        assert_eq!(a, b);
    }
    let commitment = Digest::new(vec![7u8; 32]);
    coin1.reseed(&commitment);
    coin2.reseed(&commitment);
    assert_eq!(coin1.draw().unwrap(), coin2.draw().unwrap());
    assert_eq!(coin1.check_leading_zeros(42), coin2.check_leading_zeros(42));
}

#[test]
fn coin_depends_on_seed_and_reseeds() {
    let mut coin1 = PublicCoin::new(&seed_elements());
    let mut coin2 = PublicCoin::new(&vec![Felt::new(2), Felt::new(3), Felt::new(4), Felt::new(5)]);
    assert_ne!(coin1.draw().unwrap(), coin2.draw().unwrap());

    let mut coin3 = PublicCoin::new(&seed_elements());
    let mut coin4 = PublicCoin::new(&seed_elements());
    coin4.reseed(&Digest::new(vec![9u8; 32]));
    assert_ne!(coin3.draw().unwrap(), coin4.draw().unwrap());
}

#[test]
fn drawn_integers_lie_in_range() {
    let mut coin = PublicCoin::new(&seed_elements());
    let values = coin.draw_integers(20, 64, 0).unwrap();
    assert_eq!(values.len(), 20);
    for value in values {
        assert!(value < 64);
    }
}

#[test]
fn drawn_integers_match_for_equal_states() {
    let mut coin1 = PublicCoin::new(&seed_elements());
    let mut coin2 = PublicCoin::new(&seed_elements());
    let v1 = coin1.draw_integers(16, 1024, 99).unwrap();
    let v2 = coin2.draw_integers(16, 1024, 99).unwrap();
    assert_eq!(v1, v2);
}

/// Folding a different nonce into the seed changes the drawn positions:
/// query positions cannot be kept while the nonce is altered.
#[test]
fn drawn_integers_depend_on_the_nonce() {
    let mut coin1 = PublicCoin::new(&seed_elements());
    let mut coin2 = PublicCoin::new(&seed_elements());
    let v1 = coin1.draw_integers(10, 1024, 5).unwrap();
    let v2 = coin2.draw_integers(10, 1024, 6).unwrap();
    assert_ne!(v1, v2);
}

/// The verified coin mirrors `DefaultRandomCoin` of `winter-crypto` exactly:
/// the same seed yields the same elements, grinding measures, and query
/// positions. This would fail if any hash wrapper mis-assembled its input.
#[test]
fn coin_matches_the_reference_transcript() {
    let reference_seed: Vec<BaseElement> = vec![
        BaseElement::new(1),
        BaseElement::new(2),
        BaseElement::new(3),
        BaseElement::new(4),
    ];
    let mut reference: DefaultRandomCoin<Blake3_256<BaseElement>> =
        DefaultRandomCoin::new(&reference_seed);
    let mut coin = PublicCoin::new(&seed_elements());

    for _ in 0..4 {
        let ours = coin.draw().unwrap();
        let theirs: BaseElement = reference.draw().unwrap();
        assert_eq!(ours.as_int(), theirs.as_int());
    }

    assert_eq!(coin.check_leading_zeros(1234), reference.check_leading_zeros(1234));

    let ours = coin.draw_integers(10, 256, 77).unwrap();
    let theirs = reference.draw_integers(10, 256, 77).unwrap();
    assert_eq!(ours, theirs);
}

/// Hashing is not the identity: the helpers produce fresh 32-byte digests.
#[test]
fn hash_wrappers_produce_fresh_digests() {
    let d1 = stark_verifier::digest::hash_felts(&vec![Felt::new(1)]);
    let d2 = stark_verifier::digest::hash_felts(&vec![Felt::new(2)]);
    assert_eq!(d1.as_bytes().len(), 32);
    assert_ne!(d1, d2);

    let m = stark_verifier::digest::merge(&d1, &d2);
    assert_ne!(m, d1);
    assert_ne!(m, d2);

    let mi = stark_verifier::digest::merge_with_int(&d1, 5);
    let mi2 = stark_verifier::digest::merge_with_int(&d1, 6);
    assert_ne!(mi, mi2);
    assert_ne!(mi, d1);
}
