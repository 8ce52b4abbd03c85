//! End-to-end tests of the hash-to-curve, blind/evaluate/unblind and
//! key-generation pipeline, run against the real k256, sha3 and argon2
//! crates.

use oprf::blinding::{blind, unblind};
use oprf::evaluator::Evaluator;
use oprf::generate_password;
use oprf::generate_password_with;
use oprf::group::{into_scalar, point_bytes, random_scalar};
use oprf::hashing::hash_to_curve;
use oprf::kdf::KdfParams;
use oprf::Error;

use k256::elliptic_curve::ops::Reduce;
use k256::elliptic_curve::sec1::ToEncodedPoint;
use sha3::{Digest, Sha3_256};

#[test]
fn hash_to_curve_matches_direct_computation() {
    let pwd = b"differential";
    let digest: [u8; 32] = Sha3_256::digest(pwd).into();
    let scalar = <k256::Scalar as Reduce<k256::U256>>::reduce(k256::U256::from_le_slice(&digest));
    let expected = (k256::ProjectivePoint::GENERATOR * scalar).to_encoded_point(false);
    assert_eq!(point_bytes(&hash_to_curve(pwd)), expected.as_bytes().to_vec());
}

#[test]
fn hash_to_curve_is_deterministic() {
    let p = hash_to_curve(b"correct horse battery staple");
    let q = hash_to_curve(b"correct horse battery staple");
    assert_eq!(point_bytes(&p), point_bytes(&q));
}

#[test]
fn hash_to_curve_distinguishes_passwords() {
    let p = hash_to_curve(b"password-one");
    let q = hash_to_curve(b"password-two");
    assert_ne!(point_bytes(&p), point_bytes(&q));
}

#[test]
fn hash_to_curve_point_is_uncompressed_sec1() {
    let enc = point_bytes(&hash_to_curve(b"some password"));
    assert_eq!(enc.len(), 65);
    assert_eq!(enc[0], 0x04);
}

#[test]
fn unblind_inverts_blind() {
    let x = hash_to_curve(b"round trip");
    let b = random_scalar();
    let alpha = blind(&x, &b);
    let recovered = unblind(&alpha, &b).unwrap();
    assert_eq!(point_bytes(&recovered), point_bytes(&x));
}

#[test]
fn blinding_by_one_is_identity() {
    let x = hash_to_curve(b"identity blind");
    let mut one = [0u8; 32];
    one[0] = 1;
    let s = into_scalar(&one);
    assert_eq!(point_bytes(&blind(&x, &s)), point_bytes(&x));
}

#[test]
fn recovered_point_is_independent_of_blind() {
    let x = hash_to_curve(b"oblivious");
    let evaluator = Evaluator::new();
    let b1 = random_scalar();
    let b2 = random_scalar();
    let r1 = unblind(&evaluator.evaluate(&blind(&x, &b1)), &b1).unwrap();
    let r2 = unblind(&evaluator.evaluate(&blind(&x, &b2)), &b2).unwrap();
    // Both recoveries equal the evaluator's secret applied to the bare point.
    let direct = evaluator.evaluate(&x);
    assert_eq!(point_bytes(&r1), point_bytes(&direct));
    assert_eq!(point_bytes(&r2), point_bytes(&direct));
}

#[test]
fn blinded_intermediates_differ_between_runs() {
    let x = hash_to_curve(b"same-password");
    let b1 = random_scalar();
    let b2 = random_scalar();
    assert_ne!(point_bytes(&blind(&x, &b1)), point_bytes(&blind(&x, &b2)));
}

#[test]
fn fixed_evaluator_gives_stable_key_across_blinds() {
    let evaluator = Evaluator::new();
    let params = KdfParams::default();
    let b1 = random_scalar();
    let b2 = random_scalar();
    let k1 = generate_password_with("same-password", &b1, &evaluator, &params).unwrap();
    let k2 = generate_password_with("same-password", &b2, &evaluator, &params).unwrap();
    assert_eq!(k1, k2);
}

#[test]
fn stable_secret_reproduces_the_key_deterministically() {
    // No randomness at all: fixed evaluator secret, two fixed distinct
    // blinds. The recovered key depends on neither blind.
    let mut secret = [0u8; 32];
    secret[0] = 7;
    let e1 = Evaluator::with_secret(into_scalar(&secret));
    let e2 = Evaluator::with_secret(into_scalar(&secret));
    let mut b1 = [0u8; 32];
    b1[0] = 3;
    let mut b2 = [0u8; 32];
    b2[0] = 5;
    let params = KdfParams::default();
    let k1 = generate_password_with("pw", &into_scalar(&b1), &e1, &params).unwrap();
    let k2 = generate_password_with("pw", &into_scalar(&b2), &e2, &params).unwrap();
    assert_eq!(k1, k2);
}

#[test]
fn fresh_evaluators_give_different_keys() {
    // This implementation samples the evaluator secret per call, so two
    // top-level runs over the same password disagree.
    let k1 = generate_password(String::from("same-password")).unwrap();
    let k2 = generate_password(String::from("same-password")).unwrap();
    assert_ne!(k1, k2);
}

#[test]
fn zero_blind_is_an_arithmetic_error() {
    let x = hash_to_curve(b"zero blind");
    let zero = into_scalar(&[0u8; 32]);
    assert!(matches!(unblind(&x, &zero), Err(Error::Arithmetic)));
    let evaluator = Evaluator::new();
    let params = KdfParams::default();
    let r = generate_password_with("pw", &zero, &evaluator, &params);
    assert_eq!(r, Err(Error::Arithmetic));
}

#[test]
fn empty_password_derives_a_key() {
    let key = generate_password(String::new()).unwrap();
    assert_eq!(key.len(), 32);
}

#[test]
fn very_long_password_derives_a_key() {
    let key = generate_password("x".repeat(10_000)).unwrap();
    assert_eq!(key.len(), 32);
}
