//! Tests of the memory-hardness parameter validation and of the key
//! derivation step.

use oprf::group::point_bytes;
use oprf::hashing::hash_to_curve;
use oprf::kdf::{derive_key, KdfParams};
use oprf::Error;

use sha3::{Digest, Sha3_256};

#[test]
fn derive_key_matches_direct_argon2() {
    let point = hash_to_curve(b"kat point");
    let key = derive_key(b"kat pwd", &point, &KdfParams::default()).unwrap();

    let mut input = b"kat pwd".to_vec();
    input.extend_from_slice(&point_bytes(&point));
    let salt: [u8; 32] = Sha3_256::digest(b"").into();
    let params = argon2::Params::new(1024, 1, 1, Some(32)).unwrap();
    let ctx = argon2::Argon2::new(argon2::Algorithm::Argon2i, argon2::Version::V0x13, params);
    let mut out = [0u8; 32];
    ctx.hash_password_into(&input, &salt, &mut out).unwrap();
    assert_eq!(key, out);
}

#[test]
fn zero_memory_cost_is_a_configuration_error() {
    assert_eq!(KdfParams::new(0, 1, 1).unwrap_err(), Error::Configuration);
}

#[test]
fn zero_iterations_is_a_configuration_error() {
    assert_eq!(KdfParams::new(1024, 0, 1).unwrap_err(), Error::Configuration);
}

#[test]
fn zero_lanes_is_a_configuration_error() {
    assert_eq!(KdfParams::new(1024, 1, 0).unwrap_err(), Error::Configuration);
}

#[test]
fn too_many_lanes_is_a_configuration_error() {
    assert_eq!(KdfParams::new(u32::MAX, 1, 0x1000000).unwrap_err(), Error::Configuration);
}

#[test]
fn memory_below_eight_blocks_per_lane_is_rejected() {
    assert_eq!(KdfParams::new(16, 1, 3).unwrap_err(), Error::Configuration);
}

#[test]
fn minimal_and_default_parameters_are_accepted() {
    assert!(KdfParams::new(8, 1, 1).is_ok());
    assert!(KdfParams::new(1024, 1, 1).is_ok());
}

#[test]
fn derive_key_is_deterministic() {
    let point = hash_to_curve(b"kdf input");
    let params = KdfParams::default();
    let k1 = derive_key(b"pw", &point, &params).unwrap();
    let k2 = derive_key(b"pw", &point, &params).unwrap();
    assert_eq!(k1, k2);
}

#[test]
fn derive_key_depends_on_password() {
    let point = hash_to_curve(b"kdf input");
    let params = KdfParams::default();
    let k1 = derive_key(b"pw-one", &point, &params).unwrap();
    let k2 = derive_key(b"pw-two", &point, &params).unwrap();
    assert_ne!(k1, k2);
}

#[test]
fn derive_key_depends_on_point() {
    let params = KdfParams::default();
    let k1 = derive_key(b"pw", &hash_to_curve(b"point-one"), &params).unwrap();
    let k2 = derive_key(b"pw", &hash_to_curve(b"point-two"), &params).unwrap();
    assert_ne!(k1, k2);
}

#[test]
fn derive_key_depends_on_costs() {
    let point = hash_to_curve(b"kdf input");
    let p1 = KdfParams::new(1024, 1, 1).unwrap();
    let p2 = KdfParams::new(2048, 1, 1).unwrap();
    let p3 = KdfParams::new(1024, 2, 1).unwrap();
    let k1 = derive_key(b"pw", &point, &p1).unwrap();
    let k2 = derive_key(b"pw", &point, &p2).unwrap();
    let k3 = derive_key(b"pw", &point, &p3).unwrap();
    assert_ne!(k1, k2);
    assert_ne!(k1, k3);
}
