//! A single round of an OPRF-based password-hardening protocol over
//! secp256k1: the password is mapped to a curve point, blinded with a
//! fresh random scalar, multiplied by an evaluator's secret scalar,
//! unblinded with the blind's modular inverse, and finally fed together
//! with the password into a memory-hard key derivation (Argon2i).
//!
//! Curve points and scalars are modelled by their discrete logarithm
//! (respectively their value) modulo the group order, so the contracts
//! state exactly how each step moves the recovered point, and that the
//! blinding scalar cancels out of the final key.

use vstd::prelude::*;

pub mod blinding;
pub mod evaluator;
pub mod group;
pub mod hashing;
pub mod kdf;

use crate::blinding::{blind, lemma_blind_evaluate_unblind, unblind};
use crate::evaluator::Evaluator;
use crate::group::{group_order, inverts, le_bytes_to_nat, random_scalar, GroupScalar};
use crate::hashing::{hash_point_log, hash_to_curve, sha3_of};
use crate::kdf::{derived_key_bytes, KdfParams};
use vstd::string::StringSliceAdditionalSpecFns;

verus! {

/// The failure taxonomy of the pipeline.
///
/// - `Configuration`: invalid memory-hardness parameters, raised before any
///   cryptographic work begins.
/// - `Arithmetic`: a non-invertible (zero) blinding scalar was encountered
///   during unblinding; indicates an RNG defect and is never masked.
/// - `Resource`: the memory-hard hashing step could not absorb its input.
#[derive(Clone, Copy, Debug, PartialEq, Eq, Structural)]
pub enum Error {
    Configuration,
    Arithmetic,
    Resource,
}

/// The key a protocol run recovers, as a function of the password bytes,
/// the evaluator's secret and the derivation costs alone: the blinding
/// scalar cancels out and leaves no trace in the result.
pub open spec fn hardened_key_bytes(
    password: Seq<u8>,
    evaluator_secret: nat,
    m_cost: u32,
    t_cost: u32,
    p_cost: u32,
) -> Seq<u8> {
    derived_key_bytes(
        password,
        (hash_point_log(password) * evaluator_secret) % group_order(),
        m_cost,
        t_cost,
        p_cost,
    )
}

/// One full protocol run with an explicit blind, evaluator and parameter
/// set: hash the password to a curve point, blind it, have the evaluator
/// apply its secret, unblind, and derive the key.
///
/// The contract pins the key to `hardened_key_bytes`, which does not
/// mention the blind: with the evaluator held fixed, any two runs over the
/// same password and parameters recover the same key, whatever blinds they
/// drew. A zero blind is rejected as `Error::Arithmetic`; a password too
/// long for the memory-hard hash as `Error::Resource`.
pub fn generate_password_with(
    master_password: &str,
    blinding: &GroupScalar,
    evaluator: &Evaluator,
    params: &KdfParams,
) -> (r: Result<[u8; 32], Error>)
    requires
        params.valid(),
    ensures
        blinding.value() == 0 ==> (r matches Err(e) && e == Error::Arithmetic),
        blinding.value() != 0 && master_password.spec_bytes().len() + 65 <= 0xFFFF_FFFF
            ==> r is Ok,
        r matches Ok(key) ==> key@ == hardened_key_bytes(
            master_password.spec_bytes(),
            evaluator.secret_value(),
            params.m_cost(),
            params.t_cost(),
            params.p_cost(),
        ),
        r matches Err(e) ==> (e == Error::Arithmetic && blinding.value() == 0) || (e
            == Error::Resource && master_password.spec_bytes().len() + 65 > 0xFFFF_FFFF),
{
    let password = master_password.as_bytes();
    let point = hash_to_curve(password);
    let alpha = blind(&point, blinding);
    let beta = evaluator.evaluate(&alpha);
    let rwd = match unblind(&beta, blinding) {
        Ok(p) => p,
        Err(e) => {
            return Err(e);
        },
    };
    proof {
        let n = group_order();
        let x = hash_point_log(password@);
        let b = blinding.value();
        let k = evaluator.secret_value();
        vstd::arithmetic::div_mod::lemma_mod_division_less_than_divisor(
            le_bytes_to_nat(sha3_of(password@)) as int,
            n as int,
        );
        let i = choose|i: nat| inverts(b, i) && rwd.dlog() == (beta.dlog() * i) % n;
        lemma_blind_evaluate_unblind(x, b, k, i);
        assert(rwd.dlog() == (x * k) % n);
    }
    kdf::derive_key(password, &rwd, params)
}

/// Derive a strengthened 32-byte key from the master password: one
/// independent protocol run with a freshly drawn blinding scalar, a fresh
/// evaluator secret, and the default derivation costs of 1024 KiB of
/// memory, one iteration and one lane.
///
/// The key is `hardened_key_bytes` of the password and whatever secret the
/// evaluator drew; since that secret is sampled per call here, two calls
/// with the same password yield different keys. `Error::Arithmetic` can
/// arise only from a zero blind — an RNG defect — and `Error::Resource`
/// only from a password beyond the memory-hard hash's input bound.
pub fn generate_password(master_password: String) -> (r: Result<[u8; 32], Error>)
    ensures
        r matches Ok(key) ==> exists|k: nat|
            k < group_order() && key@ == hardened_key_bytes(
                vstd::utf8::encode_utf8(master_password@),
                k,
                1024u32,
                1u32,
                1u32,
            ),
        r matches Err(e) ==> e == Error::Arithmetic || e == Error::Resource,
        (r matches Err(e) && e == Error::Resource) ==> vstd::utf8::encode_utf8(
            master_password@,
        ).len() + 65 > 0xFFFF_FFFF,
{
    let blinding = random_scalar();
    let evaluator = Evaluator::new();
    let params = KdfParams::default();
    generate_password_with(master_password.as_str(), &blinding, &evaluator, &params)
}

} // verus!
