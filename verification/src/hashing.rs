//! Hash-to-curve: a deterministic map from password bytes to a point on
//! the prime-order group.
//!
//! The construction is simplified "hash-then-multiply": a SHA3-256 digest
//! of the password, reduced modulo the group order, times the fixed base
//! point. It is deterministic and total, but it is not a constant-time,
//! indistinguishable-from-random hash-to-curve suite; callers needing
//! resistance to point-distinguishing attacks must upgrade to a
//! standardized method.

use sha3::{Digest, Sha3_256};
use vstd::prelude::*;

use crate::group::{
    base_mul, group_order, into_scalar, le_bytes_to_nat, point_encoding, CurvePoint,
};

verus! {

/// The SHA3-256 digest of `input`: 32 bytes, a function of the input alone.
pub uninterp spec fn sha3_of(input: Seq<u8>) -> Seq<u8>;

/// Relies on sha3's `Sha3_256`: a 32-byte digest that depends on the input
/// bytes alone.
#[verifier::external_body]
pub(crate) fn sha3_256(input: &[u8]) -> (r: [u8; 32])
    ensures
        r@ == sha3_of(input@),
{
    let mut hasher = Sha3_256::new();
    hasher.update(input);
    hasher.finalize().into()
}

/// The discrete logarithm of the password's curve point: the little-endian
/// value of the password's SHA3-256 digest, reduced modulo the group order.
pub open spec fn hash_point_log(password: Seq<u8>) -> nat {
    le_bytes_to_nat(sha3_of(password)) % group_order()
}

/// Map a password to a curve point: digest, reduce, multiply the base
/// point. A pure function of the password bytes; total for any length.
pub fn hash_to_curve(password: &[u8]) -> (r: CurvePoint)
    ensures
        r.dlog() == hash_point_log(password@),
{
    let digest = sha3_256(password);
    let scalar = into_scalar(&digest);
    base_mul(&scalar)
}

/// Determinism of hash-to-curve: any two points whose discrete logarithms
/// were obtained by hashing the same password agree, down to their
/// serialized form.
pub proof fn lemma_hash_to_curve_deterministic(password: Seq<u8>, p: CurvePoint, q: CurvePoint)
    requires
        p.dlog() == hash_point_log(password),
        q.dlog() == hash_point_log(password),
    ensures
        p.dlog() == q.dlog(),
        point_encoding(p.dlog()) == point_encoding(q.dlog()),
{
}

} // verus!
